use module_loader::dataurl::{encode_as_percent_escaped_dataurl, encode_as_shortest_dataurl};

fn check(raw: &str, expected: &str) {
    let result = encode_as_percent_escaped_dataurl("text/plain", raw.as_bytes());
    assert!(result.is_some(), "Failed to encode {raw:?}");
    assert_eq!(result.unwrap(), expected, "Test failed for input {raw:?}");
}

#[test]
fn test_encode_data_url() {
    for i in 0..=0x7F {
        let always_escape = i == b'\t' || i == b'\r' || i == b'\n' || i == b'#';
        let trailing_escape = i <= 0x20 || i == b'#';

        let char_str = String::from_utf8(vec![i]).unwrap();

        if trailing_escape {
            check(&char_str, &format!("data:text/plain,%{i:02X}"));
            check(&format!("foo{char_str}"), &format!("data:text/plain,foo%{i:02X}"));
        } else {
            check(&char_str, &format!("data:text/plain,{char_str}"));
            check(&format!("foo{char_str}"), &format!("data:text/plain,foo{char_str}"));
        }

        if always_escape {
            check(&format!("{char_str}foo"), &format!("data:text/plain,%{i:02X}foo"));
        } else {
            check(&format!("{char_str}foo"), &format!("data:text/plain,{char_str}foo"));
        }
    }

    // Test leading vs. trailing
    check(" \t ", "data:text/plain, %09%20");
    check(" \n ", "data:text/plain, %0A%20");
    check(" \r ", "data:text/plain, %0D%20");
    check(" # ", "data:text/plain, %23%20");
    check("\x08#\x08", "data:text/plain,\x08%23%08");

    // Only "%" symbols that could form an escape need to be escaped
    check("%, %3, %33, %333", "data:text/plain,%, %3, %2533, %25333");
}

#[test]
fn test_shortest() {
    assert_eq!(
        encode_as_shortest_dataurl("text/plain", "\n\n\n\n\n".as_bytes()),
        "data:text/plain;base64,CgoKCgo="
    );
    assert_eq!(
        encode_as_shortest_dataurl("text/plain", "\n\n\n".as_bytes()),
        "data:text/plain,%0A%0A%0A"
    );
}

#[test]
fn test_base64_form_for_invalid_utf8() {
    assert!(encode_as_percent_escaped_dataurl("text/plain", &[0xFF, 0xFE]).is_none());
    assert_eq!(
        encode_as_shortest_dataurl("application/octet-stream", &[0xFF, 0xFE]),
        "data:application/octet-stream;base64,//4="
    );
}

#[test]
fn test_base64_padding_forms() {
    assert_eq!(
        encode_as_shortest_dataurl("text/plain", &[0xFF]),
        "data:text/plain;base64,/w=="
    );
    assert_eq!(
        encode_as_shortest_dataurl("text/plain", &[0xFF, 0xFF, 0xFF]),
        "data:text/plain;base64,////"
    );
}
