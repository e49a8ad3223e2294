use web_socket_server::ids::{parse_object_id, InvalidObjectId};

#[test]
fn parse_reads_hex_digits_of_either_case() {
    assert_eq!(parse_object_id("68d5e8d4829da666aece5f4c"), Ok(0x68d5e8d4829da666aece5f4cu128));
    assert_eq!(parse_object_id("68D5E8D4829DA666AECE5F4C"), Ok(0x68d5e8d4829da666aece5f4cu128));
}

#[test]
fn parse_refuses_what_is_no_id() {
    assert_eq!(parse_object_id("68d5e8d4829da666aece5f4"), Err(InvalidObjectId));
    assert_eq!(parse_object_id("68d5e8d4829da666aece5f4cc"), Err(InvalidObjectId));
    assert_eq!(parse_object_id("zzd5e8d4829da666aece5f4c"), Err(InvalidObjectId));
    assert_eq!(parse_object_id(""), Err(InvalidObjectId));
}

#[test]
fn the_text_of_an_id_reads_back_as_the_id() {
    for id in [0u128, 1, 0xabcdef, 0x68d5e8d4829da666aece5f4cu128, (1u128 << 96) - 1] {
        assert_eq!(parse_object_id(&web_socket_server::object_id_to_hex(id)), Ok(id));
    }
}

#[test]
fn parse_refuses_characters_that_are_no_ascii_digits() {
    assert_eq!(parse_object_id("68d5e8d4829da666aece5f4\u{0663}"), Err(InvalidObjectId));
    assert_eq!(parse_object_id("\u{00e9}\u{00e9}\u{00e9}\u{00e9}\u{00e9}\u{00e9}\u{00e9}\u{00e9}\u{00e9}\u{00e9}\u{00e9}\u{00e9}"), Err(InvalidObjectId));
    assert_eq!(parse_object_id("68d5e8d4829da666aece5f4g"), Err(InvalidObjectId));
    assert_eq!(parse_object_id(" 8d5e8d4829da666aece5f4c"), Err(InvalidObjectId));
}
