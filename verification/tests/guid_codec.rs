use regex::Regex;
use safercom::error::IdentifierError;
use safercom::guid::{format_guid_parts, parse_guid_parts};

const FIXTURE: [u8; 16] = [
    0x33, 0x22, 0x11, 0x00, 0x55, 0x44, 0x77, 0x66, 0x88, 0x99, 0xAA, 0xBB, 0xCC, 0xDD, 0xEE, 0xFF,
];

/// Reads an identifier the way a pattern matcher and the integer routines of
/// the standard library do it. The pattern has to match the whole text.
fn read_with_pattern(text: &str) -> Option<[u8; 16]> {
    let re = Regex::new(
        "^([[:xdigit:]]{8})-([[:xdigit:]]{4})-([[:xdigit:]]{4})-([[:xdigit:]]{4})-([[:xdigit:]]{12})$",
    )
    .unwrap();
    let captures = re.captures(text)?;
    let data1 = u32::from_str_radix(&captures[1], 16).unwrap();
    let data2 = u16::from_str_radix(&captures[2], 16).unwrap();
    let data3 = u16::from_str_radix(&captures[3], 16).unwrap();
    let data4 = u16::from_str_radix(&captures[4], 16).unwrap();
    let data5 = u64::from_str_radix(&captures[5], 16).unwrap();
    let mut data = [0u8; 16];
    data[0..4].clone_from_slice(&data1.to_le_bytes());
    data[4..6].clone_from_slice(&data2.to_le_bytes());
    data[6..8].clone_from_slice(&data3.to_le_bytes());
    data[8..10].clone_from_slice(&data4.to_be_bytes());
    data[10..16].clone_from_slice(&data5.to_be_bytes()[2..8]);
    Some(data)
}

#[test]
fn parse_guid_parts_test() {
    let parts = parse_guid_parts("00112233-4455-6677-8899-aabbccddeeff").unwrap();
    assert_eq!(
        parts,
        [0x33, 0x22, 0x11, 0x00, 0x55, 0x44, 0x77, 0x66, 0x88, 0x99, 0xAA, 0xBB, 0xCC, 0xDD, 0xEE, 0xFF]
    );
}

#[test]
fn parse_rejects_text_without_an_identifier() {
    for text in [
        "not-a-guid",
        "00112233-4455-6677-8899",
        "",
        "00112233-4455-6677-8899-aabbccddeef",
        "00112233-4455-6677-8899_aabbccddeeff",
        "0011223g-4455-6677-8899-aabbccddeeff",
        "00112233-44556-677-8899-aabbccddeeff",
        "00112233445566778899aabbccddeeff",
        "00112233-4455-6677-8899-aabbccddee\u{ff46}f",
    ] {
        assert_eq!(parse_guid_parts(text), Err(IdentifierError::MalformedIdentifier), "{}", text);
    }
}

#[test]
fn parse_reads_upper_and_lower_case_alike() {
    assert_eq!(parse_guid_parts("00112233-4455-6677-8899-AABBCCDDEEFF"), Ok(FIXTURE));
    assert_eq!(parse_guid_parts("00112233-4455-6677-8899-AaBbCcDdEeFf"), Ok(FIXTURE));
}

#[test]
fn parse_rejects_text_around_the_identifier() {
    for text in [
        "0xd8f015c0-c278-11ce-a49e-444553540000",
        "{00112233-4455-6677-8899-aabbccddeeff}",
        " 00112233-4455-6677-8899-aabbccddeeff",
        "00112233-4455-6677-8899-aabbccddeeff ",
        "00112233-4455-6677-8899-aabbccddeeff\n",
        "\u{e9}t\u{e9} 00112233-4455-6677-8899-aabbccddeeff \u{1F600}",
    ] {
        assert_eq!(parse_guid_parts(text), Err(IdentifierError::MalformedIdentifier), "{}", text);
    }
}

#[test]
fn parse_rejects_a_group_that_is_too_long() {
    // One digit too many in the first group: this is no other identifier,
    // it is none.
    for text in [
        "100112233-4455-6677-8899-aabbccddeeff",
        "00112233-44556-6677-8899-aabbccddeeff",
        "00112233-4455-66778-8899-aabbccddeeff",
        "00112233-4455-6677-88990-aabbccddeeff",
        "00112233-4455-6677-8899-aabbccddeeff0",
        "ab00112233-4455-6677-8899-aabbccddeeff00",
    ] {
        assert_eq!(parse_guid_parts(text), Err(IdentifierError::MalformedIdentifier), "{}", text);
    }
}

#[test]
fn parse_rejects_two_identifiers_in_one_text() {
    let text = "00112233-4455-6677-8899-aabbccddeeff ffffffff-ffff-ffff-ffff-ffffffffffff";
    assert_eq!(parse_guid_parts(text), Err(IdentifierError::MalformedIdentifier));
}

#[test]
fn parse_lays_each_group_out_in_its_byte_order() {
    assert_eq!(
        parse_guid_parts("01000000-0000-0000-0000-000000000000").unwrap(),
        [0, 0, 0, 1, 0, 0, 0, 0, 0, 0, 0, 0, 0, 0, 0, 0]
    );
    assert_eq!(
        parse_guid_parts("00000000-0100-0000-0000-000000000000").unwrap(),
        [0, 0, 0, 0, 0, 1, 0, 0, 0, 0, 0, 0, 0, 0, 0, 0]
    );
    assert_eq!(
        parse_guid_parts("00000000-0000-0100-0000-000000000000").unwrap(),
        [0, 0, 0, 0, 0, 0, 0, 1, 0, 0, 0, 0, 0, 0, 0, 0]
    );
    assert_eq!(
        parse_guid_parts("00000000-0000-0000-0100-000000000000").unwrap(),
        [0, 0, 0, 0, 0, 0, 0, 0, 1, 0, 0, 0, 0, 0, 0, 0]
    );
    assert_eq!(
        parse_guid_parts("00000000-0000-0000-0000-010000000000").unwrap(),
        [0, 0, 0, 0, 0, 0, 0, 0, 0, 0, 1, 0, 0, 0, 0, 0]
    );
}

#[test]
fn parse_agrees_with_a_pattern_matcher() {
    let texts = [
        "00112233-4455-6677-8899-aabbccddeeff",
        "d8f015c0-c278-11ce-a49e-444553540000",
        "0xd8f015c0-c278-11ce-a49e-444553540000",
        "100112233-4455-6677-8899-aabbccddeeff",
        "13709620-C279-11CE-A49E-444553540000",
        "00000000-0000-0000-c000-000000000046",
        "FFFFFFFF-FFFF-FFFF-FFFF-FFFFFFFFFFFF",
        "x00020400-0000-0000-c000-000000000046-00020400-0000-0000-c000-000000000047",
        "1234567-00112233-4455-6677-8899-aabbccddeeff",
        "00112233-4455-6677-8899-aabbccddeef-00112233-4455-6677-8899-aabbccddeeff",
        "not-a-guid",
        "00112233-4455-6677-8899",
        "----------------------------------------",
        "\u{3b1}\u{3b2} deadbeef-dead-beef-dead-beefdeadbeef \u{3b3}",
        "00112233-4455-6677-8899-aabbccddee\u{ff46}f",
        "\u{661}0112233-4455-6677-8899-aabbccddeeff",
        "00112233\u{2010}4455-6677-8899-aabbccddeeff",
        "00112233-4455-6677-8899-aabbccddeeff\n",
        "00112233-4455-\n6677-8899-aabbccddeeff",
        "",
    ];
    for text in texts {
        assert_eq!(parse_guid_parts(text).ok(), read_with_pattern(text), "{}", text);
    }
}

#[test]
fn format_writes_the_canonical_form() {
    assert_eq!(format_guid_parts(&FIXTURE), "00112233-4455-6677-8899-aabbccddeeff");
    assert_eq!(format_guid_parts(&[0; 16]), "00000000-0000-0000-0000-000000000000");
    assert_eq!(
        format_guid_parts(&[0x0f, 0xf0, 0x09, 0x90, 0x0a, 0xa0, 0x01, 0x10, 0xff, 0x00, 0x7f, 0x80, 0xab, 0xcd, 0xef, 0x10]),
        "9009f00f-a00a-1001-ff00-7f80abcdef10"
    );
}

#[test]
fn parse_undoes_format() {
    let mut data = [0u8; 16];
    for round in 0..64u32 {
        for (i, byte) in data.iter_mut().enumerate() {
            *byte = (round.wrapping_mul(37).wrapping_add(i as u32 * 101) % 256) as u8;
        }
        assert_eq!(parse_guid_parts(&format_guid_parts(&data)), Ok(data));
    }
}

#[test]
fn parse_format_parse_is_parse() {
    for text in [
        "00112233-4455-6677-8899-aabbccddeeff",
        "d8f015c0-c278-11ce-a49e-444553540000",
        "13709620-C279-11CE-A49E-444553540000",
        "00020400-0000-0000-C000-000000000046",
    ] {
        let first = parse_guid_parts(text).unwrap();
        let again = parse_guid_parts(&format_guid_parts(&first)).unwrap();
        assert_eq!(again, first);
    }
}

#[test]
fn each_error_has_its_message() {
    assert_eq!(IdentifierError::MissingIdentifier.message(), "No IID parameter");
    assert_eq!(IdentifierError::ValueNotAString.message(), "value_not_a_string");
    assert_eq!(
        IdentifierError::MalformedIdentifier.message(),
        "GUID format '8-4-4-4-12' expected. eg.: '00112233-4455-6677-8899-aabbccddeeff'"
    );
}
