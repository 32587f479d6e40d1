use tape_machine::parser::{
    parse, parse_with, unparse, Symbol, UnknownBytePolicy, UnknownSymbolError,
};

#[test]
fn it_parses() {
    let code = "+-><[],.";
    let parsed_code = vec![
        Symbol::ValueIncrement,
        Symbol::ValueDecrement,
        Symbol::PointerIncrement,
        Symbol::PointerDecrement,
        Symbol::ForwardJump,
        Symbol::BackwardJump,
        Symbol::GetCharacter,
        Symbol::PutCharacter,
    ];
    let value = parse(code.as_bytes());
    assert!(value.is_ok());
    assert_eq!(value.unwrap(), parsed_code);

    let code = "";
    let parsed_code: Vec<Symbol> = vec![];
    let value = parse(code.as_bytes());
    assert!(value.is_ok());
    assert_eq!(value.unwrap(), parsed_code);
}

#[test]
fn empty_source_is_empty_under_both_policies() {
    assert_eq!(parse_with(b"", UnknownBytePolicy::Skip), Ok(vec![]));
    assert_eq!(parse_with(b"", UnknownBytePolicy::Reject), Ok(vec![]));
}

#[test]
fn skip_policy_passes_over_comments() {
    let value = parse(b"add one: + then print.\n");
    assert_eq!(
        value,
        Ok(vec![Symbol::ValueIncrement, Symbol::PutCharacter])
    );
}

#[test]
fn reject_policy_reports_the_first_unknown_byte() {
    let value = parse_with(b"+-x>y", UnknownBytePolicy::Reject);
    assert_eq!(value, Err(UnknownSymbolError(b'x')));
    let value = parse_with(b" +", UnknownBytePolicy::Reject);
    assert_eq!(value, Err(UnknownSymbolError(0x20)));
    let value = parse_with(&[0x2B, 0xFF], UnknownBytePolicy::Reject);
    assert_eq!(value, Err(UnknownSymbolError(0xFF)));
}

#[test]
fn reject_policy_passes_over_line_feeds() {
    let value = parse_with(b"+\n-\n", UnknownBytePolicy::Reject);
    assert_eq!(
        value,
        Ok(vec![Symbol::ValueIncrement, Symbol::ValueDecrement])
    );
    let value = parse_with(b"+\r\n", UnknownBytePolicy::Reject);
    assert_eq!(value, Err(UnknownSymbolError(b'\r')));
}

#[test]
fn reject_policy_accepts_the_whole_vocabulary() {
    let value = parse_with(b"+-><[],.", UnknownBytePolicy::Reject);
    assert_eq!(value, parse(b"+-><[],."));
    assert_eq!(value.unwrap().len(), 8);
}

#[test]
fn every_byte_maps_as_the_table_says() {
    let table: [(u8, Symbol); 8] = [
        (0x2B, Symbol::ValueIncrement),
        (0x2D, Symbol::ValueDecrement),
        (0x3E, Symbol::PointerIncrement),
        (0x3C, Symbol::PointerDecrement),
        (0x2E, Symbol::PutCharacter),
        (0x2C, Symbol::GetCharacter),
        (0x5B, Symbol::ForwardJump),
        (0x5D, Symbol::BackwardJump),
    ];
    for byte in 0..=255u8 {
        let expected = table.iter().find(|entry| entry.0 == byte).map(|entry| entry.1);
        assert_eq!(Symbol::from_byte(byte), expected);
    }
    for (byte, symbol) in table.iter() {
        assert_eq!(symbol.to_byte(), *byte);
    }
}

#[test]
fn round_trip_reproduces_a_source_of_instruction_bytes() {
    let source = b"++[->+<]>.,<<][";
    let code = parse(source).unwrap();
    assert_eq!(unparse(&code), source.to_vec());
}

#[test]
fn round_trip_reproduces_the_filtered_source() {
    let source = b"read , then [ loop - ] and print .\n";
    let code = parse(source).unwrap();
    assert_eq!(unparse(&code), b",[-].".to_vec());
    assert_eq!(parse(&unparse(&code)), Ok(code));
}
