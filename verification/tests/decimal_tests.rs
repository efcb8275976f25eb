use trading_calculator::decimal::{is_space, parse_amount, ParseFault};

#[test]
fn plain_digits_are_read() {
    assert_eq!(parse_amount("0"), Ok(0));
    assert_eq!(parse_amount("123456789"), Ok(123456789));
    assert_eq!(parse_amount("000042"), Ok(42));
}

#[test]
fn surrounding_white_space_is_taken_off() {
    assert_eq!(parse_amount("  2100000000000000\n"), Ok(2100000000000000));
    assert_eq!(parse_amount("\t7\r\n"), Ok(7));
    assert_eq!(parse_amount("\u{a0}\u{2003}15\u{3000}"), Ok(15));
}

#[test]
fn one_plus_sign_may_lead() {
    assert_eq!(parse_amount("+5"), Ok(5));
    assert_eq!(parse_amount("++5"), Err(ParseFault::InvalidDigit));
    assert_eq!(parse_amount("+"), Err(ParseFault::InvalidDigit));
    assert_eq!(parse_amount(" + 5"), Err(ParseFault::InvalidDigit));
}

#[test]
fn largest_amount_is_read_and_the_next_is_not() {
    assert_eq!(parse_amount("18446744073709551615"), Ok(u64::MAX));
    assert_eq!(parse_amount("18446744073709551616"), Err(ParseFault::TooLarge));
    assert_eq!(parse_amount("99999999999999999999999"), Err(ParseFault::TooLarge));
    assert_eq!(parse_amount("000000000000000000000000000001"), Ok(1));
}

#[test]
fn empty_text_is_refused() {
    assert_eq!(parse_amount(""), Err(ParseFault::Empty));
    assert_eq!(parse_amount("   \n"), Err(ParseFault::Empty));
}

#[test]
fn other_characters_are_refused() {
    assert_eq!(parse_amount("-1"), Err(ParseFault::InvalidDigit));
    assert_eq!(parse_amount("12 34"), Err(ParseFault::InvalidDigit));
    assert_eq!(parse_amount("1.5"), Err(ParseFault::InvalidDigit));
    assert_eq!(parse_amount("Checksum does not validate"), Err(ParseFault::InvalidDigit));
    assert_eq!(parse_amount("\u{0663}"), Err(ParseFault::InvalidDigit));
}

#[test]
fn first_thing_wrong_decides_the_fault() {
    assert_eq!(parse_amount("99999999999999999999999x"), Err(ParseFault::TooLarge));
    assert_eq!(parse_amount("9x9999999999999999999999"), Err(ParseFault::InvalidDigit));
}

#[test]
fn amounts_are_read_as_the_standard_library_reads_them() {
    let texts = [
        "", " ", "0", "+0", "-0", "+", "-", "12", " 12 ", "1 2", "18446744073709551615",
        "18446744073709551616", "184467440737095516159", "99999999999999999999999x",
        "x99999999999999999999999", "\u{85}9\u{2028}", "\u{200b}9", "1e3", "0x10", "٣",
    ];
    for text in texts {
        let expected = text.trim().parse::<u64>();
        let read = parse_amount(text);
        match (expected, read) {
            (Ok(a), Ok(b)) => assert_eq!(a, b, "{:?}", text),
            (Err(e), Err(fault)) => assert_eq!(e.to_string(), fault.message(), "{:?}", text),
            (a, b) => panic!("{:?}: {:?} and {:?}", text, a, b),
        }
    }
}

#[test]
fn fault_messages() {
    assert_eq!(ParseFault::Empty.message(), "cannot parse integer from empty string");
    assert_eq!(ParseFault::InvalidDigit.message(), "invalid digit found in string");
    assert_eq!(ParseFault::TooLarge.message(), "number too large to fit in target type");
}

#[test]
fn white_space_is_what_the_standard_library_takes_for_it() {
    let mut code: u32 = 0;
    while code < 0x11000 {
        if let Some(c) = char::from_u32(code) {
            assert_eq!(is_space(c), c.is_whitespace(), "{:x}", code);
        }
        code += 1;
    }
}
