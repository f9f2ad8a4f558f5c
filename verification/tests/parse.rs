use checkboxes::parse::parse_index;
use checkboxes::parse::ParseError;

#[test]
fn parses_small_numbers() {
    assert_eq!(parse_index(b"0"), Ok(0));
    assert_eq!(parse_index(b"3"), Ok(3));
    assert_eq!(parse_index(b"50"), Ok(50));
    assert_eq!(parse_index(b"1000"), Ok(1000));
}

#[test]
fn parses_leading_zeros() {
    assert_eq!(parse_index(b"007"), Ok(7));
    assert_eq!(parse_index(b"000"), Ok(0));
}

#[test]
fn parses_the_largest_index() {
    let max = usize::MAX.to_string();
    assert_eq!(parse_index(max.as_bytes()), Ok(usize::MAX));
}

#[test]
fn rejects_numbers_too_large_for_an_index() {
    let too_big = format!("{}0", usize::MAX);
    assert_eq!(parse_index(too_big.as_bytes()), Err(ParseError));
    assert_eq!(parse_index(b"18446744073709551616"), Err(ParseError));
}

#[test]
fn rejects_empty_input() {
    assert_eq!(parse_index(b""), Err(ParseError));
}

#[test]
fn rejects_non_digits() {
    assert_eq!(parse_index(b"abc"), Err(ParseError));
    assert_eq!(parse_index(b"12a"), Err(ParseError));
    assert_eq!(parse_index(b"a12"), Err(ParseError));
    assert_eq!(parse_index(b"-1"), Err(ParseError));
    assert_eq!(parse_index(b"+3"), Err(ParseError));
    assert_eq!(parse_index(b"1 2"), Err(ParseError));
    assert_eq!(parse_index(b"3.5"), Err(ParseError));
}
