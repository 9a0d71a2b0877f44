use lobsters_cli::util::{as_usize, count_digits, padded_number, parse_url};

#[test]
fn test_count_digits() {
    assert_eq!(count_digits(0), 1);
    assert_eq!(count_digits(1), 1);
    assert_eq!(count_digits(10), 2);
    assert_eq!(count_digits(50), 2);
    assert_eq!(count_digits(99), 2);
    assert_eq!(count_digits(101), 3);
    assert_eq!(count_digits(-101), 4);
    assert_eq!(count_digits(-99), 3);
    assert_eq!(count_digits(-50), 3);
    assert_eq!(count_digits(-10), 3);
    assert_eq!(count_digits(-1), 2);
}

#[test]
fn it_works() {
    assert_eq!(2 + 2, 4);
}

#[test]
fn count_digits_at_the_ends_of_the_range() {
    assert_eq!(count_digits(i32::MAX), 10);
    assert_eq!(count_digits(i32::MIN), 11);
    assert_eq!(count_digits(9), 1);
    assert_eq!(count_digits(-9), 2);
    assert_eq!(count_digits(1_000_000_000), 10);
    assert_eq!(count_digits(999_999_999), 9);
}

#[test]
fn count_digits_is_the_length_of_the_decimal_text() {
    for num in [0, 7, -7, 10, -10, 12345, -12345, i32::MAX, i32::MIN] {
        assert_eq!(count_digits(num), format!("{}", num).len());
    }
}

#[test]
fn padded_number_is_right_aligned() {
    assert_eq!(padded_number(7, 3), "  7");
    assert_eq!(padded_number(-7, 3), " -7");
    assert_eq!(padded_number(123, 3), "123");
    assert_eq!(padded_number(1234, 3), "1234");
    assert_eq!(padded_number(0, 1), "0");
    assert_eq!(padded_number(0, 0), "0");
    assert_eq!(padded_number(i32::MIN, 12), " -2147483648");
    for num in [0, 5, -5, 42, -42, 1000, i32::MAX, i32::MIN] {
        assert_eq!(padded_number(num, 6), format!("{:1$}", num, 6));
    }
}

#[test]
fn as_usize_widens_both_numbers() {
    assert_eq!(as_usize((80, 24)), (80, 24));
    assert_eq!(as_usize((0, u16::MAX)), (0, 65535));
}

#[test]
fn parse_url_keeps_text_and_domain() {
    let link = parse_url("https://Example.com/a/../b?q=1").unwrap();
    assert_eq!(link.as_str(), "https://example.com/b?q=1");
    assert_eq!(link.domain(), Some("example.com"));
}

#[test]
fn parse_url_of_an_address_has_no_domain() {
    let link = parse_url("https://127.0.0.1/x").unwrap();
    assert_eq!(link.as_str(), "https://127.0.0.1/x");
    assert_eq!(link.domain(), None);
}

#[test]
fn parse_url_rejects_what_is_no_url() {
    assert_eq!(parse_url("").unwrap_err(), url::ParseError::RelativeUrlWithoutBase);
    assert_eq!(parse_url("not a url").unwrap_err(), url::ParseError::RelativeUrlWithoutBase);
    assert_eq!(parse_url("https://").unwrap_err(), url::ParseError::EmptyHost);
}
