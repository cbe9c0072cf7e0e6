use ticketing::token::{auth_token_value, parse_token};
use ticketing::Error;

fn parsed(token: &str) -> Result<(u32, String, String), Error> {
    parse_token(token.to_string())
}

#[test]
fn issued_token_reads_user_exp_sign() {
    assert_eq!(auth_token_value(42), "user-42.exp.sign");
    assert_eq!(auth_token_value(0), "user-0.exp.sign");
    assert_eq!(auth_token_value(-5), "user--5.exp.sign");
    assert_eq!(auth_token_value(i32::MAX), "user-2147483647.exp.sign");
    assert_eq!(auth_token_value(i32::MIN), "user--2147483648.exp.sign");
}

#[test]
fn issued_token_parses_back_to_its_user() {
    for id in [0, 1, 7, 10, 42, 1000, 123456789, i32::MAX] {
        assert_eq!(
            parse_token(auth_token_value(id)),
            Ok((id as u32, "exp".to_string(), "sign".to_string()))
        );
    }
}

#[test]
fn negative_user_token_is_rejected() {
    assert_eq!(parse_token(auth_token_value(-5)), Err(Error::AuthFailTokenWrongFormat));
}

#[test]
fn token_fields_are_split_at_last_dot() {
    assert_eq!(parsed("user-1.a.b.c"), Ok((1, "a.b".to_string(), "c".to_string())));
    assert_eq!(parsed("user-007.x.y"), Ok((7, "x".to_string(), "y".to_string())));
    assert_eq!(parsed("user-3.é.ü"), Ok((3, "é".to_string(), "ü".to_string())));
    assert_eq!(parsed("user-3.x.y."), Ok((3, "x".to_string(), "y.".to_string())));
}

#[test]
fn token_line_feed_ends_the_match() {
    assert_eq!(parsed("user-1.a.b\nrest"), Ok((1, "a".to_string(), "b".to_string())));
    assert_eq!(parsed("user-1.a.\nb"), Err(Error::AuthFailTokenWrongFormat));
    assert_eq!(parsed("user-1.a\n.b"), Err(Error::AuthFailTokenWrongFormat));
}

#[test]
fn malformed_tokens_are_rejected() {
    for token in [
        "", "user-", "user-1", "user-1.", "user-1.ab", "user-1..b", "user-.a.b", "usr-1.a.b",
        "User-1.a.b", "user-12x.a.b", "user--1.a.b", " user-1.a.b", "user-1٣.a.b",
    ] {
        assert_eq!(parsed(token), Err(Error::AuthFailTokenWrongFormat), "{token:?}");
    }
}

#[test]
fn user_id_must_fit_in_u32() {
    assert_eq!(parsed("user-4294967295.a.b"), Ok((4294967295, "a".to_string(), "b".to_string())));
    assert_eq!(parsed("user-4294967296.a.b"), Err(Error::AuthFailTokenWrongFormat));
    assert_eq!(parsed("user-99999999999999999999.a.b"), Err(Error::AuthFailTokenWrongFormat));
}

#[test]
fn any_token_of_the_format_parses_to_its_fields() {
    for (u, e, s) in [(0u32, "e", "s"), (4294967295, "2030.01", "abc"), (12, "x.y.z", "sig"), (5, "é", "ü")] {
        let token = format!("user-{}.{}.{}", u, e, s);
        assert_eq!(parse_token(token), Ok((u, e.to_string(), s.to_string())));
    }
}
