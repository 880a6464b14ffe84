use erltop::term::{decode_byte, decode_text, encode_text, DecodeError, Term};

fn byte_list(bytes: &[u8]) -> Term {
    Term::List(bytes.iter().map(|b| Term::FixInteger(*b as i32)).collect())
}

#[test]
fn decode_byte_accepts_byte_range() {
    assert_eq!(decode_byte(Term::FixInteger(0)).unwrap(), 0);
    assert_eq!(decode_byte(Term::FixInteger(65)).unwrap(), 65);
    assert_eq!(decode_byte(Term::FixInteger(255)).unwrap(), 255);
}

#[test]
fn decode_byte_rejects_out_of_range() {
    assert!(matches!(
        decode_byte(Term::FixInteger(256)),
        Err(DecodeError::ByteOutOfRange { value: 256 })
    ));
    assert!(matches!(
        decode_byte(Term::FixInteger(-1)),
        Err(DecodeError::ByteOutOfRange { value: -1 })
    ));
}

#[test]
fn decode_byte_rejects_non_integer() {
    assert!(matches!(
        decode_byte(Term::Atom(String::from("ok"))),
        Err(DecodeError::NotAnInteger { got: Term::Atom(_) })
    ));
    assert!(matches!(
        decode_byte(Term::BigInteger(1i128 << 40)),
        Err(DecodeError::NotAnInteger { got: Term::BigInteger(_) })
    ));
}

#[test]
fn decode_text_reads_ascii() {
    let t = byte_list(b"Erlang/OTP 25 [erts-13.0]");
    let s = decode_text(t).unwrap();
    assert_eq!(s, "Erlang/OTP 25 [erts-13.0]");
}

#[test]
fn decode_text_empty_list_is_empty_text() {
    assert_eq!(decode_text(Term::List(Vec::new())).unwrap(), "");
}

#[test]
fn decode_text_reads_multibyte_utf8() {
    let t = byte_list("héllo — ok".as_bytes());
    assert_eq!(decode_text(t).unwrap(), "héllo — ok");
}

#[test]
fn decode_text_round_trip_reproduces_bytes() {
    let original: &[u8] = "Erlang/OTP 25 — érts".as_bytes();
    let s = decode_text(byte_list(original)).unwrap();
    assert_eq!(encode_text(&s), original);
}

#[test]
fn decode_text_rejects_non_list_shapes() {
    assert!(matches!(
        decode_text(Term::Atom(String::from("system_version"))),
        Err(DecodeError::NotAString { got: Term::Atom(_) })
    ));
    assert!(matches!(
        decode_text(Term::FixInteger(7)),
        Err(DecodeError::NotAString { got: Term::FixInteger(7) })
    ));
    assert!(matches!(
        decode_text(Term::Other(String::from("#Pid<0.1.0>"))),
        Err(DecodeError::NotAString { got: Term::Other(_) })
    ));
}

#[test]
fn decode_text_reports_first_offending_element() {
    // 300 comes before 400: the first bad element is named.
    let t = Term::List(vec![
        Term::FixInteger(72),
        Term::FixInteger(300),
        Term::FixInteger(400),
    ]);
    assert!(matches!(
        decode_text(t),
        Err(DecodeError::ByteOutOfRange { value: 300 })
    ));
}

#[test]
fn decode_text_reports_non_integer_element() {
    let t = Term::List(vec![
        Term::FixInteger(72),
        Term::Atom(String::from("oops")),
        Term::FixInteger(73),
    ]);
    match decode_text(t) {
        Err(DecodeError::NotAnInteger { got: Term::Atom(a) }) => assert_eq!(a, "oops"),
        other => panic!("expected a NotAnInteger error, got {:?}", other),
    }
}

#[test]
fn decode_text_rejects_nested_list_element() {
    let t = Term::List(vec![Term::List(vec![Term::FixInteger(72)])]);
    assert!(matches!(
        decode_text(t),
        Err(DecodeError::NotAnInteger { got: Term::List(_) })
    ));
}

#[test]
fn decode_text_rejects_invalid_utf8() {
    let t = byte_list(&[0xff, 0xfe, 0x41]);
    assert!(matches!(decode_text(t), Err(DecodeError::InvalidUtf8)));
    // A lone continuation byte is not valid UTF-8 either.
    let t = byte_list(&[0x80]);
    assert!(matches!(decode_text(t), Err(DecodeError::InvalidUtf8)));
}

#[test]
fn encode_text_is_utf8_encoding() {
    assert_eq!(encode_text("A"), b"A");
    assert_eq!(encode_text("é"), "é".as_bytes());
    assert_eq!(encode_text(""), b"");
}
