use wl_library_link::marg::{c_string, parsed_or_failure};
use wl_library_link::{
    failure_expr, failure_msg, marg_str, marg_str_expr, write_expr, LibraryLinkStatus,
};
use wolfram_expr::{Expr, Symbol};

fn written(expr: Expr) -> String {
    let mut buffer = write_expr(expr).unwrap();
    assert_eq!(buffer.pop(), Some(0));
    String::from_utf8(buffer).unwrap()
}

#[test]
fn failure_has_kind_and_message() {
    let rule = Expr::normal(
        Symbol::new("System`Rule"),
        vec![Expr::string("Message"), Expr::string("it broke")],
    );
    let assoc = Expr::normal(Symbol::new("System`Association"), vec![rule]);
    let failure = Expr::normal(
        Symbol::new("System`Failure"),
        vec![Expr::string("Kind"), assoc],
    );
    assert_eq!(failure_expr("Kind", "it broke".to_string()), failure);
}

#[test]
fn failure_is_printed() {
    assert_eq!(
        written(failure_expr("Kind", "it broke".to_string())),
        "System`Failure[\"Kind\", System`Association[System`Rule[\"Message\", \"it broke\"]]]"
    );
}

#[test]
fn printing_escapes_special_characters() {
    assert_eq!(
        written(failure_expr("K\"", "a\nb\\c\0".to_string())),
        "System`Failure[\"K\\\"\", System`Association[System`Rule[\"Message\", \"a\\nb\\\\c\\0\"]]]"
    );
}

#[test]
fn failure_msg_writes_the_failure_and_is_no_error() {
    let (status, buffer) = failure_msg("Kind", "it broke".to_string());
    assert!(matches!(status, LibraryLinkStatus::NoError));
    assert_eq!(
        buffer.unwrap(),
        b"System`Failure[\"Kind\", System`Association[System`Rule[\"Message\", \"it broke\"]]]\0"
            .to_vec()
    );
}

#[test]
fn expressions_are_written_as_they_print() {
    assert_eq!(written(Expr::from(5)), "5");
    assert_eq!(written(Expr::string("h\u{e9}")), "\"h\u{e9}\"");
    assert_eq!(
        written(Expr::normal(Symbol::new("Global`f"), vec![])),
        "Global`f[]"
    );
    assert_eq!(
        written(Expr::list(vec![Expr::from(1), Expr::from(-2)])),
        "System`List[1, -2]"
    );
}

#[test]
fn c_strings_end_in_zero_and_hold_none() {
    assert_eq!(c_string(""), Some(vec![0]));
    assert_eq!(c_string("ab"), Some(vec![97, 98, 0]));
    assert_eq!(c_string("\u{e9}"), Some(vec![0xc3, 0xa9, 0]));
    assert_eq!(c_string("a\0b"), None);
    assert_eq!(c_string("\0"), None);
}

#[test]
fn utf8_arguments_are_read() {
    assert_eq!(marg_str(b"").unwrap(), "");
    assert_eq!(marg_str(b"abc").unwrap(), "abc");
    assert_eq!(marg_str(&[0xe2, 0x82, 0xac]).unwrap(), "\u{20ac}");
}

#[test]
fn other_arguments_are_a_type_error() {
    for bytes in [
        &[0xffu8][..],
        &[97, 0xe2, 0x82][..],
        &[0xed, 0xa0, 0x80][..],
        &[0xc0, 0x80][..],
    ] {
        assert!(matches!(
            marg_str(bytes),
            Err(LibraryLinkStatus::TypeError)
        ));
    }
}

#[test]
fn written_text_reads_back() {
    for text in ["", "abc", "h\u{e9}llo \u{20ac} \u{1f600}"] {
        let buffer = c_string(text).unwrap();
        let end = buffer.iter().position(|byte| *byte == 0).unwrap();
        assert_eq!(marg_str(&buffer[..end]).unwrap(), text);
    }
}

#[test]
fn parsed_arguments_are_kept() {
    assert_eq!(parsed_or_failure(Ok(Expr::from(3))), Ok(Expr::from(3)));
    let parse = |string: &str| Ok::<Expr, String>(Expr::string(string));
    assert_eq!(marg_str_expr("x", &parse), Ok(Expr::string("x")));
}

#[test]
fn parse_errors_become_failures() {
    let parse = |string: &str| Err::<Expr, String>(format!("unexpected {}", string));
    let failure = marg_str_expr("]", &parse).unwrap_err();
    assert_eq!(
        written(failure),
        "System`Failure[\"ParseError\", System`Association[System`Rule[\"Message\", \"unexpected ]\"]]]"
    );
}
