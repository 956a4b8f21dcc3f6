//! Strings that pass between the library and the kernel: reading arguments of type
//! `"UTF8String"`, and writing expressions as such strings.

use vstd::prelude::*;
use vstd::utf8::*;
use wolfram_expr::Expr;

use crate::expr::{
    expr_view, failure_expr, message_failure_view, print_expr, string_text, ExprView,
};
use crate::status::LibraryLinkStatus;

verus! {

/// The error of `core::str::from_utf8`.
#[verifier::external_type_specification]
#[verifier::external_body]
pub struct ExUtf8Error(core::str::Utf8Error);

/// `core::str::from_utf8` takes bytes for a string if, and only if, they are valid UTF-8,
/// and the string holds the characters that they encode.
pub assume_specification<'a>[ core::str::from_utf8 ](v: &'a [u8]) -> (result: Result<
    &'a str,
    core::str::Utf8Error,
>)
    ensures
        result is Ok <==> valid_utf8(v@),
        result matches Ok(string) ==> string@ == decode_utf8(v@),
;

/// What reading the bytes of a `"UTF8String"` argument gives.
pub open spec fn marg_str_spec(bytes: Seq<u8>) -> Result<Seq<char>, LibraryLinkStatus> {
    if valid_utf8(bytes) {
        Ok(decode_utf8(bytes))
    } else {
        Err(LibraryLinkStatus::TypeError)
    }
}

/// Convert the bytes of a `"UTF8String"` argument, up to and without its terminating
/// zero, to `&str`. Bytes that are not UTF-8 are a type error.
pub fn marg_str<'a>(bytes: &'a [u8]) -> (result: Result<&'a str, LibraryLinkStatus>)
    ensures
        match result {
            Ok(string) => marg_str_spec(bytes@) == Ok::<Seq<char>, LibraryLinkStatus>(string@),
            Err(status) => marg_str_spec(bytes@) == Err::<Seq<char>, LibraryLinkStatus>(status),
        },
{
    match core::str::from_utf8(bytes) {
        Ok(string) => Ok(string),
        Err(_) => Err(LibraryLinkStatus::TypeError),
    }
}

/// The bytes of `text` as a zero-terminated string. A text with a zero byte has none.
pub open spec fn c_string_spec(text: Seq<char>) -> Option<Seq<u8>> {
    let bytes = encode_utf8(text);
    if bytes.contains(0u8) {
        None
    } else {
        Some(bytes.push(0u8))
    }
}

/// The bytes of `text`, terminated by a zero byte; `None` if `text` itself holds one.
pub fn c_string(text: &str) -> (result: Option<Vec<u8>>)
    ensures
        match result {
            Some(buffer) => c_string_spec(text@) == Some(buffer@),
            None => c_string_spec(text@) is None,
        },
{
    let bytes: &[u8] = text.as_bytes();
    let mut buffer: Vec<u8> = Vec::new();
    let mut i: usize = 0;
    while i < bytes.len()
        invariant
            i <= bytes@.len(),
            bytes@ == encode_utf8(text@),
            buffer@ =~= bytes@.take(i as int),
            !buffer@.contains(0u8),
        decreases bytes@.len() - i,
    {
        let byte: u8 = bytes[i];
        if byte == 0 {
            return None;
        }
        buffer.push(byte);
        i = i + 1;
    }
    assert(buffer@ =~= bytes@);
    buffer.push(0);
    Some(buffer)
}

/// The zero-terminated string that an expression is written as; `None` if its printed form
/// holds a zero byte.
pub open spec fn written(view: ExprView) -> Option<Seq<u8>> {
    c_string_spec(view.text())
}

/// The bytes of an optional buffer.
pub open spec fn bytes_of(buffer: Option<Vec<u8>>) -> Option<Seq<u8>> {
    match buffer {
        Some(bytes) => Some(bytes@),
        None => None,
    }
}

/// The status of a call that answers with a failure, and the zero-terminated string that
/// holds the failure.
pub open spec fn failure_msg_spec(kind: Seq<char>, msg: Seq<char>) -> (
    LibraryLinkStatus,
    Option<Seq<u8>>,
) {
    (LibraryLinkStatus::NoError, written(message_failure_view(kind, msg)))
}

/// The zero-terminated string to hand to the kernel as the printed form of `expr`;
/// `None` if the printed form holds a zero byte.
pub fn write_expr(expr: Expr) -> (result: Option<Vec<u8>>)
    ensures
        match result {
            Some(buffer) => c_string_spec(expr_view(expr).text()) == Some(buffer@),
            None => c_string_spec(expr_view(expr).text()) is None,
        },
        bytes_of(result) == written(expr_view(expr)),
{
    // Printing escapes any special characters which need it. The string is therefore safe
    // for consumption by ToExpression.
    let string = print_expr(&expr);
    c_string(string.as_str())
}

/// The status of a call that answers with the failure
/// `Failure[kind, <| "Message" -> msg |>]`, and the zero-terminated string that holds the
/// failure's printed form, `None` if that form holds a zero byte.
pub fn failure_msg(kind: &str, msg: String) -> (result: (LibraryLinkStatus, Option<Vec<u8>>))
    ensures
        result.0 is NoError,
        match result.1 {
            Some(buffer) => c_string_spec(message_failure_view(kind@, msg@).text()) == Some(
                buffer@,
            ),
            None => c_string_spec(message_failure_view(kind@, msg@).text()) is None,
        },
        (result.0, bytes_of(result.1)) == failure_msg_spec(kind@, msg@),
{
    let failure = failure_expr(kind, msg);
    let written = write_expr(failure);
    (LibraryLinkStatus::NoError, written)
}

/// The expression that was parsed, or for the description of a parse error the failure
/// `Failure["ParseError", <| "Message" -> description |>]`.
pub fn parsed_or_failure(parsed: Result<Expr, String>) -> (result: Result<Expr, Expr>)
    ensures
        parsed_as(parsed, result),
{
    match parsed {
        Ok(expr) => Ok(expr),
        Err(description) => Err(failure_expr("ParseError", description)),
    }
}

/// `result` is what the outcome `parsed` of a parse stands for.
pub open spec fn parsed_as(parsed: Result<Expr, String>, result: Result<Expr, Expr>) -> bool {
    match parsed {
        Ok(expr) => result == Ok::<Expr, Expr>(expr),
        Err(description) => {
            &&& result is Err
            &&& expr_view(result->Err_0) == message_failure_view("ParseError"@, description@)
        },
    }
}

/// Parse an expression from the text of an argument of type `"UTF8String"`, with the
/// parser `parse`, which describes its error where it fails.
///
/// Will return a `Failure["ParseError", _]` if parsing is unsuccessful. This should be
/// extremely rare, however, assuming the function is properly used.
pub fn marg_str_expr<P: Fn(&str) -> Result<Expr, String>>(string: &str, parse: &P) -> (result:
    Result<Expr, Expr>)
    requires
        parse.requires((string,)),
    ensures
        exists|parsed: Result<Expr, String>| #[trigger]
            parse.ensures((string,), parsed) && parsed_as(parsed, result),
{
    parsed_or_failure(parse(string))
}

/// A byte of the UTF-8 encoding of a character other than the zero character is not zero.
proof fn lemma_scalar_byte_nonzero(scalar: u32)
    requires
        is_scalar(scalar),
    ensures
        encode_scalar(scalar).contains(0u8) <==> scalar == 0,
{
    assert(scalar <= 0x7f ==> ((scalar & 0x7f) as u8 == 0u8 <==> scalar == 0)) by (bit_vector);
    assert(forall|b: u8| #![auto] 0x80u8 | b != 0u8) by (bit_vector);
    assert(forall|b: u8| #![auto] 0xC0u8 | b != 0u8) by (bit_vector);
    assert(forall|b: u8| #![auto] 0xE0u8 | b != 0u8) by (bit_vector);
    assert(forall|b: u8| #![auto] 0xF0u8 | b != 0u8) by (bit_vector);
    if scalar == 0 {
        assert(encode_scalar(scalar)[0] == 0u8);
    }
}

/// The UTF-8 encoding of `text` has a zero byte if, and only if, `text` has the zero
/// character.
proof fn lemma_zero_byte(text: Seq<char>)
    ensures
        encode_utf8(text).contains(0u8) <==> text.contains('\0'),
    decreases text.len(),
{
    if text.len() > 0 {
        let first = encode_scalar(text[0] as u32);
        let rest = encode_utf8(text.drop_first());
        char_is_scalar(text[0]);
        char_u32_cast(text[0], text[0] as u32);
        lemma_scalar_byte_nonzero(text[0] as u32);
        lemma_zero_byte(text.drop_first());
        assert(encode_utf8(text) == first + rest);
        if first.contains(0u8) {
            let i = choose|i: int| 0 <= i < first.len() && first[i] == 0u8;
            assert((first + rest)[i] == 0u8);
            assert(text[0] == '\0');
        }
        if rest.contains(0u8) {
            let i = choose|i: int| 0 <= i < rest.len() && rest[i] == 0u8;
            assert((first + rest)[first.len() + i] == 0u8);
            let j = choose|j: int| 0 <= j < text.drop_first().len() && text.drop_first()[j] == '\0';
            assert(text[j + 1] == '\0');
        }
        if text.contains('\0') {
            let j = choose|j: int| 0 <= j < text.len() && text[j] == '\0';
            if j > 0 {
                assert(text.drop_first()[j - 1] == '\0');
            }
        }
    }
}

/// A text can be written as a zero-terminated string if, and only if, it does not hold the
/// zero character.
pub proof fn law_writable(text: Seq<char>)
    ensures
        c_string_spec(text) is Some <==> !text.contains('\0'),
{
    lemma_zero_byte(text);
}

/// The bytes of a zero-terminated string: those before the first zero.
pub open spec fn c_string_content(buffer: Seq<u8>) -> Seq<u8> {
    buffer.take(buffer.index_of_first(0u8)->Some_0)
}

/// Reading back a text that was written gives that text.
pub proof fn law_written_text_reads_back(text: Seq<char>)
    requires
        c_string_spec(text) is Some,
    ensures
        marg_str_spec(c_string_content(c_string_spec(text)->Some_0)) == Ok::<
            Seq<char>,
            LibraryLinkStatus,
        >(text),
{
    broadcast use {encode_utf8_valid_utf8, encode_utf8_decode_utf8};

    let bytes = encode_utf8(text);
    let buffer = bytes.push(0u8);
    assert(buffer[bytes.len() as int] == 0u8);
    buffer.index_of_first_ensures(0u8);
    let first = buffer.index_of_first(0u8)->Some_0;
    if first < bytes.len() {
        assert(bytes[first] == 0u8);
    }
    assert(buffer.take(first) =~= bytes);
}

/// The zero-terminated string of a text is its UTF-8 encoding and one zero byte behind it.
pub proof fn law_c_string_bytes(text: Seq<char>)
    requires
        !text.contains('\0'),
    ensures
        c_string_spec(text) == Some(encode_utf8(text) + seq![0u8]),
{
    law_writable(text);
    assert(encode_utf8(text).push(0u8) =~= encode_utf8(text) + seq![0u8]);
}

/// Every text can be passed as an argument: its encoding reads as that text.
pub proof fn law_any_text_is_read(text: Seq<char>)
    ensures
        marg_str_spec(encode_utf8(text)) == Ok::<Seq<char>, LibraryLinkStatus>(text),
{
    broadcast use {encode_utf8_valid_utf8, encode_utf8_decode_utf8};

}

/// Bytes either encode the text that they read as, or are not UTF-8 and a type error.
pub proof fn law_bytes_are_text_or_type_error(bytes: Seq<u8>)
    ensures
        match marg_str_spec(bytes) {
            Ok(text) => valid_utf8(bytes) && encode_utf8(text) == bytes,
            Err(status) => !valid_utf8(bytes) && status is TypeError,
        },
{
    broadcast use decode_utf8_encode_utf8;

}

/// An expression can be written exactly if its printed form has no zero character, and what
/// was written reads back as the whole printed form.
pub proof fn law_written_expr_reads_back(view: ExprView)
    ensures
        written(view) is Some <==> !view.text().contains('\0'),
        written(view) matches Some(buffer) ==> buffer == encode_utf8(view.text()) + seq![0u8]
            && marg_str_spec(c_string_content(buffer)) == Ok::<Seq<char>, LibraryLinkStatus>(
            view.text(),
        ),
{
    law_writable(view.text());
    if written(view) is Some {
        law_c_string_bytes(view.text());
        law_written_text_reads_back(view.text());
    }
}

/// A call that answers with a failure is no error, and what the kernel reads is
/// ``System`Failure[kind, System`Association[System`Rule["Message", msg]]]``, unless the
/// kind or the message prints with a zero character.
pub proof fn law_failure_msg_is_read(kind: Seq<char>, msg: Seq<char>)
    ensures
        failure_msg_spec(kind, msg).0 is NoError,
        ({
            let text = "System`Failure["@ + string_text(kind)
                + ", System`Association[System`Rule["@ + string_text("Message"@) + ", "@
                + string_text(msg) + "]]]"@;
            &&& failure_msg_spec(kind, msg).1 is Some <==> !text.contains('\0')
            &&& failure_msg_spec(kind, msg).1 matches Some(buffer) ==> marg_str_spec(
                c_string_content(buffer),
            ) == Ok::<Seq<char>, LibraryLinkStatus>(text)
        }),
{
    crate::expr::law_failure_prints(kind, msg);
    law_written_expr_reads_back(message_failure_view(kind, msg));
}

/// An expression that was parsed is kept as it is. The description of a parse error becomes
/// the message of a failure of the kind `"ParseError"`.
pub proof fn law_parse_outcome(parsed: Result<Expr, String>, result: Result<Expr, Expr>)
    ensures
        parsed_as(parsed, result) <==> match (parsed, result) {
            (Ok(expr), Ok(kept)) => kept == expr,
            (Err(description), Err(failure)) => expr_view(failure) == ExprView::Normal(
                Box::new(ExprView::Symbol("System`Failure"@)),
                seq![
                    ExprView::String("ParseError"@),
                    ExprView::Normal(
                        Box::new(ExprView::Symbol("System`Association"@)),
                        seq![
                            ExprView::Normal(
                                Box::new(ExprView::Symbol("System`Rule"@)),
                                seq![
                                    ExprView::String("Message"@),
                                    ExprView::String(description@),
                                ],
                            ),
                        ],
                    ),
                ],
            ),
            _ => false,
        },
{
    if let Err(description) = parsed {
        crate::expr::law_message_failure_holds("ParseError"@, description@);
    }
}

/// A buffer is taken with all its bytes, in order.
pub proof fn law_bytes_of_keeps_all(buffer: Vec<u8>)
    ensures
        bytes_of(Some(buffer)) == Some(buffer@),
        bytes_of(None) is None,
{
}

} // verus!
