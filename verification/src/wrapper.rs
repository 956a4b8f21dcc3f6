//! The body of a LibraryLink function that wraps a function on expressions: reading the
//! arguments, calling the function, and answering the kernel.

use vstd::prelude::*;
use vstd::utf8::encode_utf8;
use wolfram_expr::Expr;

use crate::catch_panic::CaughtPanic;
use crate::expr::{expr_view, failure_view, ExprView};
use crate::marg::{
    law_any_text_is_read, law_bytes_are_text_or_type_error, law_parse_outcome, marg_str,
    marg_str_expr, marg_str_spec, parsed_as,
};
use crate::status::{LIBRARY_FUNCTION_ERROR, LIBRARY_NO_ERROR, LIBRARY_TYPE_ERROR};

verus! {

/// What a LibraryLink function answers: an error code, and the expression to write to its
/// result, if any.
pub struct Reply {
    /// The LibraryLink error code.
    pub code: u32,
    /// The expression that the kernel is given.
    pub expr: Option<Expr>,
}

/// The answer with the error code `code` and without a result.
pub open spec fn error_reply(code: u32) -> Reply {
    Reply { code, expr: None }
}

/// `result` is what reading an argument with the bytes `bytes` gives: the expression that
/// was parsed, or the answer that ends the call.
pub open spec fn arg_read<P: Fn(&str) -> Result<Expr, String>>(
    bytes: Seq<u8>,
    parse: P,
    result: Result<Expr, Reply>,
) -> bool {
    match marg_str_spec(bytes) {
        Err(status) => result == Err::<Expr, Reply>(error_reply(status.code())),
        Ok(text) => exists|string: &str, parsed: Result<Expr, String>|
            string@ == text && #[trigger] parse.ensures((string,), parsed) && arg_parsed(
                parsed,
                result,
            ),
    }
}

/// `result` is what the outcome `parsed` of parsing an argument stands for.
pub open spec fn arg_parsed(parsed: Result<Expr, String>, result: Result<Expr, Reply>) -> bool {
    match result {
        Ok(expr) => parsed_as(parsed, Ok(expr)),
        Err(reply) => {
            &&& reply.code == LIBRARY_NO_ERROR
            &&& reply.expr matches Some(failure) && parsed_as(parsed, Err(failure))
        },
    }
}

/// Read an argument of type `"UTF8String"` with the bytes `bytes`.
pub fn read_arg<P: Fn(&str) -> Result<Expr, String>>(bytes: &[u8], parse: &P) -> (result: Result<
    Expr,
    Reply,
>)
    requires
        forall|string: &str| #[trigger] parse.requires((string,)),
    ensures
        arg_read(bytes@, *parse, result),
{
    let string = match marg_str(bytes) {
        Ok(string) => string,
        Err(status) => return Err(Reply { code: u32::from(status), expr: None }),
    };
    match marg_str_expr(string, parse) {
        Ok(expr) => Ok(expr),
        Err(failure) => Err(Reply { code: LIBRARY_NO_ERROR, expr: Some(failure) }),
    }
}

/// Reading the argument at `index`, which `fetch` gives the bytes of, gives `result`.
pub open spec fn arg_at<R: Fn(usize) -> Vec<u8>, P: Fn(&str) -> Result<Expr, String>>(
    fetch: R,
    parse: P,
    index: int,
    result: Result<Expr, Reply>,
) -> bool {
    exists|bytes: Vec<u8>| #[trigger]
        fetch.ensures((index as usize,), bytes) && arg_read(bytes@, parse, result)
}

/// Reading the first arguments gives the expressions `exprs`.
pub open spec fn args_at<R: Fn(usize) -> Vec<u8>, P: Fn(&str) -> Result<Expr, String>>(
    fetch: R,
    parse: P,
    exprs: Seq<Expr>,
) -> bool {
    forall|i: int| 0 <= i < exprs.len() ==> arg_at(fetch, parse, i, Ok(#[trigger] exprs[i]))
}

/// Reading arguments, of which there are `arg_count`, goes well up to the expressions
/// `exprs`, and the next one ends the call with the answer `reply`: either there is no such
/// argument, or it is rejected.
pub open spec fn rejected_after<R: Fn(usize) -> Vec<u8>, P: Fn(&str) -> Result<Expr, String>>(
    arg_count: int,
    fetch: R,
    parse: P,
    exprs: Seq<Expr>,
    reply: Reply,
) -> bool {
    &&& exprs.len() <= arg_count
    &&& args_at(fetch, parse, exprs)
    &&& if exprs.len() < arg_count {
        arg_at(fetch, parse, exprs.len() as int, Err(reply))
    } else {
        reply == error_reply(LIBRARY_FUNCTION_ERROR)
    }
}

/// `result` is what reading the arguments of a function with `param_count` parameters
/// gives, where the kernel passes `arg_count` arguments: the arguments as expressions, or
/// the answer that ends the call, which the first argument that cannot be read decides.
pub open spec fn args_read<R: Fn(usize) -> Vec<u8>, P: Fn(&str) -> Result<Expr, String>>(
    arg_count: i64,
    param_count: usize,
    fetch: R,
    parse: P,
    result: Result<Seq<Expr>, Reply>,
) -> bool {
    if !(0 <= arg_count <= usize::MAX) {
        result == Err::<Seq<Expr>, Reply>(error_reply(LIBRARY_FUNCTION_ERROR))
    } else {
        match result {
            Ok(exprs) => {
                &&& exprs.len() == param_count
                &&& param_count <= arg_count
                &&& args_at(fetch, parse, exprs)
            },
            Err(reply) => exists|exprs: Seq<Expr>|
                exprs.len() < param_count && #[trigger] rejected_after(
                    arg_count as int,
                    fetch,
                    parse,
                    exprs,
                    reply,
                ),
        }
    }
}

/// `result` with the sequence of its expressions.
pub open spec fn args_view(result: Result<Vec<Expr>, Reply>) -> Result<Seq<Expr>, Reply> {
    match result {
        Ok(exprs) => Ok(exprs@),
        Err(reply) => Err(reply),
    }
}

/// Read the arguments of a function with `param_count` parameters. The kernel passes
/// `arg_count` arguments; `fetch` gives the bytes of the one at an index, and `parse`
/// parses the text of one. Nothing is fetched beyond the first argument that cannot be
/// read, nor beyond the last parameter.
pub fn read_args<R: Fn(usize) -> Vec<u8>, P: Fn(&str) -> Result<Expr, String>>(
    arg_count: i64,
    param_count: usize,
    fetch: &R,
    parse: &P,
) -> (result: Result<Vec<Expr>, Reply>)
    requires
        forall|index: usize|
            index < param_count && index < arg_count ==> #[trigger] fetch.requires((index,)),
        forall|string: &str| #[trigger] parse.requires((string,)),
    ensures
        args_read(arg_count, param_count, *fetch, *parse, args_view(result)),
{
    let count: usize = match usize::try_from(arg_count) {
        Ok(count) => count,
        // This will never happen as long as LibraryLink doesn't give a negative argument
        // count. If that happens, something else has gone seriously wrong, so let's do the
        // least unhelpful thing.
        Err(_) => return Err(Reply { code: LIBRARY_FUNCTION_ERROR, expr: None }),
    };
    let mut exprs: Vec<Expr> = Vec::new();
    while exprs.len() < param_count
        invariant
            count == arg_count,
            exprs@.len() <= param_count,
            exprs@.len() <= count,
            args_at(*fetch, *parse, exprs@),
            forall|index: usize|
                index < param_count && index < arg_count ==> #[trigger] fetch.requires((index,)),
            forall|string: &str| #[trigger] parse.requires((string,)),
        decreases param_count - exprs@.len(),
    {
        let index: usize = exprs.len();
        if index >= count {
            // This implies that the LibraryFunction wrapper in top-level does not have
            // enough arguments.
            let reply = Reply { code: LIBRARY_FUNCTION_ERROR, expr: None };
            assert(rejected_after(arg_count as int, *fetch, *parse, exprs@, reply));
            return Err(reply);
        }
        let bytes = fetch(index);
        let arg = read_arg(bytes.as_slice(), parse);
        proof {
            assert(fetch.ensures((index as int as usize,), bytes));
            assert(arg_at(*fetch, *parse, index as int, arg));
        }
        match arg {
            Ok(expr) => {
                exprs.push(expr);
            },
            Err(reply) => {
                assert(rejected_after(arg_count as int, *fetch, *parse, exprs@, reply));
                return Err(reply);
            },
        }
    }
    Ok(exprs)
}

/// `reply` is the answer of a call whose function gave `outcome`.
pub open spec fn finished_as(outcome: Result<Expr, CaughtPanic>, reply: Reply) -> bool {
    &&& reply.code == LIBRARY_NO_ERROR
    &&& reply.expr matches Some(written) && match outcome {
        Ok(expr) => written == expr,
        Err(caught) => expr_view(written) == failure_view("Panic"@, caught.rule_views()),
    }
}

/// The answer of a call whose function returned an expression or panicked: the expression,
/// or the failure that reports the panic.
pub fn finish(outcome: Result<Expr, CaughtPanic>) -> (reply: Reply)
    ensures
        finished_as(outcome, reply),
{
    let expr = match outcome {
        Ok(expr) => expr,
        Err(caught) => caught.to_pretty_expr(),
    };
    Reply { code: LIBRARY_NO_ERROR, expr: Some(expr) }
}

/// `reply` is the answer of a function with `param_count` parameters to a call with
/// `arg_count` arguments, where `call` runs the function.
pub open spec fn answered<
    R: Fn(usize) -> Vec<u8>,
    P: Fn(&str) -> Result<Expr, String>,
    C: FnOnce(Vec<Expr>) -> Result<Expr, CaughtPanic>,
>(
    arg_count: i64,
    param_count: usize,
    fetch: R,
    parse: P,
    call: C,
    reply: Reply,
) -> bool {
    ||| args_read(arg_count, param_count, fetch, parse, Err(reply))
    ||| exists|args: Vec<Expr>, outcome: Result<Expr, CaughtPanic>|
        args_read(arg_count, param_count, fetch, parse, Ok(args@)) && #[trigger] call.ensures(
            (args,),
            outcome,
        ) && finished_as(outcome, reply)
}

/// Answer a call of a function with `param_count` parameters: read the arguments as
/// [`read_args`] does, and if all of them could be read, run the function with `call`,
/// which catches its panics, and answer with what came of it.
pub fn call_wrapped<
    R: Fn(usize) -> Vec<u8>,
    P: Fn(&str) -> Result<Expr, String>,
    C: FnOnce(Vec<Expr>) -> Result<Expr, CaughtPanic>,
>(arg_count: i64, param_count: usize, fetch: &R, parse: &P, call: C) -> (reply: Reply)
    requires
        forall|index: usize|
            index < param_count && index < arg_count ==> #[trigger] fetch.requires((index,)),
        forall|string: &str| #[trigger] parse.requires((string,)),
        forall|args: Vec<Expr>| args@.len() == param_count ==> #[trigger] call.requires((args,)),
    ensures
        answered(arg_count, param_count, *fetch, *parse, call, reply),
{
    let read = read_args(arg_count, param_count, fetch, parse);
    match read {
        Ok(args) => finish(call(args)),
        Err(reply) => reply,
    }
}

/// Reading an argument gives an expression, whatever `fetch` and `parse` come up with.
pub open spec fn readable<R: Fn(usize) -> Vec<u8>, P: Fn(&str) -> Result<Expr, String>>(
    fetch: R,
    parse: P,
    index: int,
) -> bool {
    forall|result: Result<Expr, Reply>| #[trigger]
        arg_at(fetch, parse, index, result) ==> result is Ok
}

/// An argument that is not UTF-8 ends the call with a type error, and nothing else does.
pub proof fn law_argument_not_utf8<P: Fn(&str) -> Result<Expr, String>>(
    bytes: Seq<u8>,
    parse: P,
    result: Result<Expr, Reply>,
)
    requires
        arg_read(bytes, parse, result),
    ensures
        !vstd::utf8::valid_utf8(bytes) <==> result == Err::<Expr, Reply>(
            error_reply(LIBRARY_TYPE_ERROR),
        ),
{
}

/// The first argument that cannot be read decides the answer: if the arguments before it
/// are readable, and reading it gives `reply`, the call ends with `reply`.
pub proof fn law_first_unreadable_argument_decides<
    R: Fn(usize) -> Vec<u8>,
    P: Fn(&str) -> Result<Expr, String>,
>(
    arg_count: i64,
    param_count: usize,
    fetch: R,
    parse: P,
    index: int,
    reply: Reply,
    result: Result<Seq<Expr>, Reply>,
)
    requires
        args_read(arg_count, param_count, fetch, parse, result),
        arg_count <= usize::MAX,
        0 <= index < param_count,
        index < arg_count,
        forall|i: int| 0 <= i < index ==> #[trigger] readable(fetch, parse, i),
        forall|r: Result<Expr, Reply>| #[trigger]
            arg_at(fetch, parse, index, r) ==> r == Err::<Expr, Reply>(reply),
    ensures
        result == Err::<Seq<Expr>, Reply>(reply),
{
    match result {
        Ok(exprs) => {
            assert(arg_at(fetch, parse, index, Ok(exprs[index])));
        },
        Err(found) => {
            let exprs = choose|exprs: Seq<Expr>|
                exprs.len() < param_count && #[trigger] rejected_after(
                    arg_count as int,
                    fetch,
                    parse,
                    exprs,
                    found,
                );
            let at = exprs.len() as int;
            if at < index {
                assert(readable(fetch, parse, at));
                assert(arg_at(fetch, parse, at, Err(found)));
            } else if at > index {
                assert(arg_at(fetch, parse, index, Ok(exprs[index])));
            } else {
                assert(arg_at(fetch, parse, index, Err(found)));
            }
        },
    }
}

/// A call with too few arguments never runs the function. If those that are passed are
/// readable, it is answered with a function error.
pub proof fn law_too_few_arguments<
    R: Fn(usize) -> Vec<u8>,
    P: Fn(&str) -> Result<Expr, String>,
>(
    arg_count: i64,
    param_count: usize,
    fetch: R,
    parse: P,
    result: Result<Seq<Expr>, Reply>,
)
    requires
        args_read(arg_count, param_count, fetch, parse, result),
        arg_count < param_count,
    ensures
        result is Err,
        (forall|i: int| 0 <= i < arg_count ==> #[trigger] readable(fetch, parse, i)) ==> result
            == Err::<Seq<Expr>, Reply>(error_reply(LIBRARY_FUNCTION_ERROR)),
{
    if arg_count >= 0 && forall|i: int|
        0 <= i < arg_count ==> #[trigger] readable(fetch, parse, i) {
        let reply = result->Err_0;
        let exprs = choose|exprs: Seq<Expr>|
            exprs.len() < param_count && #[trigger] rejected_after(
                arg_count as int,
                fetch,
                parse,
                exprs,
                reply,
            );
        if exprs.len() < arg_count {
            assert(readable(fetch, parse, exprs.len() as int));
            assert(arg_at(fetch, parse, exprs.len() as int, Err(reply)));
        }
    }
}

/// Enough arguments, those of the parameters readable, are all accepted. Any further
/// arguments do not matter.
pub proof fn law_readable_arguments_are_accepted<
    R: Fn(usize) -> Vec<u8>,
    P: Fn(&str) -> Result<Expr, String>,
>(
    arg_count: i64,
    param_count: usize,
    fetch: R,
    parse: P,
    result: Result<Seq<Expr>, Reply>,
)
    requires
        args_read(arg_count, param_count, fetch, parse, result),
        param_count <= arg_count <= usize::MAX,
        forall|i: int| 0 <= i < param_count ==> #[trigger] readable(fetch, parse, i),
    ensures
        result is Ok,
{
    if result is Err {
        let reply = result->Err_0;
        let exprs = choose|exprs: Seq<Expr>|
            exprs.len() < param_count && #[trigger] rejected_after(
                arg_count as int,
                fetch,
                parse,
                exprs,
                reply,
            );
        assert(readable(fetch, parse, exprs.len() as int));
        assert(arg_at(fetch, parse, exprs.len() as int, Err(reply)));
    }
}

/// A function that panics is answered with the failure that reports the panic, and the
/// call itself is no error.
pub proof fn law_panic_is_shown<
    R: Fn(usize) -> Vec<u8>,
    P: Fn(&str) -> Result<Expr, String>,
    C: FnOnce(Vec<Expr>) -> Result<Expr, CaughtPanic>,
>(
    arg_count: i64,
    param_count: usize,
    fetch: R,
    parse: P,
    call: C,
    caught: CaughtPanic,
    reply: Reply,
)
    requires
        answered(arg_count, param_count, fetch, parse, call, reply),
        param_count <= arg_count <= usize::MAX,
        forall|i: int| 0 <= i < param_count ==> #[trigger] readable(fetch, parse, i),
        forall|args: Vec<Expr>, outcome: Result<Expr, CaughtPanic>| #[trigger]
            call.ensures((args,), outcome) ==> outcome == Err::<Expr, CaughtPanic>(caught),
    ensures
        reply.code == LIBRARY_NO_ERROR,
        reply.expr is Some,
        expr_view(reply.expr->Some_0) == failure_view("Panic"@, caught.rule_views()),
{
    if args_read(arg_count, param_count, fetch, parse, Err(reply)) {
        law_readable_arguments_are_accepted(arg_count, param_count, fetch, parse, Err(reply));
    }
}

/// A call is answered with one of the three error codes, and has a result exactly if its
/// code is that of success.
pub proof fn law_result_exactly_on_success<
    R: Fn(usize) -> Vec<u8>,
    P: Fn(&str) -> Result<Expr, String>,
    C: FnOnce(Vec<Expr>) -> Result<Expr, CaughtPanic>,
>(arg_count: i64, param_count: usize, fetch: R, parse: P, call: C, reply: Reply)
    requires
        answered(arg_count, param_count, fetch, parse, call, reply),
    ensures
        reply.expr is Some <==> reply.code == LIBRARY_NO_ERROR,
        reply.expr is None ==> reply.code == LIBRARY_TYPE_ERROR || reply.code
            == LIBRARY_FUNCTION_ERROR,
{
    if args_read(arg_count, param_count, fetch, parse, Err(reply)) && 0 <= arg_count
        <= usize::MAX {
        let exprs = choose|exprs: Seq<Expr>|
            exprs.len() < param_count && #[trigger] rejected_after(
                arg_count as int,
                fetch,
                parse,
                exprs,
                reply,
            );
        if exprs.len() < arg_count {
            assert(arg_at(fetch, parse, exprs.len() as int, Err(reply)));
        }
    }
}

/// A function that returns is answered with the expression that it returned, and the call
/// is no error.
pub proof fn law_result_is_answered<
    R: Fn(usize) -> Vec<u8>,
    P: Fn(&str) -> Result<Expr, String>,
    C: FnOnce(Vec<Expr>) -> Result<Expr, CaughtPanic>,
>(
    arg_count: i64,
    param_count: usize,
    fetch: R,
    parse: P,
    call: C,
    expr: Expr,
    reply: Reply,
)
    requires
        answered(arg_count, param_count, fetch, parse, call, reply),
        param_count <= arg_count <= usize::MAX,
        forall|i: int| 0 <= i < param_count ==> #[trigger] readable(fetch, parse, i),
        forall|args: Vec<Expr>, outcome: Result<Expr, CaughtPanic>| #[trigger]
            call.ensures((args,), outcome) ==> outcome == Ok::<Expr, CaughtPanic>(expr),
    ensures
        reply.code == LIBRARY_NO_ERROR,
        reply.expr == Some(expr),
{
    if args_read(arg_count, param_count, fetch, parse, Err(reply)) {
        law_readable_arguments_are_accepted(arg_count, param_count, fetch, parse, Err(reply));
    }
}

/// The answer to a function that returned is the expression that it returned; to one that
/// panicked, the failure that reports the panic. Either way the call is no error.
pub proof fn law_outcome_is_answered(outcome: Result<Expr, CaughtPanic>, reply: Reply)
    ensures
        finished_as(outcome, reply) <==> match outcome {
            Ok(expr) => reply == (Reply { code: 0u32, expr: Some(expr) }),
            Err(caught) => reply.code == 0 && reply.expr is Some && expr_view(reply.expr->Some_0)
                == caught.pretty_view(),
        },
{
}

/// The whole text of an argument is parsed. The expression that the parser gives is what is
/// read. Where it describes an error instead, the call ends without an error code, and with
/// the failure of the kind `"ParseError"` that has the description as its message.
pub proof fn law_whole_argument_is_parsed<P: Fn(&str) -> Result<Expr, String>>(
    text: Seq<char>,
    parse: P,
    result: Result<Expr, Reply>,
)
    ensures
        arg_read(encode_utf8(text), parse, result) <==> exists|
            string: &str,
            outcome: Result<Expr, String>,
        |
            string@ == text && #[trigger] parse.ensures((string,), outcome) && match (
                outcome,
                result,
            ) {
                (Ok(expr), Ok(read)) => read == expr,
                (Err(description), Err(reply)) => reply.code == 0 && reply.expr is Some
                    && expr_view(reply.expr->Some_0) == ExprView::Normal(
                        Box::new(ExprView::Symbol("System`Failure"@)),
                        seq![
                            ExprView::String("ParseError"@),
                            ExprView::Normal(
                                Box::new(ExprView::Symbol("System`Association"@)),
                                seq![
                                    ExprView::Normal(
                                        Box::new(ExprView::Symbol("System`Rule"@)),
                                        seq![ExprView::String("Message"@), ExprView::String(description@)],
                                    ),
                                ],
                            ),
                        ],
                    ),
                _ => false,
            },
{
    law_any_text_is_read(text);
    assert forall|outcome: Result<Expr, String>|
        #![trigger arg_parsed(outcome, result)]
        arg_parsed(outcome, result) <==> match (outcome, result) {
            (Ok(expr), Ok(read)) => read == expr,
            (Err(description), Err(reply)) => reply.code == 0 && reply.expr is Some && expr_view(
                reply.expr->Some_0,
            ) == ExprView::Normal(
                Box::new(ExprView::Symbol("System`Failure"@)),
                seq![
                    ExprView::String("ParseError"@),
                    ExprView::Normal(
                        Box::new(ExprView::Symbol("System`Association"@)),
                        seq![
                            ExprView::Normal(
                                Box::new(ExprView::Symbol("System`Rule"@)),
                                seq![ExprView::String("Message"@), ExprView::String(description@)],
                            ),
                        ],
                    ),
                ],
            ),
            _ => false,
        } by {
        match result {
            Ok(read) => law_parse_outcome(outcome, Ok(read)),
            Err(reply) => {
                if reply.expr is Some {
                    law_parse_outcome(outcome, Err(reply.expr->Some_0));
                }
            },
        }
    }
    if arg_read(encode_utf8(text), parse, result) {
        let (string, outcome) = choose|string: &str, outcome: Result<Expr, String>|
            string@ == text && #[trigger] parse.ensures((string,), outcome) && arg_parsed(
                outcome,
                result,
            );
        assert(arg_parsed(outcome, result));
        assert(parse.ensures((string,), outcome));
    }
}

/// Reading an argument gives the expression that its whole text parses as.
pub proof fn law_parsed_argument_is_read<P: Fn(&str) -> Result<Expr, String>>(
    text: Seq<char>,
    parse: P,
    expr: Expr,
    result: Result<Expr, Reply>,
)
    requires
        arg_read(encode_utf8(text), parse, result),
        forall|string: &str, outcome: Result<Expr, String>|
            string@ == text && #[trigger] parse.ensures((string,), outcome) ==> outcome == Ok::<
                Expr,
                String,
            >(expr),
    ensures
        result == Ok::<Expr, Reply>(expr),
{
    law_whole_argument_is_parsed(text, parse, result);
}

/// An argument whose bytes are not UTF-8 ends the call with the code 1, and without a result.
pub proof fn law_unreadable_bytes<P: Fn(&str) -> Result<Expr, String>>(
    bytes: Seq<u8>,
    parse: P,
    result: Result<Expr, Reply>,
)
    requires
        !vstd::utf8::valid_utf8(bytes),
    ensures
        arg_read(bytes, parse, result) <==> result == Err::<Expr, Reply>(
            Reply { code: 1u32, expr: None },
        ),
{
    law_bytes_are_text_or_type_error(bytes);
}

/// The arguments whose texts are `texts`, which parse as `exprs`, read as `exprs`.
proof fn lemma_leading_arguments<
    R: Fn(usize) -> Vec<u8>,
    P: Fn(&str) -> Result<Expr, String>,
>(fetch: R, parse: P, texts: Seq<Seq<char>>, exprs: Seq<Expr>)
    requires
        exprs.len() <= texts.len(),
        exprs.len() <= usize::MAX,
        forall|i: usize, bytes: Vec<u8>|
            i < exprs.len() && #[trigger] fetch.ensures((i,), bytes) ==> bytes@ == encode_utf8(
                texts[i as int],
            ),
        forall|i: int, string: &str, outcome: Result<Expr, String>|
            0 <= i < exprs.len() && #[trigger] texts[i] == string@ && #[trigger] parse.ensures(
                (string,),
                outcome,
            ) ==> outcome == Ok::<Expr, String>(exprs[i]),
    ensures
        forall|i: int, result: Result<Expr, Reply>|
            0 <= i < exprs.len() && #[trigger] arg_at(fetch, parse, i, result) ==> result == Ok::<
                Expr,
                Reply,
            >(exprs[i]),
        forall|i: int| 0 <= i < exprs.len() ==> #[trigger] readable(fetch, parse, i),
{
    assert forall|i: int, result: Result<Expr, Reply>|
        0 <= i < exprs.len() && #[trigger] arg_at(fetch, parse, i, result) implies result == Ok::<
        Expr,
        Reply,
    >(exprs[i]) by {
        let bytes = choose|bytes: Vec<u8>| #[trigger]
            fetch.ensures((i as usize,), bytes) && arg_read(bytes@, parse, result);
        assert(bytes@ == encode_utf8(texts[i]));
        law_parsed_argument_is_read(texts[i], parse, exprs[i], result);
    }
}

/// The arguments of the parameters, which have the texts `texts` and parse as `exprs`, are
/// read as `exprs`: each of them, in order, and no others.
pub proof fn law_arguments_are_read<
    R: Fn(usize) -> Vec<u8>,
    P: Fn(&str) -> Result<Expr, String>,
>(
    arg_count: i64,
    param_count: usize,
    fetch: R,
    parse: P,
    texts: Seq<Seq<char>>,
    exprs: Seq<Expr>,
    result: Result<Seq<Expr>, Reply>,
)
    requires
        args_read(arg_count, param_count, fetch, parse, result),
        param_count <= arg_count <= usize::MAX,
        texts.len() == param_count,
        exprs.len() == param_count,
        forall|i: usize, bytes: Vec<u8>|
            i < exprs.len() && #[trigger] fetch.ensures((i,), bytes) ==> bytes@ == encode_utf8(
                texts[i as int],
            ),
        forall|i: int, string: &str, outcome: Result<Expr, String>|
            0 <= i < exprs.len() && #[trigger] texts[i] == string@ && #[trigger] parse.ensures(
                (string,),
                outcome,
            ) ==> outcome == Ok::<Expr, String>(exprs[i]),
    ensures
        result == Ok::<Seq<Expr>, Reply>(exprs),
{
    lemma_leading_arguments(fetch, parse, texts, exprs);
    law_readable_arguments_are_accepted(arg_count, param_count, fetch, parse, result);
    let read = result->Ok_0;
    assert forall|i: int| 0 <= i < exprs.len() implies read[i] == exprs[i] by {
        assert(arg_at(fetch, parse, i, Ok(read[i])));
    }
    assert(read =~= exprs);
}

/// A function that is passed its arguments is run on them and answered with what comes of
/// it: the expression that it returns, or the failure that reports its panic.
pub proof fn law_function_is_run_on_its_arguments<
    R: Fn(usize) -> Vec<u8>,
    P: Fn(&str) -> Result<Expr, String>,
    C: FnOnce(Vec<Expr>) -> Result<Expr, CaughtPanic>,
>(
    arg_count: i64,
    param_count: usize,
    fetch: R,
    parse: P,
    call: C,
    texts: Seq<Seq<char>>,
    exprs: Seq<Expr>,
    expected: Result<Expr, CaughtPanic>,
    reply: Reply,
)
    requires
        answered(arg_count, param_count, fetch, parse, call, reply),
        param_count <= arg_count <= usize::MAX,
        texts.len() == param_count,
        exprs.len() == param_count,
        forall|i: usize, bytes: Vec<u8>|
            i < exprs.len() && #[trigger] fetch.ensures((i,), bytes) ==> bytes@ == encode_utf8(
                texts[i as int],
            ),
        forall|i: int, string: &str, outcome: Result<Expr, String>|
            0 <= i < exprs.len() && #[trigger] texts[i] == string@ && #[trigger] parse.ensures(
                (string,),
                outcome,
            ) ==> outcome == Ok::<Expr, String>(exprs[i]),
        forall|args: Vec<Expr>, outcome: Result<Expr, CaughtPanic>|
            args@ == exprs && #[trigger] call.ensures((args,), outcome) ==> outcome == expected,
    ensures
        reply.code == 0,
        expected matches Ok(expr) ==> reply.expr == Some(expr),
        expected matches Err(caught) ==> reply.expr is Some && expr_view(reply.expr->Some_0)
            == caught.pretty_view(),
{
    if args_read(arg_count, param_count, fetch, parse, Err(reply)) {
        law_arguments_are_read(
            arg_count,
            param_count,
            fetch,
            parse,
            texts,
            exprs,
            Err(reply),
        );
    } else {
        let (args, outcome) = choose|args: Vec<Expr>, outcome: Result<Expr, CaughtPanic>|
            args_read(arg_count, param_count, fetch, parse, Ok(args@)) && #[trigger] call.ensures(
                (args,),
                outcome,
            ) && finished_as(outcome, reply);
        law_arguments_are_read(
            arg_count,
            param_count,
            fetch,
            parse,
            texts,
            exprs,
            Ok(args@),
        );
        law_outcome_is_answered(outcome, reply);
    }
}

/// An argument that is not UTF-8, behind arguments that are read, ends the call with the
/// code 1 and without a result.
pub proof fn law_call_with_bytes_that_are_not_utf8<
    R: Fn(usize) -> Vec<u8>,
    P: Fn(&str) -> Result<Expr, String>,
    C: FnOnce(Vec<Expr>) -> Result<Expr, CaughtPanic>,
>(
    arg_count: i64,
    param_count: usize,
    fetch: R,
    parse: P,
    call: C,
    texts: Seq<Seq<char>>,
    exprs: Seq<Expr>,
    reply: Reply,
)
    requires
        answered(arg_count, param_count, fetch, parse, call, reply),
        arg_count <= usize::MAX,
        texts.len() == exprs.len(),
        exprs.len() < param_count,
        exprs.len() < arg_count,
        forall|i: usize, bytes: Vec<u8>|
            i < exprs.len() && #[trigger] fetch.ensures((i,), bytes) ==> bytes@ == encode_utf8(
                texts[i as int],
            ),
        forall|i: int, string: &str, outcome: Result<Expr, String>|
            0 <= i < exprs.len() && #[trigger] texts[i] == string@ && #[trigger] parse.ensures(
                (string,),
                outcome,
            ) ==> outcome == Ok::<Expr, String>(exprs[i]),
        forall|i: usize, bytes: Vec<u8>|
            i == exprs.len() && #[trigger] fetch.ensures((i,), bytes)
                ==> !vstd::utf8::valid_utf8(bytes@),
    ensures
        reply == (Reply { code: 1u32, expr: None }),
{
    lemma_leading_arguments(fetch, parse, texts, exprs);
    let index = exprs.len() as int;
    let error = Reply { code: 1u32, expr: None };
    assert forall|r: Result<Expr, Reply>| #[trigger] arg_at(fetch, parse, index, r) implies r
        == Err::<Expr, Reply>(error) by {
        let bytes = choose|bytes: Vec<u8>| #[trigger]
            fetch.ensures((index as usize,), bytes) && arg_read(bytes@, parse, r);
        law_unreadable_bytes(bytes@, parse, r);
    }
    lemma_call_ends(arg_count, param_count, fetch, parse, call, index, error, reply);
}

/// A call that the argument at `index` ends with `error` is answered with `error`.
proof fn lemma_call_ends<
    R: Fn(usize) -> Vec<u8>,
    P: Fn(&str) -> Result<Expr, String>,
    C: FnOnce(Vec<Expr>) -> Result<Expr, CaughtPanic>,
>(
    arg_count: i64,
    param_count: usize,
    fetch: R,
    parse: P,
    call: C,
    index: int,
    error: Reply,
    reply: Reply,
)
    requires
        answered(arg_count, param_count, fetch, parse, call, reply),
        arg_count <= usize::MAX,
        0 <= index < param_count,
        index < arg_count,
        forall|i: int| 0 <= i < index ==> #[trigger] readable(fetch, parse, i),
        forall|r: Result<Expr, Reply>| #[trigger]
            arg_at(fetch, parse, index, r) ==> r == Err::<Expr, Reply>(error),
    ensures
        reply == error,
{
    if args_read(arg_count, param_count, fetch, parse, Err(reply)) {
        law_first_unreadable_argument_decides(
            arg_count,
            param_count,
            fetch,
            parse,
            index,
            error,
            Err(reply),
        );
    } else {
        let (args, outcome) = choose|args: Vec<Expr>, outcome: Result<Expr, CaughtPanic>|
            args_read(arg_count, param_count, fetch, parse, Ok(args@)) && #[trigger] call.ensures(
                (args,),
                outcome,
            ) && finished_as(outcome, reply);
        law_first_unreadable_argument_decides(
            arg_count,
            param_count,
            fetch,
            parse,
            index,
            error,
            Ok(args@),
        );
    }
}

/// An argument that does not parse, behind arguments that are read, ends the call without an
/// error code, and with the failure of the kind `"ParseError"` whose message describes the
/// error.
pub proof fn law_call_with_text_that_does_not_parse<
    R: Fn(usize) -> Vec<u8>,
    P: Fn(&str) -> Result<Expr, String>,
    C: FnOnce(Vec<Expr>) -> Result<Expr, CaughtPanic>,
>(
    arg_count: i64,
    param_count: usize,
    fetch: R,
    parse: P,
    call: C,
    texts: Seq<Seq<char>>,
    exprs: Seq<Expr>,
    description: Seq<char>,
    reply: Reply,
)
    requires
        answered(arg_count, param_count, fetch, parse, call, reply),
        arg_count <= usize::MAX,
        texts.len() == exprs.len() + 1,
        exprs.len() < param_count,
        exprs.len() < arg_count,
        forall|i: usize, bytes: Vec<u8>|
            i < exprs.len() && #[trigger] fetch.ensures((i,), bytes) ==> bytes@ == encode_utf8(
                texts[i as int],
            ),
        forall|i: int, string: &str, outcome: Result<Expr, String>|
            0 <= i < exprs.len() && #[trigger] texts[i] == string@ && #[trigger] parse.ensures(
                (string,),
                outcome,
            ) ==> outcome == Ok::<Expr, String>(exprs[i]),
        forall|i: usize, bytes: Vec<u8>|
            i == exprs.len() && #[trigger] fetch.ensures((i,), bytes) ==> bytes@ == encode_utf8(
                texts.last(),
            ),
        forall|string: &str, outcome: Result<Expr, String>|
            texts.last() == string@ && #[trigger] parse.ensures((string,), outcome) ==> outcome
                is Err && outcome->Err_0@ == description,
    ensures
        reply.code == 0,
        reply.expr is Some,
        expr_view(reply.expr->Some_0) == ExprView::Normal(
            Box::new(ExprView::Symbol("System`Failure"@)),
            seq![
                ExprView::String("ParseError"@),
                ExprView::Normal(
                    Box::new(ExprView::Symbol("System`Association"@)),
                    seq![
                        ExprView::Normal(
                            Box::new(ExprView::Symbol("System`Rule"@)),
                            seq![ExprView::String("Message"@), ExprView::String(description)],
                        ),
                    ],
                ),
            ],
        ),
{
    lemma_leading_arguments(fetch, parse, texts, exprs);
    let index = exprs.len() as int;
    assert forall|r: Result<Expr, Reply>| #[trigger] arg_at(fetch, parse, index, r) implies {
        &&& r is Err
        &&& r->Err_0.code == 0
        &&& r->Err_0.expr is Some
        &&& expr_view(r->Err_0.expr->Some_0) == ExprView::Normal(
            Box::new(ExprView::Symbol("System`Failure"@)),
            seq![
                ExprView::String("ParseError"@),
                ExprView::Normal(
                    Box::new(ExprView::Symbol("System`Association"@)),
                    seq![
                        ExprView::Normal(
                            Box::new(ExprView::Symbol("System`Rule"@)),
                            seq![ExprView::String("Message"@), ExprView::String(description)],
                        ),
                    ],
                ),
            ],
        )
    } by {
        let bytes = choose|bytes: Vec<u8>| #[trigger]
            fetch.ensures((index as usize,), bytes) && arg_read(bytes@, parse, r);
        law_whole_argument_is_parsed(texts.last(), parse, r);
    }
    if args_read(arg_count, param_count, fetch, parse, Err(reply)) {
        let read = choose|read: Seq<Expr>|
            read.len() < param_count && #[trigger] rejected_after(
                arg_count as int,
                fetch,
                parse,
                read,
                reply,
            );
        let at = read.len() as int;
        if at < index {
            assert(readable(fetch, parse, at));
            assert(arg_at(fetch, parse, at, Err(reply)));
        } else if at > index {
            assert(arg_at(fetch, parse, index, Ok(read[index])));
        } else {
            assert(arg_at(fetch, parse, index, Err(reply)));
        }
    } else {
        let (args, outcome) = choose|args: Vec<Expr>, outcome: Result<Expr, CaughtPanic>|
            args_read(arg_count, param_count, fetch, parse, Ok(args@)) && #[trigger] call.ensures(
                (args,),
                outcome,
            ) && finished_as(outcome, reply);
        assert(arg_at(fetch, parse, index, Ok(args@[index])));
    }
}

/// A call that lacks arguments, where those that it has are read, ends with the code 6 and
/// without a result.
pub proof fn law_call_that_lacks_arguments<
    R: Fn(usize) -> Vec<u8>,
    P: Fn(&str) -> Result<Expr, String>,
    C: FnOnce(Vec<Expr>) -> Result<Expr, CaughtPanic>,
>(
    arg_count: i64,
    param_count: usize,
    fetch: R,
    parse: P,
    call: C,
    texts: Seq<Seq<char>>,
    exprs: Seq<Expr>,
    reply: Reply,
)
    requires
        answered(arg_count, param_count, fetch, parse, call, reply),
        0 <= arg_count < param_count,
        texts.len() == arg_count,
        exprs.len() == arg_count,
        forall|i: usize, bytes: Vec<u8>|
            i < exprs.len() && #[trigger] fetch.ensures((i,), bytes) ==> bytes@ == encode_utf8(
                texts[i as int],
            ),
        forall|i: int, string: &str, outcome: Result<Expr, String>|
            0 <= i < exprs.len() && #[trigger] texts[i] == string@ && #[trigger] parse.ensures(
                (string,),
                outcome,
            ) ==> outcome == Ok::<Expr, String>(exprs[i]),
    ensures
        reply == (Reply { code: 6u32, expr: None }),
{
    lemma_leading_arguments(fetch, parse, texts, exprs);
    if args_read(arg_count, param_count, fetch, parse, Err(reply)) {
        law_too_few_arguments(arg_count, param_count, fetch, parse, Err(reply));
    } else {
        let (args, outcome) = choose|args: Vec<Expr>, outcome: Result<Expr, CaughtPanic>|
            args_read(arg_count, param_count, fetch, parse, Ok(args@)) && #[trigger] call.ensures(
                (args,),
                outcome,
            ) && finished_as(outcome, reply);
        law_too_few_arguments(arg_count, param_count, fetch, parse, Ok(args@));
    }
}

/// A call with a negative number of arguments ends with the code 6 and without a result.
pub proof fn law_call_with_negative_count<
    R: Fn(usize) -> Vec<u8>,
    P: Fn(&str) -> Result<Expr, String>,
    C: FnOnce(Vec<Expr>) -> Result<Expr, CaughtPanic>,
>(arg_count: i64, param_count: usize, fetch: R, parse: P, call: C, reply: Reply)
    requires
        answered(arg_count, param_count, fetch, parse, call, reply),
        arg_count < 0,
    ensures
        reply == (Reply { code: 6u32, expr: None }),
{
}

/// What reading the arguments gave is taken as it is: the same expressions in the same order,
/// or the same answer.
pub proof fn law_args_view_keeps_all(exprs: Vec<Expr>, reply: Reply)
    ensures
        args_view(Ok(exprs)) == Ok::<Seq<Expr>, Reply>(exprs@),
        args_view(Err(reply)) == Err::<Seq<Expr>, Reply>(reply),
{
}

} // verus!
