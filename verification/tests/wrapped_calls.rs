use std::cell::RefCell;

use wl_library_link::catch_panic::CaughtPanic;
use wl_library_link::wrapper::{call_wrapped, finish, read_arg, read_args, Reply};
use wl_library_link::{
    write_expr, LIBRARY_FUNCTION_ERROR, LIBRARY_NO_ERROR, LIBRARY_TYPE_ERROR,
};
use wolfram_expr::Expr;

fn parse(string: &str) -> Result<Expr, String> {
    match string.parse::<i64>() {
        Ok(int) => Ok(Expr::from(int)),
        Err(_) => Err(format!("not an integer: {}", string)),
    }
}

fn written(reply: Reply) -> String {
    let mut buffer = write_expr(reply.expr.unwrap()).unwrap();
    assert_eq!(buffer.pop(), Some(0));
    String::from_utf8(buffer).unwrap()
}

fn sum(args: Vec<Expr>) -> Result<Expr, CaughtPanic> {
    Ok(Expr::normal(wolfram_expr::Symbol::new("System`Plus"), args))
}

#[test]
fn function_is_run_on_its_arguments() {
    let args = ["1".as_bytes().to_vec(), "22".as_bytes().to_vec()];
    let reply = call_wrapped(2, 2, &|i: usize| args[i].clone(), &parse, sum);
    assert_eq!(reply.code, LIBRARY_NO_ERROR);
    assert_eq!(written(reply), "System`Plus[1, 22]");
}

#[test]
fn further_arguments_are_not_fetched() {
    let fetched = RefCell::new(vec![]);
    let fetch = |i: usize| {
        fetched.borrow_mut().push(i);
        b"7".to_vec()
    };
    assert_eq!(read_args(5, 2, &fetch, &parse).ok().unwrap().len(), 2);
    assert_eq!(*fetched.borrow(), vec![0, 1]);
}

#[test]
fn function_without_parameters_is_run() {
    let reply = call_wrapped(0, 0, &|_: usize| vec![], &parse, sum);
    assert_eq!(reply.code, LIBRARY_NO_ERROR);
    assert_eq!(written(reply), "System`Plus[]");
}

#[test]
fn negative_argument_count_is_a_function_error() {
    let reply = call_wrapped(-1, 0, &|_: usize| vec![], &parse, sum);
    assert_eq!(reply.code, LIBRARY_FUNCTION_ERROR);
    assert!(reply.expr.is_none());
}

#[test]
fn too_few_arguments_are_a_function_error() {
    let reply = call_wrapped(1, 2, &|_: usize| b"1".to_vec(), &parse, |_args| {
        panic!("the function must not run")
    });
    assert_eq!(reply.code, LIBRARY_FUNCTION_ERROR);
    assert!(reply.expr.is_none());
}

#[test]
fn argument_that_is_not_utf8_is_a_type_error() {
    let args = [b"1".to_vec(), vec![0xff]];
    let reply = call_wrapped(2, 2, &|i: usize| args[i].clone(), &parse, sum);
    assert_eq!(reply.code, LIBRARY_TYPE_ERROR);
    assert!(reply.expr.is_none());
    assert_eq!(
        read_arg(&[0xff], &parse).err().unwrap().code,
        LIBRARY_TYPE_ERROR
    );
}

#[test]
fn argument_that_does_not_parse_is_answered_with_a_failure() {
    let args = [b"1".to_vec(), b"x".to_vec(), vec![0xff]];
    let reply = call_wrapped(3, 3, &|i: usize| args[i].clone(), &parse, sum);
    assert_eq!(reply.code, LIBRARY_NO_ERROR);
    assert_eq!(
        written(reply),
        "System`Failure[\"ParseError\", System`Association[System`Rule[\"Message\", \"not an integer: x\"]]]"
    );
}

#[test]
fn first_unreadable_argument_decides() {
    let args = [vec![0xff], b"x".to_vec()];
    let fetched = RefCell::new(0);
    let fetch = |i: usize| {
        *fetched.borrow_mut() += 1;
        args[i].clone()
    };
    let reply = read_args(2, 3, &fetch, &parse).err().unwrap();
    assert_eq!(reply.code, LIBRARY_TYPE_ERROR);
    assert_eq!(*fetched.borrow(), 1);
}

#[test]
fn panic_is_answered_with_a_failure() {
    let caught = CaughtPanic {
        message: Some("boom".to_string()),
        location: Some("a.rs:3:4".to_string()),
        backtrace: None,
    };
    let reply = call_wrapped(0, 0, &|_: usize| vec![], &parse, |_args| Err(caught));
    assert_eq!(reply.code, LIBRARY_NO_ERROR);
    assert_eq!(
        written(reply),
        "System`Failure[\"Panic\", System`Association[System`Rule[\"Message\", \"boom\"], System`Rule[\"SourceLocation\", \"a.rs:3:4\"]]]"
    );
}

#[test]
fn result_is_answered() {
    let reply = finish(Ok(Expr::from(4)));
    assert_eq!(reply.code, LIBRARY_NO_ERROR);
    assert_eq!(written(reply), "4");
}
