//! Wolfram expressions: building the failures that the library reports, and printing.

use vstd::prelude::*;
use wolfram_expr::{Expr, Symbol};

verus! {

/// A Wolfram expression of the `wolfram_expr` crate. What it holds is its
/// [view](expr_view).
#[verifier::external_type_specification]
#[verifier::external_body]
pub struct ExExpr(wolfram_expr::Expr);

/// What an expression holds.
pub enum ExprView {
    /// A symbol, with its context.
    Symbol(Seq<char>),
    /// A string.
    String(Seq<char>),
    /// A number, given by the way it prints.
    Number(Seq<char>),
    /// A head applied to elements.
    Normal(Box<ExprView>, Seq<ExprView>),
}

/// What a `wolfram_expr::Expr` holds.
pub uninterp spec fn expr_view(expr: wolfram_expr::Expr) -> ExprView;

/// The printed form of a string expression: the string in double quotes, with the
/// characters escaped that need it.
pub uninterp spec fn string_text(string: Seq<char>) -> Seq<char>;

impl ExprView {
    /// The printed form: that of an atom, or `head[e1, e2, ...]`.
    pub open spec fn text(self) -> Seq<char>
        decreases self,
    {
        match self {
            ExprView::Symbol(name) => name,
            ExprView::String(string) => string_text(string),
            ExprView::Number(digits) => digits,
            ExprView::Normal(head, elements) => head.text() + seq!['[']
                + ExprView::comma_separated(elements) + seq![']'],
        }
    }

    /// The printed forms of `elements`, separated by a comma and a space.
    pub open spec fn comma_separated(elements: Seq<ExprView>) -> Seq<char>
        decreases elements,
    {
        if elements.len() == 0 {
            seq![]
        } else if elements.len() == 1 {
            elements[0].text()
        } else {
            ExprView::comma_separated(elements.subrange(0, elements.len() - 1)) + seq![',', ' ']
                + elements[elements.len() - 1].text()
        }
    }
}

/// What each of `exprs` holds.
pub open spec fn expr_views(exprs: Seq<Expr>) -> Seq<ExprView> {
    exprs.map_values(|expr: Expr| expr_view(expr))
}

/// `c` is one of the letters `a` to `z` and `A` to `Z`.
pub open spec fn is_letter(c: char) -> bool {
    'a' <= c <= 'z' || 'A' <= c <= 'Z'
}

/// `name` is the context ``System` `` followed by one or more letters.
pub open spec fn is_system_symbol(name: Seq<char>) -> bool {
    &&& name.len() > 7
    &&& name.take(7) == seq!['S', 'y', 's', 't', 'e', 'm', '`']
    &&& forall|i: int| 7 <= i < name.len() ==> is_letter(#[trigger] name[i])
}

/// Makes a symbol expression with `wolfram_expr::Expr::symbol`, of a symbol made with
/// `wolfram_expr::Symbol::new`. That function panics on a name that is not an absolute
/// symbol; a context and letters are one.
#[verifier::external_body]
fn symbol_expr(name: &str) -> (expr: Expr)
    requires
        is_system_symbol(name@),
    ensures
        expr_view(expr) == ExprView::Symbol(name@),
{
    Expr::symbol(Symbol::new(name))
}

/// Makes a string expression with `wolfram_expr::Expr::string`. It holds the string.
#[verifier::external_body]
fn string_expr(string: &str) -> (expr: Expr)
    ensures
        expr_view(expr) == ExprView::String(string@),
{
    Expr::string(string)
}

/// Makes a normal expression with `wolfram_expr::Expr::normal`. It holds its head and its
/// elements, in their order.
#[verifier::external_body]
fn normal_expr(head: Expr, contents: Vec<Expr>) -> (expr: Expr)
    ensures
        expr_view(expr) == ExprView::Normal(Box::new(expr_view(head)), expr_views(contents@)),
{
    Expr::normal(head, contents)
}

/// Prints an expression with `Display` for `wolfram_expr::Expr`. A symbol prints as its
/// name. A string prints in a way that depends on the string alone, named [`string_text`]:
/// it is the string's `Debug` form; which characters are escaped, and how, is left unsaid.
/// A normal expression prints as its head, and in square brackets its elements, separated by
/// commas. How a number prints is left unsaid: its view holds just that.
#[verifier::external_body]
pub(crate) fn print_expr(expr: &Expr) -> (text: String)
    ensures
        text@ == expr_view(*expr).text(),
        expr_view(*expr) matches ExprView::String(string) ==> text@ == string_text(string),
{
    format!("{}", expr)
}

/// The expression `head[elements]`, where `head` is a symbol.
pub open spec fn call_view(head: Seq<char>, elements: Seq<ExprView>) -> ExprView {
    ExprView::Normal(Box::new(ExprView::Symbol(head)), elements)
}

/// The rule `key -> value` between two strings.
pub open spec fn rule_view(key: Seq<char>, value: Seq<char>) -> ExprView {
    call_view("System`Rule"@, seq![ExprView::String(key), ExprView::String(value)])
}

/// The failure `Failure[kind, <| rules |>]`.
pub open spec fn failure_view(kind: Seq<char>, rules: Seq<ExprView>) -> ExprView {
    call_view(
        "System`Failure"@,
        seq![ExprView::String(kind), call_view("System`Association"@, rules)],
    )
}

/// The failure `Failure[kind, <| "Message" -> message |>]`.
pub open spec fn message_failure_view(kind: Seq<char>, message: Seq<char>) -> ExprView {
    failure_view(kind, seq![rule_view("Message"@, message)])
}

/// The rule `key -> value` between two strings.
pub(crate) fn rule_expr(key: &str, value: &str) -> (rule: Expr)
    ensures
        expr_view(rule) == rule_view(key@, value@),
{
    proof {
        reveal_strlit("System`Rule");
        assert("System`Rule"@.take(7) =~= seq!['S', 'y', 's', 't', 'e', 'm', '`']);
    }
    let sides = vec![string_expr(key), string_expr(value)];
    assert(expr_views(sides@) =~= seq![ExprView::String(key@), ExprView::String(value@)]);
    normal_expr(symbol_expr("System`Rule"), sides)
}

/// The failure `Failure[kind, <| rules |>]`.
pub(crate) fn failure_of_rules(kind: &str, rules: Vec<Expr>) -> (failure: Expr)
    ensures
        expr_view(failure) == failure_view(kind@, expr_views(rules@)),
{
    proof {
        reveal_strlit("System`Failure");
        reveal_strlit("System`Association");
        assert("System`Failure"@.take(7) =~= seq!['S', 'y', 's', 't', 'e', 'm', '`']);
        assert("System`Association"@.take(7) =~= seq!['S', 'y', 's', 't', 'e', 'm', '`']);
    }
    let ghost rule_views = expr_views(rules@);
    let assoc = normal_expr(symbol_expr("System`Association"), rules);
    let parts = vec![string_expr(kind), assoc];
    assert(expr_views(parts@) =~= seq![
        ExprView::String(kind@),
        call_view("System`Association"@, rule_views),
    ]);
    normal_expr(symbol_expr("System`Failure"), parts)
}

/// The failure `Failure[kind, <| "Message" -> message |>]`.
pub fn failure_expr(kind: &str, message: String) -> (failure: Expr)
    ensures
        expr_view(failure) == message_failure_view(kind@, message@),
{
    let rules = vec![rule_expr("Message", message.as_str())];
    assert(expr_views(rules@) =~= seq![rule_view("Message"@, message@)]);
    failure_of_rules(kind, rules)
}

/// A failure with a message prints as
/// ``System`Failure[kind, System`Association[System`Rule["Message", message]]]``, with `kind`
/// and `message` as strings print.
pub proof fn law_failure_prints(kind: Seq<char>, message: Seq<char>)
    ensures
        message_failure_view(kind, message).text() == "System`Failure["@ + string_text(kind)
            + ", System`Association[System`Rule["@ + string_text("Message"@) + ", "@
            + string_text(message) + "]]]"@,
{
    reveal_strlit("System`Failure");
    reveal_strlit("System`Association");
    reveal_strlit("System`Rule");
    reveal_strlit("System`Failure[");
    reveal_strlit(", System`Association[System`Rule[");
    reveal_strlit(", ");
    reveal_strlit("]]]");
    reveal_with_fuel(ExprView::text, 2);
    reveal_with_fuel(ExprView::comma_separated, 2);
    lemma_pair_text(ExprView::String("Message"@), ExprView::String(message));
    let rule = rule_view("Message"@, message);
    assert(rule.text() =~= "System`Rule"@ + seq!['['] + string_text("Message"@) + seq![',', ' ']
        + string_text(message) + seq![']']);
    let assoc = call_view("System`Association"@, seq![rule]);
    assert(assoc.text() == "System`Association"@ + seq!['['] + rule.text() + seq![']']);
    lemma_pair_text(ExprView::String(kind), assoc);
    assert(message_failure_view(kind, message).text() =~= "System`Failure["@ + string_text(kind)
        + ", System`Association[System`Rule["@ + string_text("Message"@) + ", "@ + string_text(
        message,
    ) + "]]]"@);
}

/// A rule prints as ``System`Rule[key, value]``.
pub(crate) proof fn lemma_rule_text(key: Seq<char>, value: Seq<char>)
    ensures
        rule_view(key, value).text() == "System`Rule["@ + string_text(key) + ", "@ + string_text(
            value,
        ) + "]"@,
{
    reveal_strlit("System`Rule");
    reveal_strlit("System`Rule[");
    reveal_strlit(", ");
    reveal_strlit("]");
    reveal_with_fuel(ExprView::text, 2);
    lemma_pair_text(ExprView::String(key), ExprView::String(value));
    assert(rule_view(key, value).text() =~= "System`Rule["@ + string_text(key) + ", "@
        + string_text(value) + "]"@);
}

/// A failure prints as ``System`Failure[kind, System`Association[rules]]``.
pub(crate) proof fn lemma_failure_text(kind: Seq<char>, rules: Seq<ExprView>)
    ensures
        failure_view(kind, rules).text() == "System`Failure"@ + seq!['['] + (string_text(kind)
            + seq![',', ' '] + ("System`Association"@ + seq!['['] + ExprView::comma_separated(rules)
            + seq![']'])) + seq![']'],
{
    reveal_with_fuel(ExprView::text, 2);
    lemma_pair_text(ExprView::String(kind), call_view("System`Association"@, rules));
}

/// Two elements print with a comma and a space between them.
pub(crate) proof fn lemma_pair_text(a: ExprView, b: ExprView)
    ensures
        ExprView::comma_separated(seq![a, b]) == a.text() + seq![',', ' '] + b.text(),
{
    reveal_with_fuel(ExprView::comma_separated, 2);
    assert(seq![a, b].subrange(0, 1) =~= seq![a]);
    assert(ExprView::comma_separated(seq![a]) == a.text());
}

/// A symbol prints as its name, a string as [`string_text`] says, and a number as its digits.
pub proof fn law_atoms_print(chars: Seq<char>)
    ensures
        ExprView::Symbol(chars).text() == chars,
        ExprView::String(chars).text() == string_text(chars),
        ExprView::Number(chars).text() == chars,
{
}

/// A normal expression prints as its head, followed by its elements in square brackets.
pub proof fn law_normal_prints(head: ExprView, elements: Seq<ExprView>)
    ensures
        ExprView::Normal(Box::new(head), elements).text() == head.text() + "["@
            + ExprView::comma_separated(elements) + "]"@,
{
    reveal_strlit("[");
    reveal_strlit("]");
    assert("["@ =~= seq!['[']);
    assert("]"@ =~= seq![']']);
}

/// No elements print as nothing, a single element as itself, and each further element after
/// those before it, with a comma and a space in between.
pub proof fn law_elements_print(elements: Seq<ExprView>, last: ExprView)
    ensures
        ExprView::comma_separated(seq![]) == Seq::<char>::empty(),
        ExprView::comma_separated(seq![last]) == last.text(),
        elements.len() > 0 ==> ExprView::comma_separated(elements.push(last))
            == ExprView::comma_separated(elements) + ", "@ + last.text(),
{
    reveal_strlit(", ");
    assert(", "@ =~= seq![',', ' ']);
    let all = elements.push(last);
    assert(all.subrange(0, all.len() - 1) =~= elements);
}

/// A rule holds the symbol ``System`Rule`` applied to its two strings.
pub proof fn law_rule_holds(key: Seq<char>, value: Seq<char>)
    ensures
        rule_view(key, value) == ExprView::Normal(
            Box::new(ExprView::Symbol("System`Rule"@)),
            seq![ExprView::String(key), ExprView::String(value)],
        ),
{
}

/// A failure holds its kind and the association of its rules, all of them and in order.
pub proof fn law_failure_holds(kind: Seq<char>, rules: Seq<ExprView>)
    ensures
        failure_view(kind, rules) == ExprView::Normal(
            Box::new(ExprView::Symbol("System`Failure"@)),
            seq![
                ExprView::String(kind),
                ExprView::Normal(Box::new(ExprView::Symbol("System`Association"@)), rules),
            ],
        ),
{
}

/// A failure with a message holds its kind, and the rule from `"Message"` to the message as
/// its only rule.
pub proof fn law_message_failure_holds(kind: Seq<char>, message: Seq<char>)
    ensures
        message_failure_view(kind, message) == ExprView::Normal(
            Box::new(ExprView::Symbol("System`Failure"@)),
            seq![
                ExprView::String(kind),
                ExprView::Normal(
                    Box::new(ExprView::Symbol("System`Association"@)),
                    seq![
                        ExprView::Normal(
                            Box::new(ExprView::Symbol("System`Rule"@)),
                            seq![ExprView::String("Message"@), ExprView::String(message)],
                        ),
                    ],
                ),
            ],
        ),
{
}

/// The views of expressions are those of each of them, in order.
pub proof fn law_views_of_each(exprs: Seq<Expr>, i: int)
    requires
        0 <= i < exprs.len(),
    ensures
        expr_views(exprs).len() == exprs.len(),
        expr_views(exprs)[i] == expr_view(exprs[i]),
{
}

} // verus!
