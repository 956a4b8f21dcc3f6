//! Panics of the code that a library function runs: what is kept of each, and which one is
//! reported for a call that panicked.

use std::collections::HashMap;

use vstd::prelude::*;
use wolfram_expr::Expr;

use crate::expr::{
    expr_view, expr_views, failure_of_rules, failure_view, rule_expr, rule_view, string_text, ExprView,
};

verus! {

broadcast use vstd::std_specs::hash::group_hash_axioms;

/// Name of the environment variable that configures whether the failure that reports a
/// panic shows a backtrace.
pub const BACKTRACE_ENV_VAR: &'static str = "LIBRARY_LINK_RUST_BACKTRACE";

/// The value `setting` of the variable [`BACKTRACE_ENV_VAR`] asks for backtraces.
pub open spec fn asks_for_backtrace(setting: Option<Seq<char>>) -> bool {
    setting == Some("True"@)
}

/// Whether the value `setting` of the variable [`BACKTRACE_ENV_VAR`], if it is set, asks
/// for backtraces.
pub fn backtrace_enabled(setting: Option<&str>) -> (enabled: bool)
    ensures
        enabled <==> (setting matches Some(value) && value@ == "True"@),
        setting matches Some(value) ==> enabled == asks_for_backtrace(Some(value@)),
        setting is None ==> enabled == asks_for_backtrace(None),
{
    match setting {
        Some(value) => value.to_string() == "True".to_string(),
        None => false,
    }
}

/// What is known of a panic that was caught.
pub struct CaughtPanic {
    /// Note: In certain circumstances, this message will NOT match the message used
    ///       in panic!(). This can happen when user code changes the panic hook, or when
    ///       the panic occurs in a different thread from the one that the call was made in.
    ///
    ///       An inaccurate instance of `CaughtPanic` can also be reported when panics
    ///       occur in multiple threads at once.
    pub message: Option<String>,
    /// Source file, line and column of the panic.
    pub location: Option<String>,
    /// Backtrace of the panic, where backtraces are enabled.
    pub backtrace: Option<String>,
}

/// A copy of an optional string.
fn clone_text(text: &Option<String>) -> (copy: Option<String>)
    ensures
        copy == *text,
{
    match text {
        Some(string) => Some(string.clone()),
        None => None,
    }
}

impl Clone for CaughtPanic {
    fn clone(&self) -> (copy: CaughtPanic)
        ensures
            copy == *self,
    {
        CaughtPanic {
            message: clone_text(&self.message),
            location: clone_text(&self.location),
            backtrace: clone_text(&self.backtrace),
        }
    }
}

/// The text, or `default` where there is none.
pub open spec fn text_or(text: Option<String>, default: Seq<char>) -> Seq<char> {
    match text {
        Some(string) => string@,
        None => default,
    }
}

impl CaughtPanic {
    /// The rules that describe this panic.
    pub open spec fn rule_views(self) -> Seq<ExprView> {
        let rules = seq![
            rule_view("Message"@, text_or(self.message, "Rust panic (no message)"@)),
            rule_view("SourceLocation"@, text_or(self.location, "Unknown"@)),
        ];
        match self.backtrace {
            Some(backtrace) => rules.push(rule_view("Backtrace"@, backtrace@)),
            None => rules,
        }
    }

    /// What the failure that reports this panic holds.
    pub open spec fn pretty_view(self) -> ExprView {
        failure_view("Panic"@, self.rule_views())
    }

    /// The failure `Failure["Panic", <| "Message" -> .., "SourceLocation" -> .. |>]` that
    /// reports this panic. It has the further rule `"Backtrace" -> ..` if there is a
    /// backtrace.
    pub fn to_pretty_expr(&self) -> (failure: Expr)
        ensures
            expr_view(failure) == failure_view("Panic"@, self.rule_views()),
            expr_view(failure) == self.pretty_view(),
    {
        let message = match &self.message {
            Some(message) => message.as_str(),
            None => "Rust panic (no message)",
        };
        let location = match &self.location {
            Some(location) => location.as_str(),
            None => "Unknown",
        };
        let mut rules: Vec<Expr> = Vec::new();
        rules.push(rule_expr("Message", message));
        rules.push(rule_expr("SourceLocation", location));
        if let Some(backtrace) = &self.backtrace {
            rules.push(rule_expr("Backtrace", backtrace.as_str()));
        }
        assert(expr_views(rules@) =~= self.rule_views());
        failure_of_rules("Panic", rules)
    }
}

/// The panics that were caught and not yet reported: for each thread the last one, with
/// the time at which it occurred.
pub struct CaughtPanics {
    panics: HashMap<u64, (u128, CaughtPanic)>,
}

impl View for CaughtPanics {
    type V = Map<u64, (u128, CaughtPanic)>;

    closed spec fn view(&self) -> Map<u64, (u128, CaughtPanic)> {
        self.panics@
    }
}

impl CaughtPanics {
    /// No panics.
    pub fn new() -> (panics: CaughtPanics)
        ensures
            panics@ == Map::<u64, (u128, CaughtPanic)>::empty(),
    {
        CaughtPanics { panics: HashMap::new() }
    }
}

/// `message` is the message of a panic with the payload `payload`, where that is a string
/// literal, and the formatted message `formatted`.
pub open spec fn is_message(
    payload: Option<&str>,
    formatted: Option<String>,
    message: Option<String>,
) -> bool {
    match payload {
        Some(string) => message matches Some(text) && text@ == string@,
        None => message == formatted,
    }
}

/// The message of a panic: its payload where that is a string literal, else its formatted
/// message where it has one.
pub fn panic_message(payload: Option<&str>, formatted: Option<String>) -> (message: Option<String>)
    ensures
        match payload {
            Some(string) => message matches Some(text) && text@ == string@,
            None => message == formatted,
        },
        is_message(payload, formatted, message),
{
    match payload {
        Some(string) => Some(string.to_string()),
        None => formatted,
    }
}

/// What a panic hook is told of a panic.
pub struct PanicReport<'a> {
    /// The panicking thread.
    pub thread: u64,
    /// When the panic occurred.
    pub time: u128,
    /// The payload, where it is a string literal.
    pub payload: Option<&'a str>,
    /// The formatted message.
    pub formatted: Option<String>,
    /// Source file, line and column of the panic.
    pub location: Option<String>,
    /// Backtrace of the panic, where backtraces are enabled.
    pub backtrace: Option<String>,
}

impl<'a> PanicReport<'a> {
    /// `caught` is what is kept of this report.
    pub open spec fn kept_as(self, caught: CaughtPanic) -> bool {
        &&& match self.payload {
            Some(string) => caught.message matches Some(text) && text@ == string@,
            None => caught.message == self.formatted,
        }
        &&& caught.location == self.location
        &&& caught.backtrace == self.backtrace
    }
}

/// `after` are the panics that are known of once a hook was told of `report`, where
/// `before` were known of.
pub open spec fn hooked(
    before: Map<u64, (u128, CaughtPanic)>,
    report: PanicReport,
    after: Map<u64, (u128, CaughtPanic)>,
) -> bool {
    &&& after.contains_key(report.thread)
    &&& report.kept_as(after[report.thread].1)
    &&& after == before.insert(report.thread, (report.time, after[report.thread].1))
}

/// Keep what is known of a panic for the thread that panicked, in place of any earlier
/// panic of that thread.
///
/// There is an earlier one where user code caught it before it reached the library.
pub fn custom_hook(panics: &mut CaughtPanics, report: PanicReport)
    ensures
        final(panics)@.contains_key(report.thread),
        report.kept_as(final(panics)@[report.thread].1),
        final(panics)@ == old(panics)@.insert(
            report.thread,
            (report.time, final(panics)@[report.thread].1),
        ),
        hooked(old(panics)@, report, final(panics)@),
{
    let caught = CaughtPanic {
        message: panic_message(report.payload, report.formatted),
        location: report.location,
        backtrace: report.backtrace,
    };
    let _previous = panics.panics.insert(report.thread, (report.time, caught));
}

/// The message that is reported where a call panicked and no panic is known of.
pub open spec fn interrupted_text() -> Seq<char> {
    "could not get panic info for current thread. Operation of custom panic hook was interrupted"@
}

/// `reported` says that no panic is known of.
pub open spec fn says_interrupted(reported: CaughtPanic) -> bool {
    &&& reported.message matches Some(text) && text@ == interrupted_text()
    &&& reported.location is None
    &&& reported.backtrace is None
}

/// `latest` is the most recent of `panics`, or one of the most recent.
pub open spec fn is_latest(panics: Map<u64, (u128, CaughtPanic)>, latest: CaughtPanic) -> bool {
    exists|thread: u64| #[trigger]
        panics.contains_key(thread) && panics[thread].1 == latest && forall|other: u64| #[trigger]
            panics.contains_key(other) ==> panics[other].0 <= panics[thread].0
}

/// `reported` is the panic to report for a call in `thread` that panicked, where `panics`
/// are known of: the panic of that thread; if it has none, the most recent one; and if
/// there are none at all, one with a message that says so.
pub open spec fn is_reported(
    panics: Map<u64, (u128, CaughtPanic)>,
    thread: u64,
    reported: CaughtPanic,
) -> bool {
    if panics.contains_key(thread) {
        reported == panics[thread].1
    } else if panics.dom().is_empty() {
        says_interrupted(reported)
    } else {
        is_latest(panics, reported)
    }
}

/// The most recent of `panics`, if there are any.
fn latest_panic(panics: &CaughtPanics) -> (latest: Option<CaughtPanic>)
    ensures
        match latest {
            Some(caught) => !panics@.dom().is_empty() && is_latest(panics@, caught),
            None => panics@.dom().is_empty(),
        },
{
    let entries = panics.panics.iter();
    let ghost walked = vstd::std_specs::iter::IteratorSpec::remaining(&entries);
    let mut best: Option<(u128, &CaughtPanic)> = None;
    for entry in iter: entries
        invariant
            iter.seq() == walked,
            walked.len() == panics@.dom().len(),
            forall|i: int|
                0 <= i < walked.len() ==> panics@.contains_key(*(#[trigger] walked[i]).0)
                    && panics@[*walked[i].0] == *walked[i].1,
            iter.index() > 0 ==> best is Some,
            best matches Some((time, caught)) ==> exists|thread: u64| #[trigger]
                panics@.contains_key(thread) && panics@[thread] == (time, *caught),
            best matches Some((time, _)) ==> forall|i: int|
                0 <= i < iter.index() ==> (#[trigger] walked[i]).1.0 <= time,
    {
        let (_thread, value) = entry;
        let replace = match best {
            Some((time, _)) => value.0 >= time,
            None => true,
        };
        if replace {
            best = Some((value.0, &value.1));
        }
    }
    proof {
        assert forall|other: u64| #[trigger] panics@.contains_key(other) implies best is Some
            && panics@[other].0 <= best->Some_0.0 by {
            assert(walked.contains((&other, &panics@[other])));
        }
    }
    match best {
        Some((_time, caught)) => Some(caught.clone()),
        None => None,
    }
}

/// The panics that are known of once one was reported for a call in `thread`.
pub open spec fn after_report(
    panics: Map<u64, (u128, CaughtPanic)>,
    thread: u64,
) -> Map<u64, (u128, CaughtPanic)> {
    panics.remove(thread)
}

/// The panic to report for a call in `thread` that panicked. A panic of that thread is
/// reported once: it is no longer known of afterwards.
pub fn get_caught_panic(panics: &mut CaughtPanics, thread: u64) -> (reported: CaughtPanic)
    ensures
        is_reported(old(panics)@, thread, reported),
        final(panics)@ == old(panics)@.remove(thread),
        final(panics)@ == after_report(old(panics)@, thread),
{
    match panics.panics.remove(&thread) {
        Some((_time, caught)) => caught,
        None => {
            // A panic in a thread spawned by the current thread is known of under the other
            // thread, but still "bubbled up" across thread boundaries. It's rare that
            // panics occur in multiple threads at the same time: pick the most recent one,
            // and hope it's the right one.
            assert(old(panics)@.remove(thread) =~= old(panics)@);
            match latest_panic(panics) {
                Some(caught) => caught,
                // This can occur when user code sets its own panic hook, but fails to
                // restore the previous one.
                None => CaughtPanic {
                    message: Some(
                        "could not get panic info for current thread. Operation of custom panic hook was interrupted".to_string(),
                    ),
                    location: None,
                    backtrace: None,
                },
            }
        },
    }
}

/// `result` is the result of a call in `thread` with the outcome `outcome`, where `before`
/// are the panics that are known of, and `after` those that are left.
pub open spec fn is_result<T>(
    outcome: Result<T, ()>,
    before: Map<u64, (u128, CaughtPanic)>,
    thread: u64,
    after: Map<u64, (u128, CaughtPanic)>,
    result: Result<T, CaughtPanic>,
) -> bool {
    match outcome {
        Ok(value) => result == Ok::<T, CaughtPanic>(value) && after == before,
        Err(_) => {
            &&& result matches Err(reported) && is_reported(before, thread, reported)
            &&& after == after_report(before, thread)
        },
    }
}

/// The result of a call in `thread` that either returned a value or panicked: the value, or
/// the panic to report.
pub fn caught_result<T>(outcome: Result<T, ()>, panics: &mut CaughtPanics, thread: u64) -> (result:
    Result<T, CaughtPanic>)
    ensures
        match outcome {
            Ok(value) => result == Ok::<T, CaughtPanic>(value) && final(panics)@ == old(panics)@,
            Err(_) => {
                &&& result matches Err(reported) && is_reported(old(panics)@, thread, reported)
                &&& final(panics)@ == old(panics)@.remove(thread)
            },
        },
        is_result(outcome, old(panics)@, thread, final(panics)@, result),
{
    match outcome {
        Ok(value) => Ok(value),
        Err(_) => Err(get_caught_panic(panics, thread)),
    }
}

/// The panics that are known of once those of `later` have been added, each given by its
/// thread, its time and what is kept of it.
pub open spec fn after_panics(
    panics: Map<u64, (u128, CaughtPanic)>,
    later: Seq<(u64, u128, CaughtPanic)>,
) -> Map<u64, (u128, CaughtPanic)>
    decreases later.len(),
{
    if later.len() == 0 {
        panics
    } else {
        let (thread, time, caught) = later.last();
        after_panics(panics, later.drop_last()).insert(thread, (time, caught))
    }
}

/// Panics of other threads leave what is known of a thread's own panic as it is.
proof fn lemma_other_threads(
    panics: Map<u64, (u128, CaughtPanic)>,
    thread: u64,
    later: Seq<(u64, u128, CaughtPanic)>,
)
    requires
        panics.contains_key(thread),
        forall|i: int| 0 <= i < later.len() ==> (#[trigger] later[i]).0 != thread,
    ensures
        after_panics(panics, later).contains_key(thread),
        after_panics(panics, later)[thread] == panics[thread],
    decreases later.len(),
{
    if later.len() > 0 {
        assert(later.last() == later[later.len() - 1]);
        assert forall|i: int| 0 <= i < later.drop_last().len() implies (
        #[trigger] later.drop_last()[i]).0 != thread by {
            assert(later.drop_last()[i] == later[i]);
        }
        lemma_other_threads(panics, thread, later.drop_last());
    }
}

/// A call that panics in its own thread is answered with that panic, whatever was known of
/// before, and whatever panics occur in other threads in between.
pub proof fn law_own_panic_is_reported(
    panics: Map<u64, (u128, CaughtPanic)>,
    thread: u64,
    time: u128,
    caught: CaughtPanic,
    later: Seq<(u64, u128, CaughtPanic)>,
    reported: CaughtPanic,
)
    requires
        forall|i: int| 0 <= i < later.len() ==> (#[trigger] later[i]).0 != thread,
    ensures
        is_reported(
            after_panics(panics.insert(thread, (time, caught)), later),
            thread,
            reported,
        ) <==> reported == caught,
{
    lemma_other_threads(panics.insert(thread, (time, caught)), thread, later);
}

/// Where a single panic is known of, it is reported, in whichever thread it occurred.
pub proof fn law_lone_panic_is_reported(
    panicked: u64,
    time: u128,
    caught: CaughtPanic,
    thread: u64,
    reported: CaughtPanic,
)
    ensures
        is_reported(
            Map::<u64, (u128, CaughtPanic)>::empty().insert(panicked, (time, caught)),
            thread,
            reported,
        ) <==> reported == caught,
{
    let panics = Map::<u64, (u128, CaughtPanic)>::empty().insert(panicked, (time, caught));
    assert(panics.contains_key(panicked));
    assert(panics.dom().contains(panicked));
}

/// A call in a thread of which no panic is known is answered with the most recent panic,
/// if one is more recent than all others.
pub proof fn law_most_recent_panic_is_reported(
    panics: Map<u64, (u128, CaughtPanic)>,
    thread: u64,
    latest: u64,
    reported: CaughtPanic,
)
    requires
        !panics.contains_key(thread),
        panics.contains_key(latest),
        forall|other: u64| #[trigger]
            panics.contains_key(other) && other != latest ==> panics[other].0 < panics[latest].0,
    ensures
        is_reported(panics, thread, reported) <==> reported == panics[latest].1,
{
    assert(panics.dom().contains(latest));
}

/// A thread's own panic is reported once: asked again, the most recent panic of another
/// thread is reported, or that none is known of.
pub proof fn law_own_panic_is_reported_once(
    panics: Map<u64, (u128, CaughtPanic)>,
    thread: u64,
    again: CaughtPanic,
)
    ensures
        is_reported(after_report(panics, thread), thread, again) <==> if after_report(
            panics,
            thread,
        ).dom().is_empty() {
            says_interrupted(again)
        } else {
            is_latest(after_report(panics, thread), again)
        },
{
}

/// Reporting the panic of one thread leaves what is reported of the panic of another.
pub proof fn law_reports_are_independent(
    panics: Map<u64, (u128, CaughtPanic)>,
    thread: u64,
    other: u64,
    reported: CaughtPanic,
)
    requires
        other != thread,
        panics.contains_key(other),
    ensures
        is_reported(after_report(panics, thread), other, reported) <==> is_reported(
            panics,
            other,
            reported,
        ),
{
}

/// Backtraces are asked for by the value `True`, and by no other value or the lack of one.
pub proof fn law_only_true_asks_for_backtraces(value: Seq<char>)
    ensures
        asks_for_backtrace(Some(value)) <==> value == "True"@,
        !asks_for_backtrace(None),
{
}

/// The failure that reports a panic is of the kind `"Panic"`. Its first rule gives the
/// panic's message, its second rule the source location, each with a stand-in where it is
/// unknown, and it has a third rule exactly if there is a backtrace, which it gives.
pub proof fn law_panic_failure_holds(caught: CaughtPanic)
    ensures
        ({
            let rules = caught.pretty_view()->Normal_1[1]->Normal_1;
            &&& caught.pretty_view() == ExprView::Normal(
                Box::new(ExprView::Symbol("System`Failure"@)),
                seq![
                    ExprView::String("Panic"@),
                    ExprView::Normal(Box::new(ExprView::Symbol("System`Association"@)), rules),
                ],
            )
            &&& rules.len() == if caught.backtrace is Some {
                3int
            } else {
                2int
            }
            &&& caught.message matches Some(message) ==> rules[0] == ExprView::Normal(
                Box::new(ExprView::Symbol("System`Rule"@)),
                seq![ExprView::String("Message"@), ExprView::String(message@)],
            )
            &&& caught.message is None ==> rules[0] == ExprView::Normal(
                Box::new(ExprView::Symbol("System`Rule"@)),
                seq![ExprView::String("Message"@), ExprView::String("Rust panic (no message)"@)],
            )
            &&& caught.location matches Some(location) ==> rules[1] == ExprView::Normal(
                Box::new(ExprView::Symbol("System`Rule"@)),
                seq![ExprView::String("SourceLocation"@), ExprView::String(location@)],
            )
            &&& caught.location is None ==> rules[1] == ExprView::Normal(
                Box::new(ExprView::Symbol("System`Rule"@)),
                seq![ExprView::String("SourceLocation"@), ExprView::String("Unknown"@)],
            )
            &&& caught.backtrace matches Some(backtrace) ==> rules[2] == ExprView::Normal(
                Box::new(ExprView::Symbol("System`Rule"@)),
                seq![ExprView::String("Backtrace"@), ExprView::String(backtrace@)],
            )
        }),
{
}

/// The failure that reports a panic prints as
/// ``System`Failure["Panic", System`Association[System`Rule["Message", message],
/// System`Rule["SourceLocation", location]]]``, and with the further rule
/// ``System`Rule["Backtrace", backtrace]`` where there is a backtrace.
pub proof fn law_panic_prints(caught: CaughtPanic)
    ensures
        ({
            let message = match caught.message {
                Some(text) => text@,
                None => "Rust panic (no message)"@,
            };
            let location = match caught.location {
                Some(text) => text@,
                None => "Unknown"@,
            };
            let described = "System`Failure["@ + string_text("Panic"@)
                + ", System`Association[System`Rule["@ + string_text("Message"@) + ", "@
                + string_text(message) + "], System`Rule["@ + string_text("SourceLocation"@)
                + ", "@ + string_text(location) + "]"@;
            caught.pretty_view().text() == match caught.backtrace {
                Some(text) => described + ", System`Rule["@ + string_text("Backtrace"@) + ", "@
                    + string_text(text@) + "]]]"@,
                None => described + "]]"@,
            }
        }),
{
    broadcast use lemma_concat_is_associative;

    let message = text_or(caught.message, "Rust panic (no message)"@);
    let location = text_or(caught.location, "Unknown"@);
    lemma_punctuation();
    let first = rule_view("Message"@, message);
    let second = rule_view("SourceLocation"@, location);
    crate::expr::lemma_rule_text("Message"@, message);
    crate::expr::lemma_rule_text("SourceLocation"@, location);
    crate::expr::lemma_pair_text(first, second);
    let rules = caught.rule_views();
    let two = seq![first, second];
    match caught.backtrace {
        Some(text) => {
            let third = rule_view("Backtrace"@, text@);
            crate::expr::lemma_rule_text("Backtrace"@, text@);
            crate::expr::law_elements_print(two, third);
            assert(rules =~= two.push(third));
        },
        None => {
            assert(rules =~= two);
        },
    }
    crate::expr::lemma_failure_text("Panic"@, rules);
}

/// Joining texts is associative.
broadcast proof fn lemma_concat_is_associative(a: Seq<char>, b: Seq<char>, c: Seq<char>)
    ensures
        #[trigger] (a + (b + c)) == (a + b) + c,
{
    assert(a + (b + c) =~= (a + b) + c);
}

/// The punctuation of a printed failure, piece by piece.
proof fn lemma_punctuation()
    ensures
        seq!['['] == "["@,
        seq![']'] == "]"@,
        seq![',', ' '] == ", "@,
        "System`Failure["@ == "System`Failure"@ + "["@,
        ", System`Association[System`Rule["@ == ", "@ + "System`Association"@ + "["@
            + "System`Rule["@,
        "], System`Rule["@ == "]"@ + ", "@ + "System`Rule["@,
        ", System`Rule["@ == ", "@ + "System`Rule["@,
        "]]"@ == "]"@ + "]"@,
        "]]]"@ == "]"@ + "]"@ + "]"@,
{
    reveal_strlit("[");
    reveal_strlit("]");
    reveal_strlit("]]");
    reveal_strlit("]]]");
    reveal_strlit(", ");
    reveal_strlit("System`Failure");
    reveal_strlit("System`Failure[");
    reveal_strlit("System`Association");
    reveal_strlit("System`Rule[");
    reveal_strlit(", System`Association[System`Rule[");
    reveal_strlit("], System`Rule[");
    reveal_strlit(", System`Rule[");
    assert("["@ =~= seq!['[']);
    assert("]"@ =~= seq![']']);
    assert(", "@ =~= seq![',', ' ']);
    assert("System`Failure["@ =~= "System`Failure"@ + "["@);
    assert(", System`Association[System`Rule["@ =~= ", "@ + "System`Association"@ + "["@
        + "System`Rule["@);
    assert("], System`Rule["@ =~= "]"@ + ", "@ + "System`Rule["@);
    assert(", System`Rule["@ =~= ", "@ + "System`Rule["@);
    assert("]]"@ =~= "]"@ + "]"@);
    assert("]]]"@ =~= "]"@ + "]"@ + "]"@);
}

/// Once a hook was told of a panic, what is known of its thread is the time, the location and
/// the backtrace that it was told, and as the message the payload if that is a string
/// literal, else the formatted message. What is known of other threads stays.
pub proof fn law_hook_keeps_report(
    before: Map<u64, (u128, CaughtPanic)>,
    report: PanicReport,
    after: Map<u64, (u128, CaughtPanic)>,
    other: u64,
)
    requires
        hooked(before, report, after),
    ensures
        after.contains_key(report.thread),
        after[report.thread].0 == report.time,
        report.payload matches Some(literal) ==> after[report.thread].1.message is Some
            && after[report.thread].1.message->Some_0@ == literal@,
        report.payload is None ==> after[report.thread].1.message == report.formatted,
        after[report.thread].1.location == report.location,
        after[report.thread].1.backtrace == report.backtrace,
        other != report.thread ==> (after.contains_key(other) <==> before.contains_key(other)),
        other != report.thread && before.contains_key(other) ==> after[other] == before[other],
{
}

/// The message of a panic is its payload if that is a string literal, else its formatted
/// message, if it has one.
pub proof fn law_message_of_panic(
    payload: Option<&str>,
    formatted: Option<String>,
    message: Option<String>,
)
    requires
        is_message(payload, formatted, message),
    ensures
        payload matches Some(literal) ==> message is Some && message->Some_0@ == literal@,
        payload is None ==> message == formatted,
{
}

/// A panic that a hook was told of, and that is reported in its own thread, is shown with
/// the message, the location and the backtrace that the hook was told, whatever panics occur
/// in other threads in between.
pub proof fn law_hooked_panic_is_shown(
    before: Map<u64, (u128, CaughtPanic)>,
    report: PanicReport,
    after: Map<u64, (u128, CaughtPanic)>,
    later: Seq<(u64, u128, CaughtPanic)>,
    reported: CaughtPanic,
)
    requires
        hooked(before, report, after),
        forall|i: int| 0 <= i < later.len() ==> (#[trigger] later[i]).0 != report.thread,
        is_reported(after_panics(after, later), report.thread, reported),
    ensures
        ({
            let message = match (report.payload, report.formatted) {
                (Some(literal), _) => literal@,
                (None, Some(text)) => text@,
                (None, None) => "Rust panic (no message)"@,
            };
            let location = match report.location {
                Some(text) => text@,
                None => "Unknown"@,
            };
            let described = "System`Failure["@ + string_text("Panic"@)
                + ", System`Association[System`Rule["@ + string_text("Message"@) + ", "@
                + string_text(message) + "], System`Rule["@ + string_text("SourceLocation"@)
                + ", "@ + string_text(location) + "]"@;
            reported.pretty_view().text() == match report.backtrace {
                Some(text) => described + ", System`Rule["@ + string_text("Backtrace"@) + ", "@
                    + string_text(text@) + "]]]"@,
                None => described + "]]"@,
            }
        }),
{
    lemma_other_threads(after, report.thread, later);
    law_hook_keeps_report(before, report, after, report.thread);
    law_panic_prints(reported);
}

/// Where no panic is known of, a message that says so is reported, without a location or a
/// backtrace.
pub proof fn law_no_panic_known(thread: u64, reported: CaughtPanic)
    ensures
        is_reported(Map::<u64, (u128, CaughtPanic)>::empty(), thread, reported) <==> {
            &&& reported.message is Some
            &&& reported.message->Some_0@
                == "could not get panic info for current thread. Operation of custom panic hook was interrupted"@
            &&& reported.location is None
            &&& reported.backtrace is None
        },
{
    assert(Map::<u64, (u128, CaughtPanic)>::empty().dom().is_empty());
}

/// A call in a thread of which no panic is known is answered with a panic of another thread
/// that no known panic is more recent than.
pub proof fn law_panic_of_another_thread(
    panics: Map<u64, (u128, CaughtPanic)>,
    thread: u64,
    known: u64,
    reported: CaughtPanic,
)
    requires
        !panics.contains_key(thread),
        panics.contains_key(known),
    ensures
        is_reported(panics, thread, reported) <==> exists|panicked: u64| #[trigger]
            panics.contains_key(panicked) && panics[panicked].1 == reported && forall|
                other: u64,
            | #[trigger]
                panics.contains_key(other) ==> panics[other].0 <= panics[panicked].0,
{
    assert(panics.dom().contains(known));
}

/// Reporting a panic for a call takes the panic of the call's thread, and nothing else, out
/// of what is known.
pub proof fn law_report_takes_own_panic(
    panics: Map<u64, (u128, CaughtPanic)>,
    thread: u64,
    other: u64,
)
    ensures
        !after_report(panics, thread).contains_key(thread),
        other != thread ==> (after_report(panics, thread).contains_key(other)
            <==> panics.contains_key(other)),
        other != thread && panics.contains_key(other) ==> after_report(panics, thread)[other]
            == panics[other],
{
}

/// A call that returns gives its value, and the panics that are known of stay known. A call
/// that panics in its own thread gives that panic, which is then no longer known of, while
/// the panics of other threads stay known.
pub proof fn law_call_gives_value_or_panic<T>(
    outcome: Result<T, ()>,
    before: Map<u64, (u128, CaughtPanic)>,
    thread: u64,
    after: Map<u64, (u128, CaughtPanic)>,
    result: Result<T, CaughtPanic>,
    other: u64,
)
    requires
        is_result(outcome, before, thread, after, result),
    ensures
        outcome matches Ok(value) ==> result == Ok::<T, CaughtPanic>(value) && after == before,
        outcome is Err ==> result is Err && !after.contains_key(thread),
        outcome is Err && before.contains_key(thread) ==> result == Err::<T, CaughtPanic>(
            before[thread].1,
        ),
        outcome is Err ==> is_reported(before, thread, result->Err_0),
        other != thread ==> (after.contains_key(other) <==> before.contains_key(other)),
        other != thread && before.contains_key(other) ==> after[other] == before[other],
{
}

} // verus!
