//! What the checks mean: the status of a value under a rule and under the
//! check it compiles to, of a field under its checks, and the verdict on a
//! record.

use vstd::prelude::*;
use crate::expand::{ExpansionView, FieldCheckView};
use crate::matcher::{pattern_compiles, pattern_matches};
use crate::number::meets_bounds;
use crate::predicate::{
    coercion_for, names_sibling, CheckView, Coercion, PredicateView, RegistrationView,
};
use crate::record::{lookup, values_equal, EntryView, ValueView};
use crate::validate::{GroupView, RuleView};
use crate::validates::EMAIL_PATTERN;

verus! {

/// What stops a validation call for good.
#[derive(Clone, Copy, Debug, PartialEq, Eq, Structural)]
pub enum Fault {
    /// A pattern that a check needs does not compile.
    RegexCompile,
    /// A decimal value that a range check needs has no double.
    NumericCoercion,
}

/// How a value stands under one rule or check.
#[derive(Clone, Copy, Debug, PartialEq, Eq, Structural)]
pub enum Status {
    /// The value satisfies it.
    Passed,
    /// The value violates it.
    Violated,
    /// It cannot be decided.
    Fatal(Fault),
}

/// `Passed` or `Violated`, as the condition holds or not.
pub open spec fn passes_if(holds: bool) -> Status {
    if holds {
        Status::Passed
    } else {
        Status::Violated
    }
}

/// A value under a length rule: a text satisfies it where the count of its
/// characters meets the bounds, that is, lies in `[min, max)` or, where the
/// two bounds are equal, is exactly that count; what is no text violates it.
pub open spec fn len_status(value: Option<ValueView>, min: nat, max: nat) -> Status {
    match value {
        Some(ValueView::Text(text)) => passes_if(
            meets_bounds(text.len() as int, min as int, max as int),
        ),
        _ => Status::Violated,
    }
}

/// A value under a range rule. A number meets the bounds where it lies in
/// `[min, max)` or, where the two bounds are equal, is exactly that number.
/// With the decimal coercion, a decimal value that has a double satisfies the
/// rule where the double meets the bounds, and one that has none is a fault.
/// With the primitive coercion, a number satisfies the rule where it meets
/// the bounds. Any other value, with either coercion, violates the rule.
pub open spec fn range_status(
    value: Option<ValueView>,
    min: int,
    max: int,
    coercion: Coercion,
) -> Status {
    match (coercion, value) {
        (Coercion::Decimal, Some(ValueView::Decimal(Some(number)))) => passes_if(
            meets_bounds(number, min, max),
        ),
        (Coercion::Decimal, Some(ValueView::Decimal(None))) => Status::Fatal(
            Fault::NumericCoercion,
        ),
        (Coercion::Primitive, Some(ValueView::Number(number))) => passes_if(
            meets_bounds(number, min, max),
        ),
        _ => Status::Violated,
    }
}

/// A value under a pattern: a fault where there is no pattern or it does not
/// compile; else a text satisfies it where the pattern finds a match in it,
/// and what is no text violates it.
pub open spec fn match_status(value: Option<ValueView>, pattern: Option<Seq<char>>) -> Status {
    match pattern {
        Some(pattern) => {
            if !pattern_compiles(pattern) {
                Status::Fatal(Fault::RegexCompile)
            } else {
                match value {
                    Some(ValueView::Text(text)) => passes_if(pattern_matches(pattern, text)),
                    _ => Status::Violated,
                }
            }
        },
        None => Status::Fatal(Fault::RegexCompile),
    }
}

/// A value under the e-mail rule: as under the built-in pattern. A built-in
/// pattern that does not compile is a fault, like any other.
pub open spec fn email_status(value: Option<ValueView>) -> Status {
    match_status(value, Some(EMAIL_PATTERN@))
}

/// A value under equality with a sibling field: satisfied where both are
/// present and compare equal.
pub open spec fn sibling_status(
    value: Option<ValueView>,
    record: Seq<EntryView>,
    other: Seq<char>,
) -> Status {
    match (value, lookup(record, other)) {
        (Some(own), Some(theirs)) => passes_if(values_equal(own, theirs)),
        _ => Status::Violated,
    }
}

/// A value under equality with a literal: satisfied by the text of the same
/// characters.
pub open spec fn literal_status(value: Option<ValueView>, literal: Seq<char>) -> Status {
    match value {
        Some(ValueView::Text(text)) => passes_if(text == literal),
        _ => Status::Violated,
    }
}

/// How a value stands under one rule, given the record it belongs to and how
/// a range rule gets its double.
pub open spec fn rule_status(
    rule: RuleView,
    coercion: Coercion,
    value: Option<ValueView>,
    record: Seq<EntryView>,
) -> Status {
    match rule {
        RuleView::Len { min, max } => len_status(value, min, max),
        RuleView::Range { min, max } => range_status(value, min, max, coercion),
        RuleView::Regex(pattern) => match_status(value, Some(pattern)),
        RuleView::Eq(target) => if names_sibling(target) {
            sibling_status(value, record, target.skip(1))
        } else {
            literal_status(value, target)
        },
        RuleView::Email => email_status(value),
    }
}

/// How a value stands under the rules from position `from` on, tried in
/// order: the status under the first rule that it does not satisfy.
pub open spec fn rules_status(
    rules: Seq<RuleView>,
    coercion: Coercion,
    value: Option<ValueView>,
    record: Seq<EntryView>,
    from: int,
) -> Status
    decreases rules.len() - from,
{
    if from < 0 || from >= rules.len() {
        Status::Passed
    } else {
        match rule_status(rules[from], coercion, value, record) {
            Status::Passed => rules_status(rules, coercion, value, record, from + 1),
            status => status,
        }
    }
}

/// How a record stands under a group of rules attached to the named field,
/// which is optional or not and carries a value of the named type. An
/// optional field that is absent passes, whatever the rules.
pub open spec fn group_status(
    group: GroupView,
    field: Seq<char>,
    optional: bool,
    type_ident: Seq<char>,
    record: Seq<EntryView>,
) -> Status {
    let value = lookup(record, field);
    if optional && value is None {
        Status::Passed
    } else {
        rules_status(group.rules, coercion_for(type_ident), value, record, 0)
    }
}

/// The pattern registered in a slot.
pub open spec fn slot_pattern(regexes: Seq<RegistrationView>, slot: nat) -> Option<Seq<char>> {
    if slot < regexes.len() {
        Some(regexes[slot as int].pattern)
    } else {
        None
    }
}

/// How a value stands under one check, given the record it belongs to and the
/// registered patterns.
pub open spec fn check_status(
    check: CheckView,
    value: Option<ValueView>,
    record: Seq<EntryView>,
    regexes: Seq<RegistrationView>,
) -> Status {
    match check {
        CheckView::NoMatch { slot } => match_status(value, slot_pattern(regexes, slot)),
        CheckView::LenOutside { min, max } => len_status(value, min, max),
        CheckView::NotEmail => email_status(value),
        CheckView::RangeOutside { min, max, coercion } => range_status(value, min, max, coercion),
        CheckView::NotField(other) => sibling_status(value, record, other),
        CheckView::NotLiteral(literal) => literal_status(value, literal),
    }
}

/// How a value stands under the checks from position `from` on, tried in
/// order: the status under the first check that it does not pass.
pub open spec fn checks_status(
    checks: Seq<CheckView>,
    value: Option<ValueView>,
    record: Seq<EntryView>,
    regexes: Seq<RegistrationView>,
    from: int,
) -> Status
    decreases checks.len() - from,
{
    if from < 0 || from >= checks.len() {
        Status::Passed
    } else {
        match check_status(checks[from], value, record, regexes) {
            Status::Passed => checks_status(checks, value, record, regexes, from + 1),
            status => status,
        }
    }
}

/// How a record stands under the invalid-expression of one field. An
/// optional field that is absent passes, whatever the checks.
pub open spec fn predicate_status(
    predicate: PredicateView,
    record: Seq<EntryView>,
    regexes: Seq<RegistrationView>,
) -> Status {
    let value = lookup(record, predicate.field);
    if predicate.optional && value is None {
        Status::Passed
    } else {
        checks_status(predicate.checks, value, record, regexes, 0)
    }
}

/// Why a validation call fails, in mathematical form.
pub enum FailureView {
    /// A field is invalid: the message of its group.
    Violation(Seq<char>),
    /// A pattern does not compile: the position of the check that needs it.
    RegexCompile(nat),
    /// A decimal value has no double: the position of the check that needs it.
    NumericCoercion(nat),
}

/// The failure that a fault at the check in the given position makes.
pub open spec fn failure_of_fault(fault: Fault, position: nat) -> FailureView {
    match fault {
        Fault::RegexCompile => FailureView::RegexCompile(position),
        Fault::NumericCoercion => FailureView::NumericCoercion(position),
    }
}

/// The verdict of the field checks from position `from` on, tried in order:
/// the failure of the first check that the record does not pass, and success
/// where it passes them all.
pub open spec fn verdict_from(
    checks: Seq<FieldCheckView>,
    record: Seq<EntryView>,
    regexes: Seq<RegistrationView>,
    from: int,
) -> Result<(), FailureView>
    decreases checks.len() - from,
{
    if from < 0 || from >= checks.len() {
        Ok(())
    } else {
        match predicate_status(checks[from].predicate, record, regexes) {
            Status::Passed => verdict_from(checks, record, regexes, from + 1),
            Status::Violated => Err(FailureView::Violation(checks[from].message)),
            Status::Fatal(fault) => Err(failure_of_fault(fault, from as nat)),
        }
    }
}

/// The verdict on a record: success, or the failure of the first field
/// check, in declaration order, that the record does not pass.
pub open spec fn verdict(expansion: ExpansionView, record: Seq<EntryView>) -> Result<
    (),
    FailureView,
> {
    verdict_from(expansion.checks, record, expansion.regexes, 0)
}

} // verus!
