//! What a group of rules compiles to: for one field, a list of checks, each
//! of which says when the field's value is invalid, and the patterns that the
//! checks need compiled.

use vstd::prelude::*;
use crate::text::{uppercase, views};
use crate::validate::{GroupView, RuleView};

verus! {

/// The first character of an `eq` target that names a sibling field.
pub const SENTINEL: char = '#';

/// The name of the decimal type, whose values are converted to doubles
/// before a range check.
pub const DECIMAL_TYPE: &'static str = "BigDecimal";

/// How a range check gets a double from the field's value.
#[derive(Clone, Copy, Debug, PartialEq, Eq, Structural)]
pub enum Coercion {
    /// By the decimal type's conversion, which can fail.
    Decimal,
    /// By the numeric cast of a primitive number.
    Primitive,
}

/// One test on a field's value. The value is invalid where the test holds.
#[derive(Clone, Debug, PartialEq)]
#[allow(inconsistent_fields)]
pub enum Check {
    /// The text does not match the pattern registered in the slot.
    NoMatch { slot: usize },
    /// The count of characters does not meet the bounds: it is outside
    /// `[min, max)` and, where the bounds are equal, is not that count.
    LenOutside { min: usize, max: usize },
    /// The text is no e-mail address.
    NotEmail,
    /// The number does not meet the bounds: it is outside `[min, max)` and,
    /// where the bounds are equal, is not that number.
    RangeOutside { min: crate::number::Double, max: crate::number::Double, coercion: Coercion },
    /// The value differs from that of the named sibling field.
    NotField(String),
    /// The value differs from the literal text.
    NotLiteral(String),
}

/// The mathematical form of a check.
#[allow(inconsistent_fields)]
pub enum CheckView {
    NoMatch { slot: nat },
    LenOutside { min: nat, max: nat },
    NotEmail,
    RangeOutside { min: int, max: int, coercion: Coercion },
    NotField(Seq<char>),
    NotLiteral(Seq<char>),
}

impl View for Check {
    type V = CheckView;

    open spec fn view(&self) -> CheckView {
        match self {
            Check::NoMatch { slot } => CheckView::NoMatch { slot: *slot as nat },
            Check::LenOutside { min, max } => CheckView::LenOutside {
                min: *min as nat,
                max: *max as nat,
            },
            Check::NotEmail => CheckView::NotEmail,
            Check::RangeOutside { min, max, coercion } => CheckView::RangeOutside {
                min: min@,
                max: max@,
                coercion: *coercion,
            },
            Check::NotField(other) => CheckView::NotField(other@),
            Check::NotLiteral(literal) => CheckView::NotLiteral(literal@),
        }
    }
}

/// The invalid-expression of one field: the field is invalid where it is
/// present, if it is optional, and any of the checks holds, tried in order.
#[derive(Clone, Debug, PartialEq)]
pub struct Predicate {
    pub field: String,
    pub optional: bool,
    pub checks: Vec<Check>,
}

/// The mathematical form of a field's invalid-expression.
pub struct PredicateView {
    pub field: Seq<char>,
    pub optional: bool,
    pub checks: Seq<CheckView>,
}

impl View for Predicate {
    type V = PredicateView;

    open spec fn view(&self) -> PredicateView {
        PredicateView { field: self.field@, optional: self.optional, checks: views(self.checks@) }
    }
}

/// A pattern to compile once, under the name generated for it.
#[derive(Clone, Debug, PartialEq)]
pub struct RegexRegistration {
    pub name: String,
    pub pattern: String,
}

/// The mathematical form of a registration.
pub struct RegistrationView {
    pub name: Seq<char>,
    pub pattern: Seq<char>,
}

impl View for RegexRegistration {
    type V = RegistrationView;

    open spec fn view(&self) -> RegistrationView {
        RegistrationView { name: self.name@, pattern: self.pattern@ }
    }
}

/// The name under which the pattern of a field is registered: the upper-case
/// names of the record and of the field, then `REGEX`, joined by `_`.
pub open spec fn generated_name(record: Seq<char>, field: Seq<char>) -> Seq<char> {
    uppercase(record) + "_"@ + uppercase(field) + "_REGEX"@
}

/// How a range check on a field of the named type gets its double.
pub open spec fn coercion_for(type_ident: Seq<char>) -> Coercion {
    if type_ident == DECIMAL_TYPE@ {
        Coercion::Decimal
    } else {
        Coercion::Primitive
    }
}

/// Whether the target of an `eq` rule names a sibling field.
pub open spec fn names_sibling(target: Seq<char>) -> bool {
    target.len() > 0 && target[0] == SENTINEL
}

/// The check that a rule compiles to. A `regex` rule takes the slot given.
pub open spec fn check_of_rule(rule: RuleView, coercion: Coercion, slot: nat) -> CheckView {
    match rule {
        RuleView::Regex(_) => CheckView::NoMatch { slot },
        RuleView::Len { min, max } => CheckView::LenOutside { min, max },
        RuleView::Email => CheckView::NotEmail,
        RuleView::Range { min, max } => CheckView::RangeOutside { min, max, coercion },
        RuleView::Eq(target) => if names_sibling(target) {
            CheckView::NotField(target.skip(1))
        } else {
            CheckView::NotLiteral(target)
        },
    }
}

/// The registrations that the first `n` rules ask for: one for each `regex`
/// rule, in order, all under the one name.
pub open spec fn registrations_upto(rules: Seq<RuleView>, name: Seq<char>, n: nat) -> Seq<
    RegistrationView,
>
    decreases n,
{
    if n == 0 {
        Seq::empty()
    } else {
        let before = registrations_upto(rules, name, (n - 1) as nat);
        match rules[n - 1] {
            RuleView::Regex(pattern) => before.push(RegistrationView { name, pattern }),
            _ => before,
        }
    }
}

/// The number of `regex` rules among the first `n` rules.
pub open spec fn regex_count(rules: Seq<RuleView>, n: nat) -> nat
    decreases n,
{
    if n == 0 {
        0
    } else {
        regex_count(rules, (n - 1) as nat) + if rules[n - 1] is Regex {
            1nat
        } else {
            0nat
        }
    }
}

/// The checks that the rules of a group compile to, in the order of the
/// rules. The `regex` rules take the slots from `base` on, one after another.
pub open spec fn checks_of_rules(
    rules: Seq<RuleView>,
    coercion: Coercion,
    base: nat,
) -> Seq<CheckView> {
    Seq::new(
        rules.len(),
        |i: int| check_of_rule(rules[i], coercion, base + regex_count(rules, i as nat)),
    )
}

/// The invalid-expression that a group compiles to for a field.
pub open spec fn predicate_of_group(
    group: GroupView,
    field: Seq<char>,
    optional: bool,
    type_ident: Seq<char>,
    base: nat,
) -> PredicateView {
    PredicateView {
        field,
        optional,
        checks: checks_of_rules(group.rules, coercion_for(type_ident), base),
    }
}

/// The registrations that a group asks for on a field.
pub open spec fn registrations_of_group(group: GroupView, field: Seq<char>) -> Seq<
    RegistrationView,
> {
    registrations_upto(group.rules, generated_name(group.record, field), group.rules.len())
}

/// Each `regex` rule asks for one registration.
pub proof fn lemma_registrations_count(rules: Seq<RuleView>, name: Seq<char>, n: nat)
    ensures
        registrations_upto(rules, name, n).len() == regex_count(rules, n),
        regex_count(rules, n) <= n,
    decreases n,
{
    if n > 0 {
        lemma_registrations_count(rules, name, (n - 1) as nat);
    }
}

} // verus!
