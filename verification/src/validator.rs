//! The validator of a record type: built once from an expansion, with every
//! pattern compiled once, and run on any number of records.

use vstd::prelude::*;
use vstd::string::*;
use crate::evaluate::{
    check_status, checks_status, predicate_status, verdict, verdict_from, FailureView, Fault,
    Status,
};
use crate::expand::{Expansion, ExpansionView, FieldCheck};
use crate::matcher::{compiled_language, Matcher};
use crate::predicate::{Check, Coercion, Predicate, RegexRegistration};
use crate::record::{Record, Value, ValueView};
use crate::text::views;
use crate::validates::EMAIL_PATTERN;

verus! {

/// Why a validation call fails.
#[derive(Clone, Debug, PartialEq)]
pub enum ValidationError {
    /// A field is invalid: the message of its group.
    Violation(String),
    /// A pattern does not compile: the position of the check that needs it.
    RegexCompile(usize),
    /// A decimal value has no double: the position of the check that needs it.
    NumericCoercion(usize),
}

impl View for ValidationError {
    type V = FailureView;

    open spec fn view(&self) -> FailureView {
        match self {
            ValidationError::Violation(message) => FailureView::Violation(message@),
            ValidationError::RegexCompile(position) => FailureView::RegexCompile(*position as nat),
            ValidationError::NumericCoercion(position) => FailureView::NumericCoercion(
                *position as nat,
            ),
        }
    }
}

/// The outcome of a validation call, in mathematical form.
pub open spec fn outcome_view(outcome: Result<(), ValidationError>) -> Result<(), FailureView> {
    match outcome {
        Ok(()) => Ok(()),
        Err(e) => Err(e@),
    }
}

/// The mathematical form of a value that may be absent.
pub open spec fn value_view(value: Option<&Value>) -> Option<ValueView> {
    match value {
        Some(present) => Some(present@),
        None => None,
    }
}

/// Whether a compiled slot is what compiling the pattern gives: a matcher
/// for the pattern's language, or nothing where the pattern does not compile.
pub open spec fn slot_serves(slot: Option<Matcher>, pattern: Seq<char>) -> bool {
    match slot {
        Some(matcher) => compiled_language(pattern) == Some(matcher.accepts()),
        None => compiled_language(pattern) is None,
    }
}

/// Compiles a pattern into a slot.
fn compile_slot(pattern: &str) -> (slot: Option<Matcher>)
    ensures
        slot_serves(slot, pattern@),
{
    match Matcher::compile(pattern) {
        Ok(matcher) => Some(matcher),
        Err(_) => None,
    }
}

/// The validator of one record type.
pub struct CompiledValidator {
    expansion: Expansion,
    matchers: Vec<Option<Matcher>>,
    email: Option<Matcher>,
}

impl View for CompiledValidator {
    type V = ExpansionView;

    closed spec fn view(&self) -> ExpansionView {
        self.expansion@
    }
}

impl CompiledValidator {
    #[verifier::type_invariant]
    spec fn well_formed(self) -> bool {
        &&& self.matchers@.len() == self.expansion.regexes@.len()
        &&& forall|i: int|
            0 <= i < self.matchers@.len() ==> slot_serves(
                #[trigger] self.matchers@[i],
                self.expansion.regexes@[i].pattern@,
            )
        &&& slot_serves(self.email, EMAIL_PATTERN@)
    }

    /// Builds the validator of an expansion. Every registered pattern, and
    /// the built-in e-mail pattern, is compiled here, once; one that does not
    /// compile stops only the validation calls that come to need it, with
    /// `RegexCompile`.
    pub fn new(expansion: Expansion) -> (made: Self)
        ensures
            made@ == expansion@,
    {
        let mut matchers: Vec<Option<Matcher>> = Vec::new();
        let mut i: usize = 0;
        while i < expansion.regexes.len()
            invariant
                i <= expansion.regexes.len(),
                matchers@.len() == i,
                forall|k: int|
                    0 <= k < i ==> slot_serves(
                        #[trigger] matchers@[k],
                        expansion.regexes@[k].pattern@,
                    ),
            decreases expansion.regexes.len() - i,
        {
            let slot: Option<Matcher> = compile_slot(expansion.regexes[i].pattern.as_str());
            matchers.push(slot);
            i = i + 1;
        }
        let email: Option<Matcher> = compile_slot(EMAIL_PATTERN);
        CompiledValidator { expansion, matchers, email }
    }

    /// What the validator was built from.
    pub fn expansion(&self) -> (expansion: &Expansion)
        ensures
            expansion@ == self@,
    {
        &self.expansion
    }

    /// How a value stands under one check.
    fn check(&self, check: &Check, value: Option<&Value>, record: &Record) -> (status: Status)
        ensures
            status == check_status(check@, value_view(value), record@, self@.regexes),
    {
        proof {
            use_type_invariant(self);
        }
        match check {
            Check::NoMatch { slot } => {
                if *slot >= self.matchers.len() {
                    return Status::Fatal(Fault::RegexCompile);
                }
                match &self.matchers[*slot] {
                    None => Status::Fatal(Fault::RegexCompile),
                    Some(matcher) => match value {
                        Some(Value::Text(text)) => Self::passes_if(matcher.is_match(text.as_str())),
                        _ => Status::Violated,
                    },
                }
            },
            Check::LenOutside { min, max } => match value {
                Some(Value::Text(text)) => {
                    let count: usize = text.as_str().unicode_len();
                    Self::passes_if(
                        (*min <= count && count < *max) || (*min == *max && count == *min),
                    )
                },
                _ => Status::Violated,
            },
            Check::NotEmail => match &self.email {
                None => Status::Fatal(Fault::RegexCompile),
                Some(matcher) => match value {
                    Some(Value::Text(text)) => Self::passes_if(matcher.is_match(text.as_str())),
                    _ => Status::Violated,
                },
            },
            Check::RangeOutside { min, max, coercion } => match (coercion, value) {
                (Coercion::Decimal, Some(Value::Decimal(Some(number)))) => Self::passes_if(
                    number.meets(*min, *max),
                ),
                (Coercion::Decimal, Some(Value::Decimal(None))) => Status::Fatal(
                    Fault::NumericCoercion,
                ),
                (Coercion::Primitive, Some(Value::Number(number))) => Self::passes_if(
                    number.meets(*min, *max),
                ),
                _ => Status::Violated,
            },
            Check::NotField(other) => match (value, record.get(other.as_str())) {
                (Some(own), Some(theirs)) => Self::passes_if(own.equals(theirs)),
                _ => Status::Violated,
            },
            Check::NotLiteral(literal) => match value {
                Some(Value::Text(text)) => Self::passes_if(*text == *literal),
                _ => Status::Violated,
            },
        }
    }

    /// `Passed` or `Violated`, as the condition holds or not.
    fn passes_if(holds: bool) -> (status: Status)
        ensures
            status == crate::evaluate::passes_if(holds),
    {
        if holds {
            Status::Passed
        } else {
            Status::Violated
        }
    }

    /// How a record stands under the invalid-expression of one field.
    #[verifier::loop_isolation(false)]
    fn field_status(&self, predicate: &Predicate, record: &Record) -> (status: Status)
        ensures
            status == predicate_status(predicate@, record@, self@.regexes),
    {
        let value: Option<&Value> = record.get(predicate.field.as_str());
        if predicate.optional && value.is_none() {
            return Status::Passed;
        }
        let mut i: usize = 0;
        while i < predicate.checks.len()
            invariant
                i <= predicate.checks.len(),
                checks_status(predicate@.checks, value_view(value), record@, self@.regexes, 0)
                    == checks_status(
                    predicate@.checks,
                    value_view(value),
                    record@,
                    self@.regexes,
                    i as int,
                ),
            decreases predicate.checks.len() - i,
        {
            let status: Status = self.check(&predicate.checks[i], value, record);
            match status {
                Status::Passed => {},
                _ => {
                    return status;
                },
            }
            i = i + 1;
        }
        Status::Passed
    }

    /// Validates a record: checks the annotated fields in declaration order
    /// and fails with the message of the first that is invalid. A check that
    /// cannot be decided fails the call as soon as it is reached.
    pub fn validate(&self, record: &Record) -> (outcome: Result<(), ValidationError>)
        ensures
            outcome_view(outcome) == verdict(self@, record@),
    {
        let mut i: usize = 0;
        while i < self.expansion.checks.len()
            invariant
                i <= self.expansion.checks.len(),
                verdict(self@, record@) == verdict_from(
                    self@.checks,
                    record@,
                    self@.regexes,
                    i as int,
                ),
            decreases self.expansion.checks.len() - i,
        {
            let field_check: &FieldCheck = &self.expansion.checks[i];
            match self.field_status(&field_check.predicate, record) {
                Status::Passed => {},
                Status::Violated => {
                    return Err(ValidationError::Violation(field_check.message.clone()));
                },
                Status::Fatal(Fault::RegexCompile) => {
                    return Err(ValidationError::RegexCompile(i));
                },
                Status::Fatal(Fault::NumericCoercion) => {
                    return Err(ValidationError::NumericCoercion(i));
                },
            }
            i = i + 1;
        }
        Ok(())
    }
}

} // verus!
