//! The rule grammar: from the annotation on a field to a group of typed
//! rules with its failure message.

use vstd::prelude::*;
use vstd::string::*;
use crate::number::{spec_max, spec_min, Double};
use crate::predicate::{
    check_of_rule, coercion_for, generated_name, lemma_registrations_count, predicate_of_group,
    regex_count, registrations_of_group, registrations_upto, Check, CheckView, Coercion, Predicate,
    RegexRegistration, RegistrationView, DECIMAL_TYPE, SENTINEL,
};
use crate::schema::{Attribute, Lit, Meta, NestedMeta};
use crate::text::{decimal_value, parse_usize, text_eq, to_uppercase, views};

verus! {

/// Why an annotation does not compile.
#[derive(Clone, Copy, Debug, PartialEq, Eq, Structural)]
pub enum CompileError {
    /// The rule's keyword is none of `len`, `range`, `regex`, `eq`, `email`.
    UnknownRule,
    /// An argument of a rule is not a literal of the kind the rule takes.
    InvalidLiteral,
    /// The annotation is not a parenthesized list of rules under `valid`, or
    /// a rule that takes arguments has none.
    StructuralError,
}

/// The failure message of a group that names none.
pub const DEFAULT_MESSAGE: &'static str = "\u{53c2}\u{6570}\u{9519}\u{8bef}\u{ff01}";

/// One rule on a field's value.
#[derive(Clone, Debug, PartialEq)]
#[allow(inconsistent_fields)]
pub enum ValidateRule {
    /// The count of characters lies in `[min, max)`; with equal bounds, as
    /// `len(n)` has them, the count is exactly `n`.
    Len { min: usize, max: usize },
    /// The number lies in `[min, max)`; with equal bounds, as `range(n)` has
    /// them, the number is exactly `n`.
    Range { min: Double, max: Double },
    /// The text matches the pattern.
    Regex(String),
    /// The value equals the target: a literal text, or, where the target
    /// starts with `#`, the sibling field that the rest of it names.
    Eq(String),
    /// The text is an e-mail address by the built-in pattern.
    Email,
}

/// The mathematical form of a rule.
#[allow(inconsistent_fields)]
pub enum RuleView {
    Len { min: nat, max: nat },
    Range { min: int, max: int },
    Regex(Seq<char>),
    Eq(Seq<char>),
    Email,
}

impl View for ValidateRule {
    type V = RuleView;

    open spec fn view(&self) -> RuleView {
        match self {
            ValidateRule::Len { min, max } => RuleView::Len { min: *min as nat, max: *max as nat },
            ValidateRule::Range { min, max } => RuleView::Range { min: min@, max: max@ },
            ValidateRule::Regex(pattern) => RuleView::Regex(pattern@),
            ValidateRule::Eq(target) => RuleView::Eq(target@),
            ValidateRule::Email => RuleView::Email,
        }
    }
}

/// The outcome of parsing one rule, in mathematical form.
pub open spec fn rule_result(parsed: Result<ValidateRule, CompileError>) -> Result<
    RuleView,
    CompileError,
> {
    match parsed {
        Ok(rule) => Ok(rule@),
        Err(e) => Err(e),
    }
}

/// The number that an argument denotes: that of an integer or floating-point
/// literal which denotes a double, `None` for anything else.
pub open spec fn number_literal(item: NestedMeta) -> Option<int> {
    match item {
        NestedMeta::Lit(Lit::Int { text, value: Some(d) }) => Some(d@),
        NestedMeta::Lit(Lit::Float { value: Some(d) }) => Some(d@),
        _ => None,
    }
}

/// The count that an argument denotes: that of an integer literal written as
/// a plain decimal count, `None` for anything else.
pub open spec fn length_literal(item: NestedMeta) -> Option<nat> {
    match item {
        NestedMeta::Lit(Lit::Int { text, value }) => decimal_value(text@),
        _ => None,
    }
}

/// The string that an argument denotes, `None` unless it is a string literal.
pub open spec fn string_literal(item: NestedMeta) -> Option<Seq<char>> {
    match item {
        NestedMeta::Lit(Lit::Str(s)) => Some(s@),
        _ => None,
    }
}

/// `len(a)` and `len(a, b)`: the first and the last argument are the two
/// bounds, in either order; a single argument is both.
pub open spec fn len_rule(nested: Seq<NestedMeta>) -> Result<RuleView, CompileError> {
    if nested.len() == 0 {
        Err(CompileError::StructuralError)
    } else {
        match (length_literal(nested.first()), length_literal(nested.last())) {
            (Some(a), Some(b)) => Ok(
                RuleView::Len {
                    min: spec_min(a as int, b as int) as nat,
                    max: spec_max(a as int, b as int) as nat,
                },
            ),
            _ => Err(CompileError::InvalidLiteral),
        }
    }
}

/// `range(a)` and `range(a, b)`: the first and the last argument are the two
/// bounds, in either order; a single argument is both.
pub open spec fn range_rule(nested: Seq<NestedMeta>) -> Result<RuleView, CompileError> {
    if nested.len() == 0 {
        Err(CompileError::StructuralError)
    } else {
        match (number_literal(nested.first()), number_literal(nested.last())) {
            (Some(a), Some(b)) => Ok(RuleView::Range { min: spec_min(a, b), max: spec_max(a, b) }),
            _ => Err(CompileError::InvalidLiteral),
        }
    }
}

/// `regex("pattern")`: the first argument is the pattern.
pub open spec fn regex_rule(nested: Seq<NestedMeta>) -> Result<RuleView, CompileError> {
    if nested.len() == 0 {
        Err(CompileError::StructuralError)
    } else {
        match string_literal(nested.first()) {
            Some(pattern) => Ok(RuleView::Regex(pattern)),
            None => Err(CompileError::InvalidLiteral),
        }
    }
}

/// `eq("target")`: the first argument is the target.
pub open spec fn eq_rule(nested: Seq<NestedMeta>) -> Result<RuleView, CompileError> {
    if nested.len() == 0 {
        Err(CompileError::StructuralError)
    } else {
        match string_literal(nested.first()) {
            Some(target) => Ok(RuleView::Eq(target)),
            None => Err(CompileError::InvalidLiteral),
        }
    }
}

/// Whether a path starts with the given name.
pub open spec fn starts_with_name(path: Seq<String>, name: Seq<char>) -> bool {
    path.len() > 0 && path[0]@ == name
}

/// The rule that one item of a group stands for. The first segment of its
/// path is the keyword.
pub open spec fn rule_of_meta(meta: Meta) -> Result<RuleView, CompileError> {
    match meta {
        Meta::List { path, nested } => {
            if starts_with_name(path@, "len"@) {
                len_rule(nested@)
            } else if starts_with_name(path@, "regex"@) {
                regex_rule(nested@)
            } else if starts_with_name(path@, "range"@) {
                range_rule(nested@)
            } else if starts_with_name(path@, "eq"@) {
                eq_rule(nested@)
            } else {
                Err(CompileError::UnknownRule)
            }
        },
        Meta::Path(segments) => {
            if starts_with_name(segments@, "email"@) {
                Ok(RuleView::Email)
            } else {
                Err(CompileError::UnknownRule)
            }
        },
        Meta::NameValue => Err(CompileError::StructuralError),
    }
}

/// Whether the first segment of the path is the given keyword.
fn first_segment_is(path: &Vec<String>, name: &str) -> (found: bool)
    ensures
        found == starts_with_name(path@, name@),
{
    path.len() > 0 && text_eq(path[0].as_str(), name)
}

/// The double that a numeric literal denotes.
fn lit_to_float(meta: &NestedMeta) -> (number: Option<Double>)
    ensures
        match number {
            Some(d) => number_literal(*meta) == Some(d@),
            None => number_literal(*meta) is None,
        },
{
    match meta {
        NestedMeta::Lit(Lit::Int { text: _, value }) => *value,
        NestedMeta::Lit(Lit::Float { value }) => *value,
        _ => None,
    }
}

/// The count that an integer literal denotes.
fn lit_to_length(meta: &NestedMeta) -> (count: Option<usize>)
    ensures
        match count {
            Some(n) => length_literal(*meta) == Some(n as nat),
            None => length_literal(*meta) is None,
        },
{
    match meta {
        NestedMeta::Lit(Lit::Int { text, value: _ }) => parse_usize(text.as_str()),
        _ => None,
    }
}

/// The string that a string literal denotes.
fn lit_to_string(meta: &NestedMeta) -> (text: Option<String>)
    ensures
        match text {
            Some(s) => string_literal(*meta) == Some(s@),
            None => string_literal(*meta) is None,
        },
{
    match meta {
        NestedMeta::Lit(Lit::Str(s)) => Some(s.clone()),
        _ => None,
    }
}

impl ValidateRule {
    /// Parses one item of a group into a rule.
    pub fn from_meta(meta: &Meta) -> (parsed: Result<Self, CompileError>)
        ensures
            rule_result(parsed) == rule_of_meta(*meta),
    {
        match meta {
            Meta::List { path, nested } => {
                if first_segment_is(path, "len") {
                    Self::from_len(nested)
                } else if first_segment_is(path, "regex") {
                    Self::from_regex(nested)
                } else if first_segment_is(path, "range") {
                    Self::from_range(nested)
                } else if first_segment_is(path, "eq") {
                    Self::from_eq(nested)
                } else {
                    Err(CompileError::UnknownRule)
                }
            },
            Meta::Path(segments) => {
                if first_segment_is(segments, "email") {
                    Ok(Self::Email)
                } else {
                    Err(CompileError::UnknownRule)
                }
            },
            Meta::NameValue => Err(CompileError::StructuralError),
        }
    }

    /// Parses the arguments of `len`.
    pub fn from_len(nested: &Vec<NestedMeta>) -> (parsed: Result<Self, CompileError>)
        ensures
            rule_result(parsed) == len_rule(nested@),
    {
        if nested.len() == 0 {
            return Err(CompileError::StructuralError);
        }
        let one: usize = match lit_to_length(&nested[0]) {
            Some(n) => n,
            None => {
                return Err(CompileError::InvalidLiteral);
            },
        };
        let two: usize = match lit_to_length(&nested[nested.len() - 1]) {
            Some(n) => n,
            None => {
                return Err(CompileError::InvalidLiteral);
            },
        };
        let min: usize = if one <= two {
            one
        } else {
            two
        };
        let max: usize = if one >= two {
            one
        } else {
            two
        };
        Ok(Self::Len { min, max })
    }

    /// Parses the arguments of `regex`.
    pub fn from_regex(nested: &Vec<NestedMeta>) -> (parsed: Result<Self, CompileError>)
        ensures
            rule_result(parsed) == regex_rule(nested@),
    {
        if nested.len() == 0 {
            return Err(CompileError::StructuralError);
        }
        match lit_to_string(&nested[0]) {
            Some(rx) => Ok(Self::Regex(rx)),
            None => Err(CompileError::InvalidLiteral),
        }
    }

    /// Parses the arguments of `range`.
    pub fn from_range(nested: &Vec<NestedMeta>) -> (parsed: Result<Self, CompileError>)
        ensures
            rule_result(parsed) == range_rule(nested@),
    {
        if nested.len() == 0 {
            return Err(CompileError::StructuralError);
        }
        let one: Double = match lit_to_float(&nested[0]) {
            Some(d) => d,
            None => {
                return Err(CompileError::InvalidLiteral);
            },
        };
        let two: Double = match lit_to_float(&nested[nested.len() - 1]) {
            Some(d) => d,
            None => {
                return Err(CompileError::InvalidLiteral);
            },
        };
        Ok(Self::Range { min: one.min_of(two), max: one.max_of(two) })
    }

    /// Parses the arguments of `eq`.
    pub fn from_eq(nested: &Vec<NestedMeta>) -> (parsed: Result<Self, CompileError>)
        ensures
            rule_result(parsed) == eq_rule(nested@),
    {
        if nested.len() == 0 {
            return Err(CompileError::StructuralError);
        }
        match lit_to_string(&nested[0]) {
            Some(eq) => Ok(Self::Eq(eq)),
            None => Err(CompileError::InvalidLiteral),
        }
    }
}

/// The rules and the failure message that one annotation attaches to a field,
/// and the record it belongs to. A value fails the group if it fails any rule.
#[derive(Clone, Debug, PartialEq)]
pub struct ValidateMeta {
    pub validates: Vec<ValidateRule>,
    pub err_msg: String,
    pub struct_ident: String,
}

/// The mathematical form of a group.
pub struct GroupView {
    pub rules: Seq<RuleView>,
    pub message: Seq<char>,
    pub record: Seq<char>,
}

impl View for ValidateMeta {
    type V = GroupView;

    open spec fn view(&self) -> GroupView {
        GroupView {
            rules: views(self.validates@),
            message: self.err_msg@,
            record: self.struct_ident@,
        }
    }
}

/// The outcome of parsing one annotation, in mathematical form.
pub open spec fn group_result(parsed: Result<ValidateMeta, CompileError>) -> Result<
    GroupView,
    CompileError,
> {
    match parsed {
        Ok(group) => Ok(group@),
        Err(e) => Err(e),
    }
}

/// The rules among the first `n` items of a group, in order, or the error of
/// the first item that is no rule. Literals between the rules are passed over.
pub open spec fn rules_upto(nested: Seq<NestedMeta>, n: nat) -> Result<Seq<RuleView>, CompileError>
    decreases n,
{
    if n == 0 {
        Ok(Seq::empty())
    } else {
        match rules_upto(nested, (n - 1) as nat) {
            Err(e) => Err(e),
            Ok(rules) => match nested[n - 1] {
                NestedMeta::Meta(meta) => match rule_of_meta(meta) {
                    Ok(rule) => Ok(rules.push(rule)),
                    Err(e) => Err(e),
                },
                NestedMeta::Lit(_) => Ok(rules),
            },
        }
    }
}

/// The last string literal among the first `n` items of a group.
pub open spec fn message_upto(nested: Seq<NestedMeta>, n: nat) -> Option<Seq<char>>
    decreases n,
{
    if n == 0 {
        None
    } else {
        match string_literal(nested[n - 1]) {
            Some(message) => Some(message),
            None => message_upto(nested, (n - 1) as nat),
        }
    }
}

/// The group that an annotation stands for: it must be `valid(..)`; its
/// items are rules and string literals; the last string literal, if there is
/// one, is the failure message.
pub open spec fn group_of_attr(attr: Attribute, record: Seq<char>) -> Result<
    GroupView,
    CompileError,
> {
    match attr {
        Attribute::Parsed(Meta::List { path, nested }) => {
            if starts_with_name(path@, "valid"@) {
                match rules_upto(nested@, nested@.len()) {
                    Ok(rules) => Ok(
                        GroupView {
                            rules,
                            message: match message_upto(nested@, nested@.len()) {
                                Some(message) => message,
                                None => DEFAULT_MESSAGE@,
                            },
                            record,
                        },
                    ),
                    Err(e) => Err(e),
                }
            } else {
                Err(CompileError::StructuralError)
            }
        },
        _ => Err(CompileError::StructuralError),
    }
}

/// Once an item is no rule, no later item mends it.
pub proof fn lemma_error_sticks(nested: Seq<NestedMeta>, n: nat, m: nat)
    requires
        n <= m,
        rules_upto(nested, n) is Err,
    ensures
        rules_upto(nested, m) == rules_upto(nested, n),
    decreases m,
{
    if n < m {
        lemma_error_sticks(nested, n, (m - 1) as nat);
    }
}

impl ValidateMeta {
    /// Parses the annotation on a field of the record `struct_ident`.
    #[verifier::loop_isolation(false)]
    pub fn from_valid_attr(attr: &Attribute, struct_ident: &str) -> (parsed: Result<
        Self,
        CompileError,
    >)
        ensures
            group_result(parsed) == group_of_attr(*attr, struct_ident@),
    {
        let nested: &Vec<NestedMeta> = match attr {
            Attribute::Parsed(Meta::List { path, nested }) => {
                if first_segment_is(path, "valid") {
                    nested
                } else {
                    return Err(CompileError::StructuralError);
                }
            },
            _ => {
                return Err(CompileError::StructuralError);
            },
        };
        let mut validates: Vec<ValidateRule> = Vec::new();
        let mut err_msg: Option<String> = None;
        let mut i: usize = 0;
        assert(views(validates@) == Seq::<RuleView>::empty());
        while i < nested.len()
            invariant
                i <= nested.len(),
                rules_upto(nested@, i as nat) == Ok::<Seq<RuleView>, CompileError>(
                    views(validates@),
                ),
                match err_msg {
                    Some(message) => message_upto(nested@, i as nat) == Some(message@),
                    None => message_upto(nested@, i as nat) is None,
                },
            decreases nested.len() - i,
        {
            match &nested[i] {
                NestedMeta::Meta(meta) => {
                    match ValidateRule::from_meta(meta) {
                        Ok(rule) => {
                            let ghost before = views(validates@);
                            validates.push(rule);
                            assert(views(validates@) == before.push(rule@));
                        },
                        Err(e) => {
                            proof {
                                lemma_error_sticks(nested@, (i + 1) as nat, nested@.len());
                            }
                            return Err(e);
                        },
                    }
                },
                NestedMeta::Lit(Lit::Str(msg)) => {
                    err_msg = Some(msg.clone());
                },
                _ => {},
            }
            i = i + 1;
        }
        let err_msg: String = match err_msg {
            Some(message) => message,
            None => DEFAULT_MESSAGE.to_owned(),
        };
        Ok(Self { validates, err_msg, struct_ident: struct_ident.to_owned() })
    }
}

/// The name under which the pattern of a field is registered.
fn regex_name(struct_ident: &str, field_name: &str) -> (name: String)
    ensures
        name@ == generated_name(struct_ident@, field_name@),
{
    let mut name: String = to_uppercase(struct_ident);
    name.append("_");
    let field: String = to_uppercase(field_name);
    name.append(field.as_str());
    name.append("_REGEX");
    name
}

/// The check that an `eq` rule compiles to.
fn eq_check(eq: &str) -> (check: Check)
    ensures
        check@ == check_of_rule(RuleView::Eq(eq@), Coercion::Primitive, 0),
{
    let len: usize = eq.unicode_len();
    if len > 0 && eq.get_char(0) == SENTINEL {
        let other: String = eq.substring_char(1, len).to_owned();
        assert(other@ == eq@.skip(1));
        Check::NotField(other)
    } else {
        Check::NotLiteral(eq.to_owned())
    }
}

impl ValidateMeta {
    /// Compiles the group into the invalid-expression of the field it is
    /// attached to. Each `regex` rule is given the next free slot of
    /// `static_ref`, where its pattern is registered under the name generated
    /// for the record and the field; nothing else in `static_ref` changes.
    #[verifier::loop_isolation(false)]
    pub fn validate_token(
        &self,
        field_name: &str,
        is_optional: bool,
        type_ident: &str,
        static_ref: &mut Vec<RegexRegistration>,
    ) -> (predicate: Predicate)
        ensures
            predicate@ == predicate_of_group(
                self@,
                field_name@,
                is_optional,
                type_ident@,
                old(static_ref)@.len(),
            ),
            views(final(static_ref)@) == views(old(static_ref)@) + registrations_of_group(
                self@,
                field_name@,
            ),
    {
        let coercion: Coercion = if text_eq(type_ident, DECIMAL_TYPE) {
            Coercion::Decimal
        } else {
            Coercion::Primitive
        };
        let ghost rules: Seq<RuleView> = self@.rules;
        let ghost name: Seq<char> = generated_name(self@.record, field_name@);
        let ghost base: nat = old(static_ref)@.len();
        let ghost registered: Seq<RegistrationView> = views(old(static_ref)@);
        let mut checks: Vec<Check> = Vec::new();
        let mut index: usize = 0;
        assert(views(static_ref@) == registered + registrations_upto(rules, name, 0));
        while index < self.validates.len()
            invariant
                index <= self.validates.len(),
                checks@.len() == index,
                forall|i: int|
                    0 <= i < index ==> (#[trigger] checks@[i])@ == check_of_rule(
                        rules[i],
                        coercion,
                        base + regex_count(rules, i as nat),
                    ),
                views(static_ref@) == registered + registrations_upto(rules, name, index as nat),
            decreases self.validates.len() - index,
        {
            proof {
                lemma_registrations_count(rules, name, index as nat);
            }
            let ghost slots = views(static_ref@);
            let t: Check = match &self.validates[index] {
                ValidateRule::Regex(rx) => {
                    let rex_name: String = regex_name(self.struct_ident.as_str(), field_name);
                    let slot: usize = static_ref.len();
                    static_ref.push(RegexRegistration { name: rex_name, pattern: rx.clone() });
                    assert(views(static_ref@) == slots.push(
                        RegistrationView { name, pattern: rx@ },
                    ));
                    Check::NoMatch { slot }
                },
                ValidateRule::Len { min, max } => Check::LenOutside { min: *min, max: *max },
                ValidateRule::Email => Check::NotEmail,
                ValidateRule::Range { min, max } => Check::RangeOutside {
                    min: *min,
                    max: *max,
                    coercion,
                },
                ValidateRule::Eq(eq) => eq_check(eq.as_str()),
            };
            checks.push(t);
            index = index + 1;
        }
        let predicate = Predicate { field: field_name.to_owned(), optional: is_optional, checks };
        assert(predicate@.checks == predicate_of_group(
            self@,
            field_name@,
            is_optional,
            type_ident@,
            base,
        ).checks);
        predicate
    }
}

} // verus!
