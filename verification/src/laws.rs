//! What holds of every record and every schema.

use vstd::prelude::*;
use crate::evaluate::{
    check_status, checks_status, failure_of_fault, group_status, predicate_status, rule_status,
    rules_status, slot_pattern, verdict, verdict_from, FailureView, Status,
};
use crate::expand::{
    carried_name, expand_attrs, expand_fields, is_optional, lemma_attr_error_sticks,
    lemma_field_error_sticks, with_group, ExpansionView, SchemaError,
};
use crate::predicate::{
    check_of_rule, checks_of_rules, coercion_for, lemma_registrations_count, predicate_of_group,
    regex_count, registrations_of_group, registrations_upto, CheckView, Coercion, PredicateView,
    RegistrationView, SENTINEL,
};
use crate::record::{lookup, values_equal, EntryView, ValueView};
use crate::schema::FieldDef;
use crate::validate::{group_of_attr, GroupView, RuleView};

verus! {

/// A record that passes the check of every annotated field is valid.
pub proof fn lemma_all_passed_is_valid(expansion: ExpansionView, record: Seq<EntryView>)
    requires
        forall|i: int|
            0 <= i < expansion.checks.len() ==> predicate_status(
                #[trigger] expansion.checks[i].predicate,
                record,
                expansion.regexes,
            ) == Status::Passed,
    ensures
        verdict(expansion, record) == Ok::<(), FailureView>(()),
{
    lemma_passed_prefix(expansion, record, expansion.checks.len() as int);
}

/// While the record passes the field checks before position `upto`, the
/// verdict is that of the checks from there on.
pub proof fn lemma_passed_prefix(expansion: ExpansionView, record: Seq<EntryView>, upto: int)
    requires
        0 <= upto <= expansion.checks.len(),
        forall|i: int|
            0 <= i < upto ==> predicate_status(
                #[trigger] expansion.checks[i].predicate,
                record,
                expansion.regexes,
            ) == Status::Passed,
    ensures
        verdict(expansion, record) == verdict_from(
            expansion.checks,
            record,
            expansion.regexes,
            upto,
        ),
    decreases upto,
{
    if upto > 0 {
        lemma_passed_prefix(expansion, record, upto - 1);
        assert(predicate_status(
            expansion.checks[upto - 1].predicate,
            record,
            expansion.regexes,
        ) == Status::Passed);
    }
}

/// The first failure wins: where the record fails the check of a field and
/// passes those of all fields declared before it, validation fails with that
/// field's message, whatever holds of the fields after it.
pub proof fn lemma_first_violation_wins(
    expansion: ExpansionView,
    record: Seq<EntryView>,
    first: int,
)
    requires
        0 <= first < expansion.checks.len(),
        predicate_status(expansion.checks[first].predicate, record, expansion.regexes)
            == Status::Violated,
        forall|i: int|
            0 <= i < first ==> predicate_status(
                #[trigger] expansion.checks[i].predicate,
                record,
                expansion.regexes,
            ) == Status::Passed,
    ensures
        verdict(expansion, record) == Err::<(), FailureView>(
            FailureView::Violation(expansion.checks[first].message),
        ),
{
    lemma_passed_prefix(expansion, record, first);
}

/// A field is invalid if it fails any of its checks: it passes exactly when
/// it is optional and absent, or its value passes every check.
pub proof fn lemma_field_passes_iff_all_pass(
    predicate: PredicateView,
    record: Seq<EntryView>,
    regexes: Seq<RegistrationView>,
)
    ensures
        predicate_status(predicate, record, regexes) == Status::Passed <==> (predicate.optional
            && lookup(record, predicate.field) is None) || (forall|j: int|
            0 <= j < predicate.checks.len() ==> check_status(
                #[trigger] predicate.checks[j],
                lookup(record, predicate.field),
                record,
                regexes,
            ) == Status::Passed),
{
    lemma_checks_pass_iff_all_pass(
        predicate.checks,
        lookup(record, predicate.field),
        record,
        regexes,
        0,
    );
}

/// A value passes the checks from a position on exactly when it passes each
/// of them.
pub proof fn lemma_checks_pass_iff_all_pass(
    checks: Seq<CheckView>,
    value: Option<ValueView>,
    record: Seq<EntryView>,
    regexes: Seq<RegistrationView>,
    from: int,
)
    requires
        0 <= from <= checks.len(),
    ensures
        checks_status(checks, value, record, regexes, from) == Status::Passed <==> (forall|
            j: int,
        |
            from <= j < checks.len() ==> check_status(
                #[trigger] checks[j],
                value,
                record,
                regexes,
            ) == Status::Passed),
    decreases checks.len() - from,
{
    if from < checks.len() {
        lemma_checks_pass_iff_all_pass(checks, value, record, regexes, from + 1);
        if check_status(checks[from], value, record, regexes) == Status::Passed {
            assert forall|j: int| from <= j < checks.len() && checks_status(
                checks,
                value,
                record,
                regexes,
                from,
            ) == Status::Passed implies check_status(
                #[trigger] checks[j],
                value,
                record,
                regexes,
            ) == Status::Passed by {
                if j > from {
                }
            }
        }
    }
}

/// The interval of a length rule has its lower bound and lacks its upper
/// one: where `min` is below `max`, a text of exactly `min` characters
/// satisfies `len(min, max)` and a text of exactly `max` characters violates
/// it.
pub proof fn lemma_len_bounds(min: nat, max: nat, text: Seq<char>, record: Seq<EntryView>)
    requires
        min < max,
    ensures
        text.len() == min ==> rule_status(
            RuleView::Len { min, max },
            Coercion::Primitive,
            Some(ValueView::Text(text)),
            record,
        ) == Status::Passed,
        text.len() == max ==> rule_status(
            RuleView::Len { min, max },
            Coercion::Primitive,
            Some(ValueView::Text(text)),
            record,
        ) == Status::Violated,
{
}

/// A length rule with a single bound is satisfied by the texts of exactly
/// that many characters, and by no others.
pub proof fn lemma_len_single_bound(n: nat, text: Seq<char>, record: Seq<EntryView>)
    ensures
        rule_status(
            RuleView::Len { min: n, max: n },
            Coercion::Primitive,
            Some(ValueView::Text(text)),
            record,
        ) == (if text.len() == n {
            Status::Passed
        } else {
            Status::Violated
        }),
{
}

/// A range rule with a single bound is satisfied by that number, and by no
/// other.
pub proof fn lemma_range_single_bound(n: int, number: int, record: Seq<EntryView>)
    ensures
        rule_status(
            RuleView::Range { min: n, max: n },
            Coercion::Primitive,
            Some(ValueView::Number(number)),
            record,
        ) == (if number == n {
            Status::Passed
        } else {
            Status::Violated
        }),
        rule_status(
            RuleView::Range { min: n, max: n },
            Coercion::Decimal,
            Some(ValueView::Decimal(Some(number))),
            record,
        ) == (if number == n {
            Status::Passed
        } else {
            Status::Violated
        }),
{
}

/// An optional field that is absent passes, whatever its rules.
pub proof fn lemma_absent_optional_passes(
    group: GroupView,
    field: Seq<char>,
    type_ident: Seq<char>,
    base: nat,
    record: Seq<EntryView>,
    regexes: Seq<RegistrationView>,
)
    requires
        lookup(record, field) is None,
    ensures
        group_status(group, field, true, type_ident, record) == Status::Passed,
        predicate_status(
            predicate_of_group(group, field, true, type_ident, base),
            record,
            regexes,
        ) == Status::Passed,
{
}

/// Equality with a sibling field: the rule `eq` whose target is the sentinel
/// and the sibling's name is satisfied exactly when the value and the
/// sibling's are both present and compare equal, and is violated otherwise.
pub proof fn lemma_eq_sibling(
    other: Seq<char>,
    coercion: Coercion,
    value: Option<ValueView>,
    record: Seq<EntryView>,
)
    ensures
        rule_status(RuleView::Eq(seq![SENTINEL] + other), coercion, value, record) == (if value
            matches Some(own) && lookup(record, other) matches Some(theirs) && values_equal(
            own,
            theirs,
        ) {
            Status::Passed
        } else {
            Status::Violated
        }),
{
    let target = seq![SENTINEL] + other;
    assert(target[0] == SENTINEL);
    assert(target.skip(1) == other);
}

/// The registration that a `regex` rule asks for stands at the place that
/// its check knows it by: as many places from the group's first as there are
/// `regex` rules before it.
pub proof fn lemma_registration_at(rules: Seq<RuleView>, name: Seq<char>, n: nat, i: int)
    requires
        0 <= i < n <= rules.len(),
        rules[i] is Regex,
    ensures
        regex_count(rules, i as nat) < registrations_upto(rules, name, n).len(),
        registrations_upto(rules, name, n)[regex_count(rules, i as nat) as int] == (
        RegistrationView { name, pattern: rules[i]->Regex_0 }),
    decreases n,
{
    lemma_registrations_count(rules, name, (n - 1) as nat);
    if i < n - 1 {
        lemma_registration_at(rules, name, (n - 1) as nat, i);
    }
}

/// A check means what its rule means: a value stands under the check that a
/// rule compiles to as it stands under the rule, where the slot of a `regex`
/// rule holds the rule's pattern.
pub proof fn lemma_check_means_rule(
    rule: RuleView,
    coercion: Coercion,
    slot: nat,
    value: Option<ValueView>,
    record: Seq<EntryView>,
    regexes: Seq<RegistrationView>,
)
    requires
        rule matches RuleView::Regex(pattern) ==> slot_pattern(regexes, slot) == Some(pattern),
    ensures
        check_status(check_of_rule(rule, coercion, slot), value, record, regexes) == rule_status(
            rule,
            coercion,
            value,
            record,
        ),
{
}

/// Whether the slots from `base` on hold the patterns of the `regex` rules,
/// in order.
pub open spec fn slots_hold_patterns(
    rules: Seq<RuleView>,
    base: nat,
    regexes: Seq<RegistrationView>,
) -> bool {
    forall|i: int|
        0 <= i < rules.len() ==> (#[trigger] rules[i] matches RuleView::Regex(pattern)
            ==> slot_pattern(regexes, base + regex_count(rules, i as nat)) == Some(pattern))
}

/// The checks of a group mean what its rules mean, from any position on.
pub proof fn lemma_checks_mean_rules(
    rules: Seq<RuleView>,
    coercion: Coercion,
    base: nat,
    value: Option<ValueView>,
    record: Seq<EntryView>,
    regexes: Seq<RegistrationView>,
    from: int,
)
    requires
        0 <= from <= rules.len(),
        slots_hold_patterns(rules, base, regexes),
    ensures
        checks_status(checks_of_rules(rules, coercion, base), value, record, regexes, from)
            == rules_status(rules, coercion, value, record, from),
    decreases rules.len() - from,
{
    if from < rules.len() {
        lemma_checks_mean_rules(rules, coercion, base, value, record, regexes, from + 1);
        assert(rules[from] is Regex ==> slot_pattern(
            regexes,
            base + regex_count(rules, from as nat),
        ) == Some(rules[from]->Regex_0));
        lemma_check_means_rule(
            rules[from],
            coercion,
            base + regex_count(rules, from as nat),
            value,
            record,
            regexes,
        );
    }
}

/// Compiling keeps the meaning of a group: a record stands under the
/// invalid-expression that the group compiles to as it stands under the
/// group, where the registered patterns hold those of the group from the
/// group's first slot on.
pub proof fn lemma_predicate_means_group(
    group: GroupView,
    field: Seq<char>,
    optional: bool,
    type_ident: Seq<char>,
    base: nat,
    record: Seq<EntryView>,
    regexes: Seq<RegistrationView>,
)
    requires
        base + registrations_of_group(group, field).len() <= regexes.len(),
        regexes.subrange(
            base as int,
            (base + registrations_of_group(group, field).len()) as int,
        ) == registrations_of_group(group, field),
    ensures
        predicate_status(
            predicate_of_group(group, field, optional, type_ident, base),
            record,
            regexes,
        ) == group_status(group, field, optional, type_ident, record),
{
    let rules = group.rules;
    let registered = registrations_of_group(group, field);
    assert forall|i: int| 0 <= i < rules.len() && (#[trigger] rules[i]) is Regex implies slot_pattern(
        regexes,
        base + regex_count(rules, i as nat),
    ) == Some(rules[i]->Regex_0) by {
        lemma_registration_at(rules, registered_name(group, field), rules.len(), i);
        let k = regex_count(rules, i as nat) as int;
        assert(regexes.subrange(base as int, (base + registered.len()) as int)[k] == regexes[base
            + k]);
    }
    lemma_checks_mean_rules(
        rules,
        coercion_for(type_ident),
        base,
        lookup(record, field),
        record,
        regexes,
        0,
    );
}

/// The name under which the patterns of a group on a field are registered.
pub open spec fn registered_name(group: GroupView, field: Seq<char>) -> Seq<char> {
    crate::predicate::generated_name(group.record, field)
}

/// Whether every slot that the checks name is below the limit.
pub open spec fn slots_within(checks: Seq<CheckView>, limit: nat) -> bool {
    forall|j: int|
        0 <= j < checks.len() ==> (#[trigger] checks[j] matches CheckView::NoMatch { slot }
            ==> slot < limit)
}

/// Whether every slot that a check of the expansion names is registered.
pub open spec fn slots_registered(expansion: ExpansionView) -> bool {
    forall|k: int|
        0 <= k < expansion.checks.len() ==> slots_within(
            (#[trigger] expansion.checks[k]).predicate.checks,
            expansion.regexes.len(),
        )
}

/// What the status of a record under a field check makes of a verdict that
/// was success so far: the check's message where the record violates it, a
/// fault at the check's position where it cannot be decided.
pub open spec fn outcome_of(status: Status, message: Seq<char>, position: nat) -> Result<
    (),
    FailureView,
> {
    match status {
        Status::Passed => Ok(()),
        Status::Violated => Err(FailureView::Violation(message)),
        Status::Fatal(fault) => Err(failure_of_fault(fault, position)),
    }
}

/// How a record stands under a group attached to a field, by the field's
/// declaration.
pub open spec fn annotation_status(
    field: FieldDef,
    group: GroupView,
    record: Seq<EntryView>,
) -> Status {
    group_status(group, field.name@, is_optional(field.ty), carried_name(field.ty), record)
}

/// Whether the field satisfies every rule of its annotation at position `a`,
/// or is optional and absent. An annotation that does not compile has no
/// rules to satisfy.
pub open spec fn annotation_satisfied(
    field: FieldDef,
    a: int,
    record_name: Seq<char>,
    record: Seq<EntryView>,
) -> bool {
    match group_of_attr(field.attrs@[a], record_name) {
        Ok(group) => annotation_status(field, group, record) == Status::Passed,
        Err(_) => true,
    }
}

/// Patterns registered later do not change how a value stands under checks
/// whose slots were registered before.
pub proof fn lemma_later_slots_unseen(
    checks: Seq<CheckView>,
    value: Option<ValueView>,
    record: Seq<EntryView>,
    fewer: Seq<RegistrationView>,
    more: Seq<RegistrationView>,
    from: int,
)
    requires
        0 <= from <= checks.len(),
        slots_within(checks, fewer.len()),
        fewer.len() <= more.len(),
        more.subrange(0, fewer.len() as int) == fewer,
    ensures
        checks_status(checks, value, record, fewer, from) == checks_status(
            checks,
            value,
            record,
            more,
            from,
        ),
    decreases checks.len() - from,
{
    if from < checks.len() {
        lemma_later_slots_unseen(checks, value, record, fewer, more, from + 1);
        match checks[from] {
            CheckView::NoMatch { slot } => {
                assert(more.subrange(0, fewer.len() as int)[slot as int] == more[slot as int]);
            },
            _ => {},
        }
    }
}

/// Every slot that the checks of a group name is one of those that the
/// group registers.
pub proof fn lemma_group_slots_within(
    group: GroupView,
    field: Seq<char>,
    coercion: Coercion,
    base: nat,
)
    ensures
        slots_within(
            checks_of_rules(group.rules, coercion, base),
            base + registrations_of_group(group, field).len(),
        ),
{
    let rules = group.rules;
    let checks = checks_of_rules(rules, coercion, base);
    assert forall|j: int| 0 <= j < checks.len() && (#[trigger] checks[j]) is NoMatch implies checks[j]->slot
        < base + registrations_of_group(group, field).len() by {
        assert(rules[j] is Regex);
        lemma_registration_at(rules, registered_name(group, field), rules.len(), j);
    }
}

/// The verdict after one more group, from a position on.
proof fn lemma_with_group_from(
    so_far: ExpansionView,
    field: FieldDef,
    group: GroupView,
    record: Seq<EntryView>,
    from: int,
)
    requires
        slots_registered(so_far),
        0 <= from <= so_far.checks.len(),
    ensures
        verdict_from(
            with_group(so_far, field, group).checks,
            record,
            with_group(so_far, field, group).regexes,
            from,
        ) == (match verdict_from(so_far.checks, record, so_far.regexes, from) {
            Err(failure) => Err(failure),
            Ok(()) => outcome_of(
                annotation_status(field, group, record),
                group.message,
                so_far.checks.len(),
            ),
        }),
    decreases so_far.checks.len() - from,
{
    let next = with_group(so_far, field, group);
    let base = so_far.regexes.len();
    let registered = registrations_of_group(group, field.name@);
    if from == so_far.checks.len() {
        assert(next.regexes.subrange(base as int, (base + registered.len()) as int) == registered);
        lemma_predicate_means_group(
            group,
            field.name@,
            is_optional(field.ty),
            carried_name(field.ty),
            base,
            record,
            next.regexes,
        );
        assert(verdict_from(next.checks, record, next.regexes, from + 1) == Ok::<(), FailureView>(
            (),
        ));
    } else {
        lemma_with_group_from(so_far, field, group, record, from + 1);
        let predicate = so_far.checks[from].predicate;
        assert(next.checks[from] == so_far.checks[from]);
        assert(next.regexes.subrange(0, base as int) == so_far.regexes);
        lemma_later_slots_unseen(
            predicate.checks,
            lookup(record, predicate.field),
            record,
            so_far.regexes,
            next.regexes,
            0,
        );
    }
}

/// One more group leaves a failure as it is, and turns success into what the
/// record's status under the group makes of it. Every slot stays registered.
pub proof fn lemma_with_group(
    so_far: ExpansionView,
    field: FieldDef,
    group: GroupView,
    record: Seq<EntryView>,
)
    requires
        slots_registered(so_far),
    ensures
        slots_registered(with_group(so_far, field, group)),
        verdict(with_group(so_far, field, group), record) == (match verdict(so_far, record) {
            Err(failure) => Err(failure),
            Ok(()) => outcome_of(
                annotation_status(field, group, record),
                group.message,
                so_far.checks.len(),
            ),
        }),
{
    let next = with_group(so_far, field, group);
    lemma_with_group_from(so_far, field, group, record, 0);
    assert forall|k: int| 0 <= k < next.checks.len() implies slots_within(
        (#[trigger] next.checks[k]).predicate.checks,
        next.regexes.len(),
    ) by {
        if k < so_far.checks.len() {
            assert(next.checks[k] == so_far.checks[k]);
        } else {
            lemma_group_slots_within(
                group,
                field.name@,
                coercion_for(carried_name(field.ty)),
                so_far.regexes.len(),
            );
        }
    }
}

/// Where the first `n` annotations of a field compile, so do the first `m`,
/// for `m` up to `n`.
pub proof fn lemma_attr_prefix_compiles(
    field: FieldDef,
    position: nat,
    m: nat,
    n: nat,
    start: ExpansionView,
)
    requires
        m <= n,
        expand_attrs(field, position, n, start) is Ok,
    ensures
        expand_attrs(field, position, m, start) is Ok,
{
    if expand_attrs(field, position, m, start) is Err {
        lemma_attr_error_sticks(field, position, m, n, start);
    }
}

/// Where the first `n` fields of a record compile, so do the first `m`, for
/// `m` up to `n`.
pub proof fn lemma_field_prefix_compiles(
    fields: Seq<FieldDef>,
    record_name: Seq<char>,
    m: nat,
    n: nat,
)
    requires
        m <= n,
        expand_fields(fields, record_name, n) is Ok,
    ensures
        expand_fields(fields, record_name, m) is Ok,
{
    if expand_fields(fields, record_name, m) is Err {
        lemma_field_error_sticks(fields, record_name, m, n);
    }
}

/// Every slot that a check names is registered, whatever the annotations of
/// the field.
pub proof fn lemma_attrs_slots_registered(
    field: FieldDef,
    position: nat,
    n: nat,
    start: ExpansionView,
)
    requires
        slots_registered(start),
        expand_attrs(field, position, n, start) is Ok,
    ensures
        slots_registered(expand_attrs(field, position, n, start)->Ok_0),
    decreases n,
{
    if n > 0 {
        lemma_attr_prefix_compiles(field, position, (n - 1) as nat, n, start);
        lemma_attrs_slots_registered(field, position, (n - 1) as nat, start);
        let so_far = expand_attrs(field, position, (n - 1) as nat, start)->Ok_0;
        let group = group_of_attr(field.attrs@[n - 1], start.record)->Ok_0;
        lemma_with_group(so_far, field, group, Seq::empty());
    }
}

/// Every slot that a check of an expansion names is registered in it: no
/// validation call finds a check without its pattern.
pub proof fn lemma_expansion_slots_registered(
    fields: Seq<FieldDef>,
    record_name: Seq<char>,
    n: nat,
)
    requires
        expand_fields(fields, record_name, n) is Ok,
    ensures
        slots_registered(expand_fields(fields, record_name, n)->Ok_0),
    decreases n,
{
    if n > 0 {
        lemma_field_prefix_compiles(fields, record_name, (n - 1) as nat, n);
        lemma_expansion_slots_registered(fields, record_name, (n - 1) as nat);
        let so_far = expand_fields(fields, record_name, (n - 1) as nat)->Ok_0;
        lemma_attrs_slots_registered(
            fields[n - 1],
            (n - 1) as nat,
            fields[n - 1].attrs@.len(),
            so_far,
        );
    }
}

/// Annotations that the record satisfies keep a verdict of success.
pub proof fn lemma_attrs_keep_valid(
    field: FieldDef,
    position: nat,
    n: nat,
    start: ExpansionView,
    record: Seq<EntryView>,
)
    requires
        n <= field.attrs@.len(),
        slots_registered(start),
        verdict(start, record) == Ok::<(), FailureView>(()),
        forall|a: int| 0 <= a < n ==> annotation_satisfied(field, a, start.record, record),
        expand_attrs(field, position, n, start) is Ok,
    ensures
        slots_registered(expand_attrs(field, position, n, start)->Ok_0),
        verdict(expand_attrs(field, position, n, start)->Ok_0, record) == Ok::<(), FailureView>(()),
        expand_attrs(field, position, n, start)->Ok_0.record == start.record,
    decreases n,
{
    if n > 0 {
        lemma_attr_prefix_compiles(field, position, (n - 1) as nat, n, start);
        lemma_attrs_keep_valid(field, position, (n - 1) as nat, start, record);
        let so_far = expand_attrs(field, position, (n - 1) as nat, start)->Ok_0;
        let group = group_of_attr(field.attrs@[n - 1], start.record)->Ok_0;
        assert(annotation_satisfied(field, n - 1, start.record, record));
        lemma_with_group(so_far, field, group, record);
    }
}

/// Annotations after a failure leave it as it is.
pub proof fn lemma_attrs_keep_failure(
    field: FieldDef,
    position: nat,
    n: nat,
    m: nat,
    start: ExpansionView,
    record: Seq<EntryView>,
)
    requires
        n <= m <= field.attrs@.len(),
        expand_attrs(field, position, m, start) is Ok,
        expand_attrs(field, position, n, start) is Ok,
        slots_registered(expand_attrs(field, position, n, start)->Ok_0),
        verdict(expand_attrs(field, position, n, start)->Ok_0, record) is Err,
    ensures
        slots_registered(expand_attrs(field, position, m, start)->Ok_0),
        verdict(expand_attrs(field, position, m, start)->Ok_0, record) == verdict(
            expand_attrs(field, position, n, start)->Ok_0,
            record,
        ),
    decreases m,
{
    if n < m {
        lemma_attr_prefix_compiles(field, position, (m - 1) as nat, m, start);
        lemma_attrs_keep_failure(field, position, n, (m - 1) as nat, start, record);
        let so_far = expand_attrs(field, position, (m - 1) as nat, start)->Ok_0;
        let group = group_of_attr(field.attrs@[m - 1], start.record)->Ok_0;
        lemma_with_group(so_far, field, group, record);
    }
}

/// Fields whose annotations the record satisfies keep a verdict of success.
pub proof fn lemma_fields_keep_valid(
    fields: Seq<FieldDef>,
    record_name: Seq<char>,
    n: nat,
    record: Seq<EntryView>,
)
    requires
        n <= fields.len(),
        forall|f: int, a: int|
            0 <= f < n && 0 <= a < fields[f].attrs@.len() ==> #[trigger] annotation_satisfied(
                fields[f],
                a,
                record_name,
                record,
            ),
        expand_fields(fields, record_name, n) is Ok,
    ensures
        slots_registered(expand_fields(fields, record_name, n)->Ok_0),
        verdict(expand_fields(fields, record_name, n)->Ok_0, record) == Ok::<(), FailureView>(()),
        expand_fields(fields, record_name, n)->Ok_0.record == record_name,
    decreases n,
{
    if n > 0 {
        lemma_field_prefix_compiles(fields, record_name, (n - 1) as nat, n);
        lemma_fields_keep_valid(fields, record_name, (n - 1) as nat, record);
        let so_far = expand_fields(fields, record_name, (n - 1) as nat)->Ok_0;
        let field = fields[n - 1];
        assert forall|a: int| 0 <= a < field.attrs@.len() implies annotation_satisfied(
            field,
            a,
            so_far.record,
            record,
        ) by {
            assert(annotation_satisfied(fields[n - 1], a, record_name, record));
        }
        lemma_attrs_keep_valid(field, (n - 1) as nat, field.attrs@.len(), so_far, record);
    }
}

/// Fields after a failure leave it as it is.
pub proof fn lemma_fields_keep_failure(
    fields: Seq<FieldDef>,
    record_name: Seq<char>,
    n: nat,
    m: nat,
    record: Seq<EntryView>,
)
    requires
        n <= m <= fields.len(),
        expand_fields(fields, record_name, m) is Ok,
        expand_fields(fields, record_name, n) is Ok,
        slots_registered(expand_fields(fields, record_name, n)->Ok_0),
        verdict(expand_fields(fields, record_name, n)->Ok_0, record) is Err,
    ensures
        slots_registered(expand_fields(fields, record_name, m)->Ok_0),
        verdict(expand_fields(fields, record_name, m)->Ok_0, record) == verdict(
            expand_fields(fields, record_name, n)->Ok_0,
            record,
        ),
    decreases m,
{
    if n < m {
        lemma_field_prefix_compiles(fields, record_name, (m - 1) as nat, m);
        lemma_fields_keep_failure(fields, record_name, n, (m - 1) as nat, record);
        let so_far = expand_fields(fields, record_name, (m - 1) as nat)->Ok_0;
        let field = fields[m - 1];
        lemma_attrs_keep_failure(field, (m - 1) as nat, 0, field.attrs@.len(), so_far, record);
    }
}

/// A record is valid where every annotated field satisfies every rule
/// attached to it: the validator that the record's definition expands to
/// returns success on it.
pub proof fn theorem_satisfying_record_is_valid(
    fields: Seq<FieldDef>,
    record_name: Seq<char>,
    record: Seq<EntryView>,
)
    requires
        expand_fields(fields, record_name, fields.len()) is Ok,
        forall|f: int, a: int|
            0 <= f < fields.len() && 0 <= a < fields[f].attrs@.len()
                ==> #[trigger] annotation_satisfied(fields[f], a, record_name, record),
    ensures
        verdict(expand_fields(fields, record_name, fields.len())->Ok_0, record) == Ok::<
            (),
            FailureView,
        >(()),
{
    lemma_fields_keep_valid(fields, record_name, fields.len(), record);
}

/// The first failure wins, in declaration order: where a field violates an
/// annotation, and every annotation written before that one, on that field
/// or on a field declared before it, is satisfied, the validator that the
/// record's definition expands to fails with the message of that
/// annotation, whatever holds of the annotations after it.
pub proof fn theorem_first_violation_wins(
    fields: Seq<FieldDef>,
    record_name: Seq<char>,
    record: Seq<EntryView>,
    first_field: int,
    first_attr: int,
)
    requires
        expand_fields(fields, record_name, fields.len()) is Ok,
        0 <= first_field < fields.len(),
        0 <= first_attr < fields[first_field].attrs@.len(),
        group_of_attr(fields[first_field].attrs@[first_attr], record_name) is Ok,
        annotation_status(
            fields[first_field],
            group_of_attr(fields[first_field].attrs@[first_attr], record_name)->Ok_0,
            record,
        ) == Status::Violated,
        forall|f: int, a: int|
            0 <= f < first_field && 0 <= a < fields[f].attrs@.len()
                ==> #[trigger] annotation_satisfied(fields[f], a, record_name, record),
        forall|a: int|
            0 <= a < first_attr ==> annotation_satisfied(
                fields[first_field],
                a,
                record_name,
                record,
            ),
    ensures
        verdict(expand_fields(fields, record_name, fields.len())->Ok_0, record) == Err::<
            (),
            FailureView,
        >(
            FailureView::Violation(
                group_of_attr(fields[first_field].attrs@[first_attr], record_name)->Ok_0.message,
            ),
        ),
{
    let field = fields[first_field];
    let position = first_field as nat;
    let group = group_of_attr(field.attrs@[first_attr], record_name)->Ok_0;
    lemma_field_prefix_compiles(fields, record_name, position + 1, fields.len());
    lemma_field_prefix_compiles(fields, record_name, position, fields.len());
    lemma_fields_keep_valid(fields, record_name, position, record);
    let start = expand_fields(fields, record_name, position)->Ok_0;
    let count = field.attrs@.len();
    assert(expand_fields(fields, record_name, position + 1) == expand_attrs(
        field,
        position,
        count,
        start,
    ));
    lemma_attr_prefix_compiles(field, position, first_attr as nat, count, start);
    lemma_attr_prefix_compiles(field, position, (first_attr + 1) as nat, count, start);
    lemma_attrs_keep_valid(field, position, first_attr as nat, start, record);
    let so_far = expand_attrs(field, position, first_attr as nat, start)->Ok_0;
    lemma_with_group(so_far, field, group, record);
    assert(expand_attrs(field, position, (first_attr + 1) as nat, start) == Ok::<
        ExpansionView,
        SchemaError,
    >(with_group(so_far, field, group)));
    lemma_attrs_keep_failure(field, position, (first_attr + 1) as nat, count, start, record);
    lemma_fields_keep_failure(fields, record_name, position + 1, fields.len(), record);
}

} // verus!
