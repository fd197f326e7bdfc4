//! The validation engine.
//!
//! A record is described by the checks on its own fields and by its nested
//! records. The engine walks such a description depth first: it runs a
//! record's own checks in order, then each nested record in order, and puts
//! the nested record's field name in front of the paths that come back. It
//! never stops at the first failure.

use vstd::prelude::*;
use vstd::string::*;
use crate::path::{field_path, path_of};
use crate::rules::{check_rule, rule_holds, RuleKind};

verus! {

/// One failed rule, at the field it failed on.
#[derive(Clone, Debug, PartialEq, Eq)]
pub struct Violation {
    pub field_path: String,
    pub rule: RuleKind,
    pub message: String,
}

/// The mathematical value of a [`Violation`].
pub struct ViolationView {
    pub field_path: Seq<char>,
    pub rule: RuleKind,
    pub message: Seq<char>,
}

impl View for Violation {
    type V = ViolationView;

    open spec fn view(&self) -> ViolationView {
        ViolationView { field_path: self.field_path@, rule: self.rule, message: self.message@ }
    }
}

/// The values of a list of violations, in order.
pub open spec fn views(found: Seq<Violation>) -> Seq<ViolationView> {
    found.map_values(|v: Violation| v@)
}

/// One rule on one field of a record. An absent field passes every rule.
#[derive(Clone, Debug, PartialEq, Eq)]
pub struct Check {
    pub field: String,
    pub value: Option<String>,
    pub rule: RuleKind,
}

/// The mathematical value of a [`Check`].
pub struct CheckView {
    pub field: Seq<char>,
    pub value: Option<Seq<char>>,
    pub rule: RuleKind,
}

impl View for Check {
    type V = CheckView;

    open spec fn view(&self) -> CheckView {
        CheckView {
            field: self.field@,
            value: match self.value {
                Some(text) => Some(text@),
                None => None,
            },
            rule: self.rule,
        }
    }
}

/// A record as the engine sees it: the checks on its own fields, and its
/// nested records under their field names, both in declaration order.
#[derive(Debug, PartialEq, Eq)]
pub struct Record {
    pub checks: Vec<Check>,
    pub children: Vec<(String, Record)>,
}

/// The mathematical value of a [`Record`].
pub struct RecordView {
    pub checks: Seq<CheckView>,
    pub children: Seq<(Seq<char>, RecordView)>,
}

/// The value of a record, defined by recursion over its nesting.
pub open spec fn record_view(record: Record) -> RecordView
    decreases record,
{
    RecordView {
        checks: record.checks@.map_values(|c: Check| c@),
        children: Seq::new(
            record.children@.len(),
            |i: int|
                if 0 <= i < record.children@.len() {
                    (record.children@[i].0@, record_view(record.children@[i].1))
                } else {
                    (Seq::empty(), RecordView { checks: Seq::empty(), children: Seq::empty() })
                },
        ),
    }
}

impl View for Record {
    type V = RecordView;

    open spec fn view(&self) -> RecordView {
        record_view(*self)
    }
}

/// What a violation of `rule` tells the reader.
pub open spec fn rule_message(rule: RuleKind) -> Seq<char> {
    match rule {
        RuleKind::EmailFormat => "is not a valid email address"@,
    }
}

/// The check fails: the field is present and its text breaks the rule.
pub open spec fn check_fails(check: CheckView) -> bool {
    check.value matches Some(text) && !rule_holds(check.rule, text)
}

/// The violation a failed check gives rise to.
pub open spec fn violation_of(check: CheckView) -> ViolationView {
    ViolationView {
        field_path: check.field,
        rule: check.rule,
        message: rule_message(check.rule),
    }
}

/// The violation `inner`, seen from the record that holds the reporting
/// record under the field `name`.
pub open spec fn prefixed(name: Seq<char>, inner: ViolationView) -> ViolationView {
    ViolationView {
        field_path: field_path(name, inner.field_path),
        rule: inner.rule,
        message: inner.message,
    }
}

/// The violations of a record's own checks: one for each check that fails,
/// in the order of the checks.
pub open spec fn local_violations(checks: Seq<CheckView>) -> Seq<ViolationView> {
    checks.filter(|check: CheckView| check_fails(check)).map_values(
        |check: CheckView| violation_of(check),
    )
}

/// All violations of a record: those of its own checks first, then those of
/// its nested records.
pub open spec fn violations_of(record: RecordView) -> Seq<ViolationView>
    decreases record,
{
    local_violations(record.checks) + nested_violations(record.children)
}

/// The violations of nested records, record by record in the order given,
/// each path with the record's field name in front.
pub open spec fn nested_violations(children: Seq<(Seq<char>, RecordView)>) -> Seq<ViolationView>
    decreases children,
{
    if children.len() == 0 {
        Seq::empty()
    } else {
        nested_violations(children.drop_last()) + violations_of(children.last().1).map_values(
            |inner: ViolationView| prefixed(children.last().0, inner),
        )
    }
}

/// The message that goes with a violation of `rule`.
pub fn message_for(rule: RuleKind) -> (text: String)
    ensures
        text@ == rule_message(rule),
{
    match rule {
        RuleKind::EmailFormat => String::from_str("is not a valid email address"),
    }
}

/// Runs one check. Gives the violation where the field is present and its
/// text breaks the rule, and nothing otherwise.
pub fn run_check(check: &Check) -> (found: Option<Violation>)
    ensures
        match found {
            Some(violation) => check_fails(check@) && violation@ == violation_of(check@),
            None => !check_fails(check@),
        },
{
    match &check.value {
        None => None,
        Some(text) => {
            if check_rule(check.rule, text.as_str()) {
                None
            } else {
                Some(
                    Violation {
                        field_path: check.field.clone(),
                        rule: check.rule,
                        message: message_for(check.rule),
                    },
                )
            }
        },
    }
}

/// Runs a record's own checks, all of them, in order.
pub fn run_checks(checks: &Vec<Check>) -> (found: Vec<Violation>)
    ensures
        views(found@) == local_violations(checks@.map_values(|c: Check| c@)),
{
    let ghost all = checks@.map_values(|c: Check| c@);
    let mut found: Vec<Violation> = Vec::new();
    let mut i: usize = 0;
    proof {
        lemma_local_empty();
        assert(all.take(0) =~= Seq::empty());
        assert(views(found@) =~= local_violations(all.take(0)));
    }
    while i < checks.len()
        invariant
            i <= checks.len(),
            all == checks@.map_values(|c: Check| c@),
            views(found@) == local_violations(all.take(i as int)),
        decreases checks.len() - i,
    {
        let ghost before = found@;
        proof {
            assert(all.take(i + 1).drop_last() =~= all.take(i as int));
            assert(all.take(i + 1).last() == checks@[i as int]@);
            lemma_local_last(all.take(i + 1));
        }
        match run_check(&checks[i]) {
            Some(violation) => {
                found.push(violation);
                assert(views(found@) =~= views(before).push(violation@));
            },
            None => {},
        }
        i = i + 1;
    }
    assert(all.take(i as int) =~= all);
    found
}

/// Puts the field name `name` in front of the path of every violation in
/// `inner`.
pub fn prefix_all(name: &str, inner: Vec<Violation>) -> (found: Vec<Violation>)
    ensures
        views(found@) == views(inner@).map_values(|v: ViolationView| prefixed(name@, v)),
{
    let mut found: Vec<Violation> = Vec::new();
    let mut i: usize = 0;
    while i < inner.len()
        invariant
            i <= inner.len(),
            found@.len() == i,
            forall|k: int| 0 <= k < i ==> (#[trigger] found@[k])@ == prefixed(name@, inner@[k]@),
        decreases inner.len() - i,
    {
        let violation = Violation {
            field_path: path_of(name, inner[i].field_path.as_str()),
            rule: inner[i].rule,
            message: inner[i].message.clone(),
        };
        found.push(violation);
        i = i + 1;
    }
    assert(views(found@) =~= views(inner@).map_values(|v: ViolationView| prefixed(name@, v)));
    found
}

/// Validates a record and everything nested in it.
///
/// Returns every violation in the tree: the record's own first, in the
/// order of its checks, then those of each nested record in turn, with the
/// nested record's field name in front of their paths.
pub fn check_record(record: &Record) -> (found: Vec<Violation>)
    ensures
        views(found@) == violations_of(record@),
    decreases record,
{
    let ghost nested = record@.children;
    let mut found = run_checks(&record.checks);
    let mut i: usize = 0;
    assert(views(found@) =~= local_violations(record@.checks) + nested_violations(nested.take(0)));
    while i < record.children.len()
        invariant
            i <= record.children.len(),
            nested == record@.children,
            nested.len() == record.children@.len(),
            views(found@) == local_violations(record@.checks) + nested_violations(
                nested.take(i as int),
            ),
        decreases record.children.len() - i,
    {
        let ghost before = found@;
        let child = &record.children[i];
        let inner = check_record(&child.1);
        let mut lifted = prefix_all(child.0.as_str(), inner);
        proof {
            assert(nested.take(i + 1).drop_last() =~= nested.take(i as int));
            assert(nested.take(i + 1).last() == (child.0@, child.1@));
        }
        let ghost added = lifted@;
        found.append(&mut lifted);
        assert(views(found@) =~= views(before) + views(added));
        i = i + 1;
    }
    assert(nested.take(i as int) =~= nested);
    found
}

/// How many of the checks fail.
pub open spec fn failing(checks: Seq<CheckView>) -> nat {
    checks.filter(|check: CheckView| check_fails(check)).len()
}

/// How many checks fail in a record and everything nested in it.
pub open spec fn failures_in(record: RecordView) -> nat
    decreases record,
{
    failing(record.checks) + nested_failures(record.children)
}

/// How many checks fail in the nested records given.
pub open spec fn nested_failures(children: Seq<(Seq<char>, RecordView)>) -> nat
    decreases children,
{
    if children.len() == 0 {
        0
    } else {
        nested_failures(children.drop_last()) + failures_in(children.last().1)
    }
}

/// A record's own checks yield one violation for each check that fails.
pub proof fn lemma_local_count(checks: Seq<CheckView>)
    ensures
        local_violations(checks).len() == failing(checks),
{
}

/// No checks, no violations.
pub proof fn lemma_local_empty()
    ensures
        local_violations(Seq::empty()) == Seq::<ViolationView>::empty(),
{
    reveal(Seq::filter);
    assert(Seq::<CheckView>::empty().filter(|check: CheckView| check_fails(check)) =~= Seq::empty());
    assert(local_violations(Seq::empty()) =~= Seq::<ViolationView>::empty());
}

/// The last check adds its violation behind those of the checks before it,
/// or nothing where it passes.
pub proof fn lemma_local_last(checks: Seq<CheckView>)
    requires
        checks.len() > 0,
    ensures
        local_violations(checks) == if check_fails(checks.last()) {
            local_violations(checks.drop_last()).push(violation_of(checks.last()))
        } else {
            local_violations(checks.drop_last())
        },
{
    reveal(Seq::filter);
    let fails = |check: CheckView| check_fails(check);
    if check_fails(checks.last()) {
        assert(checks.filter(fails) == checks.drop_last().filter(fails).push(checks.last()));
        assert(local_violations(checks) =~= local_violations(checks.drop_last()).push(
            violation_of(checks.last()),
        ));
    } else {
        assert(checks.filter(fails) == checks.drop_last().filter(fails));
    }
}

/// Nothing is merged or dropped: the engine reports exactly as many
/// violations as there are failing checks in the whole tree.
pub proof fn lemma_every_failure_reported(record: RecordView)
    ensures
        violations_of(record).len() == failures_in(record),
    decreases record,
{
    lemma_local_count(record.checks);
    lemma_nested_count(record.children);
}

/// The count law for a list of nested records.
pub proof fn lemma_nested_count(children: Seq<(Seq<char>, RecordView)>)
    ensures
        nested_violations(children).len() == nested_failures(children),
    decreases children,
{
    if children.len() > 0 {
        lemma_nested_count(children.drop_last());
        lemma_every_failure_reported(children.last().1);
    }
}

/// A record's own violations come out in the order of its checks: the
/// violations of two lists of checks put together are those of the first
/// list followed by those of the second.
pub proof fn lemma_local_in_order(first: Seq<CheckView>, second: Seq<CheckView>)
    ensures
        local_violations(first + second) == local_violations(first) + local_violations(second),
{
    let fails = |check: CheckView| check_fails(check);
    Seq::filter_distributes_over_add(first, second, fails);
    assert(local_violations(first + second) =~= local_violations(first) + local_violations(
        second,
    ));
}

/// Nested records report in declaration order: the violations of two lists
/// of nested records put together are those of the first list followed by
/// those of the second.
pub proof fn lemma_nested_in_order(
    first: Seq<(Seq<char>, RecordView)>,
    second: Seq<(Seq<char>, RecordView)>,
)
    ensures
        nested_violations(first + second) == nested_violations(first) + nested_violations(second),
    decreases second.len(),
{
    if second.len() == 0 {
        assert(first + second =~= first);
        assert(nested_violations(first) + nested_violations(second) =~= nested_violations(first));
    } else {
        assert((first + second).drop_last() =~= first + second.drop_last());
        assert((first + second).last() == second.last());
        lemma_nested_in_order(first, second.drop_last());
        assert(nested_violations(first + second) =~= nested_violations(first) + nested_violations(
            second,
        ));
    }
}

/// A parent's rules report before its children's: the first violations of a
/// record are those of its own checks, and the rest are the nested ones.
pub proof fn lemma_parent_before_children(record: RecordView, k: int)
    requires
        0 <= k < violations_of(record).len(),
    ensures
        k < local_violations(record.checks).len() ==> violations_of(record)[k] == local_violations(
            record.checks,
        )[k],
        k >= local_violations(record.checks).len() ==> violations_of(record)[k]
            == nested_violations(record.children)[k - local_violations(record.checks).len()],
{
}

/// Validation is repeatable: any two runs on the same record report the
/// same violations in the same order.
pub proof fn lemma_runs_agree(record: Record, first: Vec<Violation>, second: Vec<Violation>)
    requires
        views(first@) == violations_of(record@),
        views(second@) == violations_of(record@),
    ensures
        first@.len() == second@.len(),
        forall|k: int| 0 <= k < first@.len() ==> first@[k]@ == second@[k]@,
{
    assert(views(first@).len() == first@.len());
    assert(views(second@).len() == second@.len());
    assert forall|k: int| 0 <= k < first@.len() implies first@[k]@ == second@[k]@ by {
        assert(views(first@)[k] == first@[k]@);
        assert(views(second@)[k] == second@[k]@);
    }
}

} // verus!
