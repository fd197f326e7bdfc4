//! The rules of the profile model, and validating a profile against them.

use vstd::prelude::*;
use vstd::string::*;
use crate::engine::{
    check_fails, check_record, lemma_local_empty, lemma_local_last, nested_violations, prefixed,
    rule_message, views, violation_of, violations_of, Check, CheckView, Record, RecordView,
    Violation, ViolationView,
};
use crate::model::{Basics, BasicsView, Location, LocationView, Profile, ProfileView};
use crate::path::field_path;
use crate::rules::{email_format, RuleKind};

verus! {

/// A location as the engine sees it: no rule beyond its types.
pub open spec fn location_record(location: LocationView) -> RecordView {
    RecordView { checks: Seq::empty(), children: Seq::empty() }
}

/// A basics record as the engine sees it: the email rule on `email`, and the
/// nested location.
pub open spec fn basics_record(basics: BasicsView) -> RecordView {
    RecordView {
        checks: seq![
            CheckView {
                field: "email"@,
                value: Some(basics.email),
                rule: RuleKind::EmailFormat,
            },
        ],
        children: seq![("location"@, location_record(basics.location))],
    }
}

/// A profile as the engine sees it: no rule of its own, and the nested
/// basics.
pub open spec fn profile_record(profile: ProfileView) -> RecordView {
    RecordView {
        checks: Seq::empty(),
        children: seq![("basics"@, basics_record(profile.basics))],
    }
}

/// All violations of a profile, in order.
pub open spec fn violations(profile: ProfileView) -> Seq<ViolationView> {
    violations_of(profile_record(profile))
}

/// The one violation the profile model can give rise to.
pub open spec fn email_violation() -> ViolationView {
    ViolationView {
        field_path: "basics.email"@,
        rule: RuleKind::EmailFormat,
        message: rule_message(RuleKind::EmailFormat),
    }
}

impl Location {
    /// Describes this location to the engine.
    pub fn record(&self) -> (record: Record)
        ensures
            record@ == location_record(self@),
    {
        let record = Record { checks: Vec::new(), children: Vec::new() };
        assert(record@.checks =~= Seq::empty());
        assert(record@.children =~= Seq::empty());
        record
    }
}

impl Basics {
    /// Describes this record to the engine.
    pub fn record(&self) -> (record: Record)
        ensures
            record@ == basics_record(self@),
    {
        let mut checks: Vec<Check> = Vec::new();
        checks.push(
            Check {
                field: String::from_str("email"),
                value: Some(self.email.clone()),
                rule: RuleKind::EmailFormat,
            },
        );
        let mut children: Vec<(String, Record)> = Vec::new();
        children.push((String::from_str("location"), self.location.record()));
        let record = Record { checks, children };
        assert(record@.checks =~= basics_record(self@).checks);
        assert(record@.children =~= basics_record(self@).children);
        record
    }
}

impl Profile {
    /// Describes this profile to the engine.
    pub fn record(&self) -> (record: Record)
        ensures
            record@ == profile_record(self@),
    {
        let mut children: Vec<(String, Record)> = Vec::new();
        children.push((String::from_str("basics"), self.basics.record()));
        let record = Record { checks: Vec::new(), children };
        assert(record@.checks =~= Seq::empty());
        assert(record@.children =~= profile_record(self@).children);
        record
    }
}

/// What validating a profile comes to: it has no violation where its email
/// satisfies the email rule, and otherwise exactly one, at `basics.email`.
pub proof fn lemma_profile_violations(profile: ProfileView)
    ensures
        violations(profile) == if email_format(profile.basics.email) {
            Seq::<ViolationView>::empty()
        } else {
            seq![email_violation()]
        },
{
    let location = location_record(profile.basics.location);
    let basics = basics_record(profile.basics);
    let root = profile_record(profile);
    let check = basics.checks[0];

    assert(nested_violations(location.children) =~= Seq::empty());
    assert(violations_of(location) =~= Seq::empty());

    assert(basics.children.drop_last() =~= Seq::empty());
    assert(nested_violations(basics.children) =~= Seq::empty());
    lemma_local_empty();
    lemma_local_last(basics.checks);
    assert(basics.checks.drop_last() =~= Seq::empty());
    assert(check_fails(check) <==> !email_format(profile.basics.email));

    assert(root.children.drop_last() =~= Seq::empty());
    assert(nested_violations(root.children.drop_last()) =~= Seq::empty());

    reveal_strlit("basics");
    reveal_strlit("email");
    reveal_strlit("basics.email");
    assert(field_path("basics"@, "email"@) =~= "basics.email"@);

    if email_format(profile.basics.email) {
        assert(violations_of(basics) =~= Seq::empty());
        assert(violations_of(root) =~= Seq::empty());
    } else {
        assert(violations_of(basics) =~= seq![violation_of(check)]);
        assert(prefixed("basics"@, violation_of(check)) == email_violation());
        assert(violations_of(root) =~= seq![email_violation()]);
    }
}

/// Validates a profile.
///
/// Succeeds when no rule is broken, and otherwise fails with every
/// violation, in declaration order, parents before children.
pub fn validate(doc: &Profile) -> (checked: Result<(), Vec<Violation>>)
    ensures
        checked is Ok <==> violations(doc@).len() == 0,
        checked matches Err(found) ==> views(found@) == violations(doc@),
        checked is Ok <==> email_format(doc@.basics.email),
        checked matches Err(found) ==> views(found@) == seq![email_violation()],
{
    let record = doc.record();
    let found = check_record(&record);
    proof {
        lemma_profile_violations(doc@);
    }
    if found.len() == 0 {
        Ok(())
    } else {
        Err(found)
    }
}

} // verus!
