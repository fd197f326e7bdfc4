//! The rule catalog: what a field's text must satisfy.

use vstd::prelude::*;
use validator::ValidateEmail;

verus! {

/// The kinds of rule a field can carry.
#[derive(Clone, Copy, Debug, PartialEq, Eq, Structural)]
pub enum RuleKind {
    /// The text is an email address: a local part, `@`, and a domain part
    /// with at least one `.` in it.
    EmailFormat,
}

/// `at` is the position of the last `@` of `text`, where an address splits
/// into its local part and its domain part.
pub open spec fn splits_at(text: Seq<char>, at: int) -> bool {
    &&& 0 <= at < text.len()
    &&& text[at] == '@'
    &&& forall|k: int| at < k < text.len() ==> text[k] != '@'
}

/// The part of `text` before position `at`.
pub open spec fn local_part(text: Seq<char>, at: int) -> Seq<char> {
    text.subrange(0, at)
}

/// The part of `text` after position `at`.
pub open spec fn domain_part(text: Seq<char>, at: int) -> Seq<char> {
    text.subrange(at + 1, text.len() as int)
}

/// `text` has the outline of an address: it splits at an `@` into a local
/// part that is not empty and a domain part that holds a `.`.
pub open spec fn well_shaped(text: Seq<char>) -> bool {
    exists|at: int|
        #![trigger splits_at(text, at)]
        {
            &&& splits_at(text, at)
            &&& local_part(text, at).len() > 0
            &&& domain_part(text, at).contains('.')
        }
}

/// Reading the outline off the last `@`: with `at` its position, or a
/// negative number where `text` has none, `text` is well shaped exactly when
/// `at` is positive and a `.` stands somewhere behind it.
pub proof fn lemma_shape_at_split(text: Seq<char>, at: int)
    requires
        at < text.len(),
        forall|k: int| at < k < text.len() && 0 <= k ==> text[k] != '@',
        at >= 0 ==> text[at] == '@',
    ensures
        well_shaped(text) <==> (at > 0 && exists|k: int| at < k < text.len() && text[k] == '.'),
{
    if well_shaped(text) {
        let other = choose|other: int|
            #![trigger splits_at(text, other)]
            {
                &&& splits_at(text, other)
                &&& local_part(text, other).len() > 0
                &&& domain_part(text, other).contains('.')
            };
        assert(other == at);
        let domain = domain_part(text, at);
        let d = choose|d: int| 0 <= d < domain.len() && domain[d] == '.';
        assert(text[at + 1 + d] == '.');
    }
    if at > 0 && exists|k: int| at < k < text.len() && text[k] == '.' {
        let k = choose|k: int| at < k < text.len() && text[k] == '.';
        assert(splits_at(text, at));
        assert(domain_part(text, at)[k - at - 1] == '.');
    }
}

/// Whether `text` has the outline of an address.
pub fn has_email_shape(text: &str) -> (ok: bool)
    ensures
        ok == well_shaped(text@),
{
    // `split` is `None` until an `@` is met, then tells whether the last one
    // met so far has anything before it; `dotted` tells whether a `.` has
    // followed it.
    let mut split: Option<bool> = None;
    let mut dotted: bool = false;
    let mut first: bool = true;
    let ghost mut at: int = -1;
    let chars = text.chars();
    for c in iter: chars
        invariant
            iter.seq() == text@,
            first == (iter.index() == 0),
            -1 <= at < iter.index(),
            forall|k: int| at < k < iter.index() ==> text@[k] != '@',
            at >= 0 ==> text@[at] == '@',
            split == if at < 0 { None } else { Some(at > 0) },
            dotted == exists|k: int| at < k < iter.index() && text@[k] == '.' && at >= 0,
    {
        if c == '@' {
            proof {
                at = iter.index();
            }
            split = Some(!first);
            dotted = false;
        } else if c == '.' {
            if split.is_some() {
                proof {
                    assert(at < iter.index() < iter.index() + 1 && text@[iter.index()] == '.');
                }
                dotted = true;
            }
        }
        first = false;
    }
    proof {
        lemma_shape_at_split(text@, at);
    }
    match split {
        Some(local) => local && dotted,
        None => false,
    }
}

/// The verdict of `validator`'s email check on `text`.
pub uninterp spec fn html5_email(text: Seq<char>) -> bool;

/// Calls `validator::ValidateEmail::validate_email` on a string slice.
///
/// Trusted: the verdict is a function of the text alone. Nothing is claimed
/// about which texts are accepted.
#[verifier::external_body]
pub(crate) fn accepts_email(text: &str) -> (accepted: bool)
    ensures
        accepted == html5_email(text@),
{
    ValidateEmail::validate_email(&text)
}

/// `text` satisfies the email rule: the address check accepts it, and it has
/// the outline of an address with a dotted domain.
pub open spec fn email_format(text: Seq<char>) -> bool {
    html5_email(text) && well_shaped(text)
}

/// Whether `text` satisfies `rule`.
pub open spec fn rule_holds(rule: RuleKind, text: Seq<char>) -> bool {
    match rule {
        RuleKind::EmailFormat => email_format(text),
    }
}

/// Settles the email rule for `text`, given the address check's verdict on
/// it: the rule holds when the check accepted the text and the text has the
/// outline of an address.
pub fn email_verdict(text: &str, accepted: bool) -> (ok: bool)
    ensures
        ok == (accepted && well_shaped(text@)),
{
    accepted && has_email_shape(text)
}

/// Whether `text` satisfies the email rule.
pub fn check_email(text: &str) -> (ok: bool)
    ensures
        ok == email_format(text@),
{
    let accepted = accepts_email(text);
    email_verdict(text, accepted)
}

/// Whether `text` satisfies `rule`.
pub fn check_rule(rule: RuleKind, text: &str) -> (ok: bool)
    ensures
        ok == rule_holds(rule, text@),
{
    match rule {
        RuleKind::EmailFormat => check_email(text),
    }
}

/// What the email rule guarantees of every text it accepts, whatever the
/// address check says: the text has an `@`, something stands before the last
/// one, and the part behind it is not empty and holds a `.`.
pub proof fn lemma_email_format_outline(text: Seq<char>)
    requires
        email_format(text),
    ensures
        text.contains('@'),
        exists|at: int|
            #![trigger splits_at(text, at)]
            {
                &&& splits_at(text, at)
                &&& local_part(text, at).len() > 0
                &&& domain_part(text, at).len() > 0
                &&& domain_part(text, at).contains('.')
            },
{
    let at = choose|at: int|
        #![trigger splits_at(text, at)]
        {
            &&& splits_at(text, at)
            &&& local_part(text, at).len() > 0
            &&& domain_part(text, at).contains('.')
        };
    assert(text[at] == '@');
    assert(splits_at(text, at));
}

/// A text without `@`, one that starts with its only `@`, and one that ends
/// with an `@` all fail the email rule.
pub proof fn lemma_email_format_rejects(text: Seq<char>)
    ensures
        !text.contains('@') ==> !email_format(text),
        text.len() > 0 && text.last() == '@' ==> !email_format(text),
        text.len() > 0 && text[0] == '@' && !text.drop_first().contains('@') ==> !email_format(
            text,
        ),
{
    if email_format(text) {
        lemma_email_format_outline(text);
        let at = choose|at: int|
            #![trigger splits_at(text, at)]
            {
                &&& splits_at(text, at)
                &&& local_part(text, at).len() > 0
                &&& domain_part(text, at).len() > 0
                &&& domain_part(text, at).contains('.')
            };
        if text.len() > 0 && text[0] == '@' && !text.drop_first().contains('@') {
            assert(text.drop_first()[at - 1] == '@');
        }
    }
}

} // verus!
