//! Email addresses of a user, compared without regard to letter case.

use crate::text_order::{compare_text, text_precedence, Precedence};
use std::cmp::Ordering;
use vstd::prelude::*;
use vstd::std_specs::cmp::{PartialEqSpecImpl, PartialOrdSpecImpl};
use vstd::string::StringExecFns;

verus! {

#[derive(Debug, Eq)]
pub struct Email {
    pub email: String,
    pub verified: bool,
    pub source: EmailSource,
}

#[derive(Clone, Copy, Debug, PartialEq, Eq, Structural)]
pub enum EmailSource {
    User,
    GitHub,
}

/// The lower-case form of a text, as `str::to_lowercase` computes it.
pub uninterp spec fn lowercase(text: Seq<char>) -> Seq<char>;

/// `str::to_lowercase`: the text with every character replaced by its
/// lower-case equivalent. The result depends on the text alone.
#[verifier::external_body]
fn to_lowercase(text: &str) -> (lower: String)
    ensures
        lower@ == lowercase(text@),
{
    text.to_lowercase()
}

/// Where `a` stands with respect to `b`: unverified addresses come before
/// verified ones, and within each group the lower-cased addresses decide.
pub open spec fn email_precedence(a: Email, b: Email) -> Precedence {
    if a.verified != b.verified {
        if b.verified {
            Precedence::Before
        } else {
            Precedence::After
        }
    } else {
        text_precedence(lowercase(a.email@), lowercase(b.email@))
    }
}

impl PartialEq for Email {
    /// Two addresses are equal when they agree up to letter case and in
    /// whether they are verified; the source does not count.
    fn eq(&self, other: &Self) -> (equal: bool) {
        let mine = to_lowercase(self.email.as_str());
        let theirs = to_lowercase(other.email.as_str());
        mine == theirs && self.verified == other.verified
    }
}

impl PartialEqSpecImpl for Email {
    open spec fn obeys_eq_spec() -> bool {
        true
    }

    open spec fn eq_spec(&self, other: &Self) -> bool {
        lowercase(self.email@) == lowercase(other.email@) && self.verified == other.verified
    }
}

impl PartialOrd for Email {
    fn partial_cmp(&self, other: &Self) -> (order: Option<Ordering>) {
        if self.verified != other.verified {
            if other.verified {
                Some(Ordering::Less)
            } else {
                Some(Ordering::Greater)
            }
        } else {
            let mine = to_lowercase(self.email.as_str());
            let theirs = to_lowercase(other.email.as_str());
            match compare_text(mine.as_str(), theirs.as_str()) {
                Precedence::Before => Some(Ordering::Less),
                Precedence::Same => Some(Ordering::Equal),
                Precedence::After => Some(Ordering::Greater),
            }
        }
    }
}

impl PartialOrdSpecImpl for Email {
    open spec fn obeys_partial_cmp_spec() -> bool {
        true
    }

    open spec fn partial_cmp_spec(&self, other: &Self) -> Option<Ordering> {
        match email_precedence(*self, *other) {
            Precedence::Before => Some(Ordering::Less),
            Precedence::Same => Some(Ordering::Equal),
            Precedence::After => Some(Ordering::Greater),
        }
    }
}

impl EmailSource {
    /// The name of the source, as it is shown to a reader.
    pub fn to_string(&self) -> (name: String)
        ensures
            name@ == match *self {
                EmailSource::User => seq!['U', 's', 'e', 'r'],
                EmailSource::GitHub => seq!['G', 'i', 't', 'H', 'u', 'b'],
            },
    {
        proof {
            reveal_strlit("User");
            reveal_strlit("GitHub");
        }
        let name = match self {
            EmailSource::User => String::from_str("User"),
            EmailSource::GitHub => String::from_str("GitHub"),
        };
        assert(name@ =~= match *self {
            EmailSource::User => seq!['U', 's', 'e', 'r'],
            EmailSource::GitHub => seq!['G', 'i', 't', 'H', 'u', 'b'],
        });
        name
    }
}

} // verus!
