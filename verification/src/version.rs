//! Semantic versions of the configuration and credentials schemas.

use crate::decimal::decimal;
use crate::text_order::{text_precedence, Precedence};
use vstd::prelude::*;
use vstd::std_specs::cmp::PartialEqSpecImpl;

verus! {

/// One identifier of the pre-release or build part of a version.
#[derive(Clone, Debug, Eq)]
pub enum Identifier {
    /// An identifier that is a number without leading zeros.
    Numeric(u64),
    /// Any other identifier.
    AlphaNumeric(String),
}

/// The mathematical content of an [`Identifier`].
pub enum IdentifierView {
    Numeric(nat),
    AlphaNumeric(Seq<char>),
}

impl View for Identifier {
    type V = IdentifierView;

    open spec fn view(&self) -> IdentifierView {
        match *self {
            Identifier::Numeric(number) => IdentifierView::Numeric(number as nat),
            Identifier::AlphaNumeric(text) => IdentifierView::AlphaNumeric(text@),
        }
    }
}

impl DeepView for Identifier {
    type V = IdentifierView;

    open spec fn deep_view(&self) -> IdentifierView {
        self@
    }
}

/// A version number: three numbers, and the identifiers of an optional
/// pre-release part and of optional build metadata.
#[derive(Clone, Debug, Eq)]
pub struct Version {
    pub major: u64,
    pub minor: u64,
    pub patch: u64,
    pub pre: Vec<Identifier>,
    pub build: Vec<Identifier>,
}

/// The mathematical content of a [`Version`].
pub struct VersionView {
    pub major: nat,
    pub minor: nat,
    pub patch: nat,
    pub pre: Seq<IdentifierView>,
    pub build: Seq<IdentifierView>,
}

impl View for Version {
    type V = VersionView;

    open spec fn view(&self) -> VersionView {
        VersionView {
            major: self.major as nat,
            minor: self.minor as nat,
            patch: self.patch as nat,
            pre: self.pre.deep_view(),
            build: self.build.deep_view(),
        }
    }
}

/// The version `major.minor.patch`, without pre-release part or build
/// metadata.
pub open spec fn release(major: nat, minor: nat, patch: nat) -> VersionView {
    VersionView { major, minor, patch, pre: Seq::empty(), build: Seq::empty() }
}

/// What parsing `text` as a semantic version gives: the version, or the
/// message that says why the text is none.
pub uninterp spec fn parsed_version(text: Seq<char>) -> Result<VersionView, Seq<char>>;

/// `semver::Version::parse`: the version that the text spells, with its
/// fields moved into a [`Version`], or the message of the parse error. The
/// outcome depends on the text alone.
#[verifier::external_body]
fn semver_parse(text: &str) -> (parsed: Result<Version, String>)
    ensures
        match parsed {
            Ok(version) => parsed_version(text@) == Ok::<VersionView, Seq<char>>(version@),
            Err(message) => parsed_version(text@) == Err::<VersionView, Seq<char>>(message@),
        },
{
    let own = |identifier: semver::Identifier| match identifier {
        semver::Identifier::Numeric(number) => Identifier::Numeric(number),
        semver::Identifier::AlphaNumeric(text) => Identifier::AlphaNumeric(text),
    };
    match semver::Version::parse(text) {
        Ok(version) => Ok(Version {
            major: version.major,
            minor: version.minor,
            patch: version.patch,
            pre: version.pre.into_iter().map(own).collect(),
            build: version.build.into_iter().map(own).collect(),
        }),
        Err(semver::SemVerError::ParseError(message)) => Err(message),
    }
}

/// Whether the three numbers of `a` are lower than those of `b`, the first
/// that differs deciding.
pub open spec fn numbers_lower(a: VersionView, b: VersionView) -> bool {
    ||| a.major < b.major
    ||| a.major == b.major && a.minor < b.minor
    ||| a.major == b.major && a.minor == b.minor && a.patch < b.patch
}

/// Where identifier `a` stands with respect to `b`: numbers by their
/// value, every number before every other identifier, and the others as
/// texts.
pub open spec fn identifier_precedence(a: IdentifierView, b: IdentifierView) -> Precedence {
    match (a, b) {
        (IdentifierView::Numeric(x), IdentifierView::Numeric(y)) => if x < y {
            Precedence::Before
        } else if x > y {
            Precedence::After
        } else {
            Precedence::Same
        },
        (IdentifierView::Numeric(_), IdentifierView::AlphaNumeric(_)) => Precedence::Before,
        (IdentifierView::AlphaNumeric(_), IdentifierView::Numeric(_)) => Precedence::After,
        (IdentifierView::AlphaNumeric(s), IdentifierView::AlphaNumeric(t)) => text_precedence(
            s,
            t,
        ),
    }
}

/// Lexicographic comparison of two lists of identifiers: the first
/// position at which they differ decides, and a proper prefix comes first.
pub open spec fn identifiers_precedence(
    a: Seq<IdentifierView>,
    b: Seq<IdentifierView>,
) -> Precedence
    decreases a.len(),
{
    if a.len() == 0 && b.len() == 0 {
        Precedence::Same
    } else if a.len() == 0 {
        Precedence::Before
    } else if b.len() == 0 {
        Precedence::After
    } else if identifier_precedence(a[0], b[0]) != Precedence::Same {
        identifier_precedence(a[0], b[0])
    } else {
        identifiers_precedence(a.drop_first(), b.drop_first())
    }
}

/// Whether version `a` is lower than version `b`.
///
/// The three numbers decide in turn. Where they agree, a version without
/// pre-release part is never the lower one, a version with a pre-release
/// part is lower than one without, and two pre-release parts are compared
/// as lists of identifiers. Build metadata does not count.
pub open spec fn version_lower(a: VersionView, b: VersionView) -> bool {
    if a.major != b.major || a.minor != b.minor || a.patch != b.patch {
        numbers_lower(a, b)
    } else if a.pre.len() == 0 {
        false
    } else if b.pre.len() == 0 {
        true
    } else {
        identifiers_precedence(a.pre, b.pre) == Precedence::Before
    }
}

/// `<` on `semver::Version`, after each version is written over as a
/// `semver::Version` field by field: whether `a` comes before `b` in the
/// order of versions. The three numbers are compared first; the
/// pre-release parts count only where the numbers agree, and are then
/// compared as `Vec<semver::Identifier>` orders itself; the build metadata
/// never counts.
#[verifier::external_body]
fn semver_lower(a: &Version, b: &Version) -> (lower: bool)
    ensures
        lower == version_lower(a@, b@),
{
    let identifier = |identifier: &Identifier| match identifier {
        Identifier::Numeric(number) => semver::Identifier::Numeric(*number),
        Identifier::AlphaNumeric(text) => semver::Identifier::AlphaNumeric(text.clone()),
    };
    let outside = |version: &Version| semver::Version {
        major: version.major,
        minor: version.minor,
        patch: version.patch,
        pre: version.pre.iter().map(identifier).collect(),
        build: version.build.iter().map(identifier).collect(),
    };
    outside(a) < outside(b)
}

/// The text of one identifier: a number in decimal, any other identifier
/// as it is.
pub open spec fn identifier_text(identifier: IdentifierView) -> Seq<char> {
    match identifier {
        IdentifierView::Numeric(number) => decimal(number),
        IdentifierView::AlphaNumeric(text) => text,
    }
}

/// The texts of the identifiers, joined by dots.
pub open spec fn identifiers_text(identifiers: Seq<IdentifierView>) -> Seq<char>
    decreases identifiers.len(),
{
    if identifiers.len() == 0 {
        Seq::<char>::empty()
    } else if identifiers.len() == 1 {
        identifier_text(identifiers[0])
    } else {
        identifiers_text(identifiers.drop_last()) + seq!['.'] + identifier_text(
            identifiers.last(),
        )
    }
}

/// The text of a version: the three numbers in decimal, joined by dots;
/// then a hyphen and the pre-release identifiers if there are any; then a
/// plus sign and the build identifiers if there are any.
pub open spec fn version_text(version: VersionView) -> Seq<char> {
    let numbers = decimal(version.major) + seq!['.'] + decimal(version.minor) + seq!['.']
        + decimal(version.patch);
    let pre = if version.pre.len() == 0 {
        Seq::<char>::empty()
    } else {
        seq!['-'] + identifiers_text(version.pre)
    };
    let build = if version.build.len() == 0 {
        Seq::<char>::empty()
    } else {
        seq!['+'] + identifiers_text(version.build)
    };
    numbers + pre + build
}

/// `to_string` on `semver::Version`, after the version is written over as
/// a `semver::Version` field by field: the text in which the version
/// displays itself.
#[verifier::external_body]
fn semver_text(version: &Version) -> (text: String)
    ensures
        text@ == version_text(version@),
{
    let identifier = |identifier: &Identifier| match identifier {
        Identifier::Numeric(number) => semver::Identifier::Numeric(*number),
        Identifier::AlphaNumeric(text) => semver::Identifier::AlphaNumeric(text.clone()),
    };
    let outside = semver::Version {
        major: version.major,
        minor: version.minor,
        patch: version.patch,
        pre: version.pre.iter().map(identifier).collect(),
        build: version.build.iter().map(identifier).collect(),
    };
    outside.to_string()
}

/// A plain release is written as its three numbers, joined by dots.
pub proof fn lemma_release_text(major: nat, minor: nat, patch: nat)
    ensures
        version_text(release(major, minor, patch)) == decimal(major) + seq!['.'] + decimal(minor)
            + seq!['.'] + decimal(patch),
{
    let numbers = decimal(major) + seq!['.'] + decimal(minor) + seq!['.'] + decimal(patch);
    assert(numbers + Seq::<char>::empty() + Seq::<char>::empty() =~= numbers);
}

impl PartialEq for Identifier {
    fn eq(&self, other: &Self) -> (equal: bool) {
        match (self, other) {
            (Identifier::Numeric(x), Identifier::Numeric(y)) => *x == *y,
            (Identifier::AlphaNumeric(s), Identifier::AlphaNumeric(t)) => *s == *t,
            _ => false,
        }
    }
}

impl PartialEqSpecImpl for Identifier {
    open spec fn obeys_eq_spec() -> bool {
        true
    }

    open spec fn eq_spec(&self, other: &Self) -> bool {
        self@ == other@
    }
}

fn identifiers_equal(a: &Vec<Identifier>, b: &Vec<Identifier>) -> (equal: bool)
    ensures
        equal == (a.deep_view() == b.deep_view()),
{
    if a.len() != b.len() {
        assert(a.deep_view().len() != b.deep_view().len());
        return false;
    }
    let mut i: usize = 0;
    while i < a.len()
        invariant
            i <= a.len(),
            a.len() == b.len(),
            forall|j: int| 0 <= j < i ==> a[j]@ == b[j]@,
        decreases a.len() - i,
    {
        if a[i] != b[i] {
            assert(a.deep_view()[i as int] != b.deep_view()[i as int]);
            return false;
        }
        i += 1;
    }
    assert(a.deep_view() =~= b.deep_view());
    true
}

impl Version {
    /// The version `major.minor.patch`.
    pub fn new(major: u64, minor: u64, patch: u64) -> (version: Version)
        ensures
            version@ == release(major as nat, minor as nat, patch as nat),
    {
        let version = Version { major, minor, patch, pre: Vec::new(), build: Vec::new() };
        assert(version@.pre =~= Seq::empty() && version@.build =~= Seq::empty());
        version
    }

    /// Parses a semantic version.
    pub fn parse(text: &str) -> (parsed: Result<Version, String>)
        ensures
            match parsed {
                Ok(version) => parsed_version(text@) == Ok::<VersionView, Seq<char>>(version@),
                Err(message) => parsed_version(text@) == Err::<VersionView, Seq<char>>(message@),
            },
    {
        semver_parse(text)
    }

    /// Whether this version is lower than `other`.
    pub fn precedes(&self, other: &Version) -> (lower: bool)
        ensures
            lower == version_lower(self@, other@),
    {
        semver_lower(self, other)
    }

    /// The version as text.
    pub fn to_string(&self) -> (text: String)
        ensures
            text@ == version_text(self@),
    {
        semver_text(self)
    }
}

impl PartialEq for Version {
    /// Two versions are equal when they agree in all but their build
    /// metadata.
    fn eq(&self, other: &Self) -> (equal: bool) {
        self.major == other.major && self.minor == other.minor && self.patch == other.patch
            && identifiers_equal(&self.pre, &other.pre)
    }
}

impl PartialEqSpecImpl for Version {
    open spec fn obeys_eq_spec() -> bool {
        true
    }

    open spec fn eq_spec(&self, other: &Self) -> bool {
        &&& self@.major == other@.major
        &&& self@.minor == other@.minor
        &&& self@.patch == other@.patch
        &&& self@.pre == other@.pre
    }
}

} // verus!
