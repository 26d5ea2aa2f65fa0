//! Semantic versions as plain values, their precedence and their text.
//!
//! Parsing, comparing, incrementing and printing are done by the `semver`
//! crate; the functions that call it are the trusted edge of this module and
//! say so in their documentation.

use crate::commands::BumpKind;
use crate::text::{count_of, stands_more_than};
use crate::views::result_view;
use std::cmp::Ordering;
use vstd::prelude::*;

verus! {

/// One dot-separated part of a pre-release or build section.
#[derive(Debug, PartialEq, Eq)]
pub enum Identifier {
    /// A part made of digits only.
    Numeric(u64),
    /// A part that holds letters or hyphens.
    AlphaNumeric(String),
}

/// What an [`Identifier`] stands for.
pub enum IdentifierView {
    Numeric(nat),
    AlphaNumeric(Seq<char>),
}

impl View for Identifier {
    type V = IdentifierView;

    open spec fn view(&self) -> IdentifierView {
        match self {
            Identifier::Numeric(n) => IdentifierView::Numeric(*n as nat),
            Identifier::AlphaNumeric(s) => IdentifierView::AlphaNumeric(s@),
        }
    }
}

/// A semantic version: three numbers, a pre-release section and build metadata.
#[derive(Debug, PartialEq, Eq)]
pub struct Version {
    pub major: u64,
    pub minor: u64,
    pub patch: u64,
    pub pre: Vec<Identifier>,
    pub build: Vec<Identifier>,
}

/// What a [`Version`] stands for.
pub struct VersionView {
    pub major: nat,
    pub minor: nat,
    pub patch: nat,
    pub pre: Seq<IdentifierView>,
    pub build: Seq<IdentifierView>,
}

impl DeepView for Identifier {
    type V = IdentifierView;

    open spec fn deep_view(&self) -> IdentifierView {
        self@
    }
}

impl DeepView for Version {
    type V = VersionView;

    open spec fn deep_view(&self) -> VersionView {
        self@
    }
}

impl View for Version {
    type V = VersionView;

    open spec fn view(&self) -> VersionView {
        VersionView {
            major: self.major as nat,
            minor: self.minor as nat,
            patch: self.patch as nat,
            pre: self.pre.deep_view(),
            build: self.build.deep_view(),
        }
    }
}

/// How one value stands to another in an order.
#[derive(Clone, Copy, Debug, PartialEq, Eq, Structural)]
pub enum Precedence {
    Lower,
    Same,
    Higher,
}

impl Precedence {
    /// The same comparison with its sides exchanged.
    pub open spec fn flipped(self) -> Precedence {
        match self {
            Precedence::Lower => Precedence::Higher,
            Precedence::Same => Precedence::Same,
            Precedence::Higher => Precedence::Lower,
        }
    }
}

/// The order of two integers.
pub open spec fn number_order(a: int, b: int) -> Precedence {
    if a < b {
        Precedence::Lower
    } else if a == b {
        Precedence::Same
    } else {
        Precedence::Higher
    }
}

/// The lexicographic order of two texts by code point.
pub open spec fn text_order(a: Seq<char>, b: Seq<char>) -> Precedence
    decreases a.len(),
{
    if a.len() == 0 {
        if b.len() == 0 {
            Precedence::Same
        } else {
            Precedence::Lower
        }
    } else if b.len() == 0 {
        Precedence::Higher
    } else if a[0] != b[0] {
        number_order(a[0] as int, b[0] as int)
    } else {
        text_order(a.drop_first(), b.drop_first())
    }
}

/// The order of two identifiers: numbers by value and below every text, texts
/// by code point.
pub open spec fn identifier_order(a: IdentifierView, b: IdentifierView) -> Precedence {
    match (a, b) {
        (IdentifierView::Numeric(x), IdentifierView::Numeric(y)) => number_order(x as int, y as int),
        (IdentifierView::Numeric(_), IdentifierView::AlphaNumeric(_)) => Precedence::Lower,
        (IdentifierView::AlphaNumeric(_), IdentifierView::Numeric(_)) => Precedence::Higher,
        (IdentifierView::AlphaNumeric(s), IdentifierView::AlphaNumeric(t)) => text_order(s, t),
    }
}

/// The lexicographic order of two identifier lists.
pub open spec fn identifiers_order(a: Seq<IdentifierView>, b: Seq<IdentifierView>) -> Precedence
    decreases a.len(),
{
    if a.len() == 0 {
        if b.len() == 0 {
            Precedence::Same
        } else {
            Precedence::Lower
        }
    } else if b.len() == 0 {
        Precedence::Higher
    } else if identifier_order(a[0], b[0]) != Precedence::Same {
        identifier_order(a[0], b[0])
    } else {
        identifiers_order(a.drop_first(), b.drop_first())
    }
}

/// Semantic-version precedence of `a` against `b`: the three numbers in turn,
/// then a version without a pre-release section above one with it, then the
/// pre-release identifiers. Build metadata plays no part.
pub open spec fn precedence(a: VersionView, b: VersionView) -> Precedence {
    if a.major != b.major {
        number_order(a.major as int, b.major as int)
    } else if a.minor != b.minor {
        number_order(a.minor as int, b.minor as int)
    } else if a.patch != b.patch {
        number_order(a.patch as int, b.patch as int)
    } else if a.pre.len() == 0 {
        if b.pre.len() == 0 {
            Precedence::Same
        } else {
            Precedence::Higher
        }
    } else if b.pre.len() == 0 {
        Precedence::Lower
    } else {
        identifiers_order(a.pre, b.pre)
    }
}

/// The decimal digit for `d`, which is below ten.
pub open spec fn digit_char(d: nat) -> char {
    if d == 0 {
        '0'
    } else if d == 1 {
        '1'
    } else if d == 2 {
        '2'
    } else if d == 3 {
        '3'
    } else if d == 4 {
        '4'
    } else if d == 5 {
        '5'
    } else if d == 6 {
        '6'
    } else if d == 7 {
        '7'
    } else if d == 8 {
        '8'
    } else {
        '9'
    }
}

/// A number in decimal, without leading zeros.
pub open spec fn decimal_text(n: nat) -> Seq<char>
    decreases n,
{
    if n < 10 {
        seq![digit_char(n)]
    } else {
        decimal_text(n / 10).push(digit_char(n % 10))
    }
}

/// An identifier as it is printed.
pub open spec fn identifier_text(id: IdentifierView) -> Seq<char> {
    match id {
        IdentifierView::Numeric(n) => decimal_text(n),
        IdentifierView::AlphaNumeric(s) => s,
    }
}

/// The identifiers of a section as they are printed, with dots between them.
pub open spec fn identifiers_text(ids: Seq<IdentifierView>) -> Seq<char>
    decreases ids.len(),
{
    if ids.len() == 0 {
        Seq::empty()
    } else if ids.len() == 1 {
        identifier_text(ids[0])
    } else {
        identifiers_text(ids.drop_last()) + seq!['.'] + identifier_text(ids.last())
    }
}

/// A version as it is printed: `major.minor.patch`, then `-` and the
/// pre-release section where there is one, then `+` and the build metadata
/// where there is any.
pub open spec fn version_text(v: VersionView) -> Seq<char> {
    decimal_text(v.major) + seq!['.'] + decimal_text(v.minor) + seq!['.'] + decimal_text(v.patch)
        + (if v.pre.len() == 0 {
        Seq::empty()
    } else {
        seq!['-'] + identifiers_text(v.pre)
    }) + (if v.build.len() == 0 {
        Seq::empty()
    } else {
        seq!['+'] + identifiers_text(v.build)
    })
}

/// What `semver` makes of a text: the version it reads, or the message of
/// its parse error.
pub uninterp spec fn parsed_version(text: Seq<char>) -> Result<VersionView, Seq<char>>;

/// How many hyphens a text may hold to be read as a version.
pub open spec fn hyphen_limit() -> nat {
    255
}

/// What is reported of a text with more hyphens than a version may hold.
pub open spec fn too_many_hyphens() -> Seq<char> {
    "a version holds at most 255 hyphens"@
}

/// The version that a text spells: what `semver` reads from it, or an error
/// where `semver` reads none or the text holds more hyphens than
/// [`hyphen_limit`].
pub open spec fn read_version(text: Seq<char>) -> Result<VersionView, Seq<char>> {
    if count_of(text, '-') > hyphen_limit() {
        Err(too_many_hyphens())
    } else {
        parsed_version(text)
    }
}

/// Parses `text` with `semver::Version::parse`.
///
/// Trusted: the result is whatever that parser reads from the text, which is
/// named by [`parsed_version`]; on failure the error's message is returned.
/// The parser panics on an identifier with more than 255 hyphens in it, so
/// texts with more hyphens than that are left out.
#[verifier::external_body]
pub(crate) fn semver_parse(text: &str) -> (r: Result<Version, String>)
    requires
        count_of(text@, '-') <= hyphen_limit(),
    ensures
        result_view(r) == parsed_version(text@),
{
    let own = |i: semver::Identifier| match i {
        semver::Identifier::Numeric(n) => Identifier::Numeric(n),
        semver::Identifier::AlphaNumeric(s) => Identifier::AlphaNumeric(s),
    };
    match semver::Version::parse(text) {
        Ok(v) => Ok(Version {
            major: v.major,
            minor: v.minor,
            patch: v.patch,
            pre: v.pre.into_iter().map(own).collect(),
            build: v.build.into_iter().map(own).collect(),
        }),
        Err(e) => Err(e.to_string()),
    }
}

/// Compares two versions with `semver`'s `Ord` for `Version`.
///
/// Trusted: that order is [`precedence`], which ignores build metadata.
#[verifier::external_body]
pub(crate) fn semver_order(a: &Version, b: &Version) -> (r: Precedence)
    ensures
        r == precedence(a@, b@),
{
    let out = |i: &Identifier| match i {
        Identifier::Numeric(n) => semver::Identifier::Numeric(*n),
        Identifier::AlphaNumeric(s) => semver::Identifier::AlphaNumeric(s.clone()),
    };
    let mut x = semver::Version::new(a.major, a.minor, a.patch);
    x.pre = a.pre.iter().map(out).collect();
    let mut y = semver::Version::new(b.major, b.minor, b.patch);
    y.pre = b.pre.iter().map(out).collect();
    match x.cmp(&y) {
        Ordering::Less => Precedence::Lower,
        Ordering::Equal => Precedence::Same,
        Ordering::Greater => Precedence::Higher,
    }
}

/// Prints a version with `semver`'s `Display` for `Version`.
///
/// Trusted: the text is [`version_text`].
#[verifier::external_body]
pub(crate) fn semver_text(v: &Version) -> (r: String)
    ensures
        r@ == version_text(v@),
{
    let out = |i: &Identifier| match i {
        Identifier::Numeric(n) => semver::Identifier::Numeric(*n),
        Identifier::AlphaNumeric(s) => semver::Identifier::AlphaNumeric(s.clone()),
    };
    let pre = v.pre.iter().map(out).collect();
    let build = v.build.iter().map(out).collect();
    semver::Version { major: v.major, minor: v.minor, patch: v.patch, pre, build }.to_string()
}

/// Raises the major number with `semver::Version::increment_major`.
///
/// Trusted: the major number grows by one and the other two become zero.
#[verifier::external_body]
pub(crate) fn semver_increment_major(major: u64, minor: u64, patch: u64) -> (r: (u64, u64, u64))
    requires
        major < u64::MAX,
    ensures
        r == (add_one(major), 0u64, 0u64),
{
    let mut v = semver::Version::new(major, minor, patch);
    v.increment_major();
    (v.major, v.minor, v.patch)
}

/// Raises the minor number with `semver::Version::increment_minor`.
///
/// Trusted: the major number stays, the minor number grows by one and the
/// patch number becomes zero.
#[verifier::external_body]
pub(crate) fn semver_increment_minor(major: u64, minor: u64, patch: u64) -> (r: (u64, u64, u64))
    requires
        minor < u64::MAX,
    ensures
        r == (major, add_one(minor), 0u64),
{
    let mut v = semver::Version::new(major, minor, patch);
    v.increment_minor();
    (v.major, v.minor, v.patch)
}

/// Raises the patch number with `semver::Version::increment_patch`.
///
/// Trusted: the major and minor numbers stay and the patch number grows by one.
#[verifier::external_body]
pub(crate) fn semver_increment_patch(major: u64, minor: u64, patch: u64) -> (r: (u64, u64, u64))
    requires
        patch < u64::MAX,
    ensures
        r == (major, minor, add_one(patch)),
{
    let mut v = semver::Version::new(major, minor, patch);
    v.increment_patch();
    (v.major, v.minor, v.patch)
}

/// The number after `n`, which is below the largest.
pub open spec fn add_one(n: u64) -> u64 {
    (n + 1) as u64
}

/// A copy of a list of identifiers.
pub fn clone_identifiers(ids: &Vec<Identifier>) -> (r: Vec<Identifier>)
    ensures
        r.deep_view() == ids.deep_view(),
{
    let mut r: Vec<Identifier> = Vec::new();
    let mut i: usize = 0;
    while i < ids.len()
        invariant
            i <= ids.len(),
            r.len() == i,
            forall|j: int| 0 <= j < i ==> r@[j]@ == ids@[j]@,
        decreases ids.len() - i,
    {
        r.push(ids[i].clone());
        i += 1;
    }
    assert(r.deep_view() =~= ids.deep_view());
    r
}

impl Clone for Identifier {
    fn clone(&self) -> (r: Self)
        ensures
            r@ == self@,
    {
        match self {
            Identifier::Numeric(n) => Identifier::Numeric(*n),
            Identifier::AlphaNumeric(s) => Identifier::AlphaNumeric(s.clone()),
        }
    }
}

impl Clone for Version {
    fn clone(&self) -> (r: Self)
        ensures
            r@ == self@,
    {
        Version {
            major: self.major,
            minor: self.minor,
            patch: self.patch,
            pre: clone_identifiers(&self.pre),
            build: clone_identifiers(&self.build),
        }
    }
}

/// The version that follows `v` when `kind` is bumped: the chosen number grows
/// by one, the numbers behind it become zero, and the pre-release section and
/// build metadata are dropped.
pub open spec fn next_version_spec(v: VersionView, kind: BumpKind) -> VersionView {
    match kind {
        BumpKind::Major => VersionView {
            major: v.major + 1,
            minor: 0,
            patch: 0,
            pre: Seq::empty(),
            build: Seq::empty(),
        },
        BumpKind::Minor => VersionView {
            major: v.major,
            minor: v.minor + 1,
            patch: 0,
            pre: Seq::empty(),
            build: Seq::empty(),
        },
        BumpKind::Patch => VersionView {
            major: v.major,
            minor: v.minor,
            patch: v.patch + 1,
            pre: Seq::empty(),
            build: Seq::empty(),
        },
    }
}

/// Whether the number that `kind` raises can still grow.
pub open spec fn can_bump(v: VersionView, kind: BumpKind) -> bool {
    match kind {
        BumpKind::Major => v.major < u64::MAX,
        BumpKind::Minor => v.minor < u64::MAX,
        BumpKind::Patch => v.patch < u64::MAX,
    }
}

impl Version {
    /// The version `major.minor.patch` without pre-release section or build
    /// metadata.
    pub fn new(major: u64, minor: u64, patch: u64) -> (r: Version)
        ensures
            r@ == (VersionView {
                major: major as nat,
                minor: minor as nat,
                patch: patch as nat,
                pre: Seq::empty(),
                build: Seq::empty(),
            }),
    {
        let r = Version { major, minor, patch, pre: Vec::new(), build: Vec::new() };
        assert(r.pre.deep_view() =~= Seq::empty());
        assert(r.build.deep_view() =~= Seq::empty());
        r
    }

    /// Reads a version from its text. A text with more than 255 hyphens is
    /// refused unread.
    pub fn parse(text: &str) -> (r: Result<Version, String>)
        ensures
            result_view(r) == read_version(text@),
    {
        if stands_more_than(text, '-', 255) {
            Err(String::from_str("a version holds at most 255 hyphens"))
        } else {
            semver_parse(text)
        }
    }

    /// The text of the version.
    pub fn to_text(&self) -> (r: String)
        ensures
            r@ == version_text(self@),
    {
        semver_text(self)
    }

    /// How this version stands to `other` in precedence.
    pub fn compare(&self, other: &Version) -> (r: Precedence)
        ensures
            r == precedence(self@, other@),
    {
        semver_order(self, other)
    }

    /// Whether the two versions are equal but for their build metadata.
    pub fn same_as(&self, other: &Version) -> (r: bool)
        ensures
            r == same_version(self@, other@),
    {
        proof {
            lemma_same_precedence(self@, other@);
        }
        match semver_order(self, other) {
            Precedence::Same => true,
            _ => false,
        }
    }
}

/// Equality of versions but for their build metadata.
pub open spec fn same_version(a: VersionView, b: VersionView) -> bool {
    a.major == b.major && a.minor == b.minor && a.patch == b.patch && a.pre == b.pre
}

/// The version after `version` when `bump_kind` is bumped.
pub fn next_version(version: &Version, bump_kind: BumpKind) -> (r: Version)
    requires
        can_bump(version@, bump_kind),
    ensures
        r@ == next_version_spec(version@, bump_kind),
{
    let (major, minor, patch) = match bump_kind {
        BumpKind::Major => semver_increment_major(version.major, version.minor, version.patch),
        BumpKind::Minor => semver_increment_minor(version.major, version.minor, version.patch),
        BumpKind::Patch => semver_increment_patch(version.major, version.minor, version.patch),
    };
    Version::new(major, minor, patch)
}

/// The version after `version` when `bump_kind` is bumped, or `None` where the
/// number to raise is already the largest.
pub fn checked_next_version(version: &Version, bump_kind: BumpKind) -> (r: Option<Version>)
    ensures
        r is Some == can_bump(version@, bump_kind),
        r matches Some(v) ==> v@ == next_version_spec(version@, bump_kind),
{
    let room = match bump_kind {
        BumpKind::Major => version.major < u64::MAX,
        BumpKind::Minor => version.minor < u64::MAX,
        BumpKind::Patch => version.patch < u64::MAX,
    };
    if room {
        Some(next_version(version, bump_kind))
    } else {
        None
    }
}

/// Two texts are in the order `Same` exactly when they are equal.
pub proof fn lemma_same_text(a: Seq<char>, b: Seq<char>)
    ensures
        (text_order(a, b) == Precedence::Same) == (a == b),
    decreases a.len(),
{
    if a.len() > 0 && b.len() > 0 {
        lemma_same_text(a.drop_first(), b.drop_first());
        if a[0] == b[0] && a.drop_first() == b.drop_first() {
            assert(a =~= seq![a[0]] + a.drop_first());
            assert(b =~= seq![b[0]] + b.drop_first());
        }
    } else if a.len() == 0 && b.len() == 0 {
        assert(a =~= b);
    }
}

/// Exchanging the sides of a text comparison flips its result.
pub proof fn lemma_text_flip(a: Seq<char>, b: Seq<char>)
    ensures
        text_order(b, a) == text_order(a, b).flipped(),
    decreases a.len(),
{
    if a.len() > 0 && b.len() > 0 {
        lemma_text_flip(a.drop_first(), b.drop_first());
    }
}

/// The order of texts is transitive.
pub proof fn lemma_text_transitive(a: Seq<char>, b: Seq<char>, c: Seq<char>)
    requires
        text_order(a, b) != Precedence::Higher,
        text_order(b, c) != Precedence::Higher,
    ensures
        text_order(a, c) != Precedence::Higher,
    decreases a.len(),
{
    if a.len() > 0 && b.len() > 0 && c.len() > 0 {
        if a[0] == b[0] && b[0] == c[0] {
            lemma_text_transitive(a.drop_first(), b.drop_first(), c.drop_first());
        }
    }
}

/// Two identifiers are in the order `Same` exactly when they are equal.
pub proof fn lemma_same_identifier(a: IdentifierView, b: IdentifierView)
    ensures
        (identifier_order(a, b) == Precedence::Same) == (a == b),
{
    match (a, b) {
        (IdentifierView::AlphaNumeric(s), IdentifierView::AlphaNumeric(t)) => {
            lemma_same_text(s, t);
        },
        _ => {},
    }
}

/// Exchanging the sides of an identifier comparison flips its result.
pub proof fn lemma_identifier_flip(a: IdentifierView, b: IdentifierView)
    ensures
        identifier_order(b, a) == identifier_order(a, b).flipped(),
{
    match (a, b) {
        (IdentifierView::AlphaNumeric(s), IdentifierView::AlphaNumeric(t)) => {
            lemma_text_flip(s, t);
        },
        _ => {},
    }
}

/// The order of identifiers is transitive.
pub proof fn lemma_identifier_transitive(a: IdentifierView, b: IdentifierView, c: IdentifierView)
    requires
        identifier_order(a, b) != Precedence::Higher,
        identifier_order(b, c) != Precedence::Higher,
    ensures
        identifier_order(a, c) != Precedence::Higher,
        identifier_order(a, c) == Precedence::Same ==> identifier_order(a, b) == Precedence::Same
            && identifier_order(b, c) == Precedence::Same,
{
    match (a, b, c) {
        (
            IdentifierView::AlphaNumeric(s),
            IdentifierView::AlphaNumeric(t),
            IdentifierView::AlphaNumeric(u),
        ) => {
            lemma_text_transitive(s, t, u);
            lemma_same_text(s, u);
            lemma_same_text(s, t);
            lemma_same_text(t, u);
            if s == u {
                lemma_text_flip(s, t);
            }
        },
        _ => {},
    }
}

/// Two identifier lists are in the order `Same` exactly when they are equal.
pub proof fn lemma_same_identifiers(a: Seq<IdentifierView>, b: Seq<IdentifierView>)
    ensures
        (identifiers_order(a, b) == Precedence::Same) == (a == b),
    decreases a.len(),
{
    if a.len() > 0 && b.len() > 0 {
        lemma_same_identifier(a[0], b[0]);
        lemma_same_identifiers(a.drop_first(), b.drop_first());
        if a[0] == b[0] && a.drop_first() == b.drop_first() {
            assert(a =~= seq![a[0]] + a.drop_first());
            assert(b =~= seq![b[0]] + b.drop_first());
        }
    } else if a.len() == 0 && b.len() == 0 {
        assert(a =~= b);
    }
}

/// Exchanging the sides of a comparison of identifier lists flips its result.
pub proof fn lemma_identifiers_flip(a: Seq<IdentifierView>, b: Seq<IdentifierView>)
    ensures
        identifiers_order(b, a) == identifiers_order(a, b).flipped(),
    decreases a.len(),
{
    if a.len() > 0 && b.len() > 0 {
        lemma_identifier_flip(a[0], b[0]);
        lemma_identifiers_flip(a.drop_first(), b.drop_first());
    }
}

/// The order of identifier lists is transitive.
pub proof fn lemma_identifiers_transitive(
    a: Seq<IdentifierView>,
    b: Seq<IdentifierView>,
    c: Seq<IdentifierView>,
)
    requires
        identifiers_order(a, b) != Precedence::Higher,
        identifiers_order(b, c) != Precedence::Higher,
    ensures
        identifiers_order(a, c) != Precedence::Higher,
    decreases a.len(),
{
    if a.len() > 0 && b.len() > 0 && c.len() > 0 {
        lemma_identifier_transitive(a[0], b[0], c[0]);
        if identifier_order(a[0], b[0]) == Precedence::Same && identifier_order(b[0], c[0])
            == Precedence::Same {
            lemma_identifiers_transitive(a.drop_first(), b.drop_first(), c.drop_first());
        }
    }
}

/// Two versions have the same precedence exactly when they are equal but for
/// their build metadata.
pub proof fn lemma_same_precedence(a: VersionView, b: VersionView)
    ensures
        (precedence(a, b) == Precedence::Same) == same_version(a, b),
{
    lemma_same_identifiers(a.pre, b.pre);
    if a.pre.len() == 0 && b.pre.len() == 0 {
        assert(a.pre =~= b.pre);
    }
}

/// Exchanging the sides of a precedence comparison flips its result.
pub proof fn lemma_precedence_flip(a: VersionView, b: VersionView)
    ensures
        precedence(b, a) == precedence(a, b).flipped(),
{
    lemma_identifiers_flip(a.pre, b.pre);
}

/// Precedence is transitive: what is not above `b`, which is not above `c`,
/// is not above `c`.
pub proof fn lemma_precedence_transitive(a: VersionView, b: VersionView, c: VersionView)
    requires
        precedence(a, b) != Precedence::Higher,
        precedence(b, c) != Precedence::Higher,
    ensures
        precedence(a, c) != Precedence::Higher,
{
    if a.major == b.major && b.major == c.major && a.minor == b.minor && b.minor == c.minor
        && a.patch == b.patch && b.patch == c.patch {
        if a.pre.len() > 0 && b.pre.len() > 0 && c.pre.len() > 0 {
            lemma_identifiers_transitive(a.pre, b.pre, c.pre);
        }
    }
}

} // verus!
