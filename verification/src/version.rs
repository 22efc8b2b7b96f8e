//! Kernel versions: a triple of numbers, ordered, and read from dotted text.

use crate::text::{
    append_numeral, digit, find, is_digit, is_numeral, lemma_find, lemma_find_is,
    lemma_numeral_is_unique, lemma_numeral_reads_back, numeral, numeral_value,
};
use core::cmp::Ordering;
use vstd::prelude::*;
use vstd::std_specs::cmp::{PartialOrdSpec, PartialOrdSpecImpl};

verus! {

/// A kernel version: major, minor and patch number.
///
/// Versions are ordered by major number first, then minor, then patch.
#[derive(Clone, Copy, Debug, PartialEq, Eq, Hash, Structural)]
pub struct KernelVersion {
    pub major: u64,
    pub minor: u64,
    pub patch: u64,
}

/// Why a text is not a version.
#[derive(Clone, Copy, Debug, PartialEq, Eq, Structural)]
pub enum ParseError {
    /// The text holds a character that is neither a decimal digit nor a dot.
    UnexpectedCharacter,
    /// The text is made of digits and dots, but not as three numerals with a
    /// dot between them, or one of the three does not fit in 64 bits.
    NotATriple,
}

impl KernelVersion {
    /// Whether `self` comes before `other`: the first of major, minor and
    /// patch in which the two differ is smaller in `self`.
    pub open spec fn precedes(self, other: KernelVersion) -> bool {
        ||| self.major < other.major
        ||| self.major == other.major && self.minor < other.minor
        ||| self.major == other.major && self.minor == other.minor && self.patch < other.patch
    }

    /// The text of `self`: the three numerals with a dot between them.
    pub open spec fn dotted(self) -> Seq<char> {
        numeral(self.major as nat) + seq!['.'] + numeral(self.minor as nat) + seq!['.'] + numeral(
            self.patch as nat,
        )
    }

    /// Writes `self` as text, as in `4.20.0`.
    pub fn to_text(&self) -> (text: String)
        ensures
            text@ == self.dotted(),
    {
        proof {
            reveal_strlit(".");
            reveal_strlit("");
        }
        let mut text = String::from_str("");
        append_numeral(&mut text, self.major);
        text.append(".");
        append_numeral(&mut text, self.minor);
        text.append(".");
        append_numeral(&mut text, self.patch);
        assert(text@ =~= self.dotted());
        text
    }
}

impl PartialOrd for KernelVersion {
    fn partial_cmp(&self, other: &KernelVersion) -> (r: Option<Ordering>) {
        if self.major < other.major {
            Some(Ordering::Less)
        } else if self.major > other.major {
            Some(Ordering::Greater)
        } else if self.minor < other.minor {
            Some(Ordering::Less)
        } else if self.minor > other.minor {
            Some(Ordering::Greater)
        } else if self.patch < other.patch {
            Some(Ordering::Less)
        } else if self.patch > other.patch {
            Some(Ordering::Greater)
        } else {
            Some(Ordering::Equal)
        }
    }
}

impl PartialOrdSpecImpl for KernelVersion {
    open spec fn obeys_partial_cmp_spec() -> bool {
        true
    }

    open spec fn partial_cmp_spec(&self, other: &KernelVersion) -> Option<Ordering> {
        if self.precedes(*other) {
            Some(Ordering::Less)
        } else if *self == *other {
            Some(Ordering::Equal)
        } else {
            Some(Ordering::Greater)
        }
    }
}

/// The order of versions is total and strict: of two versions one comes
/// before the other or they are the same, never both, and what comes before
/// a version comes before all that it comes before.
pub proof fn law_order_is_total(a: KernelVersion, b: KernelVersion, c: KernelVersion)
    ensures
        a.precedes(b) || a == b || b.precedes(a),
        !(a.precedes(b) && b.precedes(a)),
        !a.precedes(a),
        a.precedes(b) && b.precedes(c) ==> a.precedes(c),
{
}

/// Whether `s` holds nothing but decimal digits and dots.
pub open spec fn is_plain(s: Seq<char>) -> bool {
    forall|i: int| 0 <= i < s.len() ==> is_digit(#[trigger] s[i]) || s[i] == '.'
}

/// Whether `s` is a numeral of a number that fits in 64 bits.
pub open spec fn is_field(s: Seq<char>) -> bool {
    is_numeral(s) && numeral_value(s) <= u64::MAX
}

/// The version that `s` writes, where it writes one: `s` is three numerals
/// with one dot after the first and one after the second, and nothing else,
/// and each of the three numbers fits in 64 bits.
pub open spec fn version_of(s: Seq<char>) -> Option<KernelVersion> {
    let i = find(s, '.');
    if i >= s.len() {
        None
    } else {
        let rest = s.skip(i + 1);
        let j = find(rest, '.');
        if j >= rest.len() {
            None
        } else if is_field(s.take(i)) && is_field(rest.take(j)) && is_field(rest.skip(j + 1)) {
            Some(
                KernelVersion {
                    major: numeral_value(s.take(i)) as u64,
                    minor: numeral_value(rest.take(j)) as u64,
                    patch: numeral_value(rest.skip(j + 1)) as u64,
                },
            )
        } else {
            None
        }
    }
}

/// What `parse` returns for the text `s`.
pub open spec fn parsed(s: Seq<char>) -> Result<KernelVersion, ParseError> {
    match version_of(s) {
        Some(v) => Ok(v),
        None => if is_plain(s) {
            Err(ParseError::NotATriple)
        } else {
            Err(ParseError::UnexpectedCharacter)
        },
    }
}

/// A text that writes a version holds digits and dots only.
pub proof fn lemma_version_is_plain(s: Seq<char>)
    requires
        version_of(s) is Some,
    ensures
        is_plain(s),
{
    let i = find(s, '.');
    let rest = s.skip(i + 1);
    let j = find(rest, '.');
    let major = s.take(i);
    let minor = rest.take(j);
    let patch = rest.skip(j + 1);
    lemma_find(s, '.');
    lemma_find(rest, '.');
    assert forall|k: int| 0 <= k < s.len() implies is_digit(#[trigger] s[k]) || s[k] == '.' by {
        if k < i {
            assert(s[k] == major[k]);
        } else if k == i {
        } else if k - (i + 1) < j {
            assert(s[k] == rest[k - (i + 1)]);
            assert(rest[k - (i + 1)] == minor[k - (i + 1)]);
        } else if k - (i + 1) == j {
            assert(s[k] == rest[j]);
        } else {
            assert(s[k] == rest[k - (i + 1)]);
            assert(rest[k - (i + 1)] == patch[k - (i + 1) - (j + 1)]);
        }
    }
}

/// The text of a version writes that version.
pub proof fn lemma_dotted_reads_back(v: KernelVersion)
    ensures
        version_of(v.dotted()) == Some(v),
{
    let major = numeral(v.major as nat);
    let minor = numeral(v.minor as nat);
    let patch = numeral(v.patch as nat);
    let s = v.dotted();
    let tail = minor + seq!['.'] + patch;
    lemma_numeral_reads_back(v.major as nat);
    lemma_numeral_reads_back(v.minor as nat);
    lemma_numeral_reads_back(v.patch as nat);
    assert(s =~= major + seq!['.'] + tail);
    assert forall|k: int| 0 <= k < major.len() implies s[k] != '.' by {
        assert(is_digit(major[k]));
    }
    lemma_find_is(s, '.', major.len() as int);
    assert(s.take(major.len() as int) =~= major);
    assert(s.skip(major.len() as int + 1) =~= tail);
    assert forall|k: int| 0 <= k < minor.len() implies tail[k] != '.' by {
        assert(is_digit(minor[k]));
    }
    lemma_find_is(tail, '.', minor.len() as int);
    assert(tail.take(minor.len() as int) =~= minor);
    assert(tail.skip(minor.len() as int + 1) =~= patch);
}

/// A text that writes a version is the text of that version: there is one way
/// to write each.
pub proof fn lemma_version_text_is_dotted(s: Seq<char>)
    requires
        version_of(s) is Some,
    ensures
        s == version_of(s)->0.dotted(),
{
    let i = find(s, '.');
    let rest = s.skip(i + 1);
    let j = find(rest, '.');
    lemma_find(s, '.');
    lemma_find(rest, '.');
    lemma_numeral_is_unique(s.take(i));
    lemma_numeral_is_unique(rest.take(j));
    lemma_numeral_is_unique(rest.skip(j + 1));
    assert(rest =~= rest.take(j) + seq!['.'] + rest.skip(j + 1));
    assert(s =~= s.take(i) + seq!['.'] + rest.take(j) + seq!['.'] + rest.skip(j + 1));
}

/// A version has one text, and `parse` accepts that text and no other:
/// `s` is read as `v` exactly when `s` is the three numerals of `v` with a
/// dot between them.
pub proof fn law_version_has_one_text(s: Seq<char>, v: KernelVersion)
    ensures
        parsed(s) == Ok::<KernelVersion, ParseError>(v) <==> s == v.dotted(),
{
    if s == v.dotted() {
        lemma_dotted_reads_back(v);
    }
    if version_of(s) is Some {
        lemma_version_text_is_dotted(s);
    }
}

/// Versions read from their texts compare as their triples of numbers do:
/// by the major numbers, where these are equal by the minor numbers, and where
/// these are equal too by the patch numbers.
pub proof fn law_parsed_versions_keep_order(a: KernelVersion, b: KernelVersion)
    ensures
        parsed(a.dotted()) == Ok::<KernelVersion, ParseError>(a),
        parsed(b.dotted()) == Ok::<KernelVersion, ParseError>(b),
        PartialOrdSpec::partial_cmp_spec(&a, &b) == Some(Ordering::Less) <==> (a.major < b.major
            || (a.major == b.major && (a.minor < b.minor || (a.minor == b.minor && a.patch
            < b.patch)))),
        PartialOrdSpec::partial_cmp_spec(&a, &b) == Some(Ordering::Equal) <==> (a.major == b.major
            && a.minor == b.minor && a.patch == b.patch),
        PartialOrdSpec::partial_cmp_spec(&a, &b) == Some(Ordering::Greater) <==> (a.major > b.major
            || (a.major == b.major && (a.minor > b.minor || (a.minor == b.minor && a.patch
            > b.patch)))),
{
    lemma_dotted_reads_back(a);
    lemma_dotted_reads_back(b);
}

/// Hands `s` to `semver_parser::version::parse` and keeps the three numbers of
/// the version it returns.
///
/// Trusted, and only for a text of digits and dots: that parser returns a
/// version for such a text exactly when the text is a number, a dot, a number,
/// a dot and a number, and a run of digits is a number to it only if it is `0`
/// or starts with another digit and fits in 64 bits. The version then holds
/// the three numbers in the order of the text. A text without hyphen and plus
/// sign has no pre-release and no build part, so nothing is dropped here.
#[verifier::external_body]
fn semver_triple(s: &str) -> (r: Option<KernelVersion>)
    requires
        is_plain(s@),
    ensures
        r == version_of(s@),
{
    match semver_parser::version::parse(s) {
        Ok(v) => Some(KernelVersion { major: v.major, minor: v.minor, patch: v.patch }),
        Err(_) => None,
    }
}

/// Whether `s` holds nothing but decimal digits and dots.
pub fn plain(s: &str) -> (r: bool)
    ensures
        r == is_plain(s@),
{
    let n = s.unicode_len();
    let mut i: usize = 0;
    while i < n
        invariant
            n == s@.len(),
            i <= n,
            forall|k: int| 0 <= k < i ==> is_digit(#[trigger] s@[k]) || s@[k] == '.',
        decreases n - i,
    {
        let c = s.get_char(i);
        if !(digit(c) || c == '.') {
            return false;
        }
        i = i + 1;
    }
    true
}

/// Reads a version from text of the form `major.minor.patch`.
///
/// Each of the three is a decimal numeral without sign and without a zero in
/// front of another digit. Any other text is refused: one with a suffix such
/// as `-generic`, with a missing or a fourth number, or with a number beyond
/// 64 bits.
pub fn parse(s: &str) -> (r: Result<KernelVersion, ParseError>)
    ensures
        r == parsed(s@),
{
    if !plain(s) {
        proof {
            if version_of(s@) is Some {
                lemma_version_is_plain(s@);
            }
        }
        return Err(ParseError::UnexpectedCharacter);
    }
    match semver_triple(s) {
        Some(v) => Ok(v),
        None => Err(ParseError::NotATriple),
    }
}

} // verus!
