//! Which breadth of watch the running kernel offers.
//!
//! A watch on a whole filesystem needs kernel 4.20.0 or later; every kernel
//! offers a watch on one mount. The kernel is known by its release string,
//! which the caller reads from the operating system.

use crate::text::{
    find, find_char, is_digit, lemma_find, lemma_find_is, lemma_numeral_reads_back, numeral,
};
use crate::version::{lemma_dotted_reads_back, parse, parsed, KernelVersion, ParseError};
use vstd::prelude::*;

verus! {

/// How broadly the kernel applies a watch.
#[derive(Clone, Copy, Debug, PartialEq, Eq, Structural)]
pub enum MonitorScope {
    /// The mount that holds the watched path.
    MountScope,
    /// The whole filesystem that holds the watched path.
    FilesystemScope,
}

/// The first kernel version that offers `FilesystemScope`: 4.20.0.
pub open spec fn first_filesystem_version() -> KernelVersion {
    KernelVersion { major: 4, minor: 20, patch: 0 }
}

/// Whether a kernel of version `v` offers `FilesystemScope`: `v` does not
/// come before 4.20.0.
pub open spec fn offers_filesystem_scope(v: KernelVersion) -> bool {
    !v.precedes(first_filesystem_version())
}

/// The part of a release string that may write the version: what stands
/// before the first hyphen, or the whole string where it holds no hyphen.
pub open spec fn version_part(release: Seq<char>) -> Seq<char> {
    release.take(find(release, '-'))
}

/// The scope that follows from an attempt to read the kernel version.
pub open spec fn scope_from(version: Result<KernelVersion, ParseError>) -> MonitorScope {
    match version {
        Ok(v) => if offers_filesystem_scope(v) {
            MonitorScope::FilesystemScope
        } else {
            MonitorScope::MountScope
        },
        Err(_) => MonitorScope::MountScope,
    }
}

/// The scope to ask for on a kernel with the given release string.
pub open spec fn scope_of(release: Seq<char>) -> MonitorScope {
    scope_from(parsed(version_part(release)))
}

/// The first kernel version that offers `FilesystemScope`.
pub fn filesystem_scope_since() -> (v: KernelVersion)
    ensures
        v == first_filesystem_version(),
{
    KernelVersion { major: 4, minor: 20, patch: 0 }
}

/// Cuts a build suffix such as `-174-generic` off a release string: returns
/// what stands before the first hyphen.
pub fn strip_suffix<'a>(release: &'a str) -> (part: &'a str)
    ensures
        part@ == version_part(release@),
{
    let at = find_char(release, '-');
    proof {
        lemma_find(release@, '-');
    }
    release.substring_char(0, at)
}

/// Decides the scope from an attempt to read the kernel version: a version
/// from 4.20.0 on gives `FilesystemScope`; an older one, or none at all,
/// gives `MountScope`.
pub fn scope_for(version: Result<KernelVersion, ParseError>) -> (scope: MonitorScope)
    ensures
        scope == scope_from(version),
{
    match version {
        Ok(v) => {
            if v >= filesystem_scope_since() {
                MonitorScope::FilesystemScope
            } else {
                MonitorScope::MountScope
            }
        },
        Err(_) => MonitorScope::MountScope,
    }
}

/// The kernel version, where the release string writes one that offers
/// `FilesystemScope`; `None` where the kernel is older or the string, cut at
/// its first hyphen, is not a version.
pub fn can_mark_full_filesystem(release: &str) -> (version: Option<KernelVersion>)
    ensures
        version == match parsed(version_part(release@)) {
            Ok(v) => if offers_filesystem_scope(v) {
                Some(v)
            } else {
                None
            },
            Err(_) => None,
        },
        version is Some <==> scope_of(release@) == MonitorScope::FilesystemScope,
{
    match parse(strip_suffix(release)) {
        Ok(v) => {
            if v >= filesystem_scope_since() {
                Some(v)
            } else {
                None
            }
        },
        Err(_) => None,
    }
}

/// Chooses the scope to ask for on a kernel with the given release string.
///
/// Never fails: a release string that cannot be read as a version gives the
/// scope that every kernel offers.
pub fn negotiate(release: &str) -> (scope: MonitorScope)
    ensures
        scope == scope_of(release@),
{
    scope_for(parse(strip_suffix(release)))
}

/// What one kernel offers, every later kernel offers: from 4.20.0 on the
/// choice is `FilesystemScope`, before it `MountScope`.
pub proof fn law_scope_grows_with_version(older: KernelVersion, newer: KernelVersion)
    requires
        !newer.precedes(older),
    ensures
        scope_from(Ok(older)) == MonitorScope::FilesystemScope ==> scope_from(Ok(newer))
            == MonitorScope::FilesystemScope,
        scope_from(Ok(newer)) == MonitorScope::MountScope ==> scope_from(Ok(older))
            == MonitorScope::MountScope,
        scope_from(Ok(first_filesystem_version())) == MonitorScope::FilesystemScope,
        older.precedes(first_filesystem_version()) ==> scope_from(Ok(older))
            == MonitorScope::MountScope,
{
}

/// Whatever follows the first hyphen of a release string has no part in the
/// choice: a version followed by a hyphen and any suffix gives the scope of
/// that version, and so does the version alone.
pub proof fn law_suffix_is_ignored(v: KernelVersion, suffix: Seq<char>)
    ensures
        version_part(v.dotted() + seq!['-'] + suffix) == v.dotted(),
        version_part(v.dotted()) == v.dotted(),
        scope_of(v.dotted() + seq!['-'] + suffix) == scope_from(Ok(v)),
        scope_of(v.dotted()) == scope_from(Ok(v)),
{
    let text = v.dotted();
    let release = text + seq!['-'] + suffix;
    let major = numeral(v.major as nat);
    let minor = numeral(v.minor as nat);
    let patch = numeral(v.patch as nat);
    lemma_numeral_reads_back(v.major as nat);
    lemma_numeral_reads_back(v.minor as nat);
    lemma_numeral_reads_back(v.patch as nat);
    assert forall|k: int| 0 <= k < text.len() implies text[k] != '-' by {
        if k < major.len() {
            assert(is_digit(major[k]));
        } else if k == major.len() {
        } else if k < major.len() + 1 + minor.len() {
            assert(is_digit(minor[k - major.len() - 1]));
        } else if k == major.len() + 1 + minor.len() {
        } else {
            assert(is_digit(patch[k - major.len() - minor.len() - 2]));
        }
    }
    assert forall|k: int| 0 <= k < text.len() implies release[k] != '-' by {
        assert(release[k] == text[k]);
    }
    lemma_find_is(release, '-', text.len() as int);
    lemma_find_is(text, '-', text.len() as int);
    assert(release.take(text.len() as int) =~= text);
    assert(text.take(text.len() as int) =~= text);
    lemma_dotted_reads_back(v);
}

} // verus!
