//! Semantic-version handling for version creation: validity of a version
//! string, precedence comparison between two version strings, and the scan
//! that decides whether a candidate version conflicts with the versions
//! already recorded for a plugin.

use vstd::prelude::*;

use crate::errors::CreateVersionError;

verus! {

/// Whether a string parses as a semantic version. A pure function of the
/// string.
pub uninterp spec fn sem_valid(s: Seq<char>) -> bool;

/// The three-way comparison of two valid semantic-version strings: negative
/// when `a` denotes a lower version than `b`, zero when they are tied, and
/// positive when `a` denotes a higher one. A pure function of the two
/// strings.
pub uninterp spec fn sem_cmp(a: Seq<char>, b: Seq<char>) -> int;

/// Relies on `semver::Version::parse`: whether parsing succeeds depends on
/// the characters of the string alone.
#[verifier::external_body]
pub(crate) fn semver_is_valid(s: &str) -> (r: bool)
    ensures
        r == sem_valid(s@),
{
    semver::Version::parse(s).is_ok()
}

/// Relies on `semver::Version::parse` and on the derived total order of
/// `semver::Version`, which compares major, minor and patch numbers, then
/// pre-release identifiers by semantic-version precedence, then build
/// metadata. Parsing and comparison depend on the two strings alone, so the
/// sign of the comparison (encoded as -1, 0 or 1, one arm per `Ordering`
/// variant) is a pure function of the strings; `None` is returned exactly
/// when one of the strings does not parse, and comparing a valid string
/// with itself yields 0 because `Ord` is a total order.
#[verifier::external_body]
pub(crate) fn semver_compare(a: &str, b: &str) -> (r: Option<i8>)
    ensures
        match r {
            Some(c) => sem_valid(a@) && sem_valid(b@) && c as int == sem_cmp(a@, b@) && -1 <= c
                <= 1,
            None => !(sem_valid(a@) && sem_valid(b@)),
        },
        (sem_valid(a@) && a@ == b@) ==> r == Some(0i8),
{
    let va = match semver::Version::parse(a) {
        Ok(v) => v,
        Err(_) => return None,
    };
    let vb = match semver::Version::parse(b) {
        Ok(v) => v,
        Err(_) => return None,
    };
    match va.cmp(&vb) {
        std::cmp::Ordering::Less => Some(-1),
        std::cmp::Ordering::Equal => Some(0),
        std::cmp::Ordering::Greater => Some(1),
    }
}

/// The verdict of scanning the recorded version strings of a plugin, in
/// storage order, against a candidate: the first recorded version that ties
/// with the candidate makes it `AlreadyExists`; the first one that exceeds
/// it makes it `LessThanLatestVersion`; a recorded string that is not a
/// valid semantic version means the metadata store handed back a corrupt
/// row, reported as `DatabaseError`; and a candidate above everything
/// conflicts with nothing.
pub open spec fn version_conflict(existing: Seq<Seq<char>>, cand: Seq<char>) -> Option<
    CreateVersionError,
>
    decreases existing.len(),
{
    if existing.len() == 0 {
        None
    } else if !sem_valid(existing[0]) {
        Some(CreateVersionError::DatabaseError)
    } else if sem_cmp(existing[0], cand) == 0 {
        Some(CreateVersionError::AlreadyExists)
    } else if sem_cmp(existing[0], cand) > 0 {
        Some(CreateVersionError::LessThanLatestVersion)
    } else {
        version_conflict(existing.drop_first(), cand)
    }
}

/// A candidate that ties in precedence with a recorded version — yanked or
/// not — is rejected as `AlreadyExists`, whenever every version recorded
/// before that one is strictly lower than the candidate (as versions
/// recorded in publication order are).
pub proof fn lemma_equal_version_conflicts(existing: Seq<Seq<char>>, cand: Seq<char>, i: int)
    requires
        0 <= i < existing.len(),
        forall|j: int| 0 <= j < existing.len() ==> sem_valid(#[trigger] existing[j]),
        sem_cmp(existing[i], cand) == 0,
        forall|j: int| 0 <= j < i ==> sem_cmp(#[trigger] existing[j], cand) < 0,
    ensures
        version_conflict(existing, cand) == Some(CreateVersionError::AlreadyExists),
    decreases i,
{
    if i > 0 {
        let rest = existing.drop_first();
        assert(forall|j: int| 0 <= j < rest.len() ==> rest[j] == existing[j + 1]);
        lemma_equal_version_conflicts(rest, cand, i - 1);
    }
}

/// A candidate that ties with no recorded version but is exceeded by some
/// recorded version — yanked or not — is rejected as
/// `LessThanLatestVersion`.
pub proof fn lemma_lower_version_conflicts(existing: Seq<Seq<char>>, cand: Seq<char>)
    requires
        forall|j: int| 0 <= j < existing.len() ==> sem_valid(#[trigger] existing[j]),
        exists|j: int| 0 <= j < existing.len() && sem_cmp(#[trigger] existing[j], cand) > 0,
        forall|j: int| 0 <= j < existing.len() ==> sem_cmp(#[trigger] existing[j], cand) != 0,
    ensures
        version_conflict(existing, cand) == Some(CreateVersionError::LessThanLatestVersion),
    decreases existing.len(),
{
    if sem_cmp(existing[0], cand) > 0 {
    } else {
        let rest = existing.drop_first();
        assert(forall|j: int| 0 <= j < rest.len() ==> rest[j] == existing[j + 1]);
        let w = choose|j: int| 0 <= j < existing.len() && sem_cmp(#[trigger] existing[j], cand)
            > 0;
        assert(w > 0);
        assert(0 <= w - 1 < rest.len() && sem_cmp(rest[w - 1], cand) > 0);
        lemma_lower_version_conflicts(rest, cand);
    }
}

/// A candidate strictly above every recorded version conflicts with
/// nothing.
pub proof fn lemma_greater_version_accepted(existing: Seq<Seq<char>>, cand: Seq<char>)
    requires
        forall|j: int| 0 <= j < existing.len() ==> sem_valid(#[trigger] existing[j]),
        forall|j: int| 0 <= j < existing.len() ==> sem_cmp(#[trigger] existing[j], cand) < 0,
    ensures
        version_conflict(existing, cand) == None::<CreateVersionError>,
    decreases existing.len(),
{
    if existing.len() > 0 {
        let rest = existing.drop_first();
        assert(forall|j: int| 0 <= j < rest.len() ==> rest[j] == existing[j + 1]);
        lemma_greater_version_accepted(rest, cand);
    }
}

/// Conversely, a candidate that conflicts with nothing is strictly above
/// every recorded version: what `create_version` accepts is greater than
/// everything ever recorded for the plugin.
pub proof fn lemma_no_conflict_all_lower(existing: Seq<Seq<char>>, cand: Seq<char>)
    requires
        version_conflict(existing, cand) == None::<CreateVersionError>,
    ensures
        forall|j: int|
            0 <= j < existing.len() ==> sem_valid(#[trigger] existing[j]) && sem_cmp(
                existing[j],
                cand,
            ) < 0,
    decreases existing.len(),
{
    if existing.len() > 0 {
        let rest = existing.drop_first();
        assert(forall|j: int| 0 <= j < rest.len() ==> rest[j] == existing[j + 1]);
        lemma_no_conflict_all_lower(rest, cand);
        assert forall|j: int| 1 <= j < existing.len() implies sem_valid(#[trigger] existing[j])
            && sem_cmp(existing[j], cand) < 0 by {
            assert(rest[j - 1] == existing[j]);
            assert(sem_valid(rest[j - 1]) && sem_cmp(rest[j - 1], cand) < 0);
        }
    }
}

} // verus!
