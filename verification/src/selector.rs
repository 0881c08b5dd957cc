//! The executable-selection policy: among the unpacked file names, pick the
//! single launch target.
//!
//! A name qualifies as a candidate when it ends with one of the platform's
//! executable suffixes. A candidate whose name begins with the `master`
//! prefix wins immediately; without a `master` candidate, selection succeeds
//! exactly when there is one candidate. Selection is a pure function of the
//! name sequence, so a fixed enumeration order makes it deterministic.

use vstd::prelude::*;

use crate::errors::LauncherError;

verus! {

/// `suffix` is a suffix of `name`.
pub open spec fn ends_with(name: Seq<char>, suffix: Seq<char>) -> bool {
    suffix.len() <= name.len() && name.subrange(
        name.len() - suffix.len(),
        name.len() as int,
    ) == suffix
}

/// `prefix` is a prefix of `name`.
pub open spec fn starts_with(name: Seq<char>, prefix: Seq<char>) -> bool {
    prefix.len() <= name.len() && name.subrange(0, prefix.len() as int) == prefix
}

/// The name prefix that forces selection of a candidate.
pub open spec fn master_prefix() -> Seq<char> {
    "master"@
}

/// `name` carries one of the executable suffixes.
pub open spec fn is_candidate(name: Seq<char>, suffixes: Seq<Seq<char>>) -> bool {
    exists|k: int| 0 <= k < suffixes.len() && ends_with(name, suffixes[k])
}

/// `name` is a candidate distinguished by the `master` prefix.
pub open spec fn is_master_candidate(name: Seq<char>, suffixes: Seq<Seq<char>>) -> bool {
    is_candidate(name, suffixes) && starts_with(name, master_prefix())
}

/// How many candidates stand at positions `i` and later.
pub open spec fn candidate_count_from(
    names: Seq<Seq<char>>,
    suffixes: Seq<Seq<char>>,
    i: int,
) -> nat
    decreases names.len() - i,
{
    if i < 0 || i >= names.len() {
        0
    } else {
        (if is_candidate(names[i], suffixes) {
            1nat
        } else {
            0nat
        }) + candidate_count_from(names, suffixes, i + 1)
    }
}

/// How many of the names are candidates.
pub open spec fn candidate_count(names: Seq<Seq<char>>, suffixes: Seq<Seq<char>>) -> nat {
    candidate_count_from(names, suffixes, 0)
}

/// The first position at or after `i` holding a master candidate, or -1.
pub open spec fn first_master_from(
    names: Seq<Seq<char>>,
    suffixes: Seq<Seq<char>>,
    i: int,
) -> int
    decreases names.len() - i,
{
    if i < 0 || i >= names.len() {
        -1
    } else if is_master_candidate(names[i], suffixes) {
        i
    } else {
        first_master_from(names, suffixes, i + 1)
    }
}

/// The first position at or after `i` holding a candidate, or -1.
pub open spec fn first_candidate_from(
    names: Seq<Seq<char>>,
    suffixes: Seq<Seq<char>>,
    i: int,
) -> int
    decreases names.len() - i,
{
    if i < 0 || i >= names.len() {
        -1
    } else if is_candidate(names[i], suffixes) {
        i
    } else {
        first_candidate_from(names, suffixes, i + 1)
    }
}

/// The whole selection policy: the first master candidate if any exists,
/// otherwise the unique candidate, otherwise the matching error.
pub open spec fn spec_select(
    names: Seq<Seq<char>>,
    suffixes: Seq<Seq<char>>,
) -> Result<int, LauncherError> {
    if first_master_from(names, suffixes, 0) >= 0 {
        Ok(first_master_from(names, suffixes, 0))
    } else if candidate_count(names, suffixes) == 0 {
        Err(LauncherError::NoExecutableFound)
    } else if candidate_count(names, suffixes) == 1 {
        Ok(first_candidate_from(names, suffixes, 0))
    } else {
        Err(LauncherError::AmbiguousExecutable)
    }
}

/// Whether `suffix` ends `s`, by comparing the trailing characters.
pub fn str_ends_with(s: &str, suffix: &str) -> (b: bool)
    ensures
        b == ends_with(s@, suffix@),
{
    let n: usize = s.unicode_len();
    let m: usize = suffix.unicode_len();
    if m > n {
        return false;
    }
    let mut j: usize = 0;
    while j < m
        invariant
            j <= m <= n,
            n == s@.len(),
            m == suffix@.len(),
            forall|t: int| 0 <= t < j ==> s@[n - m + t] == suffix@[t],
        decreases m - j,
    {
        if s.get_char(n - m + j) != suffix.get_char(j) {
            proof {
                if ends_with(s@, suffix@) {
                    assert(s@.subrange(n - m, n as int)[j as int] == suffix@[j as int]);
                }
            }
            return false;
        }
        j += 1;
    }
    proof {
        assert(s@.subrange(n - m, n as int) =~= suffix@);
    }
    true
}

/// Whether `prefix` starts `s`, by comparing the leading characters.
pub fn str_starts_with(s: &str, prefix: &str) -> (b: bool)
    ensures
        b == starts_with(s@, prefix@),
{
    let n: usize = s.unicode_len();
    let m: usize = prefix.unicode_len();
    if m > n {
        return false;
    }
    let mut j: usize = 0;
    while j < m
        invariant
            j <= m <= n,
            n == s@.len(),
            m == prefix@.len(),
            forall|t: int| 0 <= t < j ==> s@[t] == prefix@[t],
        decreases m - j,
    {
        if s.get_char(j) != prefix.get_char(j) {
            proof {
                if starts_with(s@, prefix@) {
                    assert(s@.subrange(0, m as int)[j as int] == prefix@[j as int]);
                }
            }
            return false;
        }
        j += 1;
    }
    proof {
        assert(s@.subrange(0, m as int) =~= prefix@);
    }
    true
}

/// Whether `name` ends with one of the executable suffixes.
pub fn name_is_candidate(name: &str, suffixes: &Vec<String>) -> (b: bool)
    ensures
        b == is_candidate(name@, suffixes.deep_view()),
{
    let mut k: usize = 0;
    while k < suffixes.len()
        invariant
            k <= suffixes.len(),
            suffixes.deep_view().len() == suffixes@.len(),
            forall|t: int| 0 <= t < suffixes@.len() ==> suffixes.deep_view()[t] == suffixes@[t]@,
            forall|t: int| 0 <= t < k ==> !ends_with(name@, suffixes.deep_view()[t]),
        decreases suffixes.len() - k,
    {
        if str_ends_with(name, suffixes[k].as_str()) {
            proof {
                assert(ends_with(name@, suffixes.deep_view()[k as int]));
            }
            return true;
        }
        k += 1;
    }
    false
}

/// Pick the launch target among `names`: the index of the first
/// `master`-prefixed candidate, else of the unique candidate; with no
/// candidate the selection reports `NoExecutableFound`, with several and no
/// `master` it reports `AmbiguousExecutable`.
pub fn select_executable(names: &Vec<String>, suffixes: &Vec<String>) -> (r: Result<
    usize,
    LauncherError,
>)
    ensures
        match r {
            Ok(i) => i < names.len() && spec_select(names.deep_view(), suffixes.deep_view())
                == Ok::<int, LauncherError>(i as int),
            Err(e) => spec_select(names.deep_view(), suffixes.deep_view()) == Err::<
                int,
                LauncherError,
            >(e),
        },
{
    let ghost vnames = names.deep_view();
    let ghost vsufs = suffixes.deep_view();
    proof {
        assert(forall|t: int|
            0 <= t < names@.len() ==> vnames[t] == names@[t]@);
    }
    let n: usize = names.len();
    let mut count: usize = 0;
    let mut first_cand: usize = 0;
    let mut have_cand: bool = false;
    let mut i: usize = 0;
    while i < n
        invariant
            n == names.len(),
            vnames == names.deep_view(),
            vsufs == suffixes.deep_view(),
            vnames.len() == n,
            forall|t: int| 0 <= t < names@.len() ==> vnames[t] == names@[t]@,
            i <= n,
            count <= i,
            candidate_count_from(vnames, vsufs, 0) == count + candidate_count_from(
                vnames,
                vsufs,
                i as int,
            ),
            have_cand ==> first_cand < i && is_candidate(vnames[first_cand as int], vsufs)
                && first_candidate_from(vnames, vsufs, 0) == first_cand as int,
            !have_cand ==> count == 0 && first_candidate_from(vnames, vsufs, 0)
                == first_candidate_from(vnames, vsufs, i as int),
            have_cand <==> count > 0,
            first_master_from(vnames, vsufs, 0) == first_master_from(vnames, vsufs, i as int),
        decreases n - i,
    {
        let is_cand = name_is_candidate(names[i].as_str(), suffixes);
        if is_cand {
            if str_starts_with(names[i].as_str(), "master") {
                proof {
                    assert(is_master_candidate(vnames[i as int], vsufs));
                    assert(first_master_from(vnames, vsufs, i as int) == i as int);
                }
                return Ok(i);
            }
            if !have_cand {
                first_cand = i;
                have_cand = true;
            }
            count += 1;
        }
        proof {
            assert(!is_master_candidate(vnames[i as int], vsufs));
            assert(first_master_from(vnames, vsufs, i as int) == first_master_from(
                vnames,
                vsufs,
                i as int + 1,
            ));
        }
        i += 1;
    }
    proof {
        assert(candidate_count_from(vnames, vsufs, n as int) == 0);
        assert(first_master_from(vnames, vsufs, n as int) == -1);
    }
    if count == 0 {
        Err(LauncherError::NoExecutableFound)
    } else if count == 1 {
        Ok(first_cand)
    } else {
        Err(LauncherError::AmbiguousExecutable)
    }
}

/// With a master candidate at `k` and none earlier, scanning from `i` finds `k`.
pub proof fn lemma_first_master_found(
    names: Seq<Seq<char>>,
    suffixes: Seq<Seq<char>>,
    i: int,
    k: int,
)
    requires
        0 <= i <= k < names.len(),
        is_master_candidate(names[k], suffixes),
        forall|j: int| i <= j < k ==> !is_master_candidate(names[j], suffixes),
    ensures
        first_master_from(names, suffixes, i) == k,
    decreases k - i,
{
    if i < k {
        lemma_first_master_found(names, suffixes, i + 1, k);
    }
}

/// With no master candidate at `i` or later, the scan from `i` finds none.
pub proof fn lemma_no_master(names: Seq<Seq<char>>, suffixes: Seq<Seq<char>>, i: int)
    requires
        0 <= i <= names.len(),
        forall|j: int| i <= j < names.len() ==> !is_master_candidate(names[j], suffixes),
    ensures
        first_master_from(names, suffixes, i) == -1,
    decreases names.len() - i,
{
    if i < names.len() {
        lemma_no_master(names, suffixes, i + 1);
    }
}

/// With no candidate at `i` or later, the count from `i` is zero.
pub proof fn lemma_count_none(names: Seq<Seq<char>>, suffixes: Seq<Seq<char>>, i: int)
    requires
        0 <= i <= names.len(),
        forall|j: int| i <= j < names.len() ==> !is_candidate(names[j], suffixes),
    ensures
        candidate_count_from(names, suffixes, i) == 0,
    decreases names.len() - i,
{
    if i < names.len() {
        lemma_count_none(names, suffixes, i + 1);
    }
}

/// With exactly one candidate at `k` among positions `i` and later, the count
/// from `i` is one and the first candidate found is `k`.
pub proof fn lemma_count_single(names: Seq<Seq<char>>, suffixes: Seq<Seq<char>>, i: int, k: int)
    requires
        0 <= i <= k < names.len(),
        is_candidate(names[k], suffixes),
        forall|j: int| i <= j < names.len() && j != k ==> !is_candidate(names[j], suffixes),
    ensures
        candidate_count_from(names, suffixes, i) == 1,
        first_candidate_from(names, suffixes, i) == k,
    decreases k - i,
{
    if i < k {
        lemma_count_single(names, suffixes, i + 1, k);
    } else {
        lemma_count_none(names, suffixes, k + 1);
    }
}

/// With a candidate at `k`, the count from `i` is at least one.
pub proof fn lemma_count_pos(names: Seq<Seq<char>>, suffixes: Seq<Seq<char>>, i: int, k: int)
    requires
        0 <= i <= k < names.len(),
        is_candidate(names[k], suffixes),
    ensures
        candidate_count_from(names, suffixes, i) >= 1,
    decreases k - i,
{
    if i < k {
        lemma_count_pos(names, suffixes, i + 1, k);
    }
}

/// With candidates at `k1` and `k2`, the count from `i` is at least two.
pub proof fn lemma_count_two(
    names: Seq<Seq<char>>,
    suffixes: Seq<Seq<char>>,
    i: int,
    k1: int,
    k2: int,
)
    requires
        0 <= i <= k1 < k2 < names.len(),
        is_candidate(names[k1], suffixes),
        is_candidate(names[k2], suffixes),
    ensures
        candidate_count_from(names, suffixes, i) >= 2,
    decreases k1 - i,
{
    if i < k1 {
        lemma_count_two(names, suffixes, i + 1, k1, k2);
    } else {
        lemma_count_pos(names, suffixes, k1 + 1, k2);
    }
}

/// With exactly one suffix-matching name, selection succeeds with that name.
pub proof fn lemma_single_candidate_selected(
    names: Seq<Seq<char>>,
    suffixes: Seq<Seq<char>>,
    k: int,
)
    requires
        0 <= k < names.len(),
        is_candidate(names[k], suffixes),
        forall|j: int| 0 <= j < names.len() && j != k ==> !is_candidate(names[j], suffixes),
    ensures
        spec_select(names, suffixes) == Ok::<int, LauncherError>(k),
{
    if starts_with(names[k], master_prefix()) {
        lemma_first_master_found(names, suffixes, 0, k);
    } else {
        lemma_no_master(names, suffixes, 0);
        lemma_count_single(names, suffixes, 0, k);
    }
}

/// With no suffix-matching name, selection fails with `NoExecutableFound`.
pub proof fn lemma_no_candidate_rejected(names: Seq<Seq<char>>, suffixes: Seq<Seq<char>>)
    requires
        forall|j: int| 0 <= j < names.len() ==> !is_candidate(names[j], suffixes),
    ensures
        spec_select(names, suffixes) == Err::<int, LauncherError>(
            LauncherError::NoExecutableFound,
        ),
{
    lemma_no_master(names, suffixes, 0);
    lemma_count_none(names, suffixes, 0);
}

/// With at least two candidates and no `master` prefix anywhere, selection
/// fails with `AmbiguousExecutable`.
pub proof fn lemma_ambiguous_rejected(
    names: Seq<Seq<char>>,
    suffixes: Seq<Seq<char>>,
    k1: int,
    k2: int,
)
    requires
        0 <= k1 < k2 < names.len(),
        is_candidate(names[k1], suffixes),
        is_candidate(names[k2], suffixes),
        forall|j: int| 0 <= j < names.len() ==> !is_master_candidate(names[j], suffixes),
    ensures
        spec_select(names, suffixes) == Err::<int, LauncherError>(
            LauncherError::AmbiguousExecutable,
        ),
{
    lemma_no_master(names, suffixes, 0);
    lemma_count_two(names, suffixes, 0, k1, k2);
}

/// A `master`-prefixed candidate with no earlier master candidate is always
/// selected, however many other candidates exist.
pub proof fn lemma_master_selected(names: Seq<Seq<char>>, suffixes: Seq<Seq<char>>, k: int)
    requires
        0 <= k < names.len(),
        is_master_candidate(names[k], suffixes),
        forall|j: int| 0 <= j < k ==> !is_master_candidate(names[j], suffixes),
    ensures
        spec_select(names, suffixes) == Ok::<int, LauncherError>(k),
{
    lemma_first_master_found(names, suffixes, 0, k);
}

/// The platform's executable-suffix list, resolved once from a target tag.
pub fn executable_suffixes(windows: bool) -> (r: Vec<String>)
    ensures
        r.deep_view().len() == 2,
        windows ==> r.deep_view() == seq!["exe"@, "bat"@],
        !windows ==> r.deep_view() == seq!["elf"@, "sh"@],
{
    let mut r: Vec<String> = Vec::new();
    if windows {
        r.push(String::from_str("exe"));
        r.push(String::from_str("bat"));
        proof {
            assert(r.deep_view() =~= seq!["exe"@, "bat"@]);
        }
    } else {
        r.push(String::from_str("elf"));
        r.push(String::from_str("sh"));
        proof {
            assert(r.deep_view() =~= seq!["elf"@, "sh"@]);
        }
    }
    r
}

} // verus!
