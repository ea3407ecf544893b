//! Classification of single log lines.
//!
//! A line is of interest only if it carries the state-update marker; an
//! interesting line reports the inactive state exactly when it also carries
//! the null-configuration marker, and the active state otherwise.

use vstd::prelude::*;

verus! {

/// The result of classifying one log line.
#[derive(PartialEq, Eq, Structural, Clone, Copy, Debug)]
pub enum Classification {
    StateActive,
    StateInactive,
    NotApplicable,
}

/// The pattern `p` occurs in `s` starting at position `i`.
pub open spec fn match_at(s: Seq<char>, p: Seq<char>, i: int) -> bool {
    0 <= i && i + p.len() <= s.len() && s.subrange(i, i + p.len() as int) == p
}

/// The pattern `p` occurs somewhere in `s`.
pub open spec fn contains_seq(s: Seq<char>, p: Seq<char>) -> bool {
    exists|i: int| match_at(s, p, i)
}

/// The marker that makes a line applicable at all.
pub open spec fn state_marker() -> Seq<char> {
    "State was updated: currentState"@
}

/// The marker that, on an applicable line, reports the inactive state.
pub open spec fn null_marker() -> Seq<char> {
    "activeModeConfiguration: (null)"@
}

/// What classification a line of the given text receives.
pub open spec fn spec_classify(line: Seq<char>) -> Classification {
    if !contains_seq(line, state_marker()) {
        Classification::NotApplicable
    } else if contains_seq(line, null_marker()) {
        Classification::StateInactive
    } else {
        Classification::StateActive
    }
}

/// Whether `p` matches `s` at position `i`, by comparing characters.
fn match_at_exec(s: &str, p: &str, i: usize, slen: usize, plen: usize) -> (r: bool)
    requires
        slen == s@.len(),
        plen == p@.len(),
        i + plen <= slen,
    ensures
        r == match_at(s@, p@, i as int),
{
    let mut j: usize = 0;
    while j < plen
        invariant
            slen == s@.len(),
            plen == p@.len(),
            i + plen <= slen,
            j <= plen,
            forall|k: int| 0 <= k < j ==> s@[i + k] == p@[k],
        decreases plen - j,
    {
        if s.get_char(i + j) != p.get_char(j) {
            proof {
                if match_at(s@, p@, i as int) {
                    assert(s@.subrange(i as int, i + p@.len() as int)[j as int] == p@[j as int]);
                }
            }
            return false;
        }
        j = j + 1;
    }
    proof {
        assert(s@.subrange(i as int, i + p@.len() as int) =~= p@);
    }
    true
}

/// Whether the pattern `p` occurs anywhere in `s`.
fn contains_str(s: &str, p: &str) -> (r: bool)
    ensures
        r == contains_seq(s@, p@),
{
    let slen = s.unicode_len();
    let plen = p.unicode_len();
    if plen == 0 {
        proof {
            assert(s@.subrange(0, 0) =~= p@);
            assert(match_at(s@, p@, 0));
        }
        return true;
    }
    if plen > slen {
        proof {
            assert forall|k: int| !match_at(s@, p@, k) by {}
        }
        return false;
    }
    let last = slen - plen;
    let mut i: usize = 0;
    while i <= last
        invariant
            slen == s@.len(),
            plen == p@.len(),
            1 <= plen <= slen,
            last == slen - plen,
            i <= last + 1,
            forall|k: int| 0 <= k < i ==> !match_at(s@, p@, k),
        decreases last + 1 - i,
    {
        if match_at_exec(s, p, i, slen, plen) {
            assert(match_at(s@, p@, i as int));
            return true;
        }
        i = i + 1;
    }
    proof {
        assert forall|k: int| !match_at(s@, p@, k) by {
            if 0 <= k && k + p@.len() <= s@.len() {
                assert(k <= last);
            }
        }
    }
    false
}

/// Classify one log line by the two substring tests.
pub fn classify(line: &str) -> (c: Classification)
    ensures
        c == spec_classify(line@),
{
    if contains_str(line, "State was updated: currentState") {
        if contains_str(line, "activeModeConfiguration: (null)") {
            Classification::StateInactive
        } else {
            Classification::StateActive
        }
    } else {
        Classification::NotApplicable
    }
}

/// Law: a line without the state-update marker is never applicable,
/// whatever else it contains.
pub proof fn lemma_no_marker_not_applicable(line: Seq<char>)
    requires
        !contains_seq(line, state_marker()),
    ensures
        spec_classify(line) == Classification::NotApplicable,
{
}

/// Law: a line with the state-update marker and the null-configuration
/// marker reports the inactive state.
pub proof fn lemma_null_marker_inactive(line: Seq<char>)
    requires
        contains_seq(line, state_marker()),
        contains_seq(line, null_marker()),
    ensures
        spec_classify(line) == Classification::StateInactive,
{
}

/// Law: a line with the state-update marker and without the
/// null-configuration marker reports the active state.
pub proof fn lemma_no_null_marker_active(line: Seq<char>)
    requires
        contains_seq(line, state_marker()),
        !contains_seq(line, null_marker()),
    ensures
        spec_classify(line) == Classification::StateActive,
{
}

/// Law: classification depends on the line's text alone; two lines with the
/// same characters classify identically.
pub proof fn lemma_classify_pure(a: Seq<char>, b: Seq<char>)
    requires
        a =~= b,
    ensures
        spec_classify(a) == spec_classify(b),
{
}

} // verus!
