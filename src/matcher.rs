//! Matching a command against a set of checks.
use vstd::prelude::*;

use crate::check::{views, Check, CheckView};
use crate::pattern::regex_finds;

verus! {

/// Some check among the first `n` of `a` has id `id` and a pattern found in `command`.
pub open spec fn matched_within(a: Seq<CheckView>, command: Seq<char>, n: int, id: u64) -> bool {
    exists|k: int| 0 <= k < n && #[trigger] a[k].id == id && regex_finds(a[k].pattern, command)
}

/// Some check of `a` has id `id` and a pattern found in `command`.
pub open spec fn matched(a: Seq<CheckView>, command: Seq<char>, id: u64) -> bool {
    matched_within(a, command, a.len() as int, id)
}

/// Every element is greater than the ones after it.
pub open spec fn strictly_descending(s: Seq<u64>) -> bool {
    forall|i: int, j: int| 0 <= i < j < s.len() ==> s[i] > s[j]
}

/// `r` is the match result of `command` against `a`: the ids of the matching checks,
/// each once, from the largest down.
pub open spec fn is_match_result(a: Seq<CheckView>, command: Seq<char>, r: Seq<u64>) -> bool {
    &&& strictly_descending(r)
    &&& forall|id: u64| r.contains(id) <==> matched(a, command, id)
}

/// Inserts `id` into the strictly descending `r`, keeping it strictly descending;
/// nothing changes when `id` is already there.
fn insert_descending(r: &mut Vec<u64>, id: u64)
    requires
        strictly_descending(old(r)@),
    ensures
        strictly_descending(final(r)@),
        forall|x: u64| #[trigger] final(r)@.contains(x) <==> (old(r)@.contains(x) || x == id),
{
    let mut p: usize = 0;
    while p < r.len() && r[p] > id
        invariant
            p <= r@.len(),
            r@ == old(r)@,
            forall|k: int| 0 <= k < p ==> r@[k] > id,
        decreases r@.len() - p,
    {
        p = p + 1;
    }
    if p < r.len() && r[p] == id {
        assert(r@[p as int] == id);
        return;
    }
    let ghost r0 = r@;
    r.insert(p, id);
    assert forall|x: u64| #[trigger] r@.contains(x) <==> (r0.contains(x) || x == id) by {
        if r@.contains(x) {
            let k = choose|k: int| 0 <= k < r@.len() && r@[k] == x;
            if k < p {
                assert(r0[k] == x);
            } else if k > p {
                assert(r0[k - 1] == x);
            }
        }
        if r0.contains(x) {
            let k = choose|k: int| 0 <= k < r0.len() && r0[k] == x;
            if k < p {
                assert(r@[k] == x);
            } else {
                assert(r@[k + 1] == x);
            }
        }
        if x == id {
            assert(r@[p as int] == x);
        }
    }
}

/// The ids of the checks of `checks` whose pattern is found anywhere in `command`,
/// each once, sorted from the largest down.
pub fn run_check_on_command(checks: &Vec<Check>, command: &str) -> (r: Vec<u64>)
    ensures
        is_match_result(views(checks@), command@, r@),
{
    let ghost a = views(checks@);
    let mut r: Vec<u64> = Vec::new();
    let mut i: usize = 0;
    while i < checks.len()
        invariant
            i <= checks@.len(),
            a == views(checks@),
            strictly_descending(r@),
            forall|id: u64| r@.contains(id) <==> matched_within(a, command@, i as int, id),
        decreases checks@.len() - i,
    {
        let c = &checks[i];
        let hit = c.pattern.is_match(command);
        let ghost r0 = r@;
        if hit {
            insert_descending(&mut r, c.id);
        }
        assert forall|id: u64| r@.contains(id) <==> matched_within(a, command@, i + 1, id) by {
            if matched_within(a, command@, i + 1, id) {
                let k = choose|k: int|
                    0 <= k < i + 1 && #[trigger] a[k].id == id && regex_finds(a[k].pattern, command@);
                if k < i {
                    assert(matched_within(a, command@, i as int, id));
                }
            }
            if matched_within(a, command@, i as int, id) {
                let k = choose|k: int|
                    0 <= k < i && #[trigger] a[k].id == id && regex_finds(a[k].pattern, command@);
                assert(0 <= k < i + 1 && a[k].id == id);
            }
            if hit && id == c.id {
                assert(a[i as int].id == id);
            }
        }
        i = i + 1;
    }
    r
}

proof fn lemma_descending_unique(s1: Seq<u64>, s2: Seq<u64>)
    requires
        strictly_descending(s1),
        strictly_descending(s2),
        forall|x: u64| s1.contains(x) <==> s2.contains(x),
    ensures
        s1 == s2,
    decreases s1.len(),
{
    if s1.len() == 0 {
        if s2.len() > 0 {
            assert(s2.contains(s2[0]));
        }
        assert(s1 =~= s2);
    } else {
        assert(s1.contains(s1[0]));
        assert(s2.len() > 0);
        assert(s2.contains(s2[0]));
        let k = choose|k: int| 0 <= k < s2.len() && s2[k] == s1[0];
        let m = choose|m: int| 0 <= m < s1.len() && s1[m] == s2[0];
        assert(s1[0] == s2[0]);
        let t1 = s1.drop_first();
        let t2 = s2.drop_first();
        assert forall|x: u64| t1.contains(x) <==> t2.contains(x) by {
            if t1.contains(x) {
                let a = choose|a: int| 0 <= a < t1.len() && t1[a] == x;
                assert(s1[a + 1] == x);
                assert(s1.contains(x));
                let b = choose|b: int| 0 <= b < s2.len() && s2[b] == x;
                assert(b != 0);
                assert(t2[b - 1] == x);
            }
            if t2.contains(x) {
                let a = choose|a: int| 0 <= a < t2.len() && t2[a] == x;
                assert(s2[a + 1] == x);
                assert(s2.contains(x));
                let b = choose|b: int| 0 <= b < s1.len() && s1[b] == x;
                assert(b != 0);
                assert(t1[b - 1] == x);
            }
        }
        lemma_descending_unique(t1, t2);
        assert forall|i: int| 0 <= i < s1.len() implies s1[i] == s2[i] by {
            if i > 0 {
                assert(t1[i - 1] == t2[i - 1]);
            }
        }
        assert(s1 =~= s2);
    }
}

/// Matching is deterministic: for a fixed set of checks and a fixed command there is
/// exactly one match result.
pub proof fn lemma_match_deterministic(
    a: Seq<CheckView>,
    command: Seq<char>,
    r1: Seq<u64>,
    r2: Seq<u64>,
)
    requires
        is_match_result(a, command, r1),
        is_match_result(a, command, r2),
    ensures
        r1 == r2,
{
    lemma_descending_unique(r1, r2);
}

} // verus!
