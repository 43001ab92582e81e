//! Edit distance between character sequences.

use vstd::prelude::*;

verus! {

pub open spec fn min3(x: nat, y: nat, z: nat) -> nat {
    if x <= y && x <= z {
        x
    } else if y <= z {
        y
    } else {
        z
    }
}

/// Levenshtein distance: the fewest single-character insertions, deletions
/// and substitutions that turn `a` into `b`.
pub open spec fn edit_distance(a: Seq<char>, b: Seq<char>) -> nat
    decreases a.len() + b.len(),
{
    if a.len() == 0 {
        b.len()
    } else if b.len() == 0 {
        a.len()
    } else {
        let cost: nat = if a.last() == b.last() { 0 } else { 1 };
        min3(
            edit_distance(a.drop_last(), b) + 1,
            edit_distance(a, b.drop_last()) + 1,
            edit_distance(a.drop_last(), b.drop_last()) + cost,
        )
    }
}

/// The distance never exceeds the length of the longer sequence.
pub proof fn lemma_distance_bounded(a: Seq<char>, b: Seq<char>)
    ensures
        edit_distance(a, b) <= if a.len() >= b.len() { a.len() } else { b.len() },
    decreases a.len() + b.len(),
{
    if a.len() > 0 && b.len() > 0 {
        lemma_distance_bounded(a.drop_last(), b.drop_last());
    }
}

/// Distance is symmetric: turning `a` into `b` costs as much as turning `b` into `a`.
pub proof fn lemma_distance_symmetric(a: Seq<char>, b: Seq<char>)
    ensures
        edit_distance(a, b) == edit_distance(b, a),
    decreases a.len() + b.len(),
{
    if a.len() > 0 && b.len() > 0 {
        lemma_distance_symmetric(a.drop_last(), b);
        lemma_distance_symmetric(a, b.drop_last());
        lemma_distance_symmetric(a.drop_last(), b.drop_last());
    }
}

/// A sequence is at distance zero from itself.
pub proof fn lemma_distance_to_self(a: Seq<char>)
    ensures
        edit_distance(a, a) == 0,
    decreases a.len(),
{
    if a.len() > 0 {
        lemma_distance_to_self(a.drop_last());
    }
}

/// From the empty sequence, the distance is the other sequence's length.
pub proof fn lemma_distance_from_empty(s: Seq<char>)
    ensures
        edit_distance(Seq::empty(), s) == s.len(),
        edit_distance(s, Seq::empty()) == s.len(),
{
}

/// The characters of `s`, one per element.
pub fn chars_of(s: &str) -> (r: Vec<char>)
    ensures
        r@ == s@,
{
    let n = s.unicode_len();
    let mut r: Vec<char> = Vec::new();
    let mut i: usize = 0;
    while i < n
        invariant
            n == s@.len(),
            i <= n,
            r@ == s@.take(i as int),
        decreases n - i,
    {
        r.push(s.get_char(i));
        i = i + 1;
        assert(r@ =~= s@.take(i as int));
    }
    assert(r@ =~= s@);
    r
}

/// Prefix facts that relate one table cell to its three neighbours.
proof fn lemma_prefix_step(s: Seq<char>, k: int)
    requires
        0 <= k < s.len(),
    ensures
        s.take(k + 1).drop_last() == s.take(k),
        s.take(k + 1).last() == s[k],
        s.take(k + 1).len() == k + 1,
{
    assert(s.take(k + 1).drop_last() =~= s.take(k));
}

/// Levenshtein distance between `a` and `b`, counted in characters.
pub fn levenshtein(a: &str, b: &str) -> (r: usize)
    ensures
        r == edit_distance(a@, b@),
{
    let ca = chars_of(a);
    let cb = chars_of(b);
    let la = ca.len();
    let lb = cb.len();
    let ghost sa = a@;
    let ghost sb = b@;

    // Row for the empty prefix of `a`.
    let mut prev: Vec<usize> = Vec::new();
    prev.push(0);
    let mut j: usize = 0;
    while j < lb
        invariant
            lb == sb.len(),
            j <= lb,
            prev@.len() == j + 1,
            forall|k: int| 0 <= k <= j ==> #[trigger] prev@[k] == k,
        decreases lb - j,
    {
        prev.push(j + 1);
        j = j + 1;
    }
    let row_len = prev.len();
    proof {
        assert forall|k: int| 0 <= k <= lb implies #[trigger] prev@[k] == edit_distance(
            sa.take(0),
            sb.take(k),
        ) by {
            assert(sa.take(0).len() == 0);
        }
    }

    let mut i: usize = 0;
    while i < la
        invariant
            la == sa.len(),
            lb == sb.len(),
            ca@ == sa,
            cb@ == sb,
            row_len == lb + 1,
            i <= la,
            prev@.len() == lb + 1,
            forall|k: int| 0 <= k <= lb ==> #[trigger] prev@[k] == edit_distance(
                sa.take(i as int),
                sb.take(k),
            ),
        decreases la - i,
    {
        let mut cur: Vec<usize> = Vec::new();
        cur.push(i + 1);
        proof {
            lemma_prefix_step(sa, i as int);
            assert(sb.take(0).len() == 0);
        }
        let ai = ca[i];
        let mut j: usize = 0;
        while j < lb
            invariant
                la == sa.len(),
                lb == sb.len(),
                ca@ == sa,
                cb@ == sb,
                row_len == lb + 1,
                i < la,
                ai == sa[i as int],
                j <= lb,
                prev@.len() == lb + 1,
                cur@.len() == j + 1,
                forall|k: int| 0 <= k <= lb ==> #[trigger] prev@[k] == edit_distance(
                    sa.take(i as int),
                    sb.take(k),
                ),
                forall|k: int| 0 <= k <= j ==> #[trigger] cur@[k] == edit_distance(
                    sa.take(i + 1),
                    sb.take(k),
                ),
            decreases lb - j,
        {
            let bj = cb[j];
            let cost: usize = if ai == bj { 0 } else { 1 };
            let del = prev[j + 1].saturating_add(1);
            let ins = cur[j].saturating_add(1);
            let sub = prev[j].saturating_add(cost);
            let best = if del <= ins && del <= sub {
                del
            } else if ins <= sub {
                ins
            } else {
                sub
            };
            proof {
                lemma_prefix_step(sa, i as int);
                lemma_prefix_step(sb, j as int);
                lemma_distance_bounded(sa.take(i + 1), sb.take(j + 1));
                assert(prev@[j as int] == edit_distance(sa.take(i as int), sb.take(j as int)));
                assert(prev@[j + 1] == edit_distance(sa.take(i as int), sb.take(j + 1)));
                assert(cur@[j as int] == edit_distance(sa.take(i + 1), sb.take(j as int)));
            }
            cur.push(best);
            j = j + 1;
        }
        prev = cur;
        i = i + 1;
    }
    proof {
        assert(sa.take(la as int) =~= sa);
        assert(sb.take(lb as int) =~= sb);
    }
    prev[lb]
}

} // verus!
