//! "Did you mean" support: rank a fixed vocabulary by edit distance to a
//! mistyped word, keeping only near matches.

use vstd::prelude::*;

verus! {

/// How far a candidate may be from the searched word and still be offered.
pub const SIMILAR_THRESHOLD: usize = 3;

/// How many candidates are offered at most.
pub const SIMILAR_COUNT: usize = 3;

/// The least number of single-character insertions, deletions and
/// substitutions that turns `a` into `b`.
pub open spec fn edit_distance(a: Seq<char>, b: Seq<char>) -> nat
    decreases a.len() + b.len(),
{
    if a.len() == 0 {
        b.len()
    } else if b.len() == 0 {
        a.len()
    } else {
        let del = edit_distance(a.drop_last(), b) + 1;
        let ins = edit_distance(a, b.drop_last()) + 1;
        let sub = edit_distance(a.drop_last(), b.drop_last()) + (
        if a.last() == b.last() {
            0nat
        } else {
            1nat
        });
        min3(del as nat, ins as nat, sub as nat)
    }
}

/// The least of three values.
pub open spec fn min3(x: nat, y: nat, z: nat) -> nat {
    if x <= y && x <= z {
        x
    } else if y <= z {
        y
    } else {
        z
    }
}

/// A distance clamped just above the threshold: all that the ranking needs
/// to know about a far candidate is that it is far.
pub open spec fn capped(d: nat) -> nat {
    if d > SIMILAR_THRESHOLD as nat {
        SIMILAR_THRESHOLD as nat + 1
    } else {
        d
    }
}

/// The characters of `s`, as a vector.
fn chars_of(s: &str) -> (v: Vec<char>)
    ensures
        v@ == s@,
{
    let n = s.unicode_len();
    let mut v: Vec<char> = Vec::new();
    let mut i: usize = 0;
    while i < n
        invariant
            i <= n,
            n == s@.len(),
            v@ == s@.take(i as int),
        decreases n - i,
    {
        let c = s.get_char(i);
        v.push(c);
        proof {
            assert(s@.take(i as int).push(s@[i as int]) =~= s@.take(i as int + 1));
        }
        i = i + 1;
    }
    proof {
        assert(s@.take(n as int) =~= s@);
    }
    v
}

/// The edit distance between `a` and `b`, clamped just above the
/// threshold. Classic two-row dynamic programming over prefixes; clamping
/// keeps every stored value tiny, so no sum can overflow.
fn capped_edit_distance(a: &Vec<char>, b: &Vec<char>) -> (r: usize)
    ensures
        r as nat == capped(edit_distance(a@, b@)),
{
    let mut prev: Vec<usize> = Vec::new();
    prev.push(0);
    let mut j: usize = 0;
    while j < b.len()
        invariant
            j <= b.len(),
            prev@.len() == j + 1,
            forall|k: int|
                0 <= k <= j ==> prev@[k] as nat == capped(edit_distance(Seq::empty(), b@.take(k))),
        decreases b.len() - j,
    {
        let col = j + 1;
        let d = if col > SIMILAR_THRESHOLD {
            SIMILAR_THRESHOLD + 1
        } else {
            col
        };
        prev.push(d);
        j = col;
    }
    let mut i: usize = 0;
    while i < a.len()
        invariant
            i <= a.len(),
            prev@.len() == b.len() + 1,
            forall|k: int|
                0 <= k <= b.len() ==> prev@[k] as nat == capped(
                    edit_distance(a@.take(i as int), b@.take(k)),
                ),
        decreases a.len() - i,
    {
        let row = i + 1;
        let mut cur: Vec<usize> = Vec::new();
        let first = if row > SIMILAR_THRESHOLD {
            SIMILAR_THRESHOLD + 1
        } else {
            row
        };
        cur.push(first);
        proof {
            assert(edit_distance(a@.take(row as int), b@.take(0)) == a@.take(row as int).len())
                by {
                assert(b@.take(0) =~= Seq::<char>::empty());
            }
        }
        let mut j: usize = 0;
        while j < b.len()
            invariant
                j <= b.len(),
                i < a.len(),
                row == i + 1,
                prev@.len() == b.len() + 1,
                cur@.len() == j + 1,
                forall|k: int|
                    0 <= k <= b.len() ==> prev@[k] as nat == capped(
                        edit_distance(a@.take(i as int), b@.take(k)),
                    ),
                forall|k: int|
                    0 <= k <= j ==> cur@[k] as nat == capped(
                        edit_distance(a@.take(row as int), b@.take(k)),
                    ),
            decreases b.len() - j,
        {
            let col = j + 1;
            let cost: usize = if a[i] == b[j] {
                0
            } else {
                1
            };
            let del = prev[col] + 1;
            let ins = cur[j] + 1;
            let sub = prev[j] + cost;
            let mut d = del;
            if ins < d {
                d = ins;
            }
            if sub < d {
                d = sub;
            }
            if d > SIMILAR_THRESHOLD {
                d = SIMILAR_THRESHOLD + 1;
            }
            proof {
                let pa = a@.take(row as int);
                let pb = b@.take(col as int);
                assert(pa.drop_last() =~= a@.take(i as int));
                assert(pb.drop_last() =~= b@.take(j as int));
                assert(pa.last() == a@[i as int]);
                assert(pb.last() == b@[j as int]);
            }
            cur.push(d);
            j = col;
        }
        prev = cur;
        i = row;
    }
    proof {
        assert(a@.take(a@.len() as int) =~= a@);
        assert(b@.take(b@.len() as int) =~= b@);
    }
    prev[b.len()]
}

/// The candidates of `values` at the given distance from `search`, in
/// their original order.
pub open spec fn at_distance<'a>(search: Seq<char>, values: Seq<&'a str>, d: int) -> Seq<&'a str> {
    values.filter(|v: &str| edit_distance(search, v@) == d)
}

/// The candidates of `values` at distances below `d` from `search`,
/// nearest first; candidates at one distance keep their original order.
pub open spec fn ranked_below<'a>(search: Seq<char>, values: Seq<&'a str>, d: int) -> Seq<&'a str>
    decreases d,
{
    if d <= 0 {
        Seq::empty()
    } else {
        ranked_below(search, values, d - 1) + at_distance(search, values, d - 1)
    }
}

/// What `similar_values` returns: the candidates within the threshold,
/// nearest first, capped at `SIMILAR_COUNT`.
pub open spec fn spec_similar_values<'a>(search: Seq<char>, values: Seq<&'a str>) -> Seq<&'a str> {
    let q = ranked_below(search, values, SIMILAR_THRESHOLD as int + 1);
    if q.len() <= SIMILAR_COUNT as int {
        q
    } else {
        q.take(SIMILAR_COUNT as int)
    }
}

/// The values similar to the searched word: every candidate within the
/// threshold edit distance, nearest first (candidates at equal distance in
/// their given order), at most `SIMILAR_COUNT` of them.
pub fn similar_values<'a>(search: &str, values: &Vec<&'a str>) -> (res: Vec<&'a str>)
    ensures
        res@ == spec_similar_values(search@, values@),
{
    let search_chars = chars_of(search);
    let mut res: Vec<&'a str> = Vec::new();
    let mut d: usize = 0;
    while d <= SIMILAR_THRESHOLD
        invariant
            d <= SIMILAR_THRESHOLD + 1,
            search_chars@ == search@,
            res@ == ranked_below(search@, values@, d as int),
        decreases SIMILAR_THRESHOLD + 1 - d,
    {
        let mut ix: usize = 0;
        while ix < values.len()
            invariant
                ix <= values.len(),
                d <= SIMILAR_THRESHOLD,
                search_chars@ == search@,
                res@ == ranked_below(search@, values@, d as int) + at_distance(
                    search@,
                    values@.take(ix as int),
                    d as int,
                ),
            decreases values.len() - ix,
        {
            let value_chars = chars_of(values[ix]);
            let dist = capped_edit_distance(&search_chars, &value_chars);
            proof {
                reveal(Seq::filter);
                assert(values@.take(ix as int + 1).drop_last() =~= values@.take(ix as int));
                assert(values@.take(ix as int + 1).last() == values@[ix as int]);
            }
            if dist == d {
                res.push(values[ix]);
            }
            ix = ix + 1;
        }
        proof {
            assert(values@.take(values@.len() as int) =~= values@);
        }
        d = d + 1;
    }
    if res.len() > SIMILAR_COUNT {
        res.truncate(SIMILAR_COUNT);
        proof {
            assert(res@ == ranked_below(search@, values@, SIMILAR_THRESHOLD as int + 1).take(
                SIMILAR_COUNT as int,
            ));
        }
    }
    res
}

} // verus!
