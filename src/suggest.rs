//! Edit distance and "did you mean" suggestions for mistyped field names.
use vstd::prelude::*;
use vstd::string::*;

verus! {

/// The largest distance at which a candidate is still offered as a suggestion.
pub const MAX_SUGGESTION_DISTANCE: usize = 2;

pub open spec fn min_nat(x: nat, y: nat) -> nat {
    if x <= y {
        x
    } else {
        y
    }
}

/// Edit distance between the first `i` characters of `a` and the first `j` characters of `b`,
/// where insertions, deletions and substitutions each cost one.
pub open spec fn prefix_distance(a: Seq<char>, b: Seq<char>, i: nat, j: nat) -> nat
    decreases i + j,
{
    if i == 0 {
        j
    } else if j == 0 {
        i
    } else {
        let step: nat = if a[i - 1] == b[j - 1] {
            0
        } else {
            1
        };
        min_nat(
            min_nat(prefix_distance(a, b, (i - 1) as nat, j) + 1, prefix_distance(a, b, i, (j - 1) as nat) + 1),
            prefix_distance(a, b, (i - 1) as nat, (j - 1) as nat) + step,
        )
    }
}

/// Classic edit distance between two character sequences.
pub open spec fn edit_distance(a: Seq<char>, b: Seq<char>) -> nat {
    prefix_distance(a, b, a.len(), b.len())
}

proof fn lemma_prefix_distance_bound(a: Seq<char>, b: Seq<char>, i: nat, j: nat)
    ensures
        prefix_distance(a, b, i, j) <= if i <= j { j } else { i },
    decreases i + j,
{
    if i > 0 && j > 0 {
        lemma_prefix_distance_bound(a, b, (i - 1) as nat, (j - 1) as nat);
    }
}

proof fn lemma_prefix_distance_symmetric(a: Seq<char>, b: Seq<char>, i: nat, j: nat)
    ensures
        prefix_distance(a, b, i, j) == prefix_distance(b, a, j, i),
    decreases i + j,
{
    if i > 0 && j > 0 {
        lemma_prefix_distance_symmetric(a, b, (i - 1) as nat, j);
        lemma_prefix_distance_symmetric(a, b, i, (j - 1) as nat);
        lemma_prefix_distance_symmetric(a, b, (i - 1) as nat, (j - 1) as nat);
    }
}

proof fn lemma_prefix_distance_zero(a: Seq<char>, b: Seq<char>, i: nat, j: nat)
    requires
        i <= a.len(),
        j <= b.len(),
    ensures
        prefix_distance(a, b, i, j) == 0 <==> (i == j && a.subrange(0, i as int) == b.subrange(0, j as int)),
    decreases i + j,
{
    if i == 0 || j == 0 {
        if i == j {
            assert(a.subrange(0, i as int) =~= b.subrange(0, j as int));
        } else if i == 0 {
            assert(b.subrange(0, j as int).len() > 0);
        } else {
            assert(a.subrange(0, i as int).len() > 0);
        }
    } else {
        lemma_prefix_distance_zero(a, b, (i - 1) as nat, (j - 1) as nat);
        let pa = a.subrange(0, i as int);
        let pb = b.subrange(0, j as int);
        if i == j && pa == pb {
            assert(a.subrange(0, i - 1) =~= pa.subrange(0, i - 1));
            assert(b.subrange(0, j - 1) =~= pb.subrange(0, j - 1));
            assert(pa[i - 1] == a[i - 1]);
            assert(pb[j - 1] == b[j - 1]);
        }
        if prefix_distance(a, b, i, j) == 0 {
            assert(a.subrange(0, i - 1) == b.subrange(0, j - 1));
            assert(a[i - 1] == b[j - 1]);
            assert(pa =~= a.subrange(0, i - 1).push(a[i - 1]));
            assert(pb =~= b.subrange(0, j - 1).push(b[j - 1]));
        }
    }
}

/// Edit distance does not depend on the order of its two arguments.
pub proof fn lemma_edit_distance_symmetric(a: Seq<char>, b: Seq<char>)
    ensures
        edit_distance(a, b) == edit_distance(b, a),
{
    lemma_prefix_distance_symmetric(a, b, a.len(), b.len());
}

/// Edit distance is zero exactly for identical strings.
pub proof fn lemma_edit_distance_zero_iff_equal(a: Seq<char>, b: Seq<char>)
    ensures
        edit_distance(a, b) == 0 <==> a == b,
{
    lemma_prefix_distance_zero(a, b, a.len(), b.len());
    assert(a.subrange(0, a.len() as int) =~= a);
    assert(b.subrange(0, b.len() as int) =~= b);
}

/// The characters of `s`, one per element.
pub fn chars_of(s: &str) -> (r: Vec<char>)
    ensures
        r@ == s@,
{
    let n = s.unicode_len();
    let mut r: Vec<char> = Vec::new();
    let mut i: usize = 0;
    while i < n
        invariant
            n == s@.len(),
            i <= n,
            r@ == s@.subrange(0, i as int),
        decreases n - i,
    {
        r.push(s.get_char(i));
        i = i + 1;
    }
    assert(r@ =~= s@);
    r
}

/// Edit distance between `a` and `b`, computed over characters with a single rolling row.
pub fn levenshtein(a: &str, b: &str) -> (r: usize)
    ensures
        r == edit_distance(a@, b@),
{
    let av = chars_of(a);
    let bv = chars_of(b);
    let n = bv.len();
    let ghost sa = a@;
    let ghost sb = b@;
    let mut costs: Vec<usize> = Vec::new();
    let mut j: usize = 0;
    while j < n
        invariant
            n == bv.len(),
            j <= n,
            costs@.len() == j,
            forall|k: int| 0 <= k < j ==> costs@[k] == k,
        decreases n - j,
    {
        costs.push(j);
        j = j + 1;
    }
    costs.push(n);
    let width = costs.len();
    let mut i: usize = 0;
    while i < av.len()
        invariant
            av@ == sa,
            bv@ == sb,
            n == bv.len(),
            i <= av.len(),
            costs@.len() == n + 1,
            width == n + 1,
            forall|k: int| 0 <= k <= n ==> costs@[k] == prefix_distance(sa, sb, i as nat, k as nat),
        decreases av.len() - i,
    {
        let ca = av[i];
        let mut last: usize = costs[0];
        costs.set(0, i + 1);
        let mut j: usize = 0;
        while j < n
            invariant
                av@ == sa,
                bv@ == sb,
                n == bv.len(),
                i < av.len(),
                ca == sa[i as int],
                j <= n,
                costs@.len() == n + 1,
                width == n + 1,
                last == prefix_distance(sa, sb, i as nat, j as nat),
                forall|k: int| 0 <= k <= j ==> costs@[k] == prefix_distance(sa, sb, (i + 1) as nat, k as nat),
                forall|k: int| j < k <= n ==> costs@[k] == prefix_distance(sa, sb, i as nat, k as nat),
            decreases n - j,
        {
            proof {
                lemma_prefix_distance_bound(sa, sb, i as nat, j as nat);
                lemma_prefix_distance_bound(sa, sb, i as nat, (j + 1) as nat);
            }
            let above = costs[j + 1];
            let left = costs[j];
            let diag = if ca == bv[j] {
                last
            } else {
                last + 1
            };
            let side = if above <= left {
                above
            } else {
                left
            };
            let side = side + 1;
            let best = if side <= diag {
                side
            } else {
                diag
            };
            last = above;
            costs.set(j + 1, best);
            j = j + 1;
        }
        i = i + 1;
    }
    costs[n]
}

/// Index of the first candidate at minimum distance from `token` among the first `n` candidates.
pub open spec fn first_min_index(token: Seq<char>, cands: Seq<Seq<char>>, n: nat) -> int
    decreases n,
{
    if n <= 1 {
        0
    } else {
        let k = first_min_index(token, cands, (n - 1) as nat);
        if edit_distance(token, cands[n - 1]) < edit_distance(token, cands[k]) {
            n - 1
        } else {
            k
        }
    }
}

/// The suggestion offered for `token`: the first closest candidate, if it lies within the
/// suggestion distance.
pub open spec fn suggestion(token: Seq<char>, cands: Seq<Seq<char>>) -> Option<Seq<char>> {
    if cands.len() == 0 {
        None
    } else {
        let best = cands[first_min_index(token, cands, cands.len())];
        if edit_distance(token, best) <= MAX_SUGGESTION_DISTANCE {
            Some(best)
        } else {
            None
        }
    }
}

proof fn lemma_first_min_index(token: Seq<char>, cands: Seq<Seq<char>>, n: nat)
    requires
        1 <= n <= cands.len(),
    ensures
        0 <= first_min_index(token, cands, n) < n,
        forall|j: int|
            0 <= j < n ==> edit_distance(token, cands[first_min_index(token, cands, n)])
                <= edit_distance(token, #[trigger] cands[j]),
    decreases n,
{
    if n > 1 {
        lemma_first_min_index(token, cands, (n - 1) as nat);
    }
}

/// A suggestion is offered exactly when some candidate lies within the suggestion distance;
/// what is offered is then a candidate within that distance, and none is closer.
pub proof fn lemma_suggestion_exists_iff_close(token: Seq<char>, cands: Seq<Seq<char>>)
    ensures
        suggestion(token, cands) is Some <==> exists|i: int|
            0 <= i < cands.len() && edit_distance(token, #[trigger] cands[i]) <= MAX_SUGGESTION_DISTANCE,
        suggestion(token, cands) matches Some(c) ==> {
            &&& cands.contains(c)
            &&& edit_distance(token, c) <= MAX_SUGGESTION_DISTANCE
            &&& forall|i: int| 0 <= i < cands.len() ==> edit_distance(token, c) <= edit_distance(token, #[trigger] cands[i])
        },
{
    if cands.len() > 0 {
        lemma_first_min_index(token, cands, cands.len());
        let k = first_min_index(token, cands, cands.len());
        assert(cands[k] == cands[k]);
        if suggestion(token, cands) is None {
            assert forall|i: int| 0 <= i < cands.len() implies edit_distance(token, #[trigger] cands[i])
                > MAX_SUGGESTION_DISTANCE by {}
        }
    }
}

pub open spec fn views_of(v: Seq<String>) -> Seq<Seq<char>> {
    v.map_values(|s: String| s@)
}

/// The candidate closest to `input`, if its edit distance is at most two; among equally
/// close candidates the first one wins.
pub fn best_suggestion(input: &str, candidates: &[String]) -> (r: Option<String>)
    ensures
        r matches Some(s) ==> suggestion(input@, views_of(candidates@)) == Some(s@),
        r is None ==> suggestion(input@, views_of(candidates@)) is None,
{
    let ghost cands = views_of(candidates@);
    if candidates.len() == 0 {
        return None;
    }
    let mut best_i: usize = 0;
    let mut best_d: usize = levenshtein(input, candidates[0].as_str());
    let mut i: usize = 1;
    while i < candidates.len()
        invariant
            cands == views_of(candidates@),
            1 <= i <= candidates.len(),
            best_i == first_min_index(input@, cands, i as nat),
            best_i < i,
            best_d == edit_distance(input@, cands[best_i as int]),
        decreases candidates.len() - i,
    {
        let d = levenshtein(input, candidates[i].as_str());
        if d < best_d {
            best_i = i;
            best_d = d;
        }
        i = i + 1;
    }
    if best_d <= MAX_SUGGESTION_DISTANCE {
        Some(candidates[best_i].clone())
    } else {
        None
    }
}

} // verus!
