//! Spatial range queries over a candidate star field.
//!
//! A nearby query filters the candidates to those within the effective
//! radius, orders them by increasing distance from the query center with a
//! stable tie-break on the star identifier, and truncates to the caller's
//! cap.  Distances are compared by their exact integer squares, so the order
//! is deterministic and reproducible across calls.

use vstd::prelude::*;
use crate::model::{Star, Vec3};

verus! {

/// Squared Euclidean distance between two positions, over the integers.
pub open spec fn dist2(a: Vec3, b: Vec3) -> int {
    (a.x - b.x) * (a.x - b.x) + (a.y - b.y) * (a.y - b.y) + (a.z - b.z) * (a.z - b.z)
}

/// Query order: `a` comes no later than `b` when it is strictly closer to
/// `c`, or at the same distance with an identifier no larger than `b`'s.
pub open spec fn closer_eq(c: Vec3, a: Star, b: Star) -> bool {
    ||| dist2(c, a.position) < dist2(c, b.position)
    ||| (dist2(c, a.position) == dist2(c, b.position) && a.id <= b.id)
}

/// The star lies within distance `r` of `c` (compared by squares).
pub open spec fn within_radius(c: Vec3, r: int, s: Star) -> bool {
    dist2(c, s.position) <= r * r
}

/// The predicate of `within_radius`, as a value for `Seq::filter`.
pub open spec fn star_within(c: Vec3, r: int) -> spec_fn(Star) -> bool {
    |s: Star| within_radius(c, r, s)
}

/// The sequence is in query order around `c`.
pub open spec fn sorted_from(c: Vec3, s: Seq<Star>) -> bool {
    forall|i: int, j: int| 0 <= i < j < s.len() ==> closer_eq(c, s[i], s[j])
}

/// Index at which `x` is placed into `s`: after every leading element that
/// comes no later than `x` in query order.
pub open spec fn insert_pos(c: Vec3, x: Star, s: Seq<Star>) -> int
    decreases s.len(),
{
    if s.len() == 0 {
        0
    } else if closer_eq(c, s.first(), x) {
        1 + insert_pos(c, x, s.drop_first())
    } else {
        0
    }
}

/// `s` with `x` placed at its insertion position.
pub open spec fn insert_from(c: Vec3, x: Star, s: Seq<Star>) -> Seq<Star> {
    s.insert(insert_pos(c, x, s), x)
}

/// Insertion sort of `s` in query order around `c`.
pub open spec fn sort_from(c: Vec3, s: Seq<Star>) -> Seq<Star>
    decreases s.len(),
{
    if s.len() == 0 {
        s
    } else {
        insert_from(c, s.last(), sort_from(c, s.drop_last()))
    }
}

/// The answer to a nearby query over candidate stars: keep those within the
/// effective radius, sort them in query order, and cap the count.
pub open spec fn nearby_selection(c: Vec3, eff: int, cap: int, cands: Seq<Star>) -> Seq<Star> {
    let sorted = sort_from(c, cands.filter(star_within(c, eff)));
    if cap < sorted.len() {
        sorted.take(cap)
    } else {
        sorted
    }
}

pub proof fn lemma_insert_pos_bounds(c: Vec3, x: Star, s: Seq<Star>)
    ensures
        0 <= insert_pos(c, x, s) <= s.len(),
    decreases s.len(),
{
    if s.len() != 0 && closer_eq(c, s.first(), x) {
        lemma_insert_pos_bounds(c, x, s.drop_first());
    }
}

pub proof fn lemma_insert_pos_props(c: Vec3, x: Star, s: Seq<Star>)
    requires
        sorted_from(c, s),
    ensures
        forall|k: int| 0 <= k < insert_pos(c, x, s) ==> closer_eq(c, s[k], x),
        forall|k: int| insert_pos(c, x, s) <= k < s.len() ==> closer_eq(c, x, s[k]),
    decreases s.len(),
{
    lemma_insert_pos_bounds(c, x, s);
    if s.len() != 0 {
        let rest = s.drop_first();
        assert(forall|i: int| 0 <= i < rest.len() ==> rest[i] == s[i + 1]);
        assert(sorted_from(c, rest));
        lemma_insert_pos_props(c, x, rest);
        lemma_insert_pos_bounds(c, x, rest);
        if closer_eq(c, s.first(), x) {
            let ip = insert_pos(c, x, s);
            assert forall|k: int| 0 <= k < ip implies closer_eq(c, s[k], x) by {
                if k > 0 {
                    assert(closer_eq(c, rest[k - 1], x));
                }
            }
            assert forall|k: int| ip <= k < s.len() implies closer_eq(c, x, s[k]) by {
                assert(closer_eq(c, x, rest[k - 1]));
            }
        } else {
            assert forall|k: int| 0 <= k < s.len() implies closer_eq(c, x, s[k]) by {
                assert(closer_eq(c, x, s[0]));
                if k > 0 {
                    assert(closer_eq(c, s[0], s[k]));
                }
            }
        }
    }
}

pub proof fn lemma_insert_pos_unique(c: Vec3, x: Star, s: Seq<Star>, j: int)
    requires
        0 <= j <= s.len(),
        forall|k: int| 0 <= k < j ==> closer_eq(c, s[k], x),
        j < s.len() ==> !closer_eq(c, s[j], x),
    ensures
        insert_pos(c, x, s) == j,
    decreases s.len(),
{
    if s.len() != 0 {
        if closer_eq(c, s.first(), x) {
            let rest = s.drop_first();
            assert(forall|i: int| 0 <= i < rest.len() ==> rest[i] == s[i + 1]);
            assert(j >= 1) by {
                if j == 0 {
                    assert(!closer_eq(c, s[0], x));
                }
            }
            lemma_insert_pos_unique(c, x, rest, j - 1);
        } else {
            assert(j == 0) by {
                if j > 0 {
                    assert(closer_eq(c, s[0], x));
                }
            }
        }
    }
}

pub proof fn lemma_insert_from_sorted(c: Vec3, x: Star, s: Seq<Star>)
    requires
        sorted_from(c, s),
    ensures
        sorted_from(c, insert_from(c, x, s)),
        insert_from(c, x, s).len() == s.len() + 1,
    decreases s.len(),
{
    lemma_insert_pos_bounds(c, x, s);
    lemma_insert_pos_props(c, x, s);
    let ip = insert_pos(c, x, s);
    let t = insert_from(c, x, s);
    s.insert_ensures(ip, x);
    assert forall|i: int, j: int| 0 <= i < j < t.len() implies closer_eq(c, t[i], t[j]) by {
        if i < ip && j < ip {
            assert(t[i] == s[i] && t[j] == s[j]);
        } else if i < ip && j == ip {
            assert(t[i] == s[i] && t[j] == x);
        } else if i < ip && j > ip {
            assert(t[i] == s[i] && t[j] == s[j - 1]);
        } else if i == ip && j > ip {
            assert(t[i] == x && t[j] == s[j - 1]);
        } else {
            assert(t[i] == s[i - 1] && t[j] == s[j - 1]);
        }
    }
}

pub proof fn lemma_insert_from_multiset(c: Vec3, x: Star, s: Seq<Star>)
    ensures
        insert_from(c, x, s).to_multiset() == s.to_multiset().insert(x),
{
    lemma_insert_pos_bounds(c, x, s);
    broadcast use vstd::seq_lib::to_multiset_insert;

}

pub proof fn lemma_sort_from_ensures(c: Vec3, s: Seq<Star>)
    ensures
        sort_from(c, s).len() == s.len(),
        sorted_from(c, sort_from(c, s)),
        sort_from(c, s).to_multiset() == s.to_multiset(),
    decreases s.len(),
{
    if s.len() != 0 {
        let rest = s.drop_last();
        lemma_sort_from_ensures(c, rest);
        lemma_insert_from_sorted(c, s.last(), sort_from(c, rest));
        lemma_insert_from_multiset(c, s.last(), sort_from(c, rest));
        assert(rest.push(s.last()) =~= s);
        broadcast use vstd::seq_lib::to_multiset_build;

        assert(s.to_multiset() == rest.to_multiset().insert(s.last()));
    }
}

/// Every element of the sorted sequence is one of the originals.
pub proof fn lemma_sort_from_membership(c: Vec3, s: Seq<Star>, i: int)
    requires
        0 <= i < sort_from(c, s).len(),
    ensures
        s.contains(sort_from(c, s)[i]),
{
    lemma_sort_from_ensures(c, s);
    let sorted = sort_from(c, s);
    assert(sorted.contains(sorted[i]));
    broadcast use vstd::seq_lib::to_multiset_contains;

    assert(s.to_multiset().count(sorted[i]) > 0);
    assert(s.contains(sorted[i]));
}

/// What a nearby query promises of its selection: no more stars than the
/// cap or the candidate list, only stars within the effective radius, in
/// query order, and every star one of the candidates.
pub proof fn lemma_nearby_selection_props(c: Vec3, eff: int, cap: int, cands: Seq<Star>)
    requires
        cap >= 0,
    ensures
        nearby_selection(c, eff, cap, cands).len() <= cap,
        nearby_selection(c, eff, cap, cands).len() <= cands.len(),
        sorted_from(c, nearby_selection(c, eff, cap, cands)),
        forall|i: int| 0 <= i < nearby_selection(c, eff, cap, cands).len()
            ==> within_radius(c, eff, #[trigger] nearby_selection(c, eff, cap, cands)[i]),
        forall|i: int| 0 <= i < nearby_selection(c, eff, cap, cands).len()
            ==> cands.contains(#[trigger] nearby_selection(c, eff, cap, cands)[i]),
{
    let filtered = cands.filter(star_within(c, eff));
    let sorted = sort_from(c, filtered);
    let sel = nearby_selection(c, eff, cap, cands);
    cands.lemma_filter_len(star_within(c, eff));
    lemma_sort_from_ensures(c, filtered);
    assert(forall|i: int| 0 <= i < sel.len() ==> sel[i] == sorted[i]);
    assert forall|i: int| 0 <= i < sel.len() implies within_radius(c, eff, sel[i]) by {
        lemma_sort_from_membership(c, filtered, i);
        let j = choose|j: int| 0 <= j < filtered.len() && filtered[j] == sorted[i];
        cands.lemma_filter_pred(star_within(c, eff), j);
    }
    assert forall|i: int| 0 <= i < sel.len() implies cands.contains(#[trigger] sel[i]) by {
        lemma_sort_from_membership(c, filtered, i);
        let j = choose|j: int| 0 <= j < filtered.len() && filtered[j] == sorted[i];
        lemma_filter_membership(cands, star_within(c, eff), j);
    }
}

/// Every element kept by a filter occurs in the original sequence.
pub proof fn lemma_filter_membership<A>(s: Seq<A>, pred: spec_fn(A) -> bool, i: int)
    requires
        0 <= i < s.filter(pred).len(),
    ensures
        s.contains(s.filter(pred)[i]),
    decreases s.len(),
{
    reveal(Seq::filter);
    if s.len() != 0 {
        let sub = s.drop_last().filter(pred);
        if i < sub.len() {
            lemma_filter_membership(s.drop_last(), pred, i);
            let j = choose|j: int| 0 <= j < s.drop_last().len() && s.drop_last()[j]
                == s.filter(pred)[i];
            assert(s[j] == s.filter(pred)[i]);
        } else {
            assert(s[s.len() - 1] == s.filter(pred)[i]);
        }
    }
}

/// Exact squared distance between two in-bounds positions.
pub fn squared_distance(a: &Vec3, b: &Vec3) -> (r: i128)
    requires
        a.wf(),
        b.wf(),
    ensures
        r == dist2(*a, *b),
{
    let dx: i128 = a.x as i128 - b.x as i128;
    let dy: i128 = a.y as i128 - b.y as i128;
    let dz: i128 = a.z as i128 - b.z as i128;
    proof {
        assert(dx * dx <= 16_000_000_000_000_000_000) by (nonlinear_arith)
            requires -4_000_000_000 <= dx <= 4_000_000_000,
        {}
        assert(dy * dy <= 16_000_000_000_000_000_000) by (nonlinear_arith)
            requires -4_000_000_000 <= dy <= 4_000_000_000,
        {}
        assert(dz * dz <= 16_000_000_000_000_000_000) by (nonlinear_arith)
            requires -4_000_000_000 <= dz <= 4_000_000_000,
        {}
        assert(dx * dx >= 0) by (nonlinear_arith) {}
        assert(dy * dy >= 0) by (nonlinear_arith) {}
        assert(dz * dz >= 0) by (nonlinear_arith) {}
    }
    dx * dx + dy * dy + dz * dz
}

/// Exact square of a non-negative radius.
pub fn radius_squared(r: i64) -> (sq: i128)
    requires
        r >= 0,
    ensures
        sq == r * r,
{
    let rr: i128 = r as i128;
    proof {
        assert(rr * rr < 0x4000_0000_0000_0000_0000_0000_0000_0000) by (nonlinear_arith)
            requires 0 <= rr < 0x8000_0000_0000_0000,
        {}
        assert(rr * rr >= 0) by (nonlinear_arith) {}
    }
    rr * rr
}

/// Places a star into an already ordered vector, keeping the order.
fn insert_star(c: &Vec3, x: Star, v: &mut Vec<Star>)
    requires
        c.wf(),
        x.wf(),
        forall|k: int| 0 <= k < old(v)@.len() ==> (#[trigger] old(v)@[k]).wf(),
        sorted_from(*c, old(v)@),
    ensures
        final(v)@ == insert_from(*c, x, old(v)@),
        forall|k: int| 0 <= k < final(v)@.len() ==> (#[trigger] final(v)@[k]).wf(),
        sorted_from(*c, final(v)@),
{
    let dx = squared_distance(c, &x.position);
    let mut j: usize = 0;
    while j < v.len()
        invariant
            0 <= j <= v@.len(),
            c.wf(),
            x.wf(),
            dx == dist2(*c, x.position),
            forall|k: int| 0 <= k < v@.len() ==> (#[trigger] v@[k]).wf(),
            v@ == old(v)@,
            forall|k: int| 0 <= k < j ==> closer_eq(*c, v@[k], x),
        ensures
            0 <= j <= v@.len(),
            v@ == old(v)@,
            forall|k: int| 0 <= k < j ==> closer_eq(*c, v@[k], x),
            j < v@.len() ==> !closer_eq(*c, v@[j as int], x),
        decreases v@.len() - j,
    {
        let dj = squared_distance(c, &v[j].position);
        if !(dj < dx || (dj == dx && v[j].id <= x.id)) {
            break;
        }
        j = j + 1;
    }
    proof {
        lemma_insert_pos_unique(*c, x, v@, j as int);
        lemma_insert_from_sorted(*c, x, v@);
        v@.insert_ensures(j as int, x);
    }
    v.insert(j, x);
    proof {
        assert forall|k: int| 0 <= k < v@.len() implies (#[trigger] v@[k]).wf() by {
            if k < j {
                assert(v@[k] == old(v)@[k]);
            } else if k == j {
                assert(v@[k] == x);
            } else {
                assert(v@[k] == old(v)@[k - 1]);
            }
        }
    }
}

/// Filters the candidates to the effective radius around `c`, sorts them by
/// increasing distance with a stable tie-break on identifier, and truncates
/// to at most `cap` stars.
pub fn select_nearby(c: &Vec3, eff: i64, cap: usize, cands: &Vec<Star>) -> (r: Vec<Star>)
    requires
        c.wf(),
        eff >= 0,
        forall|k: int| 0 <= k < cands@.len() ==> (#[trigger] cands@[k]).wf(),
    ensures
        r@ == nearby_selection(*c, eff as int, cap as int, cands@),
        r@.len() <= cap,
        sorted_from(*c, r@),
        forall|i: int| 0 <= i < r@.len() ==> within_radius(*c, eff as int, #[trigger] r@[i]),
{
    let rsq = radius_squared(eff);
    let ghost pred = star_within(*c, eff as int);
    let mut acc: Vec<Star> = Vec::new();
    let mut i: usize = 0;
    proof {
        assert(cands@.subrange(0, 0).filter(pred) =~= Seq::<Star>::empty()) by {
            reveal(Seq::filter);
        }
    }
    while i < cands.len()
        invariant
            0 <= i <= cands@.len(),
            c.wf(),
            eff >= 0,
            rsq == (eff as int) * (eff as int),
            pred == star_within(*c, eff as int),
            forall|k: int| 0 <= k < cands@.len() ==> (#[trigger] cands@[k]).wf(),
            acc@ == sort_from(*c, cands@.subrange(0, i as int).filter(pred)),
            sorted_from(*c, acc@),
            forall|k: int| 0 <= k < acc@.len() ==> (#[trigger] acc@[k]).wf(),
        decreases cands@.len() - i,
    {
        let s = cands[i];
        let d = squared_distance(c, &s.position);
        proof {
            let pre = cands@.subrange(0, i as int);
            let pre1 = cands@.subrange(0, i + 1 as int);
            assert(pre1.drop_last() =~= pre);
            assert(pre1.last() == s);
            reveal(Seq::filter);
            if within_radius(*c, eff as int, s) {
                assert(pre1.filter(pred) == pre.filter(pred).push(s));
                assert(pre1.filter(pred).drop_last() =~= pre.filter(pred));
                assert(sort_from(*c, pre1.filter(pred))
                    == insert_from(*c, s, sort_from(*c, pre.filter(pred))));
            } else {
                assert(pre1.filter(pred) == pre.filter(pred));
            }
        }
        if d <= rsq {
            insert_star(c, s, &mut acc);
        }
        i = i + 1;
    }
    proof {
        assert(cands@.subrange(0, cands@.len() as int) =~= cands@);
        lemma_nearby_selection_props(*c, eff as int, cap as int, cands@);
    }
    if cap < acc.len() {
        acc.truncate(cap);
        proof {
            assert(acc@ =~= nearby_selection(*c, eff as int, cap as int, cands@));
        }
    }
    acc
}

} // verus!
