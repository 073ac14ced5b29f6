//! The stock controller: sorted quote history for the plot.
//!
//! The quote endpoint is fetched and its JSON parsed outside the library;
//! what comes in is one point per trading day — days relative to today on
//! the x axis, the closing price on the y axis.  The controller sorts the
//! points by day and keeps exactly the window the plot draws, or keeps its
//! previous data when fewer points than the window arrived.

use vstd::prelude::*;

verus! {

/// Points of quote history the plot needs.
pub const NUM_ENTRIES: usize = 48;

/// One point of the stock plot.
#[derive(Debug, Clone, Copy, PartialEq, Eq, Structural)]
pub struct PlotPoint {
    pub x: i32,
    pub y: i32,
}

/// `p` inserted into the x-sorted sequence `s`, before the first element
/// at or past it.
pub open spec fn spec_insert_point(p: PlotPoint, s: Seq<PlotPoint>) -> Seq<PlotPoint>
    decreases s.len(),
{
    if s.len() == 0 {
        seq![p]
    } else if p.x <= s[0].x {
        seq![p] + s
    } else {
        seq![s[0]] + spec_insert_point(p, s.drop_first())
    }
}

/// `s` sorted by x, by insertion.
pub open spec fn spec_sort_points(s: Seq<PlotPoint>) -> Seq<PlotPoint>
    decreases s.len(),
{
    if s.len() == 0 {
        Seq::empty()
    } else {
        spec_insert_point(s[0], spec_sort_points(s.drop_first()))
    }
}

/// Nondecreasing in x.
pub open spec fn spec_sorted_by_x(s: Seq<PlotPoint>) -> bool {
    forall|i: int, j: int| 0 <= i <= j < s.len() ==> s[i].x <= s[j].x
}

/// Law: sorting orders the points by day.
pub proof fn lemma_sort_points_sorted(s: Seq<PlotPoint>)
    ensures
        spec_sort_points(s).len() == s.len(),
        spec_sorted_by_x(spec_sort_points(s)),
    decreases s.len(),
{
    if s.len() > 0 {
        lemma_sort_points_sorted(s.drop_first());
        lemma_insert_point_sorted(s[0], spec_sort_points(s.drop_first()));
    }
}

/// Inserting into a sorted sequence keeps it sorted, adds one element, and
/// every element of the result is the inserted point or one of the old.
proof fn lemma_insert_point_sorted(p: PlotPoint, s: Seq<PlotPoint>)
    requires
        spec_sorted_by_x(s),
    ensures
        spec_insert_point(p, s).len() == s.len() + 1,
        spec_sorted_by_x(spec_insert_point(p, s)),
        forall|i: int|
            0 <= i < spec_insert_point(p, s).len() ==> #[trigger] spec_insert_point(p, s)[i] == p
                || s.contains(spec_insert_point(p, s)[i]),
    decreases s.len(),
{
    let r = spec_insert_point(p, s);
    if s.len() == 0 {
        assert(r =~= seq![p]);
    } else if p.x <= s[0].x {
        assert(r =~= seq![p] + s);
        assert forall|i: int| 0 <= i < r.len() implies #[trigger] r[i] == p || s.contains(
            r[i],
        ) by {
            if i > 0 {
                assert(r[i] == s[i - 1]);
            }
        }
    } else {
        assert(spec_sorted_by_x(s.drop_first()));
        lemma_insert_point_sorted(p, s.drop_first());
        let r1 = spec_insert_point(p, s.drop_first());
        assert(r =~= seq![s[0]] + r1);
        assert forall|i: int, j: int| 0 <= i <= j < r.len() implies r[i].x <= r[j].x by {
            if i == 0 && j > 0 {
                let e = r1[j - 1];
                assert(r[j] == e);
                if e == p {
                } else {
                    assert(s.drop_first().contains(e));
                    let k = choose|k: int|
                        0 <= k < s.drop_first().len() && s.drop_first()[k] == e;
                    assert(s[k + 1] == e);
                }
            } else if i > 0 {
                assert(r[i] == r1[i - 1] && r[j] == r1[j - 1]);
            }
        }
        assert forall|i: int| 0 <= i < r.len() implies #[trigger] r[i] == p || s.contains(
            r[i],
        ) by {
            if i == 0 {
                assert(r[0] == s[0]);
                assert(s.contains(s[0]));
            } else {
                let e = r1[i - 1];
                assert(r[i] == e);
                if e != p {
                    assert(s.drop_first().contains(e));
                    let k = choose|k: int|
                        0 <= k < s.drop_first().len() && s.drop_first()[k] == e;
                    assert(s[k + 1] == e);
                }
            }
        }
    }
}

/// Law: sorting keeps exactly the given points, as a multiset.
pub proof fn lemma_sort_points_permutes(s: Seq<PlotPoint>)
    ensures
        spec_sort_points(s).to_multiset() == s.to_multiset(),
    decreases s.len(),
{
    broadcast use vstd::seq_lib::group_to_multiset_ensures;

    if s.len() > 0 {
        lemma_sort_points_permutes(s.drop_first());
        lemma_insert_point_multiset(s[0], spec_sort_points(s.drop_first()));
        assert(s =~= seq![s[0]] + s.drop_first());
        vstd::seq_lib::lemma_multiset_commutative(seq![s[0]], s.drop_first());
    }
}

/// Inserting adds exactly the inserted point to the multiset.
proof fn lemma_insert_point_multiset(p: PlotPoint, s: Seq<PlotPoint>)
    ensures
        spec_insert_point(p, s).to_multiset() == s.to_multiset().insert(p),
    decreases s.len(),
{
    broadcast use vstd::seq_lib::group_to_multiset_ensures;

    if s.len() == 0 {
        assert(spec_insert_point(p, s) =~= seq![p]);
        assert(seq![p].to_multiset() =~= Seq::<PlotPoint>::empty().to_multiset().insert(p));
    } else if p.x <= s[0].x {
        assert(spec_insert_point(p, s) =~= seq![p] + s);
        vstd::seq_lib::lemma_multiset_commutative(seq![p], s);
        assert((seq![p] + s).to_multiset() =~= s.to_multiset().insert(p));
    } else {
        lemma_insert_point_multiset(p, s.drop_first());
        let r1 = spec_insert_point(p, s.drop_first());
        assert(spec_insert_point(p, s) =~= seq![s[0]] + r1);
        vstd::seq_lib::lemma_multiset_commutative(seq![s[0]], r1);
        assert(s =~= seq![s[0]] + s.drop_first());
        vstd::seq_lib::lemma_multiset_commutative(seq![s[0]], s.drop_first());
        assert((seq![s[0]] + r1).to_multiset() =~= s.to_multiset().insert(p));
    }
}

/// Inserts `p` into the x-sorted vector `v`, exactly as `spec_insert_point`
/// says.
fn insert_point(v: &mut Vec<PlotPoint>, p: PlotPoint)
    ensures
        final(v)@ == spec_insert_point(p, old(v)@),
{
    let ghost orig = v@;
    proof {
        assert(orig.subrange(0, 0) =~= Seq::<PlotPoint>::empty());
        assert(orig.subrange(0, orig.len() as int) =~= orig);
        assert(spec_insert_point(p, orig) =~= orig.subrange(0, 0) + spec_insert_point(
            p,
            orig.subrange(0, orig.len() as int),
        ));
    }
    let mut j: usize = 0;
    while j < v.len() && v[j].x < p.x
        invariant
            j <= orig.len(),
            v@ == orig,
            spec_insert_point(p, orig) == orig.subrange(0, j as int) + spec_insert_point(
                p,
                orig.subrange(j as int, orig.len() as int),
            ),
        decreases orig.len() - j,
    {
        proof {
            let rest = orig.subrange(j as int, orig.len() as int);
            assert(rest[0] == orig[j as int]);
            assert(rest.drop_first() =~= orig.subrange(j + 1, orig.len() as int));
            assert(spec_insert_point(p, rest) == seq![rest[0]] + spec_insert_point(
                p,
                rest.drop_first(),
            ));
            assert(orig.subrange(0, j + 1) =~= orig.subrange(0, j as int) + seq![orig[j as int]]);
            vstd::seq_lib::lemma_concat_associative(
                orig.subrange(0, j as int),
                seq![orig[j as int]],
                spec_insert_point(p, orig.subrange(j + 1, orig.len() as int)),
            );
        }
        j = j + 1;
    }
    proof {
        let rest = orig.subrange(j as int, orig.len() as int);
        if j < orig.len() {
            assert(rest[0] == orig[j as int]);
            assert(p.x <= rest[0].x);
            assert(spec_insert_point(p, rest) == seq![p] + rest);
        } else {
            assert(rest.len() == 0);
            assert(spec_insert_point(p, rest) == seq![p]);
        }
    }
    v.insert(j, p);
    proof {
        assert(v@ =~= orig.subrange(0, j as int) + (seq![p] + orig.subrange(
            j as int,
            orig.len() as int,
        )));
    }
}

/// Sorts the points by day, exactly as `spec_sort_points` says.
pub fn sort_points(points: &Vec<PlotPoint>) -> (r: Vec<PlotPoint>)
    ensures
        r@ == spec_sort_points(points@),
{
    let mut out: Vec<PlotPoint> = Vec::new();
    let mut i: usize = points.len();
    while i > 0
        invariant
            i <= points@.len(),
            out@ == spec_sort_points(points@.subrange(i as int, points@.len() as int)),
        decreases i,
    {
        i = i - 1;
        let ghost rest = points@.subrange(i as int, points@.len() as int);
        proof {
            assert(rest[0] == points@[i as int]);
            assert(rest.drop_first() =~= points@.subrange(i + 1, points@.len() as int));
        }
        insert_point(&mut out, points[i]);
    }
    proof {
        assert(points@.subrange(0, points@.len() as int) =~= points@);
    }
    out
}

/// Keeps the latest stock history, exactly `NUM_ENTRIES` points when any.
#[derive(Debug)]
pub struct StockController {
    data: Option<Vec<PlotPoint>>,
}

impl StockController {
    /// The held history.
    pub closed spec fn spec_data(&self) -> Option<Seq<PlotPoint>> {
        match self.data {
            Some(v) => Some(v@),
            None => None,
        }
    }

    /// Whenever history is held, it is a full window.
    pub closed spec fn wf(&self) -> bool {
        self.spec_data() matches Some(d) ==> d.len() == NUM_ENTRIES
    }

    /// A controller that has not seen any quotes yet.
    pub fn new() -> (r: Self)
        ensures
            r.spec_data() is None,
            r.wf(),
    {
        StockController { data: None }
    }

    /// The held history: a full window of points sorted by day, once a
    /// refresh brought enough.
    pub fn stock_data(&self) -> (r: Option<&Vec<PlotPoint>>)
        ensures
            match r {
                Some(d) => self.spec_data() == Some(d@),
                None => self.spec_data() is None,
            },
    {
        match &self.data {
            Some(d) => Some(d),
            None => None,
        }
    }

    /// Installs freshly fetched quotes: the first full window of points in
    /// the order they arrived — the endpoint lists the newest days first —
    /// sorted by day.  Reports whether enough points arrived; with fewer,
    /// the previous history stays untouched.
    pub fn refresh(&mut self, points: &Vec<PlotPoint>) -> (ok: bool)
        requires
            old(self).wf(),
        ensures
            final(self).wf(),
            ok == (points@.len() >= NUM_ENTRIES),
            ok ==> final(self).spec_data() == Some(
                spec_sort_points(points@.subrange(0, NUM_ENTRIES as int)),
            ),
            !ok ==> final(self).spec_data() == old(self).spec_data(),
    {
        if points.len() < NUM_ENTRIES {
            return false;
        }
        let mut window: Vec<PlotPoint> = Vec::new();
        let mut i: usize = 0;
        while i < NUM_ENTRIES
            invariant
                i <= NUM_ENTRIES,
                NUM_ENTRIES <= points@.len(),
                window@ == points@.subrange(0, i as int),
            decreases NUM_ENTRIES - i,
        {
            window.push(points[i]);
            i = i + 1;
            proof {
                assert(points@.subrange(0, i as int) =~= points@.subrange(0, i - 1).push(
                    points@[i - 1],
                ));
            }
        }
        let sorted = sort_points(&window);
        proof {
            lemma_sort_points_sorted(window@);
        }
        self.data = Some(sorted);
        true
    }
}

} // verus!
