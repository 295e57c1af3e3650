//! Ray-object intersections, kept sorted by distance, and the hit rule.

use vstd::prelude::*;
use crate::scalar::{Scalar, EPSILON_RAW};
use crate::tuple::{Point, Vector, TupleV, t_add, t_scale, t_neg, t_dot};
use crate::ray::Ray;
use crate::sphere::{Sphere, normal_at_spec};

verus! {

/// Model of one intersection: the raw distance and the object hit.
pub ghost struct HitV {
    pub t: int,
    pub object: Sphere,
}

/// One intersection: the distance `t` along the ray, and a borrow of the
/// object that was hit. It must not outlive the object collection.
#[derive(Clone, Copy, Debug)]
pub struct Intersection<'a> {
    pub t: Scalar,
    pub object: &'a Sphere,
}

impl<'a> View for Intersection<'a> {
    type V = HitV;

    open spec fn view(&self) -> HitV {
        HitV { t: self.t@, object: *self.object }
    }
}

impl<'a> Intersection<'a> {
    pub fn new(t: Scalar, object: &'a Sphere) -> (r: Intersection<'a>)
        ensures
            r.t == t,
            r.object == object,
    {
        Intersection { t, object }
    }

    /// The shading inputs at this hit: the point, the eye and normal
    /// vectors (the normal flipped when the hit is on the inside), and
    /// the point nudged off the surface for shadow rays.
    pub fn prepare_computations(&self, ray: Ray) -> (c: Computations<'a>)
        ensures
            *c.object == self@.object,
            c.t == self.t,
            c.point@ == comps_point(self@, ray),
            c.eyev@ == t_neg(ray.direction@),
            c.inside == comps_inside(self@, ray),
            c.normal@ == comps_normal(self@, ray),
            c.over_point@ == comps_over_point(self@, ray),
    {
        let t = self.t;
        let point = ray.position(self.t);
        let object = self.object;
        let eyev = ray.direction.neg();
        let normal0 = self.object.normal_at(point);
        let (inside, normal) = if normal0.dot(eyev).raw < 0 {
            (true, normal0.neg())
        } else {
            (false, normal0)
        };
        let over_point = point.add_vector(normal.scale(Scalar { raw: EPSILON_RAW }));
        Computations { t, object, point, eyev, normal, inside, over_point }
    }
}

/// The hit point along the ray.
pub open spec fn comps_point(h: HitV, ray: Ray) -> TupleV {
    t_add(ray.origin@, t_scale(ray.direction@, h.t))
}

/// Whether the hit is on the inside of the surface: the outward normal
/// faces away from the eye.
pub open spec fn comps_inside(h: HitV, ray: Ray) -> bool {
    t_dot(normal_at_spec(h.object, comps_point(h, ray)), t_neg(ray.direction@)) < 0
}

/// The surface normal at the hit, flipped when the hit is inside.
pub open spec fn comps_normal(h: HitV, ray: Ray) -> TupleV {
    let n = normal_at_spec(h.object, comps_point(h, ray));
    if comps_inside(h, ray) {
        t_neg(n)
    } else {
        n
    }
}

/// The hit point nudged along the normal, to keep shadow rays from
/// hitting the surface they start on.
pub open spec fn comps_over_point(h: HitV, ray: Ray) -> TupleV {
    t_add(comps_point(h, ray), t_scale(comps_normal(h, ray), EPSILON_RAW as int))
}

/// The precomputed shading state of one hit.
#[derive(Clone, Copy, Debug)]
pub struct Computations<'a> {
    pub object: &'a Sphere,
    pub t: Scalar,
    pub point: Point,
    pub eyev: Vector,
    pub normal: Vector,
    pub inside: bool,
    pub over_point: Point,
}

/// Insert `x` before the first entry with a strictly larger `t`, so that
/// entries with equal `t` keep their insertion order.
pub open spec fn ins_sorted(s: Seq<HitV>, x: HitV) -> Seq<HitV>
    decreases s.len(),
{
    if s.len() == 0 {
        seq![x]
    } else if s[0].t > x.t {
        seq![x] + s
    } else {
        seq![s[0]] + ins_sorted(s.drop_first(), x)
    }
}

/// Fold `ins_sorted` over a second collection, in order.
pub open spec fn merge_sorted(s: Seq<HitV>, o: Seq<HitV>) -> Seq<HitV>
    decreases o.len(),
{
    if o.len() == 0 {
        s
    } else {
        merge_sorted(ins_sorted(s, o[0]), o.drop_first())
    }
}

/// The hit rule as a left fold: keep the nearest entry with `t >= 0`,
/// preferring the earlier entry on a tie only while it is strictly
/// nearer.
pub open spec fn hit_fold(s: Seq<HitV>, acc: Option<HitV>) -> Option<HitV>
    decreases s.len(),
{
    if s.len() == 0 {
        acc
    } else {
        let h = s[0];
        let acc2 = if h.t < 0 {
            acc
        } else {
            match acc {
                Option::None => Option::Some(h),
                Option::Some(a) => if a.t < h.t {
                    Option::Some(a)
                } else {
                    Option::Some(h)
                },
            }
        };
        hit_fold(s.drop_first(), acc2)
    }
}

/// What `hit_fold` selects: nothing when every entry is behind the ray,
/// otherwise an entry with the least nonnegative `t`.
pub proof fn lemma_hit_fold_min(s: Seq<HitV>, acc: Option<HitV>)
    requires
        acc is Some ==> acc->0.t >= 0,
    ensures
        hit_fold(s, acc) is None ==> acc is None && forall|j: int|
            0 <= j < s.len() ==> s[j].t < 0,
        hit_fold(s, acc) matches Some(h) ==> {
            &&& h.t >= 0
            &&& (acc matches Some(a) ==> h.t <= a.t)
            &&& forall|j: int| 0 <= j < s.len() && s[j].t >= 0 ==> h.t <= s[j].t
            &&& (acc == Option::<HitV>::None || (acc matches Some(a) && h == a) || exists|j: int|
                0 <= j < s.len() && s[j] == h)
        },
    decreases s.len(),
{
    if s.len() == 0 {
    } else {
        let h0 = s[0];
        let acc2 = if h0.t < 0 {
            acc
        } else {
            match acc {
                Option::None => Option::Some(h0),
                Option::Some(a) => if a.t < h0.t {
                    Option::Some(a)
                } else {
                    Option::Some(h0)
                },
            }
        };
        lemma_hit_fold_min(s.drop_first(), acc2);
        assert forall|j: int| 0 <= j < s.len() && s[j].t >= 0 implies ({
            hit_fold(s, acc) matches Some(h) && h.t <= s[j].t
        }) by {
            if j > 0 {
                assert(s.drop_first()[j - 1] == s[j]);
            }
        }
        let res = hit_fold(s, acc);
        if res is Some {
            let h = res->0;
            if acc2 is Some && !(acc is Some && h == acc->0) && !(h == h0) {
                if !(res == acc2) {
                    let j = choose|j: int|
                        0 <= j < s.drop_first().len() && s.drop_first()[j] == h;
                    assert(s[j + 1] == h);
                }
            }
        }
    }
}

/// An ordered-by-`t` collection of intersections.
#[derive(Debug)]
pub struct Intersections<'a>(pub Vec<Intersection<'a>>);

impl<'a> View for Intersections<'a> {
    type V = Seq<HitV>;

    open spec fn view(&self) -> Seq<HitV> {
        self.0@.map_values(|i: Intersection<'a>| i@)
    }
}

/// Whether the collection is ordered by nondecreasing `t`.
pub open spec fn sorted_by_t(s: Seq<HitV>) -> bool {
    forall|i: int, j: int| 0 <= i < j < s.len() ==> s[i].t <= s[j].t
}

proof fn lemma_ins_sorted_at(s: Seq<HitV>, x: HitV, k: int)
    requires
        0 <= k <= s.len(),
        forall|j: int| 0 <= j < k ==> s[j].t <= x.t,
        k < s.len() ==> s[k].t > x.t,
    ensures
        ins_sorted(s, x) == s.insert(k, x),
    decreases s.len(),
{
    if s.len() == 0 {
        assert(ins_sorted(s, x) =~= s.insert(0, x));
    } else if k == 0 {
        assert(s[0].t > x.t);
        assert(ins_sorted(s, x) =~= s.insert(0, x));
    } else {
        lemma_ins_sorted_at(s.drop_first(), x, k - 1);
        assert(ins_sorted(s, x) =~= s.insert(k, x));
    }
}

/// Inserting keeps the order.
pub proof fn lemma_ins_sorted_keeps_order(s: Seq<HitV>, x: HitV)
    requires
        sorted_by_t(s),
    ensures
        sorted_by_t(ins_sorted(s, x)),
    decreases s.len(),
{
    if s.len() == 0 {
    } else if s[0].t > x.t {
    } else {
        assert(forall|i: int, j: int|
            0 <= i < j < s.drop_first().len() ==> s.drop_first()[i].t <= s.drop_first()[j].t);
        lemma_ins_sorted_keeps_order(s.drop_first(), x);
        let r = ins_sorted(s, x);
        assert forall|i: int, j: int| 0 <= i < j < r.len() implies r[i].t <= r[j].t by {
            if i == 0 {
                let inner = ins_sorted(s.drop_first(), x);
                if j - 1 < inner.len() {
                    lemma_ins_sorted_member(s.drop_first(), x, j - 1);
                }
            }
        }
    }
}

/// Inserting adds exactly one entry.
pub proof fn lemma_ins_sorted_len(s: Seq<HitV>, x: HitV)
    ensures
        ins_sorted(s, x).len() == s.len() + 1,
    decreases s.len(),
{
    if s.len() == 0 {
    } else if s[0].t > x.t {
    } else {
        lemma_ins_sorted_len(s.drop_first(), x);
    }
}

/// Every entry of an insertion result is the new entry or one of the old.
proof fn lemma_ins_sorted_member(s: Seq<HitV>, x: HitV, i: int)
    requires
        0 <= i < ins_sorted(s, x).len(),
    ensures
        ins_sorted(s, x)[i] == x || exists|j: int| 0 <= j < s.len() && s[j] == ins_sorted(s, x)[i],
    decreases s.len(),
{
    lemma_ins_sorted_len(s, x);
    if s.len() == 0 {
    } else if s[0].t > x.t {
        if i > 0 {
            assert(s[i - 1] == ins_sorted(s, x)[i]);
        }
    } else {
        if i > 0 {
            lemma_ins_sorted_member(s.drop_first(), x, i - 1);
            if !(ins_sorted(s.drop_first(), x)[i - 1] == x) {
                let j = choose|j: int|
                    0 <= j < s.drop_first().len() && s.drop_first()[j] == ins_sorted(
                        s.drop_first(),
                        x,
                    )[i - 1];
                assert(s[j + 1] == ins_sorted(s, x)[i]);
            }
        } else {
            assert(s[0] == ins_sorted(s, x)[0]);
        }
    }
}

/// Inserting adds exactly the new entry to the collection's contents.
pub proof fn lemma_ins_sorted_multiset(s: Seq<HitV>, x: HitV)
    ensures
        ins_sorted(s, x).to_multiset() == s.to_multiset().insert(x),
    decreases s.len(),
{
    broadcast use vstd::multiset::group_multiset_axioms;

    if s.len() == 0 {
        assert(ins_sorted(s, x) =~= s.insert(0, x));
        vstd::seq_lib::to_multiset_insert(s, 0, x);
    } else if s[0].t > x.t {
        assert(ins_sorted(s, x) =~= s.insert(0, x));
        vstd::seq_lib::to_multiset_insert(s, 0, x);
    } else {
        let first = seq![s[0]];
        let rest = s.drop_first();
        lemma_ins_sorted_multiset(rest, x);
        vstd::seq_lib::lemma_multiset_commutative(first, ins_sorted(rest, x));
        vstd::seq_lib::lemma_multiset_commutative(first, rest);
        assert(s =~= first + rest);
        assert(ins_sorted(s, x).to_multiset() =~= s.to_multiset().insert(x));
    }
}

/// Merging adds exactly the other collection's contents.
pub proof fn lemma_merge_sorted_multiset(s: Seq<HitV>, o: Seq<HitV>)
    ensures
        merge_sorted(s, o).to_multiset() == s.to_multiset().add(o.to_multiset()),
    decreases o.len(),
{
    broadcast use vstd::multiset::group_multiset_axioms;
    broadcast use vstd::seq_lib::group_to_multiset_ensures;

    if o.len() == 0 {
        assert(forall|h: HitV| o.to_multiset().count(h) == 0);
        assert(merge_sorted(s, o).to_multiset() =~= s.to_multiset().add(o.to_multiset()));
    } else {
        lemma_ins_sorted_multiset(s, o[0]);
        lemma_merge_sorted_multiset(ins_sorted(s, o[0]), o.drop_first());
        vstd::seq_lib::lemma_multiset_commutative(seq![o[0]], o.drop_first());
        assert(o =~= seq![o[0]] + o.drop_first());
        assert(Seq::<HitV>::empty().push(o[0]) =~= seq![o[0]]);
        assert(seq![o[0]].to_multiset() =~= vstd::multiset::Multiset::<HitV>::empty().insert(o[0]));
        assert(merge_sorted(s, o).to_multiset() =~= s.to_multiset().add(o.to_multiset()));
    }
}

/// Merging keeps the order.
pub proof fn lemma_merge_sorted_keeps_order(s: Seq<HitV>, o: Seq<HitV>)
    requires
        sorted_by_t(s),
    ensures
        sorted_by_t(merge_sorted(s, o)),
    decreases o.len(),
{
    if o.len() == 0 {
    } else {
        lemma_ins_sorted_keeps_order(s, o[0]);
        lemma_merge_sorted_keeps_order(ins_sorted(s, o[0]), o.drop_first());
    }
}

impl<'a> Intersections<'a> {
    pub fn new() -> (r: Intersections<'a>)
        ensures
            r@ == Seq::<HitV>::empty(),
    {
        let r = Intersections(Vec::new());
        proof {
            assert(r@ =~= Seq::<HitV>::empty());
        }
        r
    }

    /// Wrap an existing list of intersections without reordering it.
    pub fn from_vec(v: Vec<Intersection<'a>>) -> (r: Intersections<'a>)
        ensures
            r@ == v@.map_values(|i: Intersection<'a>| i@),
    {
        Intersections(v)
    }

    /// Insert one intersection, keeping the collection ordered by `t`;
    /// among equal `t` the newcomer goes last.
    pub fn push(&mut self, x: Intersection<'a>)
        ensures
            final(self)@ == ins_sorted(old(self)@, x@),
    {
        let mut k: usize = 0;
        while k < self.0.len() && self.0[k].t.raw <= x.t.raw
            invariant
                0 <= k <= self.0.len(),
                forall|j: int| 0 <= j < k ==> self@[j].t <= x@.t,
                self.0 == old(self).0,
            decreases self.0.len() - k,
        {
            k = k + 1;
        }
        proof {
            lemma_ins_sorted_at(self@, x@, k as int);
        }
        self.0.insert(k, x);
        proof {
            assert(self@ =~= old(self)@.insert(k as int, x@));
        }
    }

    /// Merge another collection in, keeping the order by `t`.
    pub fn concat(&mut self, other: Intersections<'a>)
        ensures
            final(self)@ == merge_sorted(old(self)@, other@),
    {
        let n = other.0.len();
        let mut i: usize = 0;
        proof {
            assert(other@.skip(0) =~= other@);
        }
        while i < n
            invariant
                0 <= i <= n,
                n == other.0.len(),
                merge_sorted(self@, other@.skip(i as int)) == merge_sorted(old(self)@, other@),
            decreases n - i,
        {
            let ghost pre = self@;
            self.push(other.0[i]);
            proof {
                assert(other@.skip(i as int).drop_first() =~= other@.skip(i as int + 1));
                assert(other@.skip(i as int)[0] == other@[i as int]);
            }
            i = i + 1;
        }
        proof {
            assert(other@.skip(n as int) =~= Seq::<HitV>::empty());
        }
    }

    /// The hit: the intersection nearest along the ray among those not
    /// behind it, or nothing when every `t` is negative.
    pub fn hit(&self) -> (r: Option<Intersection<'a>>)
        ensures
            match r {
                Option::Some(i) => hit_fold(self@, Option::None) == Option::Some(i@),
                Option::None => hit_fold(self@, Option::None) is None,
            },
    {
        let mut best: Option<Intersection<'a>> = None;
        let n = self.0.len();
        let mut i: usize = 0;
        proof {
            assert(self@.skip(0) =~= self@);
        }
        while i < n
            invariant
                0 <= i <= n,
                n == self.0.len(),
                match best {
                    Option::Some(b) => hit_fold(self@.skip(i as int), Option::Some(b@)) == hit_fold(
                        self@,
                        Option::None,
                    ),
                    Option::None => hit_fold(self@.skip(i as int), Option::None) == hit_fold(
                        self@,
                        Option::None,
                    ),
                },
            decreases n - i,
        {
            let cur = self.0[i];
            proof {
                assert(self@.skip(i as int).drop_first() =~= self@.skip(i as int + 1));
                assert(self@.skip(i as int)[0] == self@[i as int]);
            }
            if cur.t.raw >= 0 {
                best = match best {
                    Option::Some(b) => if b.t.raw < cur.t.raw {
                        Option::Some(b)
                    } else {
                        Option::Some(cur)
                    },
                    Option::None => Option::Some(cur),
                };
            }
            i = i + 1;
        }
        proof {
            assert(self@.skip(n as int) =~= Seq::<HitV>::empty());
        }
        best
    }
}

} // verus!
