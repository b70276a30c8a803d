use crate::object::{depends_on, views, Dependent, Entity, VPoint, VPointView};
use vstd::prelude::*;

verus! {

/// Whether some entity of `s` has the id `id`.
pub open spec fn has_id<T: Entity>(s: Seq<T::V>, id: u32) -> bool {
    exists|k: int| 0 <= k < s.len() && T::id_of(#[trigger] s[k]) == id
}

/// Whether `k` is the place of the first entity of `s` with the id `id`.
pub open spec fn is_first_with_id<T: Entity>(s: Seq<T::V>, id: u32, k: int) -> bool {
    &&& 0 <= k < s.len()
    &&& T::id_of(s[k]) == id
    &&& forall|j: int| 0 <= j < k ==> T::id_of(#[trigger] s[j]) != id
}

/// The place of the first entity of `s` with the id `id`, if there is one.
pub open spec fn position<T: Entity>(s: Seq<T::V>, id: u32) -> Option<int> {
    if exists|k: int| is_first_with_id::<T>(s, id, k) {
        Some(choose|k: int| is_first_with_id::<T>(s, id, k))
    } else {
        None
    }
}

/// The first entity of `s` with the id `id`, if there is one.
pub open spec fn lookup<T: Entity>(s: Seq<T::V>, id: u32) -> Option<T::V> {
    match position::<T>(s, id) {
        Some(k) => Some(s[k]),
        None => None,
    }
}

/// `s` without the entities whose id is `id`; the others keep their order.
pub open spec fn without_id<T: Entity>(s: Seq<T::V>, id: u32) -> Seq<T::V> {
    s.filter(has_other_id::<T>(id))
}

/// The test "its id is not `id`".
pub open spec fn has_other_id<T: Entity>(id: u32) -> spec_fn(T::V) -> bool {
    |v: T::V| T::id_of(v) != id
}

/// The test "it does not reference the point `pid`".
pub open spec fn is_independent<T: Dependent>(pid: u32) -> spec_fn(T::V) -> bool {
    |v: T::V| !depends_on::<T>(v, pid)
}

/// `s` without the entities that reference the point `pid`; the others keep their order.
pub open spec fn without_dependents<T: Dependent>(s: Seq<T::V>, pid: u32) -> Seq<T::V> {
    s.filter(is_independent::<T>(pid))
}

/// How many entities of `s` have the id `id`.
pub open spec fn count_id<T: Entity>(s: Seq<T::V>, id: u32) -> nat
    decreases s.len(),
{
    if s.len() == 0 {
        0
    } else {
        count_id::<T>(s.drop_last(), id) + if T::id_of(s.last()) == id {
            1nat
        } else {
            0nat
        }
    }
}

/// The first place with an id is the position of that id.
pub proof fn lemma_position_first<T: Entity>(s: Seq<T::V>, id: u32, k: int)
    requires
        is_first_with_id::<T>(s, id, k),
    ensures
        position::<T>(s, id) == Some(k),
        lookup::<T>(s, id) == Some(s[k]),
        has_id::<T>(s, id),
{
    let c = choose|c: int| is_first_with_id::<T>(s, id, c);
    assert(is_first_with_id::<T>(s, id, c));
    if c < k {
        assert(T::id_of(s[c]) != id);
    }
    if k < c {
        assert(T::id_of(s[k]) != id);
    }
}

/// An id has a position exactly when some entity has it.
pub proof fn lemma_position_some_iff_has_id<T: Entity>(s: Seq<T::V>, id: u32)
    ensures
        position::<T>(s, id) is Some <==> has_id::<T>(s, id),
        position::<T>(s, id) matches Some(k) ==> is_first_with_id::<T>(s, id, k),
    decreases s.len(),
{
    if has_id::<T>(s, id) {
        let k = choose|k: int| 0 <= k < s.len() && T::id_of(#[trigger] s[k]) == id;
        lemma_first_exists::<T>(s, id, k);
    }
    if position::<T>(s, id) is Some {
        let c = choose|c: int| is_first_with_id::<T>(s, id, c);
        assert(is_first_with_id::<T>(s, id, c));
        assert(T::id_of(s[c]) == id);
    }
}

proof fn lemma_first_exists<T: Entity>(s: Seq<T::V>, id: u32, k: int)
    requires
        0 <= k < s.len(),
        T::id_of(s[k]) == id,
    ensures
        exists|f: int| is_first_with_id::<T>(s, id, f),
    decreases k,
{
    if exists|j: int| 0 <= j < k && T::id_of(#[trigger] s[j]) == id {
        let j = choose|j: int| 0 <= j < k && T::id_of(#[trigger] s[j]) == id;
        lemma_first_exists::<T>(s, id, j);
    } else {
        assert(is_first_with_id::<T>(s, id, k));
    }
}

/// Counting after one more entity.
pub proof fn lemma_count_push<T: Entity>(s: Seq<T::V>, v: T::V, id: u32)
    ensures
        count_id::<T>(s.push(v), id) == count_id::<T>(s, id) + if T::id_of(v) == id {
            1nat
        } else {
            0nat
        },
{
    assert(s.push(v).drop_last() =~= s);
}

/// An id is counted zero times exactly when no entity has it.
pub proof fn lemma_count_zero_iff_absent<T: Entity>(s: Seq<T::V>, id: u32)
    ensures
        count_id::<T>(s, id) == 0 <==> !has_id::<T>(s, id),
    decreases s.len(),
{
    if s.len() > 0 {
        let rest = s.drop_last();
        lemma_count_zero_iff_absent::<T>(rest, id);
        if has_id::<T>(s, id) {
            let k = choose|k: int| 0 <= k < s.len() && T::id_of(#[trigger] s[k]) == id;
            if k < s.len() - 1 {
                assert(T::id_of(rest[k]) == id);
            }
        }
        if has_id::<T>(rest, id) {
            let k = choose|k: int| 0 <= k < rest.len() && T::id_of(#[trigger] rest[k]) == id;
            assert(T::id_of(s[k]) == id);
        }
        if T::id_of(s.last()) == id {
            assert(T::id_of(s[s.len() - 1]) == id);
        }
    }
}

/// Taking entities away never raises a count.
pub proof fn lemma_count_filter<T: Entity>(s: Seq<T::V>, keep: spec_fn(T::V) -> bool, id: u32)
    ensures
        count_id::<T>(s.filter(keep), id) <= count_id::<T>(s, id),
    decreases s.len(),
{
    reveal(Seq::filter);
    if s.len() > 0 {
        let rest = s.drop_last();
        lemma_count_filter::<T>(rest, keep, id);
        assert(s =~= rest.push(s.last()));
        rest.lemma_filter_push(s.last(), keep);
        if keep(s.last()) {
            lemma_count_push::<T>(rest.filter(keep), s.last(), id);
        }
    }
}

/// Replacing an entity by one with the same id changes no count.
pub proof fn lemma_count_update<T: Entity>(s: Seq<T::V>, k: int, v: T::V, id: u32)
    requires
        0 <= k < s.len(),
        T::id_of(v) == T::id_of(s[k]),
    ensures
        count_id::<T>(s.update(k, v), id) == count_id::<T>(s, id),
    decreases s.len(),
{
    let rest = s.drop_last();
    if k == s.len() - 1 {
        assert(s.update(k, v).drop_last() =~= rest);
    } else {
        lemma_count_update::<T>(rest, k, v, id);
        assert(s.update(k, v).drop_last() =~= rest.update(k, v));
    }
}

/// What is left after a filter is what was there and passes the test.
pub proof fn lemma_filter_membership<A>(s: Seq<A>, keep: spec_fn(A) -> bool)
    ensures
        forall|v: A| #[trigger] s.filter(keep).contains(v) <==> s.contains(v) && keep(v),
{
    assert forall|v: A| #[trigger] s.filter(keep).contains(v) implies s.contains(v) && keep(v) by {
        s.lemma_filter_contains_rev(keep, v);
        let i = choose|i: int| 0 <= i < s.filter(keep).len() && s.filter(keep)[i] == v;
        s.lemma_filter_pred(keep, i);
    }
    assert forall|v: A| s.contains(v) && keep(v) implies #[trigger] s.filter(keep).contains(v) by {
        let i = choose|i: int| 0 <= i < s.len() && s[i] == v;
        s.lemma_filter_contains(keep, i);
    }
}

/// What is there after a push is what was there and the new element.
pub proof fn lemma_push_membership<A>(s: Seq<A>, x: A)
    ensures
        forall|v: A| #[trigger] s.push(x).contains(v) <==> s.contains(v) || v == x,
{
    assert forall|v: A| #[trigger] s.push(x).contains(v) implies s.contains(v) || v == x by {
        let i = choose|i: int| 0 <= i < s.push(x).len() && s.push(x)[i] == v;
        if i < s.len() {
            assert(s[i] == v);
        }
    }
    assert forall|v: A| s.contains(v) || v == x implies #[trigger] s.push(x).contains(v) by {
        if s.contains(v) {
            let i = choose|i: int| 0 <= i < s.len() && s[i] == v;
            assert(s.push(x)[i] == v);
        } else {
            assert(s.push(x)[s.len() as int] == v);
        }
    }
}

/// An id is in a sequence exactly when an entity of the sequence has it.
pub proof fn lemma_has_id_membership<T: Entity>(s: Seq<T::V>, id: u32)
    ensures
        has_id::<T>(s, id) <==> exists|v: T::V| #[trigger] s.contains(v) && T::id_of(v) == id,
{
    if has_id::<T>(s, id) {
        let k = choose|k: int| 0 <= k < s.len() && T::id_of(#[trigger] s[k]) == id;
        assert(s.contains(s[k]) && T::id_of(s[k]) == id);
    }
    if exists|v: T::V| #[trigger] s.contains(v) && T::id_of(v) == id {
        let v = choose|v: T::V| #[trigger] s.contains(v) && T::id_of(v) == id;
        let k = choose|k: int| 0 <= k < s.len() && s[k] == v;
        assert(T::id_of(s[k]) == id);
    }
}

/// Taking out the entities with the id `gone` leaves every other id where it was.
pub proof fn lemma_has_id_without<T: Entity>(s: Seq<T::V>, gone: u32, id: u32)
    ensures
        has_id::<T>(without_id::<T>(s, gone), id) <==> has_id::<T>(s, id) && id != gone,
{
    let rest = without_id::<T>(s, gone);
    lemma_filter_membership(s, has_other_id::<T>(gone));
    lemma_has_id_membership::<T>(s, id);
    lemma_has_id_membership::<T>(rest, id);
    if has_id::<T>(rest, id) {
        let v = choose|v: T::V| #[trigger] rest.contains(v) && T::id_of(v) == id;
        assert(s.contains(v) && T::id_of(v) == id);
    }
    if has_id::<T>(s, id) && id != gone {
        let v = choose|v: T::V| #[trigger] s.contains(v) && T::id_of(v) == id;
        assert(rest.contains(v) && T::id_of(v) == id);
    }
}

/// One more entity adds its id and loses none.
pub proof fn lemma_has_id_push<T: Entity>(s: Seq<T::V>, x: T::V, id: u32)
    ensures
        has_id::<T>(s.push(x), id) <==> has_id::<T>(s, id) || T::id_of(x) == id,
{
    lemma_push_membership(s, x);
    lemma_has_id_membership::<T>(s, id);
    lemma_has_id_membership::<T>(s.push(x), id);
    if has_id::<T>(s.push(x), id) {
        let v = choose|v: T::V| #[trigger] s.push(x).contains(v) && T::id_of(v) == id;
        if v != x {
            assert(s.contains(v) && T::id_of(v) == id);
        }
    }
    if has_id::<T>(s, id) {
        let v = choose|v: T::V| #[trigger] s.contains(v) && T::id_of(v) == id;
        assert(s.push(x).contains(v) && T::id_of(v) == id);
    }
    if T::id_of(x) == id {
        assert(s.push(x).contains(x) && T::id_of(x) == id);
    }
}

/// Replacing an entity by one with the same id leaves every id where it was.
pub proof fn lemma_has_id_update<T: Entity>(s: Seq<T::V>, k: int, x: T::V, id: u32)
    requires
        0 <= k < s.len(),
        T::id_of(x) == T::id_of(s[k]),
    ensures
        has_id::<T>(s.update(k, x), id) <==> has_id::<T>(s, id),
{
    let t = s.update(k, x);
    if has_id::<T>(t, id) {
        let j = choose|j: int| 0 <= j < t.len() && T::id_of(#[trigger] t[j]) == id;
        assert(T::id_of(s[j]) == id);
    }
    if has_id::<T>(s, id) {
        let j = choose|j: int| 0 <= j < s.len() && T::id_of(#[trigger] s[j]) == id;
        assert(T::id_of(t[j]) == id);
    }
}

/// Whether every point that an entity of `s` references is among `points`.
pub open spec fn refs_present<T: Dependent>(points: Seq<VPointView>, s: Seq<T::V>) -> bool {
    forall|v: T::V, pid: u32|
        s.contains(v) && #[trigger] depends_on::<T>(v, pid) ==> has_id::<VPoint>(points, pid)
}

/// Deleting a point together with what references it leaves no reference
/// without its point.
pub proof fn lemma_refs_present_after_cascade<T: Dependent>(
    points: Seq<VPointView>,
    s: Seq<T::V>,
    pid: u32,
)
    requires
        refs_present::<T>(points, s),
    ensures
        refs_present::<T>(without_id::<VPoint>(points, pid), without_dependents::<T>(s, pid)),
{
    lemma_filter_membership(s, is_independent::<T>(pid));
    assert forall|v: T::V, q: u32|
        without_dependents::<T>(s, pid).contains(v) && #[trigger] depends_on::<T>(
            v,
            q,
        ) implies has_id::<VPoint>(without_id::<VPoint>(points, pid), q) by {
        assert(s.contains(v));
        assert(!depends_on::<T>(v, pid));
        lemma_has_id_without::<VPoint>(points, pid, q);
    }
}

/// Taking entities away breaks no reference of those that stay.
pub proof fn lemma_refs_present_after_filter<T: Dependent>(
    points: Seq<VPointView>,
    s: Seq<T::V>,
    keep: spec_fn(T::V) -> bool,
)
    requires
        refs_present::<T>(points, s),
    ensures
        refs_present::<T>(points, s.filter(keep)),
{
    lemma_filter_membership(s, keep);
}

/// One more entity whose points are all there breaks no reference.
pub proof fn lemma_refs_present_after_push<T: Dependent>(
    points: Seq<VPointView>,
    s: Seq<T::V>,
    x: T::V,
)
    requires
        refs_present::<T>(points, s),
        forall|pid: u32| #[trigger] depends_on::<T>(x, pid) ==> has_id::<VPoint>(points, pid),
    ensures
        refs_present::<T>(points, s.push(x)),
{
    lemma_push_membership(s, x);
}

/// Points that keep every id that was there break no reference.
pub proof fn lemma_refs_present_more_points<T: Dependent>(
    points: Seq<VPointView>,
    later: Seq<VPointView>,
    s: Seq<T::V>,
)
    requires
        refs_present::<T>(points, s),
        forall|pid: u32| has_id::<VPoint>(points, pid) ==> has_id::<VPoint>(later, pid),
    ensures
        refs_present::<T>(later, s),
{
}

/// The place of the first entity of `v` with the id `id`.
pub fn find<T: Entity>(v: &Vec<T>, id: u32) -> (r: Option<usize>)
    ensures
        match r {
            Some(k) => position::<T>(views(v@), id) == Some(k as int),
            None => position::<T>(views(v@), id) is None,
        },
{
    let mut i: usize = 0;
    while i < v.len()
        invariant
            i <= v.len(),
            forall|j: int| 0 <= j < i ==> T::id_of(#[trigger] views(v@)[j]) != id,
        decreases v.len() - i,
    {
        if v[i].id() == id {
            proof {
                assert(views(v@)[i as int] == v@[i as int]@);
                lemma_position_first::<T>(views(v@), id, i as int);
            }
            return Some(i);
        }
        proof {
            assert(views(v@)[i as int] == v@[i as int]@);
        }
        i += 1;
    }
    proof {
        lemma_position_some_iff_has_id::<T>(views(v@), id);
    }
    None
}

/// Takes out of `v` every entity with the id `id`.
pub fn remove_by_id<T: Entity>(v: &mut Vec<T>, id: u32)
    ensures
        views(final(v)@) == without_id::<T>(views(old(v)@), id),
{
    let mut taken: Vec<T> = Vec::new();
    core::mem::swap(v, &mut taken);
    let ghost all = taken@;
    assert(views(v@) =~= without_id::<T>(views(all.take(0)), id));
    for e in it: taken
        invariant
            it.seq() == all,
            views(v@) == without_id::<T>(views(all.take(it.index() as int)), id),
    {
        proof {
            let k = it.index() as int;
            assert(all.take(k + 1) =~= all.take(k).push(e));
            assert(views(all.take(k).push(e)) =~= views(all.take(k)).push(e@));
            views(all.take(k)).lemma_filter_push(e@, has_other_id::<T>(id));
            assert(without_id::<T>(views(all.take(k + 1)), id) == if T::id_of(e@) != id {
                without_id::<T>(views(all.take(k)), id).push(e@)
            } else {
                without_id::<T>(views(all.take(k)), id)
            });
        }
        if e.id() != id {
            v.push(e);
            proof {
                let k = it.index() as int;
                assert(views(v@) =~= without_id::<T>(views(all.take(k)), id).push(e@));
            }
        }
    }
    assert(all.take(all.len() as int) =~= all);
}

/// Takes out of `v` every entity that references the point `pid`.
pub fn remove_dependents<T: Dependent>(v: &mut Vec<T>, pid: u32)
    ensures
        views(final(v)@) == without_dependents::<T>(views(old(v)@), pid),
{
    let mut taken: Vec<T> = Vec::new();
    core::mem::swap(v, &mut taken);
    let ghost all = taken@;
    assert(views(v@) =~= without_dependents::<T>(views(all.take(0)), pid));
    for e in it: taken
        invariant
            it.seq() == all,
            views(v@) == without_dependents::<T>(views(all.take(it.index() as int)), pid),
    {
        proof {
            let k = it.index() as int;
            assert(all.take(k + 1) =~= all.take(k).push(e));
            assert(views(all.take(k).push(e)) =~= views(all.take(k)).push(e@));
            views(all.take(k)).lemma_filter_push(e@, is_independent::<T>(pid));
            assert(without_dependents::<T>(views(all.take(k + 1)), pid) == if !depends_on::<T>(
                e@,
                pid,
            ) {
                without_dependents::<T>(views(all.take(k)), pid).push(e@)
            } else {
                without_dependents::<T>(views(all.take(k)), pid)
            });
        }
        if !e.references_point(pid) {
            v.push(e);
            proof {
                let k = it.index() as int;
                assert(views(v@) =~= without_dependents::<T>(views(all.take(k)), pid).push(e@));
            }
        }
    }
    assert(all.take(all.len() as int) =~= all);
}

/// A copy of `v`, entity by entity.
pub fn duplicate_all<T: Entity>(v: &Vec<T>) -> (r: Vec<T>)
    ensures
        views(r@) == views(v@),
{
    let mut out: Vec<T> = Vec::new();
    let mut i: usize = 0;
    while i < v.len()
        invariant
            i <= v.len(),
            views(out@) == views(v@.take(i as int)),
        decreases v.len() - i,
    {
        let e = v[i].duplicate();
        out.push(e);
        proof {
            assert(v@.take(i + 1) =~= v@.take(i as int).push(v@[i as int]));
            assert(views(out@) =~= views(v@.take(i as int)).push(e@));
            assert(views(v@.take(i as int).push(v@[i as int])) =~= views(v@.take(i as int)).push(
                v@[i as int]@,
            ));
        }
        i += 1;
    }
    assert(v@.take(v.len() as int) =~= v@);
    out
}

} // verus!
