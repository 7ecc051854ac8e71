//! The order of texts (`str::cmp`: character by character, a prefix
//! first), of resources by name, namespace and kind, and sorting by them.
use crate::resources::{ResourceSnapshot, SnapshotView};
use crate::text::chars_of;
use vstd::prelude::*;

verus! {

/// `a` comes strictly before `b`.
pub open spec fn text_lt(a: Seq<char>, b: Seq<char>) -> bool
    decreases a.len(),
{
    if a.len() == 0 {
        b.len() > 0
    } else if b.len() == 0 {
        false
    } else if a[0] != b[0] {
        (a[0] as int) < (b[0] as int)
    } else {
        text_lt(a.drop_first(), b.drop_first())
    }
}

/// `a < b` and `b < c` give `a < c`; `a < b` excludes `b < a` and `a == b`.
pub proof fn lemma_text_lt_order(a: Seq<char>, b: Seq<char>, c: Seq<char>)
    ensures
        text_lt(a, b) && text_lt(b, c) ==> text_lt(a, c),
        text_lt(a, b) ==> !text_lt(b, a) && a != b,
    decreases a.len(),
{
    if a.len() > 0 && b.len() > 0 && c.len() > 0 && a[0] == b[0] && b[0] == c[0] {
        lemma_text_lt_order(a.drop_first(), b.drop_first(), c.drop_first());
    }
    if a.len() > 0 && b.len() > 0 && a[0] == b[0] {
        lemma_text_lt_order(a.drop_first(), b.drop_first(), c);
    }
}

/// Whether `a` comes strictly before `b`.
pub fn text_less(a: &str, b: &str) -> (r: bool)
    ensures
        r == text_lt(a@, b@),
{
    let x = chars_of(a);
    let y = chars_of(b);
    let mut i: usize = 0;
    assert(x@.skip(0) =~= x@);
    assert(y@.skip(0) =~= y@);
    while i < x.len() && i < y.len() && x[i] == y[i]
        invariant
            i <= x.len(),
            i <= y.len(),
            text_lt(x@, y@) == text_lt(x@.skip(i as int), y@.skip(i as int)),
        decreases x.len() - i,
    {
        assert(x@.skip(i as int).drop_first() =~= x@.skip(i + 1));
        assert(y@.skip(i as int).drop_first() =~= y@.skip(i + 1));
        i = i + 1;
    }
    if i == x.len() {
        i < y.len()
    } else if i == y.len() {
        false
    } else {
        assert(x@.skip(i as int)[0] == x@[i as int]);
        assert(y@.skip(i as int)[0] == y@[i as int]);
        x[i] < y[i]
    }
}

/// No later text comes strictly before an earlier one.
pub open spec fn texts_sorted(s: Seq<Seq<char>>) -> bool {
    forall|i: int, j: int| 0 <= i < j < s.len() ==> !text_lt(#[trigger] s[j], #[trigger] s[i])
}

/// Sorts texts (`sort` on strings).
pub fn sort_texts(v: Vec<String>) -> (r: Vec<String>)
    ensures
        r.deep_view().to_multiset() == v.deep_view().to_multiset(),
        texts_sorted(r.deep_view()),
{
    broadcast use vstd::seq_lib::group_to_multiset_ensures;

    let ghost all = v.deep_view();
    let mut rest = v;
    let mut out: Vec<String> = Vec::new();
    assert(out.deep_view() =~= Seq::<Seq<char>>::empty());
    while rest.len() > 0
        invariant
            out.deep_view().to_multiset().add(rest.deep_view().to_multiset()) == all.to_multiset(),
            texts_sorted(out.deep_view()),
            forall|i: int, j: int|
                0 <= i < out.deep_view().len() && 0 <= j < rest.deep_view().len() ==> !text_lt(
                    #[trigger] rest.deep_view()[j],
                    #[trigger] out.deep_view()[i],
                ),
        decreases rest.len(),
    {
        let ghost rv = rest.deep_view();
        proof {
            lemma_text_lt_order(rv[0], rv[0], rv[0]);
        }
        let mut k: usize = 0;
        let mut j: usize = 1;
        while j < rest.len()
            invariant
                rv == rest.deep_view(),
                k < j <= rest.len(),
                forall|q: int| 0 <= q < j ==> !text_lt(#[trigger] rv[q], rv[k as int]),
            decreases rest.len() - j,
        {
            assert(rv[j as int] == rest@[j as int]@);
            assert(rv[k as int] == rest@[k as int]@);
            if text_less(rest[j].as_str(), rest[k].as_str()) {
                proof {
                    assert forall|q: int| 0 <= q < j + 1 implies !text_lt(
                        #[trigger] rv[q],
                        rv[j as int],
                    ) by {
                        lemma_text_lt_order(rv[q], rv[j as int], rv[k as int]);
                        lemma_text_lt_order(rv[j as int], rv[j as int], rv[j as int]);
                    }
                }
                k = j;
            }
            j = j + 1;
        }
        let ghost before_out = out.deep_view();
        let ghost picked = rv[k as int];
        let item = rest.remove(k);
        assert(item@ == picked);
        assert(rest.deep_view() =~= rv.remove(k as int));
        out.push(item);
        assert(out.deep_view() =~= before_out.push(picked));
        proof {
            vstd::seq_lib::to_multiset_remove(rv, k as int);
            vstd::seq_lib::to_multiset_build(before_out, picked);
            assert(out.deep_view().to_multiset().add(rest.deep_view().to_multiset())
                =~= before_out.to_multiset().add(rv.to_multiset()));
        }
    }
    out
}

// ---------------------------------------------------------------------------
// Resources
// ---------------------------------------------------------------------------
/// The orders in which resource lists are kept.
#[derive(Clone, Copy, Debug)]
pub enum ResourceOrder {
    /// By name.
    Name,
    /// By namespace (none first), then name.
    NamespaceName,
    /// By kind, then name.
    KindName,
    /// By kind, then namespace, then name.
    KindNamespaceName,
}

/// An optional text comes strictly before another (none first).
pub open spec fn opt_text_lt(a: Option<Seq<char>>, b: Option<Seq<char>>) -> bool {
    match (a, b) {
        (None, Some(_)) => true,
        (Some(x), Some(y)) => text_lt(x, y),
        _ => false,
    }
}

/// Resource `a` comes strictly before `b` in the order.
pub open spec fn resource_lt(order: ResourceOrder, a: SnapshotView, b: SnapshotView) -> bool {
    let by_name = text_lt(a.name, b.name);
    let by_ns = opt_text_lt(a.namespace, b.namespace) || (a.namespace == b.namespace && by_name);
    match order {
        ResourceOrder::Name => by_name,
        ResourceOrder::NamespaceName => by_ns,
        ResourceOrder::KindName => text_lt(a.kind, b.kind) || (a.kind == b.kind && by_name),
        ResourceOrder::KindNamespaceName => text_lt(a.kind, b.kind) || (a.kind == b.kind && by_ns),
    }
}

/// `opt_text_lt` is a strict order.
pub proof fn lemma_opt_text_lt_order(a: Option<Seq<char>>, b: Option<Seq<char>>, c: Option<Seq<char>>)
    ensures
        opt_text_lt(a, b) && opt_text_lt(b, c) ==> opt_text_lt(a, c),
        opt_text_lt(a, b) ==> !opt_text_lt(b, a) && a != b,
{
    match (a, b, c) {
        (Some(x), Some(y), Some(z)) => {
            lemma_text_lt_order(x, y, z);
        },
        (Some(x), Some(y), None) => {
            lemma_text_lt_order(x, y, y);
        },
        _ => {},
    }
}

/// `resource_lt` is a strict order.
pub proof fn lemma_resource_lt_order(
    order: ResourceOrder,
    a: SnapshotView,
    b: SnapshotView,
    c: SnapshotView,
)
    ensures
        resource_lt(order, a, b) && resource_lt(order, b, c) ==> resource_lt(order, a, c),
        !resource_lt(order, a, a),
{
    lemma_text_lt_order(a.name, b.name, c.name);
    lemma_text_lt_order(a.kind, b.kind, c.kind);
    lemma_opt_text_lt_order(a.namespace, b.namespace, c.namespace);
    lemma_text_lt_order(a.name, a.name, a.name);
    lemma_text_lt_order(a.kind, a.kind, a.kind);
    lemma_opt_text_lt_order(a.namespace, a.namespace, a.namespace);
    lemma_text_lt_order(b.kind, c.kind, c.kind);
    lemma_text_lt_order(a.kind, b.kind, b.kind);
    lemma_opt_text_lt_order(b.namespace, c.namespace, c.namespace);
    lemma_opt_text_lt_order(a.namespace, b.namespace, b.namespace);
}

/// `a` and `b` have the same place in the order: the fields it compares
/// are equal.
pub open spec fn same_place(order: ResourceOrder, a: SnapshotView, b: SnapshotView) -> bool {
    match order {
        ResourceOrder::Name => a.name == b.name,
        ResourceOrder::NamespaceName => a.namespace == b.namespace && a.name == b.name,
        ResourceOrder::KindName => a.kind == b.kind && a.name == b.name,
        ResourceOrder::KindNamespaceName => a.kind == b.kind && a.namespace == b.namespace && a.name
            == b.name,
    }
}

/// The resources of `s` that have the same place as `x`, in the order of `s`.
pub open spec fn placed_with(order: ResourceOrder, s: Seq<SnapshotView>, x: SnapshotView) -> Seq<
    SnapshotView,
> {
    s.filter(|y: SnapshotView| same_place(order, x, y))
}

/// Two different optional texts are ordered one way or the other.
pub proof fn lemma_opt_text_lt_total(a: Option<Seq<char>>, b: Option<Seq<char>>)
    ensures
        a != b ==> opt_text_lt(a, b) || opt_text_lt(b, a),
{
    if let (Some(x), Some(y)) = (a, b) {
        lemma_text_lt_total(x, y);
    }
}

/// Of two resources one comes first, or they have the same place; in the
/// same place, a resource compares as the other does.
pub proof fn lemma_resource_lt_trichotomy(
    order: ResourceOrder,
    a: SnapshotView,
    b: SnapshotView,
    c: SnapshotView,
)
    ensures
        resource_lt(order, a, b) || resource_lt(order, b, a) || same_place(order, a, b),
        same_place(order, a, b) ==> !resource_lt(order, a, b) && resource_lt(order, a, c)
            == resource_lt(order, b, c) && resource_lt(order, c, a) == resource_lt(order, c, b),
{
    lemma_text_lt_total(a.name, b.name);
    lemma_text_lt_total(a.kind, b.kind);
    lemma_opt_text_lt_total(a.namespace, b.namespace);
    lemma_resource_lt_order(order, a, a, a);
}

/// When `a` comes before `c`, any `b` comes after `a` or before `c`.
pub proof fn lemma_resource_lt_weak(
    order: ResourceOrder,
    a: SnapshotView,
    b: SnapshotView,
    c: SnapshotView,
)
    ensures
        resource_lt(order, a, c) ==> resource_lt(order, a, b) || resource_lt(order, b, c),
{
    lemma_resource_lt_trichotomy(order, a, b, c);
    lemma_resource_lt_trichotomy(order, b, c, a);
    lemma_resource_lt_order(order, c, b, a);
    lemma_resource_lt_order(order, a, c, a);
}

/// Taking out the first least resource of a list takes it out of its place.
proof fn lemma_take_first_least(order: ResourceOrder, s: Seq<SnapshotView>, k: int, x: SnapshotView)
    requires
        0 <= k < s.len(),
        forall|q: int| 0 <= q < k ==> resource_lt(order, s[k], #[trigger] s[q]),
    ensures
        placed_with(order, s, x) == if same_place(order, x, s[k]) {
            seq![s[k]] + placed_with(order, s.remove(k), x)
        } else {
            placed_with(order, s.remove(k), x)
        },
{
    broadcast use Seq::filter_distributes_over_add, Seq::lemma_filter_push;

    let f = |y: SnapshotView| same_place(order, x, y);
    let front = s.take(k);
    let back = s.skip(k + 1);
    assert(s =~= front + seq![s[k]] + back);
    assert(s.remove(k) =~= front + back);
    assert(seq![s[k]] =~= Seq::<SnapshotView>::empty().push(s[k]));
    assert(Seq::<SnapshotView>::empty().filter(f) =~= Seq::<SnapshotView>::empty()) by {
        reveal(Seq::filter);
    }
    if f(s[k]) {
        assert forall|q: int| 0 <= q < front.len() implies !f(#[trigger] front[q]) by {
            lemma_resource_lt_trichotomy(order, x, s[k], s[q]);
            lemma_resource_lt_trichotomy(order, x, s[q], s[k]);
            lemma_resource_lt_order(order, s[k], s[k], s[k]);
        }
        front.lemma_all_neg_filter_empty(f);
        assert(front.filter(f) =~= Seq::<SnapshotView>::empty());
    }
}

/// No later resource comes strictly before an earlier one.
pub open spec fn resources_sorted(order: ResourceOrder, s: Seq<SnapshotView>) -> bool {
    forall|i: int, j: int|
        0 <= i < j < s.len() ==> !resource_lt(order, #[trigger] s[j], #[trigger] s[i])
}

fn opt_less(a: &Option<String>, b: &Option<String>) -> (r: bool)
    ensures
        r == opt_text_lt(a.deep_view(), b.deep_view()),
{
    match (a, b) {
        (None, Some(_)) => true,
        (Some(x), Some(y)) => text_less(x.as_str(), y.as_str()),
        _ => false,
    }
}

fn opt_same(a: &Option<String>, b: &Option<String>) -> (r: bool)
    ensures
        r == (a.deep_view() == b.deep_view()),
{
    match (a, b) {
        (None, None) => true,
        (Some(x), Some(y)) => crate::resources::str_eq(x.as_str(), y.as_str()),
        _ => false,
    }
}

/// Whether resource `a` comes strictly before `b` in the order.
pub fn resource_less(order: ResourceOrder, a: &ResourceSnapshot, b: &ResourceSnapshot) -> (r: bool)
    ensures
        r == resource_lt(order, a@, b@),
{
    let by_name = text_less(a.name.as_str(), b.name.as_str());
    let by_ns = opt_less(&a.namespace, &b.namespace) || (opt_same(&a.namespace, &b.namespace)
        && by_name);
    match order {
        ResourceOrder::Name => by_name,
        ResourceOrder::NamespaceName => by_ns,
        ResourceOrder::KindName => text_less(a.kind.as_str(), b.kind.as_str()) || (
        crate::resources::str_eq(a.kind.as_str(), b.kind.as_str()) && by_name),
        ResourceOrder::KindNamespaceName => text_less(a.kind.as_str(), b.kind.as_str()) || (
        crate::resources::str_eq(a.kind.as_str(), b.kind.as_str()) && by_ns),
    }
}

/// Sorts resources in the order; the list keeps the same resources, and
/// resources in the same place keep the order they had (a stable sort).
pub fn sort_resources(v: Vec<ResourceSnapshot>, order: ResourceOrder) -> (r: Vec<ResourceSnapshot>)
    ensures
        r.deep_view().to_multiset() == v.deep_view().to_multiset(),
        resources_sorted(order, r.deep_view()),
        forall|x: SnapshotView|
            #[trigger] placed_with(order, r.deep_view(), x) == placed_with(order, v.deep_view(), x),
{
    broadcast use vstd::seq_lib::group_to_multiset_ensures;
    broadcast use Seq::lemma_filter_push;

    let ghost all = v.deep_view();
    let mut rest = v;
    let mut out: Vec<ResourceSnapshot> = Vec::new();
    assert(out.deep_view() =~= Seq::<SnapshotView>::empty());
    while rest.len() > 0
        invariant
            out.deep_view().to_multiset().add(rest.deep_view().to_multiset()) == all.to_multiset(),
            resources_sorted(order, out.deep_view()),
            forall|i: int, j: int|
                0 <= i < out.deep_view().len() && 0 <= j < rest.deep_view().len() ==> !resource_lt(
                    order,
                    #[trigger] rest.deep_view()[j],
                    #[trigger] out.deep_view()[i],
                ),
            forall|x: SnapshotView|
                #[trigger] placed_with(order, all, x) == placed_with(order, out.deep_view(), x)
                    + placed_with(order, rest.deep_view(), x),
        decreases rest.len(),
    {
        let ghost rv = rest.deep_view();
        proof {
            lemma_resource_lt_order(order, rv[0], rv[0], rv[0]);
        }
        let mut k: usize = 0;
        let mut j: usize = 1;
        while j < rest.len()
            invariant
                rv == rest.deep_view(),
                k < j <= rest.len(),
                forall|q: int| 0 <= q < j ==> !resource_lt(order, #[trigger] rv[q], rv[k as int]),
                forall|q: int| 0 <= q < k ==> resource_lt(order, rv[k as int], #[trigger] rv[q]),
            decreases rest.len() - j,
        {
            assert(rv[j as int] == rest@[j as int]@);
            assert(rv[k as int] == rest@[k as int]@);
            if resource_less(order, &rest[j], &rest[k]) {
                proof {
                    assert forall|q: int| 0 <= q < j + 1 implies !resource_lt(
                        order,
                        #[trigger] rv[q],
                        rv[j as int],
                    ) by {
                        lemma_resource_lt_order(order, rv[q], rv[j as int], rv[k as int]);
                        lemma_resource_lt_order(order, rv[j as int], rv[j as int], rv[j as int]);
                    }
                    assert forall|q: int| 0 <= q < j implies resource_lt(
                        order,
                        rv[j as int],
                        #[trigger] rv[q],
                    ) by {
                        lemma_resource_lt_order(order, rv[j as int], rv[k as int], rv[q]);
                        lemma_resource_lt_weak(order, rv[j as int], rv[q], rv[k as int]);
                    }
                }
                k = j;
            }
            j = j + 1;
        }
        let ghost before_out = out.deep_view();
        let ghost picked = rv[k as int];
        proof {
            assert forall|x: SnapshotView|
                #[trigger] placed_with(order, all, x) == placed_with(order, before_out.push(picked), x)
                    + placed_with(order, rv.remove(k as int), x) by {
                lemma_take_first_least(order, rv, k as int, x);
                assert(placed_with(order, before_out.push(picked), x) == if same_place(order, x, picked) {
                    placed_with(order, before_out, x).push(picked)
                } else {
                    placed_with(order, before_out, x)
                });
                if same_place(order, x, picked) {
                    assert(placed_with(order, before_out, x).push(picked) + placed_with(order, rv.remove(k as int), x)
                        =~= placed_with(order, before_out, x) + (seq![picked] + placed_with(order, rv.remove(k as int), x)));
                }
            }
        }
        let item = rest.remove(k);
        assert(item@ == picked);
        assert(rest.deep_view() =~= rv.remove(k as int));
        out.push(item);
        assert(out.deep_view() =~= before_out.push(picked));
        proof {
            vstd::seq_lib::to_multiset_remove(rv, k as int);
            vstd::seq_lib::to_multiset_build(before_out, picked);
            assert(out.deep_view().to_multiset().add(rest.deep_view().to_multiset())
                =~= before_out.to_multiset().add(rv.to_multiset()));
        }
    }
    proof {
        assert forall|x: SnapshotView|
            #[trigger] placed_with(order, out.deep_view(), x) == placed_with(order, all, x) by {
            assert(rest.deep_view() =~= Seq::<SnapshotView>::empty());
            assert(placed_with(order, rest.deep_view(), x) =~= Seq::<SnapshotView>::empty()) by {
                reveal(Seq::filter);
            }
            assert(placed_with(order, out.deep_view(), x) + placed_with(order, rest.deep_view(), x)
                =~= placed_with(order, out.deep_view(), x));
        }
    }
    out
}

/// Two different texts are ordered one way or the other.
pub proof fn lemma_text_lt_total(a: Seq<char>, b: Seq<char>)
    ensures
        a != b ==> text_lt(a, b) || text_lt(b, a),
    decreases a.len(),
{
    if a.len() > 0 && b.len() > 0 && a[0] == b[0] {
        lemma_text_lt_total(a.drop_first(), b.drop_first());
        if a.drop_first() == b.drop_first() {
            assert(a =~= seq![a[0]] + a.drop_first());
            assert(b =~= seq![b[0]] + b.drop_first());
        }
    } else if a.len() == 0 && b.len() == 0 {
        assert(a =~= b);
    } else if a.len() > 0 && b.len() > 0 {
        assert((a[0] as int) != (b[0] as int));
    }
}

/// The texts of `s`, sorted.
pub open spec fn sorted_texts(s: Seq<Seq<char>>) -> Seq<Seq<char>> {
    choose|t: Seq<Seq<char>>| t.to_multiset() == s.to_multiset() && texts_sorted(t)
}

/// Two sorted lists of the same texts are the same list.
pub proof fn lemma_sorted_texts_unique(a: Seq<Seq<char>>, b: Seq<Seq<char>>)
    requires
        a.to_multiset() == b.to_multiset(),
        texts_sorted(a),
        texts_sorted(b),
    ensures
        a == b,
    decreases a.len(),
{
    broadcast use vstd::seq_lib::group_to_multiset_ensures;
    broadcast use vstd::multiset::group_multiset_axioms;

    vstd::seq_lib::to_multiset_len(a);
    vstd::seq_lib::to_multiset_len(b);
    if a.len() == 0 {
        assert(b.len() == 0);
        assert(a =~= b);
    } else {
        assert(b.len() == a.len()) by {
            vstd::seq_lib::to_multiset_len(a);
            vstd::seq_lib::to_multiset_len(b);
        }
        let x = a[0];
        let y = b[0];
        assert(a.to_multiset().count(y) > 0) by {
            assert(b.contains(y));
        }
        assert(b.to_multiset().count(x) > 0) by {
            assert(a.contains(x));
        }
        let iy = choose|i: int| 0 <= i < a.len() && a[i] == y;
        let ix = choose|i: int| 0 <= i < b.len() && b[i] == x;
        lemma_text_lt_total(x, y);
        if x != y {
            if iy > 0 {
                assert(!text_lt(a[iy], a[0]));
            }
            if ix > 0 {
                assert(!text_lt(b[ix], b[0]));
            }
        }
        assert(x == y);
        vstd::seq_lib::to_multiset_remove(a, 0);
        vstd::seq_lib::to_multiset_remove(b, 0);
        assert(a.remove(0) =~= a.drop_first());
        assert(b.remove(0) =~= b.drop_first());
        lemma_sorted_texts_unique(a.drop_first(), b.drop_first());
        assert(a =~= seq![x] + a.drop_first());
        assert(b =~= seq![y] + b.drop_first());
    }
}

/// A sorted list of the texts of `s` is `sorted_texts(s)`.
pub proof fn lemma_is_sorted_texts(s: Seq<Seq<char>>, t: Seq<Seq<char>>)
    requires
        t.to_multiset() == s.to_multiset(),
        texts_sorted(t),
    ensures
        t == sorted_texts(s),
{
    let u = sorted_texts(s);
    lemma_sorted_texts_unique(t, u);
}

} // verus!
