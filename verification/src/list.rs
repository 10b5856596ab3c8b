//! Searching and thinning vectors by a test.

use vstd::prelude::*;

verus! {

/// The first item of `items` that passes `test`.
pub open spec fn first<A>(items: Seq<A>, test: spec_fn(A) -> bool) -> Option<A>
    decreases items.len(),
{
    if items.len() == 0 {
        None
    } else if test(items[0]) {
        Some(items[0])
    } else {
        first(items.drop_first(), test)
    }
}

/// Whether some item of `items` passes `test`.
pub open spec fn some_item<A>(items: Seq<A>, test: spec_fn(A) -> bool) -> bool {
    exists|i: int| 0 <= i < items.len() && test(#[trigger] items[i])
}

/// The first passing item is the one at `index` where nothing before `index` passes.
pub proof fn lemma_first_at<A>(items: Seq<A>, test: spec_fn(A) -> bool, index: int)
    requires
        0 <= index < items.len(),
        test(items[index]),
        forall|i: int| 0 <= i < index ==> !test(#[trigger] items[i]),
    ensures
        first(items, test) == Some(items[index]),
    decreases items.len(),
{
    if index > 0 {
        assert(!test(items[0]));
        let rest = items.drop_first();
        assert forall|i: int| 0 <= i < index - 1 implies !test(#[trigger] rest[i]) by {
            assert(rest[i] == items[i + 1]);
        }
        lemma_first_at(rest, test, index - 1);
    }
}

/// What the first passing item is: one of the items, which passes; there is one if and only if
/// some item passes.
pub proof fn lemma_first<A>(items: Seq<A>, test: spec_fn(A) -> bool)
    ensures
        first(items, test) is Some <==> some_item(items, test),
        first(items, test) matches Some(found) ==> test(found) && items.contains(found),
    decreases items.len(),
{
    if items.len() > 0 {
        if test(items[0]) {
            assert(items.contains(items[0]));
        } else {
            let rest = items.drop_first();
            lemma_first(rest, test);
            assert(forall|i: int| 0 <= i < rest.len() ==> rest[i] == items[i + 1]);
            if some_item(items, test) {
                let i = choose|i: int| 0 <= i < items.len() && test(#[trigger] items[i]);
                assert(rest[i - 1] == items[i]);
            }
            if let Some(found) = first(rest, test) {
                let i = choose|i: int| 0 <= i < rest.len() && rest[i] == found;
                assert(items[i + 1] == found);
            }
        }
    }
}

/// The index of the first item that passes `test`.
pub(crate) fn position<T: DeepView, F: Fn(&T) -> bool>(
    items: &Vec<T>,
    test: F,
    Ghost(model): Ghost<spec_fn(T::V) -> bool>,
) -> (found: Option<usize>)
    requires
        forall|item: &T| #[trigger] call_requires(test, (item,)),
        forall|item: &T, passes: bool| #[trigger]
            call_ensures(test, (item,), passes) ==> passes == model(item.deep_view()),
    ensures
        match found {
            Some(i) => i < items.len() && first(items.deep_view(), model) == Some(
                items[i as int].deep_view(),
            ) && model(items[i as int].deep_view()),
            None => first(items.deep_view(), model) is None,
        },
        found is Some <==> some_item(items.deep_view(), model),
{
    let mut i: usize = 0;
    let ghost view = items.deep_view();
    while i < items.len()
        invariant
            i <= items.len(),
            view == items.deep_view(),
            forall|item: &T| #[trigger] call_requires(test, (item,)),
            forall|item: &T, passes: bool| #[trigger]
                call_ensures(test, (item,), passes) ==> passes == model(item.deep_view()),
            forall|j: int| 0 <= j < i ==> !model(#[trigger] view[j]),
        decreases items.len() - i,
    {
        let passes = test(&items[i]);
        assert(view[i as int] == items[i as int].deep_view());
        if passes {
            proof {
                lemma_first_at(view, model, i as int);
                lemma_first(view, model);
            }
            return Some(i);
        }
        i = i + 1;
    }
    proof {
        lemma_first(view, model);
    }
    None
}

/// Keeps the items that pass `test`, in order.
pub(crate) fn retain<T: DeepView, F: Fn(&T) -> bool>(
    items: &mut Vec<T>,
    test: F,
    Ghost(model): Ghost<spec_fn(T::V) -> bool>,
)
    requires
        forall|item: &T| #[trigger] call_requires(test, (item,)),
        forall|item: &T, passes: bool| #[trigger]
            call_ensures(test, (item,), passes) ==> passes == model(item.deep_view()),
    ensures
        final(items).deep_view() == old(items).deep_view().filter(model),
{
    let ghost before = items.deep_view();
    let ghost mut seen: int = 0;
    let mut i: usize = 0;
    proof {
        assert(before.take(0).filter(model) =~= Seq::empty()) by {
            reveal_with_fuel(Seq::filter, 1);
        }
        assert(before.skip(0) =~= before);
    }
    while i < items.len()
        invariant
            0 <= seen <= before.len(),
            i <= items.len(),
            i == before.take(seen).filter(model).len(),
            items.len() - i == before.len() - seen,
            items.deep_view() == before.take(seen).filter(model) + before.skip(seen),
            forall|item: &T| #[trigger] call_requires(test, (item,)),
            forall|item: &T, passes: bool| #[trigger]
                call_ensures(test, (item,), passes) ==> passes == model(item.deep_view()),
        decreases before.len() - seen,
    {
        let ghost kept = before.take(seen).filter(model);
        proof {
            assert(items.deep_view()[i as int] == before[seen]);
            assert(items.deep_view()[i as int] == items[i as int].deep_view());
            assert(before.take(seen + 1) =~= before.take(seen).push(before[seen]));
            before.take(seen).lemma_filter_push(before[seen], model);
        }
        let ghost now = items@;
        if test(&items[i]) {
            proof {
                assert(items.deep_view() =~= kept.push(before[seen]) + before.skip(seen + 1));
            }
            i = i + 1;
        } else {
            items.remove(i);
            proof {
                assert(items.deep_view() =~= kept + before.skip(seen + 1)) by {
                    assert forall|j: int| 0 <= j < items.len() implies items.deep_view()[j] == (kept
                        + before.skip(seen + 1))[j] by {
                        if j < i {
                            assert(items@[j] == now[j]);
                            assert(now[j].deep_view() == (kept + before.skip(seen))[j]);
                        } else {
                            assert(items@[j] == now[j + 1]);
                            assert(now[j + 1].deep_view() == (kept + before.skip(seen))[j + 1]);
                        }
                    }
                }
            }
        }
        proof {
            seen = seen + 1;
        }
    }
    proof {
        assert(before.take(seen) =~= before);
        assert(before.take(seen).filter(model) + before.skip(seen) =~= before.filter(model));
    }
}

} // verus!
