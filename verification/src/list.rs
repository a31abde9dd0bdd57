//! Lists by what their items stand for: copies, selections and look-ups.
use vstd::prelude::*;

verus! {

/// A list by the views of its items.
pub open spec fn views<T: View>(items: Seq<T>) -> Seq<T::V> {
    items.map_values(|item: T| item@)
}

/// A record that can be copied.
pub trait Record: View + Sized {
    /// A copy that stands for the same.
    fn copied(&self) -> (copy: Self)
        ensures
            copy@ == self@,
    ;
}

/// Copies a list.
pub fn copy_all<T: Record>(items: &Vec<T>) -> (copy: Vec<T>)
    ensures
        views(copy@) == views(items@),
{
    let mut copy: Vec<T> = Vec::new();
    let mut i: usize = 0;
    while i < items.len()
        invariant
            i <= items@.len(),
            views(copy@) == views(items@).take(i as int),
        decreases items@.len() - i,
    {
        let ghost before = views(copy@);
        copy.push(items[i].copied());
        assert(views(copy@) =~= before.push(items@[i as int]@));
        assert(views(copy@) =~= views(items@).take(i + 1));
        i = i + 1;
    }
    assert(views(items@).take(i as int) =~= views(items@));
    copy
}

/// Keeping one more item, or not.
pub proof fn filter_extends<V>(items: Seq<V>, keep: spec_fn(V) -> bool, i: int)
    requires
        0 <= i < items.len(),
    ensures
        items.take(i + 1).filter(keep) == (if keep(items[i]) {
            items.take(i).filter(keep).push(items[i])
        } else {
            items.take(i).filter(keep)
        }),
{
    reveal(Seq::filter);
    assert(items.take(i + 1).drop_last() =~= items.take(i));
    assert(items.take(i + 1).last() == items[i]);
}

/// The items of a list that a test keeps, in their order.
pub(crate) fn kept<T: View, F: Fn(&T) -> bool>(
    items: Vec<T>,
    test: F,
    Ghost(keep): Ghost<spec_fn(T::V) -> bool>,
) -> (rest: Vec<T>)
    requires
        forall|item: &T| #[trigger] call_requires(test, (item,)),
        forall|item: &T, answer: bool| #[trigger]
            call_ensures(test, (item,), answer) ==> answer == keep(item@),
    ensures
        views(rest@) == views(items@).filter(keep),
{
    let mut rest: Vec<T> = Vec::new();
    let ghost whole = items@;
    let ghost all = views(whole);
    proof {
        reveal(Seq::filter);
        assert(all.take(0).filter(keep) =~= Seq::<T::V>::empty());
        assert(views(rest@) =~= Seq::<T::V>::empty());
    }
    for item in it: items
        invariant
            it.seq() == whole,
            all == views(whole),
            forall|item: &T| #[trigger] call_requires(test, (item,)),
            forall|item: &T, answer: bool| #[trigger]
                call_ensures(test, (item,), answer) ==> answer == keep(item@),
            views(rest@) == all.take(it.index() as int).filter(keep),
    {
        let ghost i = it.index() as int;
        proof {
            filter_extends(all, keep, i);
        }
        assert(all[i] == item@);
        if test(&item) {
            let ghost before = views(rest@);
            rest.push(item);
            assert(views(rest@) =~= before.push(item@));
        }
    }
    assert(all.take(all.len() as int) =~= all);
    rest
}

} // verus!
