//! Orders: byte strings and text in dictionary order, and the stable sort
//! that every listing in the library goes through.
use vstd::prelude::*;
use vstd::string::*;
use vstd::utf8::*;

verus! {

/// Dictionary order of byte strings: a proper prefix comes first, else the
/// first differing byte decides.
pub open spec fn bytes_before(a: Seq<u8>, b: Seq<u8>) -> bool
    decreases a.len(),
{
    if b.len() == 0 {
        false
    } else if a.len() == 0 {
        true
    } else {
        a[0] < b[0] || (a[0] == b[0] && bytes_before(a.skip(1), b.skip(1)))
    }
}

/// No byte string comes before itself.
pub proof fn bytes_before_irreflexive(a: Seq<u8>)
    ensures
        !bytes_before(a, a),
    decreases a.len(),
{
    if a.len() > 0 {
        bytes_before_irreflexive(a.skip(1));
    }
}

/// What comes before a predecessor comes before the successor too.
pub proof fn bytes_before_transitive(a: Seq<u8>, b: Seq<u8>, c: Seq<u8>)
    requires
        bytes_before(a, b),
        bytes_before(b, c),
    ensures
        bytes_before(a, c),
    decreases a.len(),
{
    if a.len() > 0 && b.len() > 0 && c.len() > 0 && a[0] == b[0] && b[0] == c[0] {
        bytes_before_transitive(a.skip(1), b.skip(1), c.skip(1));
    }
}

/// Of two different byte strings one comes first.
pub proof fn bytes_before_total(a: Seq<u8>, b: Seq<u8>)
    ensures
        a == b || bytes_before(a, b) || bytes_before(b, a),
    decreases a.len(),
{
    if a.len() == 0 {
        if b.len() == 0 {
            assert(a =~= b);
        }
    } else if b.len() > 0 && a[0] == b[0] {
        bytes_before_total(a.skip(1), b.skip(1));
        if a.skip(1) == b.skip(1) {
            assert(a =~= seq![a[0]] + a.skip(1));
            assert(b =~= seq![b[0]] + b.skip(1));
        }
    }
}

/// Decides dictionary order of byte strings.
pub fn is_bytes_before(a: &[u8], b: &[u8]) -> (before: bool)
    ensures
        before == bytes_before(a@, b@),
{
    let mut i: usize = 0;
    assert(a@.skip(0) =~= a@);
    assert(b@.skip(0) =~= b@);
    loop
        invariant
            i <= a@.len(),
            i <= b@.len(),
            bytes_before(a@, b@) == bytes_before(a@.skip(i as int), b@.skip(i as int)),
        decreases a@.len() - i,
    {
        if i >= b.len() {
            return false;
        }
        if i >= a.len() {
            return true;
        }
        if a[i] < b[i] {
            return true;
        }
        if b[i] < a[i] {
            return false;
        }
        assert(a@.skip(i as int).skip(1) =~= a@.skip(i + 1));
        assert(b@.skip(i as int).skip(1) =~= b@.skip(i + 1));
        i = i + 1;
    }
}

/// Dictionary order of text, by its UTF-8 bytes.
pub open spec fn text_before(a: Seq<char>, b: Seq<char>) -> bool {
    bytes_before(encode_utf8(a), encode_utf8(b))
}

/// Decides dictionary order of text.
pub fn is_text_before(a: &str, b: &str) -> (before: bool)
    ensures
        before == text_before(a@, b@),
{
    is_bytes_before(a.as_bytes(), b.as_bytes())
}

/// Dictionary order of text is strict and total.
pub proof fn text_before_is_strict_total(a: Seq<char>, b: Seq<char>)
    ensures
        !text_before(a, a),
        !(text_before(a, b) && text_before(b, a)),
        a == b || text_before(a, b) || text_before(b, a),
{
    let x = encode_utf8(a);
    let y = encode_utf8(b);
    bytes_before_irreflexive(x);
    bytes_before_total(x, y);
    crate::text::encoding_is_injective(a, b);
    if bytes_before(x, y) && bytes_before(y, x) {
        bytes_before_transitive(x, y, x);
    }
}

/// A value that listings order by.
pub trait Ranked: View + Sized {
    /// Whether `a` is listed strictly before `b`.
    spec fn ranks_before(a: Self::V, b: Self::V) -> bool;

    /// Decides [`Self::ranks_before`].
    fn is_ranked_before(&self, other: &Self) -> (before: bool)
        ensures
            before == Self::ranks_before(self@, other@),
    ;

    /// The order is strict and transitive on both sides.
    proof fn ranks_before_is_weak_order(a: Self::V, b: Self::V, c: Self::V)
        ensures
            !(Self::ranks_before(a, b) && Self::ranks_before(b, a)),
            Self::ranks_before(a, b) && Self::ranks_before(b, c) ==> Self::ranks_before(a, c),
            !Self::ranks_before(a, b) && !Self::ranks_before(b, c) ==> !Self::ranks_before(a, c),
    ;
}

/// Where a value lands when it is filed behind everything that does not rank
/// after it.
pub open spec fn filed<T: Ranked>(listed: Seq<T::V>, value: T::V) -> Seq<T::V>
    decreases listed.len(),
{
    if listed.len() == 0 || !T::ranks_before(value, listed.last()) {
        listed.push(value)
    } else {
        filed::<T>(listed.drop_last(), value).push(listed.last())
    }
}

/// The stable sort: values filed one after the other.
pub open spec fn sorted<T: Ranked>(values: Seq<T::V>) -> Seq<T::V>
    decreases values.len(),
{
    if values.len() == 0 {
        Seq::empty()
    } else {
        filed::<T>(sorted::<T>(values.drop_last()), values.last())
    }
}

/// Nothing is listed behind a value that ranks after it.
pub open spec fn in_order<T: Ranked>(listed: Seq<T::V>) -> bool {
    forall|i: int, j: int|
        #![trigger listed[i], listed[j]]
        0 <= i < j < listed.len() ==> !T::ranks_before(listed[j], listed[i])
}

/// Filing keeps a listing in order and adds exactly the value.
pub proof fn filed_keeps_order<T: Ranked>(listed: Seq<T::V>, value: T::V)
    requires
        in_order::<T>(listed),
    ensures
        in_order::<T>(filed::<T>(listed, value)),
        filed::<T>(listed, value).to_multiset() == listed.to_multiset().insert(value),
        filed::<T>(listed, value).len() == listed.len() + 1,
    decreases listed.len(),
{
    broadcast use vstd::seq_lib::group_to_multiset_ensures;

    let out = filed::<T>(listed, value);
    if listed.len() == 0 || !T::ranks_before(value, listed.last()) {
        assert forall|i: int, j: int|
            #![trigger out[i], out[j]]
            0 <= i < j < out.len() implies !T::ranks_before(out[j], out[i]) by {
            if j == listed.len() && i < j - 1 {
                T::ranks_before_is_weak_order(value, listed.last(), listed[i]);
            }
        }
    } else {
        let last = listed.last();
        let inner = filed::<T>(listed.drop_last(), value);
        filed_keeps_order::<T>(listed.drop_last(), value);
        assert(listed =~= listed.drop_last().push(last));
        assert(out.to_multiset() =~= listed.to_multiset().insert(value));
        assert forall|i: int, j: int|
            #![trigger out[i], out[j]]
            0 <= i < j < out.len() implies !T::ranks_before(out[j], out[i]) by {
            if j == inner.len() {
                assert(inner.to_multiset().count(inner[i]) > 0) by {
                    assert(inner.contains(inner[i]));
                }
                if inner[i] == value {
                    T::ranks_before_is_weak_order(value, last, value);
                } else {
                    assert(listed.drop_last().to_multiset().count(inner[i]) > 0);
                    assert(listed.drop_last().contains(inner[i]));
                    let k = choose|k: int|
                        0 <= k < listed.drop_last().len() && listed.drop_last()[k] == inner[i];
                    assert(listed[k] == inner[i]);
                }
            }
        }
    }
}

/// The stable sort puts its input in order and neither adds nor drops a value.
pub proof fn sorted_is_in_order<T: Ranked>(values: Seq<T::V>)
    ensures
        in_order::<T>(sorted::<T>(values)),
        sorted::<T>(values).to_multiset() == values.to_multiset(),
        sorted::<T>(values).len() == values.len(),
    decreases values.len(),
{
    broadcast use vstd::seq_lib::group_to_multiset_ensures;

    if values.len() > 0 {
        sorted_is_in_order::<T>(values.drop_last());
        filed_keeps_order::<T>(sorted::<T>(values.drop_last()), values.last());
        assert(values =~= values.drop_last().push(values.last()));
    }
}

/// Files one value into a listing.
pub fn file<T: Ranked>(listed: &mut Vec<T>, value: T)
    ensures
        crate::list::views(final(listed)@) == filed::<T>(crate::list::views(old(listed)@), value@),
{
    let mut at: usize = listed.len();
    let ghost whole = listed@;
    let ghost all = crate::list::views(whole);
    assert(all.take(at as int) =~= all);
    assert(all.skip(at as int) =~= Seq::<T::V>::empty());
    assert(filed::<T>(all, value@) =~= filed::<T>(all.take(at as int), value@) + all.skip(at as int));
    while at > 0 && value.is_ranked_before(&listed[at - 1])
        invariant
            at <= all.len(),
            listed@ == whole,
            all == crate::list::views(whole),
            filed::<T>(all, value@) == filed::<T>(all.take(at as int), value@) + all.skip(at as int),
        decreases at,
    {
        assert(all.take(at as int).drop_last() =~= all.take(at - 1));
        assert(all.take(at as int).last() == whole[at - 1]@);
        assert(seq![all[at - 1]] + all.skip(at as int) =~= all.skip(at - 1));
        assert(filed::<T>(all.take(at as int), value@) == filed::<T>(all.take(at - 1), value@).push(
            all[at - 1],
        ));
        assert(filed::<T>(all.take(at - 1), value@).push(all[at - 1]) + all.skip(at as int)
            =~= filed::<T>(all.take(at - 1), value@) + (seq![all[at - 1]] + all.skip(at as int)));
        at = at - 1;
    }
    listed.insert(at, value);
    assert(filed::<T>(all.take(at as int), value@) == all.take(at as int).push(value@)) by {
        if at > 0 {
            assert(all.take(at as int).last() == whole[at - 1]@);
        }
    }
    assert(crate::list::views(listed@) =~= all.take(at as int).push(value@) + all.skip(at as int));
}

/// Sorts a listing, keeping equal ranks in their order.
pub fn sort<T: Ranked>(values: Vec<T>) -> (listed: Vec<T>)
    ensures
        crate::list::views(listed@) == sorted::<T>(crate::list::views(values@)),
{
    let mut listed: Vec<T> = Vec::new();
    let ghost whole = values@;
    let ghost all = crate::list::views(whole);
    assert(crate::list::views(listed@) =~= sorted::<T>(all.take(0)));
    for value in it: values
        invariant
            it.seq() == whole,
            all == crate::list::views(whole),
            crate::list::views(listed@) == sorted::<T>(all.take(it.index() as int)),
    {
        let ghost before = all.take(it.index() as int);
        let ghost after = all.take(it.index() + 1);
        assert(after.drop_last() =~= before);
        assert(after.last() == value@);
        file(&mut listed, value);
    }
    assert(all.take(all.len() as int) =~= all);
    listed
}

} // verus!
