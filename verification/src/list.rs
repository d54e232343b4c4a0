use crate::types::Identity;
use vstd::prelude::*;

verus! {

/// A value that is told apart from others of its type by a name.
pub trait Named: DeepView<V = Seq<char>> + Sized {
    /// Whether two values carry the same name.
    fn same_name(&self, other: &Self) -> (r: bool)
        ensures
            r == (self.deep_view() == other.deep_view()),
    ;
}

impl Named for String {
    fn same_name(&self, other: &Self) -> (r: bool) {
        *self == *other
    }
}

impl Named for Identity {
    fn same_name(&self, other: &Self) -> (r: bool) {
        self.same(other)
    }
}

/// `list` with `item` at its end, unless `item` already occurs in it.
pub open spec fn with_member<A>(list: Seq<A>, item: A) -> Seq<A> {
    if list.contains(item) {
        list
    } else {
        list.push(item)
    }
}

/// Whether `item` occurs in `list`.
pub fn list_contains<T: Named>(list: &Vec<T>, item: &T) -> (r: bool)
    ensures
        r == list.deep_view().contains(item.deep_view()),
{
    let mut i: usize = 0;
    while i < list.len()
        invariant
            i <= list.len(),
            forall|j: int| 0 <= j < i ==> list.deep_view()[j] != item.deep_view(),
        decreases list.len() - i,
    {
        if list[i].same_name(item) {
            assert(list.deep_view()[i as int] == item.deep_view());
            return true;
        }
        i += 1;
    }
    false
}

/// Appends `item` to `list` unless it is already a member, so that a list
/// that held no value twice still holds none twice.
pub fn append_unique<T: Named>(list: &mut Vec<T>, item: T)
    ensures
        final(list).deep_view() == with_member(old(list).deep_view(), item.deep_view()),
{
    if !list_contains(list, &item) {
        list.push(item);
        assert(list.deep_view() =~= old(list).deep_view().push(item.deep_view()));
    }
}

} // verus!
