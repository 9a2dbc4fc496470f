//! An immutable, structurally-shared singly-linked list: prepending returns a
//! new list whose tail chain is shared, by reference count, with the source
//! list, which stays usable and unchanged. The reference counting is atomic,
//! so handles to lists sharing one chain may be cloned and dropped from
//! several threads.

use vstd::prelude::*;
use std::sync::Arc;

verus! {

/// An immutable linked list, as in a functional programming language.
pub struct List<T> {
    head: Link<T>,
}

/// A possibly-absent, shared-ownership reference to the next node.
type Link<T> = Option<Arc<Node<T>>>;

/// One element of storage: a value plus the link to the rest of the chain.
struct Node<T> {
    elem: T,
    next: Link<T>,
}

/// The elements reachable from a link, front first.
spec fn link_elems<T>(link: Link<T>) -> Seq<T>
    decreases link,
{
    match link {
        None => Seq::empty(),
        Some(node) => seq![node.elem] + link_elems(node.next),
    }
}

impl<T> View for List<T> {
    type V = Seq<T>;

    /// A list is modelled by the sequence of its elements, front first.
    closed spec fn view(&self) -> Seq<T> {
        link_elems(self.head)
    }
}

impl<T> List<T> {
    /// Creates a new, empty [`List`].
    pub fn new() -> (r: Self)
        ensures
            r@ == Seq::<T>::empty(),
    {
        List { head: None }
    }

    /// Returns a brand-new list with `elem` at the front and the receiver's
    /// whole chain, shared rather than copied, behind it. The receiver is
    /// unchanged and stays independently usable.
    pub fn prepend(&self, elem: T) -> (r: List<T>)
        ensures
            r@ == seq![elem] + self@,
    {
        let next: Link<T> = match &self.head {
            None => None,
            Some(node) => Some(node.clone()),
        };
        List { head: Some(Arc::new(Node { elem, next })) }
    }

    /// Returns the tail of the list: everything after the first element,
    /// shared with the receiver. The tail of an empty list is empty.
    pub fn tail(&self) -> (r: List<T>)
        ensures
            self@.len() == 0 ==> r@ == Seq::<T>::empty(),
            self@.len() > 0 ==> r@ == self@.drop_first(),
    {
        let head: Link<T> = match &self.head {
            None => None,
            Some(node) => {
                match &node.next {
                    None => None,
                    Some(next) => Some(next.clone()),
                }
            },
        };
        List { head }
    }

    /// Returns a read-only view of the first element, or [`None`] if the
    /// list is empty.
    pub fn head(&self) -> (r: Option<&T>)
        ensures
            match r {
                Some(e) => self@.len() > 0 && *e == self@[0],
                None => self@.len() == 0,
            },
    {
        match &self.head {
            None => None,
            Some(node) => Some(&node.elem),
        }
    }

    /// Returns a forward, read-only iterator over the list, starting fresh
    /// from the current head.
    pub fn iter(&self) -> (r: Iter<'_, T>)
        ensures
            r@ == self@,
    {
        let next: Option<&Node<T>> = match &self.head {
            None => None,
            Some(node) => Some(&**node),
        };
        Iter { next }
    }
}

/// Persistence of `prepend`: prepending `x` onto a list yields a list whose
/// head is `x`, one element longer, with every element of the source behind
/// the new head. The source is taken by shared reference, so its own view
/// cannot change, and it stays independently usable: further prepends onto
/// it yield sibling lists that share its chain.
pub proof fn lemma_prepend_persistence<T>(list: Seq<T>, x: T)
    ensures
        (seq![x] + list).len() == list.len() + 1,
        (seq![x] + list)[0] == x,
        (seq![x] + list).drop_first() == list,
{
    assert((seq![x] + list).drop_first() =~= list);
}

/// Structural sharing observed through `tail`: the tail of `prepend(a)` has
/// exactly the source list's view, so its head and its whole iteration
/// sequence are those of the source.
pub proof fn lemma_prepend_then_tail<T>(list: Seq<T>, a: T)
    ensures
        (seq![a] + list).len() > 0,
        (seq![a] + list).drop_first() == list,
{
    assert((seq![a] + list).drop_first() =~= list);
}

/// A forward, read-only iterator over a [`List`]. The list must outlive the
/// iterator; the iterator never changes the list.
pub struct Iter<'a, T> {
    next: Option<&'a Node<T>>,
}

impl<'a, T> View for Iter<'a, T> {
    type V = Seq<T>;

    /// An iterator is modelled by the sequence of elements it has yet to
    /// yield, in the order it will yield them.
    closed spec fn view(&self) -> Seq<T> {
        match self.next {
            None => Seq::empty(),
            Some(node) => seq![node.elem] + link_elems(node.next),
        }
    }
}

impl<'a, T> Iter<'a, T> {
    /// Yields a read-only reference to the next element, front to back, or
    /// [`None`] once the iterator is exhausted.
    pub fn next(&mut self) -> (r: Option<&'a T>)
        ensures
            match r {
                None => old(self)@.len() == 0 && final(self)@ == old(self)@,
                Some(e) => old(self)@.len() > 0 && *e == old(self)@[0] && final(self)@ == old(
                    self,
                )@.drop_first(),
            },
    {
        match self.next {
            None => None,
            Some(node) => {
                self.next = match &node.next {
                    None => None,
                    Some(next) => Some(&**next),
                };
                Some(&node.elem)
            },
        }
    }
}

} // verus!
