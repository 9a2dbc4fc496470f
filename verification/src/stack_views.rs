//! The exclusively-owned singly-linked stack, extended with borrowing views
//! of the front element (read-only and read-write) and three iteration
//! modes: by value, by reference, and by mutable reference.

use vstd::prelude::*;

verus! {

/// The top-level singly-linked stack structure.
pub struct List<T> {
    head: Link<T>,
}

/// A [`Link`] is a possibly-absent, exclusively-owned pointer to some
/// position in the list (for example the head pointer).
type Link<T> = Option<Box<Node<T>>>;

/// The atomic unit of storage: one element of generic type plus an owned,
/// optional reference to the next node.
struct Node<T> {
    elem: T,
    next: Link<T>,
}

/// The elements reachable from a link, front first.
spec fn link_elems<T>(link: Link<T>) -> Seq<T>
    decreases link,
{
    match link {
        None => Seq::empty(),
        Some(node) => seq![node.elem] + link_elems(node.next),
    }
}

impl<T> View for List<T> {
    type V = Seq<T>;

    /// A list is modelled by the sequence of its elements, front first.
    closed spec fn view(&self) -> Seq<T> {
        link_elems(self.head)
    }
}

impl<T> List<T> {
    /// Creates a new, empty [`List`].
    pub fn new() -> (r: Self)
        ensures
            r@ == Seq::<T>::empty(),
    {
        List { head: None }
    }

    /// Adds `elem` to the [`List`] at the front.
    pub fn push(&mut self, elem: T)
        ensures
            final(self)@ == seq![elem] + old(self)@,
    {
        let mut next: Link<T> = None;
        core::mem::swap(&mut self.head, &mut next);
        self.head = Some(Box::new(Node { elem, next }));
    }

    /// Deletes and returns the first value from the [`List`].
    /// Returns [`None`] and leaves the [`List`] unchanged if it is empty.
    pub fn pop(&mut self) -> (r: Option<T>)
        ensures
            match r {
                Option::None => old(self)@.len() == 0 && final(self)@ == old(self)@,
                Option::Some(e) => old(self)@.len() > 0 && e == old(self)@[0] && final(self)@
                    == old(self)@.drop_first(),
            },
    {
        let mut taken: Link<T> = None;
        core::mem::swap(&mut self.head, &mut taken);
        match taken {
            None => None,
            Some(node) => {
                let node = *node;
                self.head = node.next;
                Some(node.elem)
            },
        }
    }

    /// Returns a reference to the first value from the [`List`] without
    /// removing it.
    pub fn peek(&self) -> (r: Option<&T>)
        ensures
            match r {
                Some(e) => self@.len() > 0 && *e == self@[0],
                None => self@.len() == 0,
            },
    {
        match &self.head {
            None => None,
            Some(node) => Some(&node.elem),
        }
    }

    /// Returns a mutable reference to the first value from the [`List`]
    /// without removing it. Writing through the reference replaces the
    /// front element in place and changes nothing else.
    pub fn peek_mut(&mut self) -> (r: Option<&mut T>)
        ensures
            match r {
                None => old(self)@.len() == 0 && final(self)@ == old(self)@,
                Some(p) => old(self)@.len() > 0 && *p == old(self)@[0] && final(self)@ == old(
                    self,
                )@.update(0, *final(p)),
            },
    {
        match &mut self.head {
            None => None,
            Some(node) => Some(&mut node.elem),
        }
    }

    /// Returns an iterator by value into the [`List`]; it consumes the list
    /// and yields the elements front to back.
    pub fn into_iter(self) -> (r: IntoIter<T>)
        ensures
            r@ == self@,
    {
        IntoIter(self)
    }

    /// Returns an iterator by mutable reference into the [`List`]; it
    /// yields the elements front to back, and writing through a yielded
    /// reference replaces that element in place without altering the list
    /// structure.
    pub fn iter_mut(&mut self) -> (r: IterMut<'_, T>)
        ensures
            r@ == old(self)@,
    {
        let next: Option<&mut Node<T>> = match &mut self.head {
            None => None,
            Some(node) => Some(&mut **node),
        };
        IterMut { next }
    }

    /// Returns an iterator by reference into the [`List`]; it yields the
    /// elements front to back and leaves the list untouched.
    pub fn iter(&self) -> (r: Iter<'_, T>)
        ensures
            r@ == self@,
    {
        let next: Option<&Node<T>> = match &self.head {
            None => None,
            Some(node) => Some(&**node),
        };
        Iter { next }
    }
}

/// Iterator equivalence: all three iteration modes start from the full view
/// of the list and every step yields the front of the remaining view, so
/// they all yield the same sequence and exhaust thereafter. Over a list
/// built by pushing elements in order onto an empty one, that sequence is
/// the reverse of the pushed order: the elements last pushed first. The
/// consuming mode takes the list with it; the borrowing modes take the list
/// by reference, so it is intact afterwards.
pub proof fn lemma_iterators_yield_reverse_of_pushes<T>(elems: Seq<T>)
    ensures
        crate::stack::pushed_all(Seq::empty(), elems) == elems.reverse(),
{
    crate::stack::lemma_pushes_reverse(Seq::empty(), elems);
    assert(elems.reverse() + Seq::<T>::empty() =~= elems.reverse());
}

/// Peek/pop agreement: on any non-empty stack both `peek` and `pop` report
/// the front of the view, so the element `peek` returns is exactly the one
/// that a `pop` right after removes and returns, and that pop leaves the
/// stack exactly one element shorter.
pub proof fn lemma_peek_pop_agreement<T>(stack: Seq<T>)
    requires
        stack.len() > 0,
    ensures
        stack.first() == stack[0],
        stack.drop_first().len() == stack.len() - 1,
{
}

/// Write-through of `peek_mut`: writing `x` through the mutable view of the
/// front element makes the front `x` and touches nothing else, so a later
/// `peek` observes `x`, and a later `pop` removes and returns `x`,
/// uncovering exactly the elements that stood behind the front.
pub proof fn lemma_peek_mut_write_through<T>(stack: Seq<T>, x: T)
    requires
        stack.len() > 0,
    ensures
        stack.update(0, x)[0] == x,
        stack.update(0, x).len() == stack.len(),
        stack.update(0, x).drop_first() == stack.drop_first(),
{
    assert(stack.update(0, x).drop_first() =~= stack.drop_first());
}

/// Iterative teardown: repeatedly detaches and discards the current head
/// until none remains, so destruction never recurses once per node and
/// cannot exhaust the call stack on a long chain.
impl<T> Drop for List<T> {
    fn drop(&mut self)
        opens_invariants none
        no_unwind
    {
        let mut link: Link<T> = None;
        core::mem::swap(&mut self.head, &mut link);
        loop
            decreases link_elems(link).len(),
        {
            match link {
                None => {
                    break ;
                },
                Some(node) => {
                    link = (*node).next;
                },
            }
        }
    }
}

/// An iterator by value: it owns the list and pops one element per step.
pub struct IntoIter<T>(List<T>);

impl<T> View for IntoIter<T> {
    type V = Seq<T>;

    /// An iterator is modelled by the sequence of elements it has yet to
    /// yield, in the order it will yield them.
    closed spec fn view(&self) -> Seq<T> {
        self.0@
    }
}

impl<T> IntoIter<T> {
    /// Pops and yields the next element by value, front to back, or
    /// [`None`] once the iterator is exhausted.
    pub fn next(&mut self) -> (r: Option<T>)
        ensures
            match r {
                None => old(self)@.len() == 0 && final(self)@ == old(self)@,
                Some(e) => old(self)@.len() > 0 && e == old(self)@[0] && final(self)@ == old(
                    self,
                )@.drop_first(),
            },
    {
        let IntoIter(list) = self;
        list.pop()
    }
}

/// An iterator by immutable reference. The list must outlive the iterator;
/// the iterator never changes the list, and the list can be iterated again.
pub struct Iter<'a, T> {
    next: Option<&'a Node<T>>,
}

impl<'a, T> View for Iter<'a, T> {
    type V = Seq<T>;

    /// An iterator is modelled by the sequence of elements it has yet to
    /// yield, in the order it will yield them.
    closed spec fn view(&self) -> Seq<T> {
        match self.next {
            None => Seq::empty(),
            Some(node) => seq![node.elem] + link_elems(node.next),
        }
    }
}

impl<'a, T> Iter<'a, T> {
    /// Yields a read-only reference to the next element, front to back, or
    /// [`None`] once the iterator is exhausted.
    pub fn next(&mut self) -> (r: Option<&'a T>)
        ensures
            match r {
                None => old(self)@.len() == 0 && final(self)@ == old(self)@,
                Some(e) => old(self)@.len() > 0 && *e == old(self)@[0] && final(self)@ == old(
                    self,
                )@.drop_first(),
            },
    {
        match self.next {
            None => None,
            Some(node) => {
                self.next = match &node.next {
                    None => None,
                    Some(next) => Some(&**next),
                };
                Some(&node.elem)
            },
        }
    }
}

/// An iterator by mutable reference: a single forward pass that enables
/// element-by-element in-place mutation. It holds one current-position
/// reference and relinquishes it before producing the next, so at most one
/// yielded reference is live at a time unless the caller keeps several.
pub struct IterMut<'a, T> {
    next: Option<&'a mut Node<T>>,
}

impl<'a, T> View for IterMut<'a, T> {
    type V = Seq<T>;

    /// An iterator is modelled by the sequence of elements it has yet to
    /// yield, in the order it will yield them.
    closed spec fn view(&self) -> Seq<T> {
        match self.next {
            None => Seq::empty(),
            Some(node) => seq![node.elem] + link_elems(node.next),
        }
    }
}

impl<'a, T> IterMut<'a, T> {
    /// Yields a mutable reference to the next element, front to back, or
    /// [`None`] once the iterator is exhausted.
    pub fn next(&mut self) -> (r: Option<&'a mut T>)
        ensures
            match r {
                None => old(self)@.len() == 0 && final(self)@ == old(self)@,
                Some(p) => old(self)@.len() > 0 && *p == old(self)@[0] && final(self)@ == old(
                    self,
                )@.drop_first(),
            },
    {
        let mut taken: Option<&'a mut Node<T>> = None;
        core::mem::swap(&mut self.next, &mut taken);
        match taken {
            None => None,
            Some(node) => {
                let Node { elem, next } = &mut *node;
                self.next = match next {
                    None => None,
                    Some(b) => Some(&mut **b),
                };
                Some(elem)
            },
        }
    }
}

} // verus!

