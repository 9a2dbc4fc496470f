//! An exclusively-owned singly-linked stack: elements are pushed and popped
//! at the front only, and every node is owned by exactly one predecessor.

use vstd::prelude::*;

verus! {

/// The top-level singly-linked stack structure.
pub struct List<T> {
    head: Link<T>,
}

/// A possibly-absent, exclusively-owned reference to the next node.
enum Link<T> {
    Empty,
    More(Box<Node<T>>),
}

/// One element of storage: a value plus the link to the rest of the chain.
struct Node<T> {
    elem: T,
    next: Link<T>,
}

impl<T> Link<T> {
    /// The elements reachable from this link, front first.
    spec fn elems(self) -> Seq<T>
        decreases self,
    {
        match self {
            Link::Empty => Seq::empty(),
            Link::More(node) => seq![node.elem] + node.next.elems(),
        }
    }
}

impl<T> View for List<T> {
    type V = Seq<T>;

    /// A list is modelled by the sequence of its elements, front first.
    closed spec fn view(&self) -> Seq<T> {
        self.head.elems()
    }
}

impl<T> List<T> {
    /// Creates a new, empty [`List`].
    pub fn new() -> (r: Self)
        ensures
            r@ == Seq::<T>::empty(),
    {
        List { head: Link::Empty }
    }

    /// Adds `elem` to the [`List`] at the front.
    pub fn push(&mut self, elem: T)
        ensures
            final(self)@ == seq![elem] + old(self)@,
    {
        let mut next = Link::Empty;
        core::mem::swap(&mut self.head, &mut next);
        self.head = Link::More(Box::new(Node { elem, next }));
    }

    /// Deletes and returns the first value from the [`List`].
    /// Returns [`None`] and leaves the [`List`] unchanged if it is empty.
    pub fn pop(&mut self) -> (r: Option<T>)
        ensures
            match r {
                Option::None => old(self)@.len() == 0 && final(self)@ == old(self)@,
                Option::Some(e) => old(self)@.len() > 0 && e == old(self)@[0] && final(self)@
                    == old(self)@.drop_first(),
            },
    {
        let mut taken = Link::Empty;
        core::mem::swap(&mut self.head, &mut taken);
        match taken {
            Link::Empty => None,
            Link::More(node) => {
                let node = *node;
                self.head = node.next;
                Some(node.elem)
            },
        }
    }
}

/// The view of a stack after pushing each element of `elems`, in order
/// (front of `elems` first), onto a stack whose view is `start`.
pub open spec fn pushed_all<T>(start: Seq<T>, elems: Seq<T>) -> Seq<T>
    decreases elems.len(),
{
    if elems.len() == 0 {
        start
    } else {
        pushed_all(seq![elems[0]] + start, elems.drop_first())
    }
}

/// Last-in, first-out order: pushing the elements of `elems`, in order,
/// onto a stack turns its view into the reverse of `elems` followed by what
/// was there before. Since `pop` removes and returns the front of the view,
/// popping after those pushes yields the pushed elements last first, then
/// uncovers the stack as it stood before, and popping when empty reports absence
/// and changes nothing.
pub proof fn lemma_pushes_reverse<T>(start: Seq<T>, elems: Seq<T>)
    ensures
        pushed_all(start, elems) == elems.reverse() + start,
    decreases elems.len(),
{
    if elems.len() == 0 {
        assert(pushed_all(start, elems) =~= elems.reverse() + start);
    } else {
        lemma_pushes_reverse(seq![elems[0]] + start, elems.drop_first());
        assert(elems.drop_first().reverse() + (seq![elems[0]] + start) =~= elems.reverse()
            + start);
    }
}

/// Popping immediately after a push yields the pushed element and leaves
/// the stack exactly as it was before the push.
pub proof fn lemma_push_then_pop<T>(stack: Seq<T>, elem: T)
    ensures
        (seq![elem] + stack).len() > 0,
        (seq![elem] + stack)[0] == elem,
        (seq![elem] + stack).drop_first() == stack,
{
    assert((seq![elem] + stack).drop_first() =~= stack);
}

/// Iterative teardown: repeatedly detaches and discards the current head
/// until none remains, so destruction never recurses once per node and
/// cannot exhaust the call stack on a long chain.
impl<T> Drop for List<T> {
    fn drop(&mut self)
        opens_invariants none
        no_unwind
    {
        let mut link = Link::Empty;
        core::mem::swap(&mut self.head, &mut link);
        loop
            decreases link.elems().len(),
        {
            match link {
                Link::Empty => {
                    break ;
                },
                Link::More(node) => {
                    link = (*node).next;
                },
            }
        }
    }
}

} // verus!
