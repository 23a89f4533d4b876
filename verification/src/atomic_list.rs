//! A prepend-only list with a one-shot, consuming drain.
//!
//! `AtomicList` supports two operations beyond construction: `push`, which
//! prepends a value at the head, and `into_iter`, which consumes the list and
//! hands the whole chain to a single consumer as a one-shot iterator yielding
//! the values most-recently-inserted first. Draining and teardown require
//! exclusive ownership of the list, which the signatures enforce: nothing is
//! ever removed one node at a time from a shared list, and the whole chain is
//! freed at once when the list or a partly consumed iterator is discarded.

use vstd::prelude::*;

verus! {

/// An owning link to the rest of a chain: either empty or the unique owner of
/// the next node.
pub type NodePtr<T> = Option<Box<Node<T>>>;

/// One element of a chain: a value together with the exclusive owning link to
/// the rest. Chains are acyclic by construction, since every node is owned by
/// exactly one predecessor (or by a list head).
#[derive(Debug)]
pub struct Node<T> {
    pub value: T,
    pub next: NodePtr<T>,
}

/// The sequence of values reachable from a link, head first. Since `push`
/// prepends, this is most-recently-inserted-first order.
pub open spec fn chain_seq<T>(link: NodePtr<T>) -> Seq<T>
    decreases link,
{
    match link {
        None => Seq::empty(),
        Some(node) => seq![node.value] + chain_seq(node.next),
    }
}

/// A list built by prepending at the head. Its abstract value is the sequence
/// of held values, most recently inserted first.
#[derive(Debug)]
pub struct AtomicList<T>(NodePtr<T>);

impl<T> View for AtomicList<T> {
    type V = Seq<T>;

    closed spec fn view(&self) -> Seq<T> {
        chain_seq(self.0)
    }
}

impl<T> AtomicList<T> {
    /// Produces an empty list. Never fails.
    pub fn new() -> (list: Self)
        ensures
            list@ == Seq::<T>::empty(),
    {
        AtomicList(None)
    }

    /// Prepends `value` at the head. The value is never lost: afterwards it
    /// stands first in the list, and every value already held keeps its place
    /// behind it.
    pub fn push(&mut self, value: T)
        ensures
            final(self)@ == seq![value] + old(self)@,
    {
        let head = self.0.take();
        self.0 = Some(Box::new(Node { value, next: head }));
    }

    /// Detaches the entire chain, consuming the list, and returns it as a
    /// one-shot iterator that yields the values most-recently-inserted first.
    /// Taking the list by value is what makes draining safe: the caller must
    /// hold the sole handle, so no insertion can race with the detach.
    pub fn into_iter(self) -> (iter: AtomicListIterator<T>)
        ensures
            iter@ == self@,
    {
        let mut list = self;
        let head = list.0.take();
        AtomicListIterator(head)
    }
}

/// Frees a whole chain iteratively, one node per step. Each step detaches the
/// head node's link before the node itself is discarded, so the stack depth
/// stays constant however long the chain is; a structurally recursive
/// destructor would instead grow the stack with the chain.
fn free_chain<T>(chain: NodePtr<T>)
    opens_invariants none
    no_unwind
{
    let mut cursor = chain;
    loop
        decreases chain_seq(cursor).len(),
    {
        match cursor {
            None => {
                return;
            }
            Some(node) => {
                let Node { value: _, next } = *node;
                cursor = next;
            }
        }
    }
}

impl<T> Drop for AtomicList<T> {
    /// Detaches whatever chain is still reachable from the head and frees it
    /// iteratively. Safe with zero, one, or many nodes present, whether or not
    /// the list was ever drained.
    fn drop(&mut self)
        ensures
            final(self)@ == Seq::<T>::empty(),
        opens_invariants none
        no_unwind
    {
        let mut head: NodePtr<T> = None;
        core::mem::swap(&mut self.0, &mut head);
        free_chain(head);
    }
}

/// A one-shot cursor over a detached chain. Once exhausted it stays exhausted:
/// it is not re-derivable from the (now empty) list it was drained from.
#[derive(Debug)]
pub struct AtomicListIterator<T>(NodePtr<T>);

impl<T> View for AtomicListIterator<T> {
    type V = Seq<T>;

    closed spec fn view(&self) -> Seq<T> {
        chain_seq(self.0)
    }
}

impl<T> AtomicListIterator<T> {
    /// Detaches exactly one node from the private chain and returns its value,
    /// advancing the cursor to that node's link. On an exhausted iterator it
    /// returns nothing, consistently, on every subsequent call.
    pub fn next(&mut self) -> (item: Option<T>)
        ensures
            old(self)@.len() == 0 ==> item is None && final(self)@ == old(self)@,
            old(self)@.len() > 0 ==> item == Some(old(self)@[0]) && final(self)@ == old(self)@.drop_first(),
    {
        match self.0.take() {
            None => None,
            Some(node) => {
                let Node { value, next } = *node;
                self.0 = next;
                Some(value)
            }
        }
    }
}

impl<T> Drop for AtomicListIterator<T> {
    /// Frees whatever part of the chain was not consumed, iteratively, so that
    /// discarding a partly consumed iterator is as safe as discarding the list.
    fn drop(&mut self)
        ensures
            final(self)@ == Seq::<T>::empty(),
        opens_invariants none
        no_unwind
    {
        let mut rest: NodePtr<T> = None;
        core::mem::swap(&mut self.0, &mut rest);
        free_chain(rest);
    }
}

/// The contents of a list that held `s` after the values of `vs` are pushed
/// onto it one by one, in order. Each push prepends, exactly as the `ensures`
/// of `push` states.
pub open spec fn after_pushes<T>(s: Seq<T>, vs: Seq<T>) -> Seq<T>
    decreases vs.len(),
{
    if vs.len() == 0 {
        s
    } else {
        after_pushes(seq![vs[0]] + s, vs.drop_first())
    }
}

/// Law: pushing a value adds exactly one occurrence of it to the list's
/// contents and leaves the count of every other value unchanged; no value is
/// ever lost or duplicated by an insertion.
pub proof fn lemma_push_preserves_contents<T>(s: Seq<T>, v: T)
    ensures
        (seq![v] + s).to_multiset() == s.to_multiset().insert(v),
{
    broadcast use vstd::seq_lib::group_to_multiset_ensures;

    assert(seq![v] + s =~= s.insert(0, v));
    assert(s.insert(0, v).to_multiset() == s.to_multiset().insert(v));
}

/// Pushing a sequence of values turns contents `s` into the reverse of the
/// pushed values in front of `s`.
proof fn lemma_after_pushes_reverse<T>(s: Seq<T>, vs: Seq<T>)
    ensures
        after_pushes(s, vs) == vs.reverse() + s,
    decreases vs.len(),
{
    if vs.len() == 0 {
        assert(vs.reverse() + s =~= s);
    } else {
        lemma_after_pushes_reverse(seq![vs[0]] + s, vs.drop_first());
        assert(vs.drop_first().reverse() + (seq![vs[0]] + s) =~= vs.reverse() + s);
    }
}

/// Law: insertion order is reversed on drain. Pushing the values of `vs` in
/// order onto an empty list leaves exactly `vs.reverse()` as the contents, and
/// that sequence is what draining then yields, most recently inserted first.
pub proof fn lemma_drain_reverses_insertion<T>(vs: Seq<T>)
    ensures
        after_pushes(Seq::<T>::empty(), vs) == vs.reverse(),
{
    lemma_after_pushes_reverse(Seq::<T>::empty(), vs);
    assert(vs.reverse() + Seq::<T>::empty() =~= vs.reverse());
}

} // verus!
