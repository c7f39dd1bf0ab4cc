//! The one authoritative queue of prompts waiting to run. The visible
//! queue pane is a projection of it, never a second queue that could drift
//! from the order in which prompts execute.
use vstd::prelude::*;

use std::collections::VecDeque;

verus! {

broadcast use vstd::std_specs::vecdeque::group_vec_dequeue_axioms;

/// Prompts waiting to run, oldest first.
pub struct PromptQueue {
    pub pending: VecDeque<String>,
}

/// The contents of a queue as character sequences.
pub open spec fn queue_view(q: Seq<String>) -> Seq<Seq<char>> {
    q.map_values(|s: String| s@)
}

/// The queue after swapping the entries at `i` and `j`.
pub open spec fn swapped<T>(s: Seq<T>, i: int, j: int) -> Seq<T> {
    s.update(i, s[j]).update(j, s[i])
}

/// Moving the entry at `index` by `delta` positions is possible: the target
/// is a valid position and so is the source.
pub open spec fn move_possible(len: int, index: int, delta: int) -> bool {
    0 <= index < len && 0 <= index + delta < len
}

impl PromptQueue {
    pub open spec fn view(&self) -> Seq<String> {
        self.pending@
    }

    /// An empty queue.
    pub fn new() -> (q: Self)
        ensures
            q.view().len() == 0,
    {
        PromptQueue { pending: VecDeque::new() }
    }

    /// Number of waiting prompts.
    pub fn len(&self) -> (n: usize)
        ensures
            n == self.view().len(),
    {
        self.pending.len()
    }

    /// Adds a prompt at the back.
    pub fn enqueue(&mut self, prompt: String)
        ensures
            final(self).view() == old(self).view().push(prompt),
    {
        self.pending.push_back(prompt);
    }

    /// Removes and returns the prompt at `index`, when there is one.
    pub fn remove(&mut self, index: usize) -> (r: Option<String>)
        ensures
            index < old(self).view().len() ==> r == Some(old(self).view()[index as int])
                && final(self).view() == old(self).view().remove(index as int),
            index >= old(self).view().len() ==> r is None && final(self).view() == old(self).view(),
    {
        self.pending.remove(index)
    }

    /// Swaps the prompt at `index` with the one `delta` positions away.
    /// Returns whether it moved; out-of-range moves change nothing.
    pub fn move_by(&mut self, index: usize, delta: isize) -> (moved: bool)
        ensures
            moved == move_possible(old(self).view().len() as int, index as int, delta as int),
            moved ==> final(self).view() == swapped(old(self).view(), index as int, index + delta),
            !moved ==> final(self).view() == old(self).view(),
    {
        let len = self.pending.len();
        let target = match index.checked_add_signed(delta) {
            Some(t) => t,
            None => return false,
        };
        if index >= len || target >= len {
            return false;
        }
        if target == index {
            assert(swapped(self.pending@, index as int, index as int) =~= self.pending@);
            return true;
        }
        let (lo, hi) = if index < target { (index, target) } else { (target, index) };
        let ghost s = self.pending@;
        let b = self.pending.remove(hi).unwrap();
        let a = self.pending.remove(lo).unwrap();
        self.pending.insert(lo, b);
        self.pending.insert(hi, a);
        assert(self.pending@ =~= swapped(s, lo as int, hi as int));
        assert(swapped(s, lo as int, hi as int) =~= swapped(s, index as int, target as int));
        true
    }

    /// Takes the oldest prompt, when there is one.
    pub fn next(&mut self) -> (r: Option<String>)
        ensures
            old(self).view().len() > 0 ==> r == Some(old(self).view()[0])
                && final(self).view() == old(self).view().drop_first(),
            old(self).view().len() == 0 ==> r is None && final(self).view() == old(self).view(),
    {
        self.pending.pop_front()
    }
}

/// First in, first out: a prompt enqueued behind `q` comes out of the front
/// only after everything that was already waiting, and the rest of the
/// queue keeps its order.
pub proof fn lemma_fifo(q: Seq<String>, p: String)
    requires
        q.len() > 0,
    ensures
        q.push(p)[0] == q[0],
        q.push(p).drop_first() == q.drop_first().push(p),
{
    assert(q.push(p).drop_first() =~= q.drop_first().push(p));
}

/// Moving an entry and moving it back restores the queue.
pub proof fn lemma_move_back_restores(s: Seq<String>, index: int, delta: int)
    requires
        move_possible(s.len() as int, index, delta),
    ensures
        move_possible(s.len() as int, index + delta, -delta),
        swapped(swapped(s, index, index + delta), index + delta, index) == s,
{
    assert(swapped(swapped(s, index, index + delta), index + delta, index) =~= s);
}

} // verus!
