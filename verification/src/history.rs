//! The bounded conversation window: a fixed-capacity ordered sequence of
//! chat messages, oldest evicted on overflow. Its length never exceeds the
//! configured capacity, and insertion order is chronological order.
use vstd::prelude::*;

use crate::msg::ChatMessage;
use crate::msg::ChatMessageV;
use crate::msg::clone_message;

verus! {

/// One append to a bounded window: when the window is full, the oldest
/// entry leaves before the new one enters.
pub open spec fn fifo_push(s: Seq<ChatMessageV>, cap: int, m: ChatMessageV) -> Seq<ChatMessageV> {
    if s.len() < cap {
        s.push(m)
    } else {
        s.drop_first().push(m)
    }
}

/// Appending a whole batch, oldest evicted first.
pub open spec fn fifo_extend(s: Seq<ChatMessageV>, msgs: Seq<ChatMessageV>, cap: int) -> Seq<
    ChatMessageV,
>
    decreases msgs.len(),
{
    if msgs.len() == 0 {
        s
    } else {
        fifo_extend(fifo_push(s, cap, msgs[0]), msgs.drop_first(), cap)
    }
}

/// A bounded window never grows past its capacity, however much is appended.
pub proof fn lemma_fifo_extend_bounded(s: Seq<ChatMessageV>, msgs: Seq<ChatMessageV>, cap: int)
    requires
        1 <= cap,
        s.len() <= cap,
    ensures
        fifo_extend(s, msgs, cap).len() <= cap,
    decreases msgs.len(),
{
    if msgs.len() > 0 {
        lemma_fifo_extend_bounded(fifo_push(s, cap, msgs[0]), msgs.drop_first(), cap);
    }
}

/// The bounded recent-message window sent with each chat round.
#[derive(Clone, Debug)]
pub struct History {
    items: Vec<ChatMessage>,
    capacity: usize,
}

impl View for History {
    type V = Seq<ChatMessageV>;

    closed spec fn view(&self) -> Seq<ChatMessageV> {
        self.items.deep_view()
    }
}

impl History {
    /// The configured capacity.
    pub closed spec fn cap(&self) -> int {
        self.capacity as int
    }

    /// The window invariant: at least one slot, never over capacity.
    pub open spec fn wf(&self) -> bool {
        1 <= self.cap() && self@.len() <= self.cap()
    }

    /// A fresh, empty window of the given capacity.
    pub fn with_capacity(capacity: usize) -> (h: History)
        requires
            1 <= capacity,
        ensures
            h.wf(),
            h@ == Seq::<ChatMessageV>::empty(),
            h.cap() == capacity,
    {
        let h = History { items: Vec::new(), capacity };
        proof {
            assert(h@ =~= Seq::<ChatMessageV>::empty());
        }
        h
    }

    /// How many messages the window holds now.
    pub fn len(&self) -> (n: usize)
        ensures
            n == self@.len(),
    {
        self.items.len()
    }

    /// Appends one message; when the window is full, the oldest message
    /// is evicted first.
    pub fn enqueue(&mut self, m: ChatMessage)
        requires
            old(self).wf(),
        ensures
            final(self).wf(),
            final(self).cap() == old(self).cap(),
            final(self)@ == fifo_push(old(self)@, old(self).cap(), m.deep_view()),
    {
        if self.items.len() == self.capacity {
            let _evicted = self.items.remove(0);
            proof {
                assert(self.items.deep_view() =~= old(self)@.drop_first());
            }
        }
        let ghost before = self.items.deep_view();
        self.items.push(m);
        proof {
            assert(self.items.deep_view() =~= before.push(m.deep_view()));
        }
    }

    /// Appends a batch in order, evicting the oldest entries as needed.
    pub fn extend(&mut self, msgs: &Vec<ChatMessage>)
        requires
            old(self).wf(),
        ensures
            final(self).wf(),
            final(self).cap() == old(self).cap(),
            final(self)@ == fifo_extend(old(self)@, msgs.deep_view(), old(self).cap()),
    {
        let mut i: usize = 0;
        proof {
            assert(msgs.deep_view().skip(0) =~= msgs.deep_view());
        }
        while i < msgs.len()
            invariant
                i <= msgs@.len(),
                self.wf(),
                self.cap() == old(self).cap(),
                fifo_extend(old(self)@, msgs.deep_view(), old(self).cap()) == fifo_extend(
                    self@,
                    msgs.deep_view().skip(i as int),
                    old(self).cap(),
                ),
            decreases msgs@.len() - i,
        {
            proof {
                assert(msgs.deep_view().skip(i as int)[0] == msgs.deep_view()[i as int]);
                assert(msgs.deep_view().skip(i as int).drop_first() =~= msgs.deep_view().skip(
                    i + 1,
                ));
            }
            let m = clone_message(&msgs[i]);
            self.enqueue(m);
            i = i + 1;
        }
        proof {
            assert(msgs.deep_view().skip(msgs@.len() as int) =~= Seq::<ChatMessageV>::empty());
        }
    }

    /// A copy of the window's contents, oldest first.
    pub fn to_vec(&self) -> (r: Vec<ChatMessage>)
        ensures
            r.deep_view() == self@,
    {
        let mut out: Vec<ChatMessage> = Vec::new();
        let mut i: usize = 0;
        while i < self.items.len()
            invariant
                i <= self.items@.len(),
                out.deep_view() =~= self.items.deep_view().take(i as int),
            decreases self.items@.len() - i,
        {
            let c = clone_message(&self.items[i]);
            let ghost cm = c;
            let ghost pre = out;
            out.push(c);
            proof {
                crate::lemma_deep_view_push(pre, out, cm);
                assert(out.deep_view() =~= self.items.deep_view().take(i + 1));
            }
            i = i + 1;
        }
        proof {
            assert(out.deep_view() =~= self@);
        }
        out
    }

    /// Empties the window; the capacity stays.
    pub fn clear(&mut self)
        requires
            old(self).wf(),
        ensures
            final(self).wf(),
            final(self).cap() == old(self).cap(),
            final(self)@ == Seq::<ChatMessageV>::empty(),
    {
        self.items.clear();
        proof {
            assert(self@ =~= Seq::<ChatMessageV>::empty());
        }
    }
}

} // verus!
