//! The receiving end of one stream: the packets that arrived and were not
//! read yet.

use std::collections::VecDeque;
use vstd::prelude::*;

verus! {

/// The packets that a stream's receiver holds unread before the oldest go.
pub const MAX_UNREAD_PACKETS: usize = 10;

/// The unread packets of one stream, oldest first, never more than the limit
/// that the receiver was made with.
pub struct Backlog<T> {
    packets: VecDeque<T>,
    limit: usize,
}

/// The backlog once `packet` has arrived: it goes behind the others, and
/// the oldest packet leaves where the limit was reached. A backlog with no
/// room at all keeps nothing.
pub open spec fn after_arrival<T>(unread: Seq<T>, limit: nat, packet: T) -> Seq<T> {
    if limit == 0 {
        unread
    } else if unread.len() < limit {
        unread.push(packet)
    } else {
        unread.drop_first().push(packet)
    }
}

/// The packet that is lost when `packet` arrives, if any.
pub open spec fn lost_on_arrival<T>(unread: Seq<T>, limit: nat, packet: T) -> Option<T> {
    if limit == 0 {
        Some(packet)
    } else if unread.len() < limit {
        None
    } else {
        Some(unread.first())
    }
}

impl<T> Backlog<T> {
    /// The backlog holds no more packets than its limit. Every backlog that
    /// `new` makes is such, and `push` and `pop` keep it so.
    pub closed spec fn wf(&self) -> bool {
        self.packets@.len() <= self.limit
    }

    /// The unread packets, oldest first.
    pub closed spec fn unread(&self) -> Seq<T> {
        self.packets@
    }

    /// The most packets that the backlog holds.
    pub closed spec fn limit(&self) -> nat {
        self.limit as nat
    }

    /// An empty backlog for at most `limit` packets.
    pub fn new(limit: usize) -> (backlog: Self)
        ensures
            backlog.wf(),
            backlog.unread() == Seq::<T>::empty(),
            backlog.limit() == limit,
    {
        Backlog { packets: VecDeque::new(), limit }
    }

    /// The number of unread packets, which is never above the limit.
    pub fn len(&self) -> (count: usize)
        requires
            self.wf(),
        ensures
            count == self.unread().len(),
            count <= self.limit(),
    {
        self.packets.len()
    }

    /// Takes a packet that arrived. Where the backlog is full the oldest
    /// packet makes room and is handed back.
    pub fn push(&mut self, packet: T) -> (lost: Option<T>)
        requires
            old(self).wf(),
        ensures
            final(self).wf(),
            final(self).limit() == old(self).limit(),
            final(self).unread() == after_arrival(old(self).unread(), old(self).limit(), packet),
            lost == lost_on_arrival(old(self).unread(), old(self).limit(), packet),
            final(self).unread().len() <= final(self).limit(),
    {
        if self.limit == 0 {
            return Some(packet);
        }
        let lost = if self.packets.len() < self.limit {
            None
        } else {
            self.packets.pop_front()
        };
        self.packets.push_back(packet);
        assert(self.packets@ =~= after_arrival(old(self).unread(), old(self).limit(), packet));
        lost
    }

    /// Hands out the oldest unread packet, if there is one.
    pub fn pop(&mut self) -> (packet: Option<T>)
        requires
            old(self).wf(),
        ensures
            final(self).wf(),
            final(self).limit() == old(self).limit(),
            old(self).unread().len() == 0 ==> packet.is_none() && final(self).unread() == old(
                self,
            ).unread(),
            old(self).unread().len() > 0 ==> packet == Some(old(self).unread().first())
                && final(self).unread() == old(self).unread().drop_first(),
    {
        let packet = self.packets.pop_front();
        assert(old(self).unread().len() > 0 ==> self.packets@ =~= old(self).unread().drop_first());
        packet
    }
}

/// A backlog within its limit stays within it when a packet arrives, so no
/// receiver ever holds more unread packets than its limit.
pub proof fn lemma_arrival_keeps_bound<T>(unread: Seq<T>, limit: nat, packet: T)
    requires
        unread.len() <= limit,
    ensures
        after_arrival(unread, limit, packet).len() <= limit,
{
}

} // verus!
