//! A packet channel held in memory: what has arrived, how much of it has
//! been read, and what has been sent in answer.

use crate::address::Address;
use crate::packet::Packet;
use vstd::prelude::*;

verus! {

/// A duplex channel of packets, each with the address it came from or
/// goes to.  Arrivals are read in order, each once; what is sent is kept
/// in the order of sending.
#[derive(Clone, Debug)]
pub struct Channel {
    inbound: Vec<(Packet, Address)>,
    next: usize,
    outbound: Vec<(Packet, Address)>,
}

impl Channel {
    /// Everything that arrives on the channel, read or not.
    pub closed spec fn inbound(&self) -> Seq<(Packet, Address)> {
        self.inbound@
    }

    /// How many arrivals have been read.
    pub closed spec fn position(&self) -> int {
        if self.next <= self.inbound.len() {
            self.next as int
        } else {
            self.inbound.len() as int
        }
    }

    /// Everything sent so far, oldest first.
    pub closed spec fn outbound(&self) -> Seq<(Packet, Address)> {
        self.outbound@
    }

    /// No more arrivals are read than there are.
    pub proof fn position_in_bounds(&self)
        ensures
            0 <= self.position() <= self.inbound().len(),
    {
    }

    /// A channel on which `inbound` arrives, with nothing read and
    /// nothing sent.
    pub fn new(inbound: Vec<(Packet, Address)>) -> (c: Channel)
        ensures
            c.inbound() == inbound@,
            c.position() == 0,
            c.outbound() == Seq::<(Packet, Address)>::empty(),
    {
        Channel { inbound, next: 0, outbound: Vec::new() }
    }

    /// Reads the next arrival; `None` once all have been read.
    pub fn recv(&mut self) -> (r: Option<(Packet, Address)>)
        ensures
            final(self).inbound() == old(self).inbound(),
            final(self).outbound() == old(self).outbound(),
            old(self).position() < old(self).inbound().len() ==> {
                &&& r == Some(old(self).inbound()[old(self).position()])
                &&& final(self).position() == old(self).position() + 1
            },
            old(self).position() >= old(self).inbound().len() ==> {
                &&& r.is_none()
                &&& final(self).position() == old(self).position()
            },
    {
        if self.next < self.inbound.len() {
            let item = self.inbound[self.next];
            self.next = self.next + 1;
            Some(item)
        } else {
            None
        }
    }

    /// Sends `packet` to `to`.
    pub fn send(&mut self, packet: Packet, to: Address)
        ensures
            final(self).inbound() == old(self).inbound(),
            final(self).position() == old(self).position(),
            final(self).outbound() == old(self).outbound().push((packet, to)),
    {
        self.outbound.push((packet, to));
    }

    /// Everything sent so far, oldest first.
    pub fn sent(&self) -> (r: &Vec<(Packet, Address)>)
        ensures
            r@ == self.outbound(),
    {
        &self.outbound
    }

    /// How many arrivals have been read.
    pub fn consumed(&self) -> (r: usize)
        ensures
            r == self.position(),
    {
        if self.next <= self.inbound.len() {
            self.next
        } else {
            self.inbound.len()
        }
    }
}

} // verus!
