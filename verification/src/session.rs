//! The two-peer session: slot assignment during the handshake.
//!
//! The first datagram from an unseen address is given the next free slot
//! number, starting at one; further datagrams from a known address, and
//! datagrams from new addresses once both slots are taken, change nothing.

use vstd::prelude::*;

verus! {

/// A peer's datagram address as plain values: the numeric IP (v4 or v6)
/// and the port.
#[derive(Clone, Copy, Debug, Hash, PartialEq, Eq, Structural)]
pub struct PeerAddr {
    pub ip: u128,
    pub port: u16,
}

/// One connected player: its address and its assigned slot.
#[derive(Clone, Copy, Debug, PartialEq, Eq, Structural)]
pub struct PlayerSession {
    pub addr: PeerAddr,
    pub slot: u8,
}

/// Whether `a` already holds a session in `s`.
pub open spec fn known(s: Seq<PlayerSession>, a: PeerAddr) -> bool {
    exists|i: int| 0 <= i < s.len() && s[i].addr == a
}

/// The slot of the first session of `a`, if any.
pub open spec fn spec_lookup(s: Seq<PlayerSession>, a: PeerAddr) -> Option<u8>
    decreases s.len(),
{
    if s.len() == 0 {
        None
    } else if s[0].addr == a {
        Some(s[0].slot)
    } else {
        spec_lookup(s.subrange(1, s.len() as int), a)
    }
}

/// The session list after one handshake datagram from `from`.
pub open spec fn spec_handle(s: Seq<PlayerSession>, from: PeerAddr) -> Seq<PlayerSession> {
    if known(s, from) || s.len() >= 2 {
        s
    } else {
        s.push(PlayerSession { addr: from, slot: (s.len() + 1) as u8 })
    }
}

/// The slot replied to one handshake datagram from `from`, if any.
pub open spec fn spec_reply(s: Seq<PlayerSession>, from: PeerAddr) -> Option<u8> {
    if known(s, from) || s.len() >= 2 {
        None
    } else {
        Some((s.len() + 1) as u8)
    }
}

/// At most two sessions, slot numbers counted from one in arrival order,
/// addresses pairwise distinct.
pub open spec fn sessions_wf(s: Seq<PlayerSession>) -> bool {
    &&& s.len() <= 2
    &&& forall|i: int| 0 <= i < s.len() ==> s[i].slot == i + 1
    &&& forall|i: int, j: int| 0 <= i < j < s.len() ==> s[i].addr != s[j].addr
}

/// Assigns slots to the two peers of a match and answers address lookups.
pub struct SessionManager {
    pub sessions: Vec<PlayerSession>,
}

impl SessionManager {
    pub open spec fn view(&self) -> Seq<PlayerSession> {
        self.sessions@
    }

    pub open spec fn wf(&self) -> bool {
        sessions_wf(self@)
    }

    /// A manager with no peer yet.
    pub fn new() -> (r: SessionManager)
        ensures
            r@ == Seq::<PlayerSession>::empty(),
            r.wf(),
    {
        let r = SessionManager { sessions: Vec::new() };
        proof {
            assert(r.sessions@ =~= Seq::<PlayerSession>::empty());
        }
        r
    }

    /// Whether `a` already holds a session.
    fn is_known(&self, a: &PeerAddr) -> (r: bool)
        ensures
            r == known(self@, *a),
    {
        let mut i: usize = 0;
        while i < self.sessions.len()
            invariant
                0 <= i <= self.sessions.len(),
                forall|j: int| 0 <= j < i ==> self.sessions@[j].addr != *a,
            decreases self.sessions.len() - i,
        {
            if self.sessions[i].addr == *a {
                return true;
            }
            i = i + 1;
        }
        false
    }

    /// Handles one handshake datagram: a new address gets the next free
    /// slot (to be echoed back in one byte); a known address, or any new
    /// address once both slots are taken, gets nothing.
    pub fn handle_datagram(&mut self, from: PeerAddr) -> (r: Option<u8>)
        requires
            old(self).wf(),
        ensures
            final(self)@ == spec_handle(old(self)@, from),
            r == spec_reply(old(self)@, from),
            final(self).wf(),
    {
        if self.is_known(&from) {
            return None;
        }
        let n = self.sessions.len();
        if n >= 2 {
            return None;
        }
        let slot: u8 = (n + 1) as u8;
        self.sessions.push(PlayerSession { addr: from, slot });
        Some(slot)
    }

    /// Whether both slots are taken and the match can start.
    pub fn complete(&self) -> (r: bool)
        ensures
            r == (self@.len() == 2),
    {
        self.sessions.len() == 2
    }

    /// The slot assigned to `a`, if any.
    pub fn slot_of(&self, a: &PeerAddr) -> (r: Option<u8>)
        ensures
            r == spec_lookup(self@, *a),
    {
        proof {
            assert(self@.subrange(0, self@.len() as int) =~= self@);
        }
        let mut i: usize = 0;
        while i < self.sessions.len()
            invariant
                0 <= i <= self.sessions.len(),
                spec_lookup(self@, *a) == spec_lookup(
                    self@.subrange(i as int, self@.len() as int),
                    *a,
                ),
            decreases self.sessions.len() - i,
        {
            proof {
                let rest = self@.subrange(i as int, self@.len() as int);
                assert(rest.len() > 0);
                assert(rest[0] == self@[i as int]);
                assert(rest.subrange(1, rest.len() as int) =~= self@.subrange(
                    i + 1,
                    self@.len() as int,
                ));
            }
            if self.sessions[i].addr == *a {
                return Some(self.sessions[i].slot);
            }
            i = i + 1;
        }
        proof {
            assert(self@.subrange(self@.len() as int, self@.len() as int) =~= Seq::<
                PlayerSession,
            >::empty());
        }
        None
    }
}

/// Law: from an empty session list, two datagrams from distinct
/// addresses get slots one and two in processing order, and a datagram
/// from any third address afterwards gets no slot and changes nothing.
pub proof fn lemma_handshake_order(a: PeerAddr, b: PeerAddr, c: PeerAddr)
    requires
        a != b,
        c != a,
        c != b,
    ensures
        ({
            let s0 = Seq::<PlayerSession>::empty();
            let s1 = spec_handle(s0, a);
            let s2 = spec_handle(s1, b);
            &&& spec_reply(s0, a) == Some(1u8)
            &&& spec_reply(s1, b) == Some(2u8)
            &&& spec_lookup(s2, a) == Some(1u8)
            &&& spec_lookup(s2, b) == Some(2u8)
            &&& spec_reply(s2, c) is None
            &&& spec_handle(s2, c) == s2
        }),
{
    let s0 = Seq::<PlayerSession>::empty();
    let s1 = spec_handle(s0, a);
    let s2 = spec_handle(s1, b);
    assert(!known(s0, a));
    assert(s1 == s0.push(PlayerSession { addr: a, slot: 1u8 }));
    assert(!known(s1, b));
    assert(s2 == s1.push(PlayerSession { addr: b, slot: 2u8 }));
    assert(s2[0] == PlayerSession { addr: a, slot: 1u8 });
    assert(s2[1] == PlayerSession { addr: b, slot: 2u8 });
    let t = s2.subrange(1, 2);
    assert(t[0] == s2[1]);
    assert(t.subrange(1, 1) =~= Seq::<PlayerSession>::empty());
    assert(spec_lookup(t, b) == Some(2u8));
    assert(spec_lookup(s2, b) == spec_lookup(t, b));
}

} // verus!
