use vstd::prelude::*;

use crate::addr::PeerAddr;
use crate::protocol::{has_marker_prefix, probe_marker, PROBE_LEN};

verus! {

/// Whether the listener's receive loop is active. `Idle` is both the initial
/// and the terminal state: a stopped listener can be started again.
#[derive(PartialEq, Eq, Structural, Clone, Copy, Debug)]
pub enum LoopStatus {
    Idle,
    Running,
}

/// A datagram is accepted when it is at least marker-sized, starts with the
/// fixed marker, and does not come from the listener's own receive address
/// (a node must not discover its own probe).
pub open spec fn accepts(data: Seq<u8>, src: PeerAddr, local: PeerAddr) -> bool {
    &&& data.len() >= PROBE_LEN
    &&& data.take(PROBE_LEN as int) == probe_marker()
    &&& src != local
}

/// What a listener in the given status does with a datagram: dispatch the
/// sender's address when the loop is running and the datagram is accepted,
/// and nothing otherwise. Anything not dispatched is silently discarded;
/// noise on the discovery group is never an error.
pub open spec fn dispatch_of(
    status: LoopStatus,
    data: Seq<u8>,
    src: PeerAddr,
    local: PeerAddr,
) -> Option<PeerAddr> {
    if status is Running && accepts(data, src, local) {
        Some(src)
    } else {
        None
    }
}

/// The listener's state machine. The surrounding process owns the socket and
/// the cancellation signal; this core decides every transition and every
/// dispatch, so the receive loop itself carries no policy.
pub struct Listener {
    pub status: LoopStatus,
}

impl Listener {
    /// A fresh listener, idle until its loop is started.
    pub fn new() -> (r: Listener)
        ensures
            r.status is Idle,
    {
        Listener { status: LoopStatus::Idle }
    }

    /// Try to start the receive loop. Starting an idle listener arms it;
    /// starting one whose loop is already active changes nothing, so a
    /// second concurrent loop can never begin.
    pub fn try_start(&mut self) -> (started: bool)
        ensures
            started == (old(self).status is Idle),
            final(self).status is Running,
    {
        if self.status == LoopStatus::Running {
            return false;
        }
        self.status = LoopStatus::Running;
        true
    }

    /// Stop the receive loop. On a running listener this fires the
    /// cancellation and leaves it idle; on an idle listener it returns
    /// without error and without any effect.
    pub fn stop(&mut self) -> (was_running: bool)
        ensures
            was_running == (old(self).status is Running),
            final(self).status is Idle,
            old(self).status is Idle ==> *final(self) == *old(self),
    {
        let was_running = self.status == LoopStatus::Running;
        self.status = LoopStatus::Idle;
        was_running
    }

    /// Decide one received datagram: the sender's address to hand to the
    /// handler, or `None` to discard and keep looping.
    pub fn on_datagram(&self, data: &Vec<u8>, src: PeerAddr, local: PeerAddr) -> (r: Option<
        PeerAddr,
    >)
        ensures
            r == dispatch_of(self.status, data@, src, local),
    {
        if !(self.status == LoopStatus::Running) {
            return None;
        }
        if !has_marker_prefix(data) {
            return None;
        }
        if src == local {
            return None;
        }
        Some(src)
    }
}

/// A datagram shorter than the marker is discarded, whatever the loop's
/// status: it is never dispatched and never an error.
pub proof fn lemma_short_datagram_discarded(
    status: LoopStatus,
    data: Seq<u8>,
    src: PeerAddr,
    local: PeerAddr,
)
    requires
        data.len() < PROBE_LEN,
    ensures
        dispatch_of(status, data, src, local) is None,
{
}

/// A marker-sized datagram whose bytes are not exactly the fixed marker is
/// discarded.
pub proof fn lemma_wrong_payload_discarded(
    status: LoopStatus,
    data: Seq<u8>,
    src: PeerAddr,
    local: PeerAddr,
)
    requires
        data.len() == PROBE_LEN,
        data != probe_marker(),
    ensures
        dispatch_of(status, data, src, local) is None,
{
    assert(data.take(PROBE_LEN as int) =~= data);
}

/// The fixed marker arriving from the listener's own receive address is
/// discarded: a node never discovers itself.
pub proof fn lemma_self_filtered(status: LoopStatus, data: Seq<u8>, addr: PeerAddr)
    ensures
        dispatch_of(status, data, addr, addr) is None,
{
}

/// A running listener dispatches an accepted probe exactly once, with the
/// sender's address and nothing else.
pub proof fn lemma_valid_probe_dispatched(data: Seq<u8>, src: PeerAddr, local: PeerAddr)
    requires
        data.len() >= PROBE_LEN,
        data.take(PROBE_LEN as int) == probe_marker(),
        src != local,
    ensures
        dispatch_of(LoopStatus::Running, data, src, local) == Some(src),
{
}

/// An idle listener dispatches nothing. Together with `stop`'s contract
/// (afterwards the status is `Idle`), no handler invocation can follow a
/// stop until the loop is started again.
pub proof fn lemma_idle_dispatches_nothing(data: Seq<u8>, src: PeerAddr, local: PeerAddr)
    ensures
        dispatch_of(LoopStatus::Idle, data, src, local) is None,
{
}

} // verus!
