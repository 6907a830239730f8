//! Commands of a device session and the reading of their outcome.

use vstd::prelude::*;
use crate::addr::{SockAddr, ipv4_number};
use crate::ctrl_msg::{CtrlMsg, CtrlMsgView};
use crate::dispatch::CmdReplySummary;

verus! {

/// Seconds a session waits for the reply to a command.
pub const SESSION_TIMEOUT_SECS: u64 = 10;

/// Seconds a one-shot device command waits for its reply.
pub const DEVICE_TIMEOUT_SECS: u64 = 5;

/// Seconds a discovery broadcast collects replies.
pub const DISCOVERY_TIMEOUT_SECS: u64 = 1;

/// Ticks a healthy device counts between the two tick samples of a query reply.
pub const TICKS_PER_SAMPLE: u32 = 10_000_000;

/// The bits of the lock word that all have to be set.
pub const LOCK_MASK: u32 = 0x0000_000f;

/// Sign bit of an IEEE 754 double precision bit pattern.
pub const F64_SIGN_BIT: u64 = 0x8000_0000_0000_0000;

/// Why the outcome of a dispatch counts as a failure.
#[derive(Clone, Copy, Debug, PartialEq, Eq, Structural)]
pub enum MsgError {
    /// A target stayed silent.
    NotAllReplied,
    /// A device answered with an error reply.
    HasInvalidReply,
    /// A query reply reports lost lock or a wrong tick count.
    StatAbnormal,
}

/// The bit pattern of the negated double: the same bits under the other sign.
pub open spec fn negated_bits(bits: u64) -> u64 {
    if bits >= F64_SIGN_BIT {
        (bits - F64_SIGN_BIT) as u64
    } else {
        (bits + F64_SIGN_BIT) as u64
    }
}

/// The ticks counted from sample `t1` to sample `t2` of a counter that wraps at 32 bits.
pub open spec fn tick_span(t1: u32, t2: u32) -> u32 {
    if t2 >= t1 {
        (t2 - t1) as u32
    } else {
        (t2 - t1 + 0x1_0000_0000) as u32
    }
}

/// Whether the lock word reports every lock.
pub open spec fn lock_ok(locked: u32) -> bool {
    locked & LOCK_MASK == LOCK_MASK
}

/// Whether `msg` is a query reply that reports lost lock or a wrong tick count.
pub open spec fn is_abnormal(msg: CtrlMsgView) -> bool {
    msg matches CtrlMsgView::QueryReply { tick_cnt1, tick_cnt2, locked, .. } && (tick_span(
        tick_cnt1,
        tick_cnt2,
    ) != TICKS_PER_SAMPLE || !lock_ok(locked))
}

/// Whether one of `replies` is abnormal.
pub open spec fn any_abnormal(replies: Seq<(SockAddr, CtrlMsg)>) -> bool {
    exists|i: int| 0 <= i < replies.len() && is_abnormal(#[trigger] replies[i].1@)
}

/// The verdict on the outcome of a dispatch: an abnormal query reply weighs
/// most, then a silent target, then an error reply.
pub open spec fn verdict(
    no_reply: Seq<(Vec<SockAddr>, u32)>,
    invalid_reply: Seq<(SockAddr, CtrlMsg)>,
    normal_reply: Seq<(SockAddr, CtrlMsg)>,
) -> Result<(), MsgError> {
    if any_abnormal(normal_reply) {
        Err(MsgError::StatAbnormal)
    } else if no_reply.len() > 0 {
        Err(MsgError::NotAllReplied)
    } else if invalid_reply.len() > 0 {
        Err(MsgError::HasInvalidReply)
    } else {
        Ok(())
    }
}

/// The IPv4 numbers of the senders of `replies`, in order; senders with an
/// IPv6 address are left out.
pub open spec fn ipv4_senders(replies: Seq<(SockAddr, CtrlMsg)>) -> Seq<u32>
    decreases replies.len(),
{
    if replies.len() == 0 {
        Seq::empty()
    } else {
        let before = ipv4_senders(replies.drop_last());
        match replies.last().0 {
            SockAddr::V4 { ip, .. } => before.push(ipv4_number(ip)),
            SockAddr::V6 { .. } => before,
        }
    }
}

/// How many addresses a discovery with room for `max_n` addresses hands
/// back when `found` devices answered: all of them where there is room, and
/// as many as there is room for otherwise.
pub open spec fn reported_count(found: nat, max_n: nat) -> nat {
    if found <= max_n {
        found
    } else {
        max_n
    }
}

impl MsgError {
    /// The error in words.
    pub fn message(&self) -> (s: &'static str)
        ensures
            s@ == match *self {
                MsgError::NotAllReplied => "not all replied"@,
                MsgError::HasInvalidReply => "has invalid reply"@,
                MsgError::StatAbnormal => "state abnormal"@,
            },
    {
        match self {
            MsgError::NotAllReplied => "not all replied",
            MsgError::HasInvalidReply => "has invalid reply",
            MsgError::StatAbnormal => "state abnormal",
        }
    }
}

/// The command that asks a device for its identity and status.
pub fn query_cmd() -> (cmd: CtrlMsg)
    ensures
        cmd@ == (CtrlMsgView::Query { msg_id: 0 }),
{
    CtrlMsg::Query { msg_id: 0 }
}

/// The command that starts the telemetry stream.
pub fn stream_start_cmd() -> (cmd: CtrlMsg)
    ensures
        cmd@ == (CtrlMsgView::StreamStart { msg_id: 0 }),
{
    CtrlMsg::StreamStart { msg_id: 0 }
}

/// The command that stops the telemetry stream.
pub fn stream_stop_cmd() -> (cmd: CtrlMsg)
    ensures
        cmd@ == (CtrlMsgView::StreamStop { msg_id: 0 }),
{
    CtrlMsg::StreamStop { msg_id: 0 }
}

/// The command that initialises a device.
pub fn init_cmd() -> (cmd: CtrlMsg)
    ensures
        cmd@ == (CtrlMsgView::Init { msg_id: 0, reserved_zeros: 0 }),
{
    CtrlMsg::Init { msg_id: 0, reserved_zeros: 0 }
}

/// The command that asks a device to synchronise.
pub fn sync_cmd() -> (cmd: CtrlMsg)
    ensures
        cmd@ == (CtrlMsgView::Sync { msg_id: 0 }),
{
    CtrlMsg::Sync { msg_id: 0 }
}

/// The command that sets the local oscillator to the frequency with the
/// bit pattern `freq_bits`, at phase zero and without synchronisation.
pub fn lo_freq_cmd(freq_bits: u64) -> (cmd: CtrlMsg)
    ensures
        cmd@ == (CtrlMsgView::MixerSet { msg_id: 0, freq_bits, phase_bits: 0, sync: 0 }),
{
    CtrlMsg::MixerSet { msg_id: 0, freq_bits, phase_bits: 0, sync: 0 }
}

/// The command that tunes the mixer to the frequency with the bit pattern
/// `freq_bits`: the mixer is given the negated frequency, at phase zero.
pub fn mixer_freq_cmd(freq_bits: u64, sync: u32) -> (cmd: CtrlMsg)
    ensures
        cmd@ == (CtrlMsgView::MixerSet {
            msg_id: 0,
            freq_bits: negated_bits(freq_bits),
            phase_bits: 0,
            sync,
        }),
{
    let negated: u64 = if freq_bits >= F64_SIGN_BIT {
        freq_bits - F64_SIGN_BIT
    } else {
        freq_bits + F64_SIGN_BIT
    };
    CtrlMsg::MixerSet { msg_id: 0, freq_bits: negated, phase_bits: 0, sync }
}

/// The ticks counted from sample `t1` to sample `t2` of a counter that wraps at 32 bits.
pub fn ticks_between(t1: u32, t2: u32) -> (span: u32)
    ensures
        span == tick_span(t1, t2),
{
    if t2 >= t1 {
        t2 - t1
    } else {
        (t2 as u64 + 0x1_0000_0000 - t1 as u64) as u32
    }
}

/// Whether the lock word reports every lock.
pub fn all_locked(locked: u32) -> (b: bool)
    ensures
        b == lock_ok(locked),
{
    (locked & LOCK_MASK) == LOCK_MASK
}

/// Whether `msg` is a query reply that reports lost lock or a wrong tick count.
pub fn abnormal(msg: &CtrlMsg) -> (b: bool)
    ensures
        b == is_abnormal(msg@),
{
    match msg {
        CtrlMsg::QueryReply { tick_cnt1, tick_cnt2, locked, .. } => {
            ticks_between(*tick_cnt1, *tick_cnt2) != TICKS_PER_SAMPLE || !all_locked(*locked)
        },
        _ => false,
    }
}

impl CmdReplySummary {
    /// The verdict on the outcome: an abnormal query reply weighs most, then
    /// a silent target, then an error reply.
    pub fn judge(&self) -> (r: Result<(), MsgError>)
        ensures
            r == verdict(self.no_reply@, self.invalid_reply@, self.normal_reply@),
    {
        let n: usize = self.normal_reply.len();
        let mut i: usize = 0;
        while i < n
            invariant
                i <= n,
                n == self.normal_reply@.len(),
                forall|j: int| 0 <= j < i ==> !is_abnormal(#[trigger] self.normal_reply@[j].1@),
            decreases n - i,
        {
            if abnormal(&self.normal_reply[i].1) {
                return Err(MsgError::StatAbnormal);
            }
            i = i + 1;
        }
        if self.no_reply.len() > 0 {
            Err(MsgError::NotAllReplied)
        } else if self.invalid_reply.len() > 0 {
            Err(MsgError::HasInvalidReply)
        } else {
            Ok(())
        }
    }

    /// Whether exactly one device answered with something other than an error.
    pub fn single_reply(&self) -> (b: bool)
        ensures
            b == (self.normal_reply@.len() == 1),
    {
        self.normal_reply.len() == 1
    }

    /// The IPv4 numbers of the devices that answered with something other
    /// than an error, in order of arrival.
    pub fn responders(&self) -> (found: Vec<u32>)
        ensures
            found@ == ipv4_senders(self.normal_reply@),
    {
        let n: usize = self.normal_reply.len();
        let mut found: Vec<u32> = Vec::new();
        let mut i: usize = 0;
        assert(self.normal_reply@.subrange(0, 0) =~= Seq::<(SockAddr, CtrlMsg)>::empty());
        while i < n
            invariant
                i <= n,
                n == self.normal_reply@.len(),
                found@ == ipv4_senders(self.normal_reply@.subrange(0, i as int)),
            decreases n - i,
        {
            proof {
                let upto = self.normal_reply@.subrange(0, i + 1);
                assert(upto.drop_last() =~= self.normal_reply@.subrange(0, i as int));
                assert(upto.last() == self.normal_reply@[i as int]);
            }
            match self.normal_reply[i].0.ipv4() {
                Some(number) => {
                    found.push(number);
                },
                None => {},
            }
            i = i + 1;
        }
        assert(self.normal_reply@.subrange(0, n as int) =~= self.normal_reply@);
        found
    }
}

/// What a discovery with room for `max_n` addresses hands back when the
/// devices `found` answered: the addresses of the first devices, in the
/// order in which they answered, as far as there is room, and their number.
pub fn report_devices(found: &Vec<u32>, max_n: usize) -> (r: (Vec<u32>, usize))
    ensures
        r.1 == reported_count(found@.len(), max_n as nat),
        r.0@ == found@.subrange(0, r.1 as int),
{
    let n: usize = if found.len() <= max_n {
        found.len()
    } else {
        max_n
    };
    let mut stored: Vec<u32> = Vec::new();
    let mut i: usize = 0;
    while i < n
        invariant
            i <= n <= found@.len(),
            stored@ == found@.subrange(0, i as int),
        decreases n - i,
    {
        stored.push(found[i]);
        i = i + 1;
        assert(stored@ =~= found@.subrange(0, i as int));
    }
    (stored, n)
}

} // verus!
