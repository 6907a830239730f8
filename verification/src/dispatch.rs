//! Pairing of commands with replies.
//!
//! A dispatcher stamps a fresh identifier into the command for each target,
//! remembers which identifiers are still unanswered, sorts each reply that
//! arrives into the invalid or the normal ones, and in the end reports the
//! targets that stayed silent. It does no input or output itself: the caller
//! sends what [`Dispatcher::stamp`] returns, reads every datagram it
//! receives with [`Dispatcher::read_reply`] and hands what was read to
//! [`Dispatcher::take_reply`]. The order in which this is done is the matter
//! of [`crate::exchange`].
//!
//! A datagram that is no control message, or a reply under an identifier
//! that no unanswered command went out under, is no part of a dispatch:
//! `read_reply` tells it apart, and nothing takes it.

use std::collections::BTreeMap;
use vstd::prelude::*;
use vstd::std_specs::btree::increasing_seq;
use vstd::std_specs::cmp::OrdSpec;
use vstd::std_specs::iter::IteratorSpec;
use crate::addr::SockAddr;
use crate::codec::parse_msg;
use crate::ctrl_msg::{CtrlMsg, CtrlMsgView, MsgKind};
use crate::wire::FormatError;

verus! {

broadcast use vstd::std_specs::btree::group_btree_axioms;

/// Outcome of one dispatch.
#[derive(Clone, Debug, PartialEq, Eq)]
pub struct CmdReplySummary {
    /// The targets that stayed silent, each with its addresses and the
    /// identifier its command went out under, by ascending identifier.
    pub no_reply: Vec<(Vec<SockAddr>, u32)>,
    /// The error replies, each with its sender, in order of arrival.
    pub invalid_reply: Vec<(SockAddr, CtrlMsg)>,
    /// All other replies, each with its sender, in order of arrival.
    pub normal_reply: Vec<(SockAddr, CtrlMsg)>,
}

/// Why a datagram is not taken as a reply, or a step not made.
#[derive(Clone, Copy, Debug, PartialEq, Eq, Structural)]
pub enum DispatchError {
    /// The datagram is no control message.
    Format { error: FormatError },
    /// The reply carries an identifier that no unanswered command went out under.
    NotPending { msg_id: u32 },
    /// The exchange is not at a point where this can be done.
    OutOfTurn,
}

/// Whether `msg` is an error reply.
pub open spec fn is_invalid(msg: CtrlMsgView) -> bool {
    msg.kind() == MsgKind::InvalidMsg
}

/// Whether every entry of `replies` is an error reply.
pub open spec fn all_invalid(replies: Seq<(SockAddr, CtrlMsg)>) -> bool {
    forall|i: int| 0 <= i < replies.len() ==> is_invalid(#[trigger] replies[i].1@)
}

/// Whether no entry of `replies` is an error reply.
pub open spec fn none_invalid(replies: Seq<(SockAddr, CtrlMsg)>) -> bool {
    forall|i: int| 0 <= i < replies.len() ==> !is_invalid(#[trigger] replies[i].1@)
}

/// Whether `no_reply` lists the silent targets of `pending`: each once,
/// with all its addresses, by ascending identifier.
pub open spec fn lists_silent(
    no_reply: Seq<(Vec<SockAddr>, u32)>,
    pending: Map<u32, Vec<SockAddr>>,
) -> bool {
    &&& forall|i: int, j: int| 0 <= i < j < no_reply.len() ==> no_reply[i].1 < no_reply[j].1
    &&& forall|i: int|
        0 <= i < no_reply.len() ==> pending.contains_key(#[trigger] no_reply[i].1)
            && pending[no_reply[i].1]@ == no_reply[i].0@
    &&& forall|k: u32|
        pending.contains_key(k) ==> exists|i: int|
            0 <= i < no_reply.len() && #[trigger] no_reply[i].1 == k
}

/// What a datagram is to a dispatch with the unanswered commands
/// `pending`: the reply in it, or the reason why it is none.
pub open spec fn reply_in(pending: Map<u32, Vec<SockAddr>>, s: Seq<u8>) -> Result<
    CtrlMsgView,
    DispatchError,
> {
    match parse_msg(s) {
        Err(error) => Err(DispatchError::Format { error }),
        Ok(m) => if pending.contains_key(m.msg_id()) {
            Ok(m)
        } else {
            Err(DispatchError::NotPending { msg_id: m.msg_id() })
        },
    }
}

/// What an executable reader has to return for the specified outcome `want`.
pub open spec fn reply_is(
    got: Result<CtrlMsg, DispatchError>,
    want: Result<CtrlMsgView, DispatchError>,
) -> bool {
    match got {
        Ok(m) => want == Ok::<CtrlMsgView, DispatchError>(m@),
        Err(e) => want == Err::<CtrlMsgView, DispatchError>(e),
    }
}

/// Keys that a map hands out in its order rise strictly.
proof fn lemma_rising(s: Seq<u32>)
    requires
        increasing_seq(s),
    ensures
        forall|i: int, j: int| 0 <= i < j < s.len() ==> s[i] < s[j],
{
    broadcast use vstd::laws_cmp::group_laws_cmp;

    vstd::std_specs::btree::axiom_increasing_seq_meaning(s);
    assert forall|i: int, j: int| 0 <= i < j < s.len() implies s[i] < s[j] by {
        assert(s[i].cmp_spec(&s[j]) is Less);
    }
}

/// A copy of `addrs`.
fn copy_addrs(addrs: &Vec<SockAddr>) -> (r: Vec<SockAddr>)
    ensures
        r@ == addrs@,
{
    let n: usize = addrs.len();
    let mut r: Vec<SockAddr> = Vec::new();
    let mut i: usize = 0;
    while i < n
        invariant
            i <= n,
            n == addrs@.len(),
            r@ == addrs@.subrange(0, i as int),
        decreases n - i,
    {
        r.push(addrs[i]);
        i = i + 1;
        assert(r@ =~= addrs@.subrange(0, i as int));
    }
    assert(addrs@.subrange(0, n as int) =~= addrs@);
    r
}

/// Bookkeeping of one dispatch.
pub struct Dispatcher {
    pending: BTreeMap<u32, Vec<SockAddr>>,
    invalid_reply: Vec<(SockAddr, CtrlMsg)>,
    normal_reply: Vec<(SockAddr, CtrlMsg)>,
}

impl Dispatcher {
    /// Whether the bookkeeping is in order: every invalid reply is an error
    /// reply and no normal reply is one. Every dispatcher that `new` made
    /// and the methods below changed is.
    pub closed spec fn wf(self) -> bool {
        &&& all_invalid(self.invalid_reply@)
        &&& none_invalid(self.normal_reply@)
    }

    /// The addresses of the targets whose commands are unanswered, by the
    /// identifier that the command went out under.
    pub closed spec fn pending(self) -> Map<u32, Vec<SockAddr>> {
        self.pending@
    }

    /// The error replies taken so far, in order of arrival.
    pub closed spec fn invalid(self) -> Seq<(SockAddr, CtrlMsg)> {
        self.invalid_reply@
    }

    /// The other replies taken so far, in order of arrival.
    pub closed spec fn normal(self) -> Seq<(SockAddr, CtrlMsg)> {
        self.normal_reply@
    }

    /// Whether every command has been answered.
    pub open spec fn spec_all_replied(&self) -> bool {
        self.pending().len() == 0
    }

    /// The state after `reply` from `from` has been sorted in.
    pub open spec fn sorted_in(self, after: Dispatcher, from: SockAddr, reply: CtrlMsg) -> bool {
        if is_invalid(reply@) {
            &&& after.invalid() == self.invalid().push((from, reply))
            &&& after.normal() == self.normal()
        } else {
            &&& after.invalid() == self.invalid()
            &&& after.normal() == self.normal().push((from, reply))
        }
    }

    /// Reply classification. In a dispatcher that is in order every invalid
    /// reply is an error reply, no normal reply is one, and finitely many
    /// commands are unanswered: none exactly when the map of them is empty.
    pub proof fn lemma_in_order(self)
        requires
            self.wf(),
        ensures
            all_invalid(self.invalid()),
            none_invalid(self.normal()),
            self.pending().dom().finite(),
            self.spec_all_replied() == (self.pending() == Map::<u32, Vec<SockAddr>>::empty()),
    {
        let m = self.pending@;
        if m.len() == 0 {
            assert(m.dom() =~= Set::<u32>::empty()) by {
                if exists|k: u32| m.dom().contains(k) {
                    let k = choose|k: u32| m.dom().contains(k);
                    assert(m.dom().remove(k).len() + 1 == m.dom().len());
                }
            }
            assert(m =~= Map::<u32, Vec<SockAddr>>::empty());
        }
    }

    /// A dispatcher with nothing sent and nothing received.
    pub fn new() -> (d: Dispatcher)
        ensures
            d.wf(),
            d.pending() == Map::<u32, Vec<SockAddr>>::empty(),
            d.invalid() == Seq::<(SockAddr, CtrlMsg)>::empty(),
            d.normal() == Seq::<(SockAddr, CtrlMsg)>::empty(),
    {
        Dispatcher { pending: BTreeMap::new(), invalid_reply: Vec::new(), normal_reply: Vec::new() }
    }

    /// Whether a command under `msg_id` is still unanswered.
    pub fn is_pending(&self, msg_id: u32) -> (b: bool)
        ensures
            b == self.pending().contains_key(msg_id),
    {
        self.pending.contains_key(&msg_id)
    }

    /// Whether every command has been answered.
    #[verifier::when_used_as_spec(spec_all_replied)]
    pub fn all_replied(&self) -> (b: bool)
        ensures
            b == self.spec_all_replied(),
    {
        self.pending.is_empty()
    }

    /// How many commands are still unanswered.
    pub fn n_pending(&self) -> (n: usize)
        ensures
            n == self.pending().len(),
    {
        self.pending.len()
    }

    /// Records that a command went out under `msg_id` to the target with the
    /// addresses `addrs`. An identifier that is already unanswered keeps one
    /// entry, with the new addresses.
    pub fn register(&mut self, msg_id: u32, addrs: Vec<SockAddr>)
        requires
            old(self).wf(),
        ensures
            final(self).wf(),
            final(self).pending() == old(self).pending().insert(msg_id, addrs),
            final(self).invalid() == old(self).invalid(),
            final(self).normal() == old(self).normal(),
    {
        let _before = self.pending.insert(msg_id, addrs);
    }

    /// Stamps `msg_id` into `cmd` and writes it. Where that succeeds, the
    /// command is recorded as sent to the target with the addresses `addrs`.
    ///
    /// Fails, and records nothing, exactly when a count field of `cmd` is wrong.
    pub fn stamp(&mut self, cmd: &mut CtrlMsg, msg_id: u32, addrs: Vec<SockAddr>) -> (r: Result<
        Vec<u8>,
        FormatError,
    >)
        requires
            old(self).wf(),
        ensures
            final(self).wf(),
            final(cmd)@ == old(cmd)@.with_msg_id(msg_id),
            final(self).invalid() == old(self).invalid(),
            final(self).normal() == old(self).normal(),
            old(cmd)@.wf() ==> r is Ok && r->Ok_0@ == final(cmd)@.bytes() && final(self).pending()
                == old(self).pending().insert(msg_id, addrs),
            !old(cmd)@.wf() ==> r == Err::<Vec<u8>, FormatError>(FormatError::LengthMismatch)
                && *final(self) == *old(self),
    {
        cmd.set_msg_id(msg_id);
        proof {
            crate::ctrl_msg::lemma_with_msg_id(old(cmd)@, msg_id);
        }
        match cmd.encode() {
            Ok(bytes) => {
                self.register(msg_id, addrs);
                Ok(bytes)
            },
            Err(e) => Err(e),
        }
    }

    /// Stamps `msg_id` into `cmd` and writes it for a broadcast. Nothing is
    /// recorded: any number of devices may answer a broadcast.
    ///
    /// Fails exactly when a count field of `cmd` is wrong.
    pub fn stamp_broadcast(cmd: &mut CtrlMsg, msg_id: u32) -> (r: Result<Vec<u8>, FormatError>)
        ensures
            final(cmd)@ == old(cmd)@.with_msg_id(msg_id),
            old(cmd)@.wf() ==> r is Ok && r->Ok_0@ == final(cmd)@.bytes(),
            !old(cmd)@.wf() ==> r == Err::<Vec<u8>, FormatError>(FormatError::LengthMismatch),
    {
        cmd.set_msg_id(msg_id);
        proof {
            crate::ctrl_msg::lemma_with_msg_id(old(cmd)@, msg_id);
        }
        cmd.encode()
    }

    /// Reads `datagram` as the answer to an unanswered command.
    ///
    /// Fails with the format error when the datagram is no control message,
    /// and with the stray identifier when no command under the reply's
    /// identifier is unanswered. Such a datagram has no place in a dispatch:
    /// there is no way to take it, and the caller has to give the dispatch
    /// up.
    pub fn read_reply(&self, datagram: &[u8]) -> (r: Result<CtrlMsg, DispatchError>)
        ensures
            reply_is(r, reply_in(self.pending(), datagram@)),
    {
        match CtrlMsg::decode(datagram) {
            Err(error) => Err(DispatchError::Format { error }),
            Ok(reply) => {
                let msg_id: u32 = reply.get_msg_id();
                if self.pending.contains_key(&msg_id) {
                    Ok(reply)
                } else {
                    Err(DispatchError::NotPending { msg_id })
                }
            },
        }
    }

    /// Sorts `reply` from `from` in: an error reply goes to the invalid
    /// replies, any other to the normal ones. Which commands are unanswered
    /// is left as it is.
    pub fn record(&mut self, from: SockAddr, reply: CtrlMsg)
        requires
            old(self).wf(),
        ensures
            final(self).wf(),
            old(self).sorted_in(*final(self), from, reply),
            final(self).pending() == old(self).pending(),
    {
        match reply.kind() {
            MsgKind::InvalidMsg => {
                self.invalid_reply.push((from, reply));
            },
            _ => {
                self.normal_reply.push((from, reply));
            },
        }
    }

    /// Takes `reply` from `from` as the answer to the unanswered command
    /// under its identifier: the reply is sorted in, and the command counts
    /// as answered from now on. Tells whether every command has been
    /// answered.
    pub fn take_reply(&mut self, from: SockAddr, reply: CtrlMsg) -> (done: bool)
        requires
            old(self).wf(),
            old(self).pending().contains_key(reply@.msg_id()),
        ensures
            final(self).wf(),
            old(self).sorted_in(*final(self), from, reply),
            final(self).pending() == old(self).pending().remove(reply@.msg_id()),
            done == final(self).spec_all_replied(),
    {
        let msg_id: u32 = reply.get_msg_id();
        let _addrs = self.pending.remove(&msg_id);
        self.record(from, reply);
        self.pending.is_empty()
    }

    /// Closes the dispatch: the replies as they were sorted in, error
    /// replies and others apart, and every unanswered target once, with all
    /// its addresses, by ascending identifier.
    pub fn finish(self) -> (s: CmdReplySummary)
        requires
            self.wf(),
        ensures
            s.invalid_reply@ == self.invalid(),
            s.normal_reply@ == self.normal(),
            all_invalid(s.invalid_reply@),
            none_invalid(s.normal_reply@),
            s.no_reply@.len() == self.pending().len(),
            lists_silent(s.no_reply@, self.pending()),
    {
        let mut no_reply: Vec<(Vec<SockAddr>, u32)> = Vec::new();
        for entry in it: self.pending.iter()
            invariant
                no_reply@.len() == it.index(),
                it.seq() == self.pending.iter().remaining(),
                increasing_seq(it.seq().map_values(|kv: (&u32, &Vec<SockAddr>)| *kv.0)),
                forall|i: int|
                    0 <= i < no_reply@.len() ==> (#[trigger] no_reply@[i]).1 == *it.seq()[i].0
                        && no_reply@[i].0@ == it.seq()[i].1@,
        {
            no_reply.push((copy_addrs(entry.1), *entry.0));
        }
        proof {
            let m = self.pending@;
            let all = self.pending.iter().remaining();
            let keys = all.map_values(|kv: (&u32, &Vec<SockAddr>)| *kv.0);
            lemma_rising(keys);
            assert forall|i: int, j: int| 0 <= i < j < no_reply@.len() implies no_reply@[i].1
                < no_reply@[j].1 by {
                assert(keys[i] == no_reply@[i].1);
                assert(keys[j] == no_reply@[j].1);
            }
            assert forall|k: u32| m.contains_key(k) implies exists|i: int|
                0 <= i < no_reply@.len() && #[trigger] no_reply@[i].1 == k by {
                assert(all.contains((&k, &m[k])));
                let i = choose|i: int| 0 <= i < all.len() && all[i] == (&k, &m[k]);
                assert(no_reply@[i].1 == k);
            }
        }
        let Dispatcher { pending: _, invalid_reply, normal_reply } = self;
        CmdReplySummary { no_reply, invalid_reply, normal_reply }
    }
}

} // verus!
