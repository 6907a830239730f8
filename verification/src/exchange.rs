//! The course of one dispatch, step by step.
//!
//! A command goes to each target in turn. After each transmission the
//! replies that are already there are collected without waiting, so that
//! they do not pile up while the remaining targets are served. When all is
//! sent, replies are awaited under the timeout until every command has been
//! answered or no reply comes in time. A broadcast is one transmission, and
//! since any number of devices may answer it, its replies are collected
//! until none comes in time.
//!
//! The exchange does no input or output. [`Exchange::step`] tells the caller
//! what to do next, and the caller reports what came of it. A datagram that
//! came in is first read with [`Exchange::read`]: what is no control message,
//! or answers no unanswered command, ends the dispatch for the caller, and
//! the exchange has no way to take it.

use rand::Rng;
use vstd::prelude::*;
use crate::addr::SockAddr;
use crate::codec::parse_msg;
use crate::ctrl_msg::{CtrlMsg, CtrlMsgView};
use crate::dispatch::{
    CmdReplySummary, DispatchError, Dispatcher, all_invalid, lists_silent, none_invalid, reply_is,
};
use crate::wire::FormatError;

verus! {

/// How far an exchange has got.
#[derive(Clone, Copy, Debug, PartialEq, Eq, Structural)]
pub enum Phase {
    /// The command for target `target` is due.
    Sending { target: usize },
    /// The command for target `target` is out, and the replies that are
    /// already there are collected.
    Draining { target: usize },
    /// All commands are out, and replies are awaited under the timeout.
    Waiting,
    /// Nothing is left to do.
    Done,
}

/// What the caller of an exchange has to do next.
#[derive(Clone, Copy, Debug, PartialEq, Eq, Structural)]
pub enum Step {
    /// Get the datagram for target `target` from `send_next` and transmit it.
    Send { target: usize },
    /// Receive one datagram, waiting for it no longer than the timeout if
    /// `blocking` and not at all otherwise; report it with `on_datagram`, or
    /// that none came with `on_silence`.
    Receive { blocking: bool },
    /// Take the summary.
    Finish,
}

/// The phase in which an exchange with `n_targets` targets starts.
pub open spec fn first_phase(n_targets: usize) -> Phase {
    if n_targets == 0 {
        Phase::Done
    } else {
        Phase::Sending { target: 0 }
    }
}

/// What is due in `phase`.
pub open spec fn step_of(phase: Phase) -> Step {
    match phase {
        Phase::Sending { target } => Step::Send { target },
        Phase::Draining { .. } => Step::Receive { blocking: false },
        Phase::Waiting => Step::Receive { blocking: true },
        Phase::Done => Step::Finish,
    }
}

/// The phase after a command has been handed out for transmission.
pub open spec fn after_send(phase: Phase) -> Phase {
    match phase {
        Phase::Sending { target } => Phase::Draining { target },
        _ => phase,
    }
}

/// The phase after a reply has been taken. While commands are still due a
/// reply changes nothing; later the exchange is done once every command has
/// been answered, unless it is a broadcast.
pub open spec fn after_reply(phase: Phase, broadcast: bool, all_replied: bool) -> Phase {
    match phase {
        Phase::Waiting => if !broadcast && all_replied {
            Phase::Done
        } else {
            Phase::Waiting
        },
        _ => phase,
    }
}

/// The phase after no datagram came: the next target is served, or, when
/// all commands are out, the wait under the timeout begins, unless every
/// command has been answered already. Silence under the timeout ends the
/// exchange.
pub open spec fn after_silence(
    phase: Phase,
    n_targets: usize,
    broadcast: bool,
    all_replied: bool,
) -> Phase {
    match phase {
        Phase::Draining { target } => if target + 1 < n_targets {
            Phase::Sending { target: (target + 1) as usize }
        } else if !broadcast && all_replied {
            Phase::Done
        } else {
            Phase::Waiting
        },
        Phase::Waiting => Phase::Done,
        _ => phase,
    }
}

/// How many times at most the caller is told to send or meets silence from
/// `phase` on, in an exchange with `n_targets` targets.
pub open spec fn steps_left(phase: Phase, n_targets: usize) -> int {
    match phase {
        Phase::Sending { target } => 2 * (n_targets - target) + 1,
        Phase::Draining { target } => 2 * (n_targets - target),
        Phase::Waiting => 1,
        Phase::Done => 0,
    }
}

/// A fresh identifier for a command.
///
/// Calls `rand::rng()` and `Rng::random` for a `u32`. Nothing is claimed of
/// the number: two calls may well return the same one.
#[verifier::external_body]
fn fresh_msg_id() -> (id: u32) {
    rand::rng().random::<u32>()
}

/// One dispatch under way.
pub struct Exchange {
    book: Dispatcher,
    cmd: CtrlMsg,
    n_targets: usize,
    broadcast: bool,
    phase: Phase,
}

impl Exchange {
    /// Whether the exchange is in order. Every exchange that `unicast` or
    /// `broadcast` made and the methods below changed is.
    pub closed spec fn wf(self) -> bool {
        &&& self.book.wf()
        &&& match self.phase {
            Phase::Sending { target } => target < self.n_targets,
            Phase::Draining { target } => target < self.n_targets,
            _ => true,
        }
        &&& self.broadcast ==> self.n_targets == 1 && self.book.pending().len() == 0
    }

    /// The bookkeeping of commands and replies.
    pub closed spec fn book(self) -> Dispatcher {
        self.book
    }

    /// The command as it was last sent.
    pub closed spec fn cmd(self) -> CtrlMsg {
        self.cmd
    }

    /// How far the exchange has got.
    pub closed spec fn phase(self) -> Phase {
        self.phase
    }

    /// The number of targets.
    pub closed spec fn n_targets(self) -> usize {
        self.n_targets
    }

    /// Whether the command goes out as a broadcast.
    pub closed spec fn is_broadcast(self) -> bool {
        self.broadcast
    }

    /// Whether every command has been answered.
    pub open spec fn all_replied(self) -> bool {
        self.book().spec_all_replied()
    }

    /// Whether the exchange is collecting or awaiting replies.
    pub open spec fn receiving(self) -> bool {
        self.phase() is Draining || self.phase() is Waiting
    }

    /// What a datagram that came in is to the exchange: the reply in it, or
    /// the reason why it is none. A broadcast takes a reply under any
    /// identifier; otherwise a command under the reply's identifier has to be
    /// unanswered.
    pub open spec fn reply_in(self, s: Seq<u8>) -> Result<CtrlMsgView, DispatchError> {
        if !self.receiving() {
            Err(DispatchError::OutOfTurn)
        } else {
            match parse_msg(s) {
                Err(error) => Err(DispatchError::Format { error }),
                Ok(m) => if self.is_broadcast() || self.book().pending().contains_key(m.msg_id()) {
                    Ok(m)
                } else {
                    Err(DispatchError::NotPending { msg_id: m.msg_id() })
                },
            }
        }
    }

    /// Whether `reply` can be taken: the exchange is receiving, and unless
    /// it is a broadcast a command under the reply's identifier is
    /// unanswered. What `read` returned can be taken.
    pub open spec fn takes(self, reply: CtrlMsgView) -> bool {
        &&& self.receiving()
        &&& self.is_broadcast() || self.book().pending().contains_key(reply.msg_id())
    }

    /// Whether `after` differs from `self` in nothing but the phase.
    pub open spec fn same_but_phase(self, after: Exchange) -> bool {
        &&& after.book() == self.book()
        &&& after.cmd() == self.cmd()
        &&& after.n_targets() == self.n_targets()
        &&& after.is_broadcast() == self.is_broadcast()
    }

    /// The bookkeeping of an exchange that is in order is in order: its
    /// invalid replies are error replies, its normal replies are none, and
    /// its unanswered commands are finitely many, none exactly when the map
    /// of them is empty.
    pub proof fn lemma_book_in_order(self)
        requires
            self.wf(),
        ensures
            self.book().wf(),
            all_invalid(self.book().invalid()),
            none_invalid(self.book().normal()),
            self.book().pending().dom().finite(),
            self.all_replied() == (self.book().pending() == Map::<u32, Vec<SockAddr>>::empty()),
            self.is_broadcast() ==> self.all_replied(),
            self.phase() matches Phase::Sending { target } ==> target < self.n_targets(),
            self.phase() matches Phase::Draining { target } ==> target < self.n_targets(),
    {
        self.book.lemma_in_order();
    }

    /// An exchange that sends `cmd` to each of `n_targets` targets.
    pub fn unicast(cmd: CtrlMsg, n_targets: usize) -> (x: Exchange)
        ensures
            x.wf(),
            x.phase() == first_phase(n_targets),
            x.n_targets() == n_targets,
            !x.is_broadcast(),
            x.cmd() == cmd,
            x.book().pending() == Map::<u32, Vec<SockAddr>>::empty(),
            x.book().invalid().len() == 0,
            x.book().normal().len() == 0,
    {
        let phase = if n_targets == 0 {
            Phase::Done
        } else {
            Phase::Sending { target: 0 }
        };
        Exchange { book: Dispatcher::new(), cmd, n_targets, broadcast: false, phase }
    }

    /// An exchange that sends `cmd` once, to a broadcast address.
    pub fn broadcast(cmd: CtrlMsg) -> (x: Exchange)
        ensures
            x.wf(),
            x.phase() == (Phase::Sending { target: 0 }),
            x.n_targets() == 1,
            x.is_broadcast(),
            x.cmd() == cmd,
            x.book().pending() == Map::<u32, Vec<SockAddr>>::empty(),
            x.book().invalid().len() == 0,
            x.book().normal().len() == 0,
    {
        Exchange {
            book: Dispatcher::new(),
            cmd,
            n_targets: 1,
            broadcast: true,
            phase: Phase::Sending { target: 0 },
        }
    }

    /// What the caller has to do next.
    pub fn step(&self) -> (s: Step)
        ensures
            s == step_of(self.phase()),
    {
        match self.phase {
            Phase::Sending { target } => Step::Send { target },
            Phase::Draining { .. } => Step::Receive { blocking: false },
            Phase::Waiting => Step::Receive { blocking: true },
            Phase::Done => Step::Finish,
        }
    }

    /// How far the exchange has got.
    pub fn current_phase(&self) -> (p: Phase)
        ensures
            p == self.phase(),
    {
        self.phase
    }

    /// The command as it was last sent.
    pub fn command(&self) -> (cmd: &CtrlMsg)
        ensures
            *cmd == self.cmd(),
    {
        &self.cmd
    }

    /// The identifier that the command was last sent under.
    pub fn last_msg_id(&self) -> (id: u32)
        ensures
            id == self.cmd()@.msg_id(),
    {
        self.cmd.get_msg_id()
    }

    /// The datagram for the target that is due, under the identifier
    /// `msg_id`. The command counts as sent to the target with the addresses
    /// `addrs`; a broadcast leaves no command to be answered.
    ///
    /// Fails with `OutOfTurn` when no command is due, and else with the
    /// format error when a count field of the command is wrong; the
    /// exchange stays where it is then.
    pub fn send_next_as(&mut self, msg_id: u32, addrs: Vec<SockAddr>) -> (r: Result<
        Vec<u8>,
        DispatchError,
    >)
        requires
            old(self).wf(),
        ensures
            final(self).wf(),
            final(self).n_targets() == old(self).n_targets(),
            final(self).is_broadcast() == old(self).is_broadcast(),
            final(self).book().invalid() == old(self).book().invalid(),
            final(self).book().normal() == old(self).book().normal(),
            if !(old(self).phase() is Sending) {
                &&& r == Err::<Vec<u8>, DispatchError>(DispatchError::OutOfTurn)
                &&& *final(self) == *old(self)
            } else if !old(self).cmd()@.wf() {
                &&& r == Err::<Vec<u8>, DispatchError>(
                    DispatchError::Format { error: FormatError::LengthMismatch },
                )
                &&& final(self).phase() == old(self).phase()
                &&& final(self).book().pending() == old(self).book().pending()
                &&& final(self).cmd()@ == old(self).cmd()@.with_msg_id(msg_id)
            } else {
                &&& r is Ok
                &&& r->Ok_0@ == final(self).cmd()@.bytes()
                &&& final(self).cmd()@ == old(self).cmd()@.with_msg_id(msg_id)
                &&& final(self).phase() == after_send(old(self).phase())
                &&& final(self).book().pending() == if old(self).is_broadcast() {
                    old(self).book().pending()
                } else {
                    old(self).book().pending().insert(msg_id, addrs)
                }
            },
    {
        let target: usize = match self.phase {
            Phase::Sending { target } => target,
            _ => {
                return Err(DispatchError::OutOfTurn);
            },
        };
        let sent = if self.broadcast {
            Dispatcher::stamp_broadcast(&mut self.cmd, msg_id)
        } else {
            self.book.stamp(&mut self.cmd, msg_id, addrs)
        };
        match sent {
            Ok(datagram) => {
                self.phase = Phase::Draining { target };
                Ok(datagram)
            },
            Err(error) => Err(DispatchError::Format { error }),
        }
    }

    /// The datagram for the target that is due, under a fresh random
    /// identifier, which `last_msg_id` tells afterwards. The command counts
    /// as sent to the target with the addresses `addrs`.
    ///
    /// Fails with `OutOfTurn` when no command is due, and else with the
    /// format error when a count field of the command is wrong; the
    /// exchange stays where it is then.
    pub fn send_next(&mut self, addrs: Vec<SockAddr>) -> (r: Result<Vec<u8>, DispatchError>)
        requires
            old(self).wf(),
        ensures
            final(self).wf(),
            final(self).n_targets() == old(self).n_targets(),
            final(self).is_broadcast() == old(self).is_broadcast(),
            final(self).book().invalid() == old(self).book().invalid(),
            final(self).book().normal() == old(self).book().normal(),
            if !(old(self).phase() is Sending) {
                &&& r == Err::<Vec<u8>, DispatchError>(DispatchError::OutOfTurn)
                &&& *final(self) == *old(self)
            } else if !old(self).cmd()@.wf() {
                &&& r == Err::<Vec<u8>, DispatchError>(
                    DispatchError::Format { error: FormatError::LengthMismatch },
                )
                &&& final(self).phase() == old(self).phase()
                &&& final(self).book().pending() == old(self).book().pending()
                &&& final(self).cmd()@ == old(self).cmd()@.with_msg_id(final(self).cmd()@.msg_id())
            } else {
                &&& r is Ok
                &&& r->Ok_0@ == final(self).cmd()@.bytes()
                &&& final(self).cmd()@ == old(self).cmd()@.with_msg_id(final(self).cmd()@.msg_id())
                &&& final(self).phase() == after_send(old(self).phase())
                &&& final(self).book().pending() == if old(self).is_broadcast() {
                    old(self).book().pending()
                } else {
                    old(self).book().pending().insert(final(self).cmd()@.msg_id(), addrs)
                }
            },
    {
        let msg_id: u32 = fresh_msg_id();
        proof {
            crate::ctrl_msg::lemma_with_msg_id(self.cmd@, msg_id);
        }
        self.send_next_as(msg_id, addrs)
    }

    /// Reads a datagram that came in while the exchange was receiving.
    ///
    /// Fails with `OutOfTurn` when the exchange is not receiving, with the
    /// format error when the datagram is no control message, and with the
    /// stray identifier when the exchange is no broadcast and no command
    /// under the reply's identifier is unanswered. After a failure the
    /// dispatch is to be given up: the exchange takes no such datagram, and
    /// a summary made without it would pass it over.
    pub fn read(&self, datagram: &[u8]) -> (r: Result<CtrlMsg, DispatchError>)
        requires
            self.wf(),
        ensures
            reply_is(r, self.reply_in(datagram@)),
            r matches Ok(reply) ==> self.takes(reply@),
    {
        match self.phase {
            Phase::Draining { .. } | Phase::Waiting => {},
            _ => {
                return Err(DispatchError::OutOfTurn);
            },
        }
        if self.broadcast {
            match CtrlMsg::decode(datagram) {
                Ok(reply) => Ok(reply),
                Err(error) => Err(DispatchError::Format { error }),
            }
        } else {
            self.book.read_reply(datagram)
        }
    }

    /// Takes the reply that was read from a datagram from `from`: it is
    /// sorted in, and unless the exchange is a broadcast the command it
    /// answers counts as answered.
    pub fn take(&mut self, from: SockAddr, reply: CtrlMsg)
        requires
            old(self).wf(),
            old(self).takes(reply@),
        ensures
            final(self).wf(),
            final(self).n_targets() == old(self).n_targets(),
            final(self).is_broadcast() == old(self).is_broadcast(),
            final(self).cmd() == old(self).cmd(),
            old(self).book().sorted_in(final(self).book(), from, reply),
            final(self).book().pending() == if old(self).is_broadcast() {
                old(self).book().pending()
            } else {
                old(self).book().pending().remove(reply@.msg_id())
            },
            final(self).phase() == after_reply(
                old(self).phase(),
                old(self).is_broadcast(),
                final(self).all_replied(),
            ),
    {
        if self.broadcast {
            self.book.record(from, reply);
        } else {
            let done = self.book.take_reply(from, reply);
            if done {
                match self.phase {
                    Phase::Waiting => {
                        self.phase = Phase::Done;
                    },
                    _ => {},
                }
            }
        }
    }

    /// Takes in that no datagram came: at once while collecting, or within
    /// the timeout while waiting.
    pub fn on_silence(&mut self)
        requires
            old(self).wf(),
        ensures
            final(self).wf(),
            old(self).same_but_phase(*final(self)),
            final(self).phase() == after_silence(
                old(self).phase(),
                old(self).n_targets(),
                old(self).is_broadcast(),
                old(self).all_replied(),
            ),
    {
        match self.phase {
            Phase::Draining { target } => {
                if target + 1 < self.n_targets {
                    self.phase = Phase::Sending { target: target + 1 };
                } else if !self.broadcast && self.book.all_replied() {
                    self.phase = Phase::Done;
                } else {
                    self.phase = Phase::Waiting;
                }
            },
            Phase::Waiting => {
                self.phase = Phase::Done;
            },
            _ => {},
        }
    }

    /// Closes the exchange: the replies as they were sorted in, error
    /// replies and others apart, and every target whose command is
    /// unanswered once, with all its addresses, by ascending identifier. A
    /// broadcast has no such target.
    pub fn finish(self) -> (s: CmdReplySummary)
        requires
            self.wf(),
        ensures
            s.invalid_reply@ == self.book().invalid(),
            s.normal_reply@ == self.book().normal(),
            all_invalid(s.invalid_reply@),
            none_invalid(s.normal_reply@),
            s.no_reply@.len() == self.book().pending().len(),
            lists_silent(s.no_reply@, self.book().pending()),
            self.is_broadcast() ==> s.no_reply@.len() == 0,
    {
        let Exchange { book, cmd: _, n_targets: _, broadcast: _, phase: _ } = self;
        book.finish()
    }
}

/// Every transmission and every silence brings the exchange nearer to its
/// end, and a reply never takes it further away: an exchange in which the
/// replies stop coming ends after finitely many steps.
pub proof fn lemma_exchange_ends(phase: Phase, n_targets: usize, broadcast: bool, all_replied: bool)
    requires
        phase matches Phase::Sending { target } ==> target < n_targets,
        phase matches Phase::Draining { target } ==> target < n_targets,
    ensures
        steps_left(phase, n_targets) >= 0,
        steps_left(phase, n_targets) == 0 <==> phase == Phase::Done,
        phase is Sending ==> steps_left(after_send(phase), n_targets) < steps_left(
            phase,
            n_targets,
        ),
        phase is Draining || phase is Waiting ==> steps_left(
            after_silence(phase, n_targets, broadcast, all_replied),
            n_targets,
        ) < steps_left(phase, n_targets),
        steps_left(after_reply(phase, broadcast, all_replied), n_targets) <= steps_left(
            phase,
            n_targets,
        ),
{
}

/// A broadcast is never done before silence under the timeout, however
/// many replies come.
pub proof fn lemma_broadcast_waits(phase: Phase, all_replied: bool)
    ensures
        after_reply(phase, true, all_replied) == phase,
{
}

} // verus!
