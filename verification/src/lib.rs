//! Control and data plane client logic for a streaming radio front end.
//!
//! The control plane is a protocol of magic-tagged messages over datagrams:
//! [`ctrl_msg`] holds the messages, [`codec`] their wire format, [`dispatch`]
//! the pairing of replies with commands and [`exchange`] the course of one
//! dispatch. The data plane is a stream of fixed-size frames: [`payload`]
//! holds the frame, [`capture`] the rules by which lost frames are filled
//! in, [`pool`] the reusable buffers and [`pipeline`] the way of a frame
//! into the output queue.
//!
//! The library opens no socket and starts no thread. Its callers receive
//! and send the datagrams and hand them over as bytes.

pub mod wire;
pub mod xgbe;
pub mod health;
pub mod ctrl_msg;
pub mod codec;
pub mod payload;
pub mod capture;
pub mod pool;
pub mod pipeline;
pub mod addr;
pub mod dispatch;
pub mod exchange;
pub mod session;
pub mod simulator;
