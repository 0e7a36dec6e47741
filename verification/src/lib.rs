//! Engine of a single-line status bar: a fixed registry of four blocks
//! (battery, memory, time, volume), each refreshed from plain system
//! facts, and the dispatch vocabulary a render loop applies to the
//! registry.  Concurrent producers translate their events — timer ticks,
//! helper-stream lines, OS signals — into [`Message`] values; the single
//! consumer applies each message to the [`blocks::Blocks`] registry and
//! reprints the rendered line.

use vstd::prelude::*;
use vstd::string::StringExecFns;

pub mod blocks;
pub mod text;

use crate::blocks::{signal_at, BlockSignal, BlockState};
use crate::text::{dec_digits, push_char, push_u64};

verus! {

/// One unit of work a producer sends to the render loop.
#[derive(Debug)]
pub enum Message {
    /// SIGUSR1: refresh every block.
    Usr1,
    /// SIGUSR2: wake the loop and change nothing.
    Usr2,
    /// A realtime-signal offset: refresh the one block it addresses.
    Custom(BlockSignal),
    /// A snapshot a producer pushed, to be installed whole.
    Block(BlockState),
}

/// The error of a signal whose realtime offset addresses no block.
#[derive(Clone, Copy, Debug, PartialEq, Eq, Structural)]
pub struct ProtocolError {
    pub offset: i32,
}

impl ProtocolError {
    /// The diagnostic description of the unknown signal.
    pub fn message(&self) -> (s: String)
        ensures
            s@ == "unknown signal: "@ + (if self.offset < 0 {
                seq!['-'] + dec_digits((-(self.offset as int)) as nat)
            } else {
                dec_digits(self.offset as nat)
            }),
    {
        let mut s = String::new();
        s.append("unknown signal: ");
        if self.offset < 0 {
            push_char(&mut s, '-');
            push_u64(&mut s, (-(self.offset as i64)) as u64);
        } else {
            push_u64(&mut s, self.offset as u64);
        }
        assert(s@ =~= "unknown signal: "@ + (if self.offset < 0 {
            seq!['-'] + dec_digits((-(self.offset as int)) as nat)
        } else {
            dec_digits(self.offset as nat)
        }));
        s
    }
}

impl Message {
    /// Translates one received OS signal into its dispatch message: the
    /// first user signal asks for a full refresh, the second for a no-op
    /// wake, and any other signal is taken as a realtime signal whose
    /// zero-based offset from `rtmin` addresses one block; an offset
    /// addressing no block is the protocol error carrying that offset.
    pub fn from_signal(sig: i32, usr1: i32, usr2: i32, rtmin: i32) -> (r: Result<
        Message,
        ProtocolError,
    >)
        requires
            sig >= 0,
            rtmin >= 0,
        ensures
            sig == usr1 ==> r == Ok::<Message, ProtocolError>(Message::Usr1),
            sig != usr1 && sig == usr2 ==> r == Ok::<Message, ProtocolError>(Message::Usr2),
            sig != usr1 && sig != usr2 && 0 <= sig - rtmin < 4 ==> r == Ok::<
                Message,
                ProtocolError,
            >(Message::Custom(signal_at(sig - rtmin))),
            sig != usr1 && sig != usr2 && !(0 <= sig - rtmin < 4) ==> r == Err::<
                Message,
                ProtocolError,
            >(ProtocolError { offset: (sig - rtmin) as i32 }),
    {
        if sig == usr1 {
            Ok(Message::Usr1)
        } else if sig == usr2 {
            Ok(Message::Usr2)
        } else {
            let off = sig - rtmin;
            match BlockSignal::from_offset(off) {
                Some(signal) => Ok(Message::Custom(signal)),
                None => Err(ProtocolError { offset: off }),
            }
        }
    }
}

} // verus!
