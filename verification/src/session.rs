//! The protocol loop's side of the decoder: bytes go in, and out comes what
//! the loop does next.
//!
//! The loop itself belongs to the caller, who owns the serial port: it polls
//! for a byte, hands it to `Session::on_byte`, performs the step that comes
//! back, and sends the bytes of the response.

use vstd::prelude::*;
use crate::attributes::FlashInfo;
use crate::codec::{
    appended, buffered, decodes, encodable, escaped, receive, Decoded, CODE_INFO, CODE_PING,
    CODE_RESET, ESCAPE,
};
use crate::dispatch::{answers, dispatch, Step};
use crate::protocol::{identity_string, Response, ResponseView};
use tockloader_proto::CommandDecoder;

verus! {

/// Every response that `dispatch` gives at once can be encoded.
pub proof fn lemma_replies_encodable(table: FlashInfo, command: crate::protocol::Command, step: Step)
    requires
        answers(table, command, step),
    ensures
        step matches Step::Reply(r) ==> encodable(r@),
{
    broadcast use crate::attributes::Attribute::lemma_sizes;

    assert(identity_string().len() == 47);
}

/// Whether `next` is the step for what the decoder made of a byte: none
/// while the frame is incomplete, an internal error for a frame that is no
/// command, and for a command the step that it calls for.
pub open spec fn routed(table: FlashInfo, decoded: Decoded, next: Option<Step>) -> bool {
    match decoded {
        Decoded::Incomplete => next is None,
        Decoded::Failed => next matches Some(Step::Reply(r)) && r@ == ResponseView::InternalError,
        Decoded::Complete(command) => next matches Some(step) && answers(table, command, step),
    }
}

/// The step for what the decoder made of a byte.
pub fn route(table: &FlashInfo, decoded: Decoded) -> (next: Option<Step>)
    ensures
        routed(*table, decoded, next),
        next matches Some(Step::Reply(r)) ==> encodable(r@),
{
    match decoded {
        Decoded::Incomplete => None,
        Decoded::Failed => Some(Step::Reply(Response::InternalError)),
        Decoded::Complete(command) => {
            let step = dispatch(table, command);
            proof {
                lemma_replies_encodable(*table, command, step);
            }
            Some(step)
        },
    }
}

/// A decoder and the attribute table that commands are answered from.
pub struct Session {
    decoder: CommandDecoder,
    table: FlashInfo,
}

impl Session {
    /// The bytes buffered for the frame in progress.
    pub closed spec fn pending(self) -> Seq<u8> {
        buffered(self.decoder)
    }

    /// Whether the next byte will be taken as a command code.
    pub closed spec fn awaits_code(self) -> bool {
        escaped(self.decoder)
    }

    /// The attribute table.
    pub closed spec fn table(self) -> FlashInfo {
        self.table
    }

    /// No frame is in progress: whatever comes next starts a fresh command.
    pub open spec fn idle(self) -> bool {
        self.pending() == Seq::<u8>::empty() && !self.awaits_code()
    }

    /// A session that has received nothing yet.
    pub fn new(table: FlashInfo) -> (session: Session)
        ensures
            session.idle(),
            session.table() == table,
    {
        Session { decoder: CommandDecoder::new(), table }
    }

    /// Takes one received byte. `None` means that no command is complete and
    /// the loop polls on. Only the byte after an escape byte can complete a
    /// frame; the step is then the one for what the buffer and that byte
    /// decode to, and whatever ends a frame leaves the session idle. `Reset`
    /// yields no response, and the decoder is cleared before this returns.
    pub fn on_byte(&mut self, byte: u8) -> (next: Option<Step>)
        ensures
            final(self).table() == old(self).table(),
            !old(self).awaits_code() ==> next is None && final(self).awaits_code() == (byte
                == ESCAPE) && final(self).pending() == if byte == ESCAPE {
                old(self).pending()
            } else {
                appended(old(self).pending(), byte)
            },
            old(self).awaits_code() ==> !final(self).awaits_code(),
            old(self).awaits_code() ==> exists|decoded: Decoded| #[trigger]
                decodes(old(self).pending(), byte, decoded) && routed(
                    old(self).table(),
                    decoded,
                    next,
                ),
            old(self).awaits_code() && byte == ESCAPE ==> next is None && final(self).pending()
                == appended(old(self).pending(), byte),
            old(self).awaits_code() && byte != ESCAPE && next is None ==> final(self).pending()
                == old(self).pending(),
            next is Some ==> final(self).idle(),
            old(self).awaits_code() && byte == CODE_PING ==> (next matches Some(Step::Reply(r))
                && r@ == ResponseView::Pong),
            old(self).awaits_code() && byte == CODE_INFO ==> (next matches Some(Step::Reply(r))
                && r@ == (ResponseView::Info { info: identity_string() })),
            old(self).awaits_code() && byte == CODE_RESET ==> next matches Some(Step::Reset),
            next matches Some(Step::Reply(r)) ==> encodable(r@),
    {
        let decoded = receive(&mut self.decoder, byte);
        let ghost outcome = decoded;
        let next = route(&self.table, decoded);
        assert(old(self).awaits_code() ==> decodes(old(self).pending(), byte, outcome) && routed(
            old(self).table(),
            outcome,
            next,
        ));
        if let Some(Step::Reset) = next {
            self.decoder.reset();
        }
        next
    }

    /// Drops the frame in progress, as the loop does when it gives up on
    /// what it has received.
    pub fn clear(&mut self)
        ensures
            final(self).table() == old(self).table(),
            final(self).pending() == Seq::<u8>::empty(),
            final(self).awaits_code() == old(self).awaits_code(),
    {
        self.decoder.reset();
    }
}

} // verus!
