//! The wire codec, which is not part of this crate: `tockloader_proto`
//! decodes the bytes received into commands and encodes responses into
//! bytes. This module states what the rest of the crate relies on.
//!
//! The decoder is a receive buffer of at most 520 bytes and an escape flag.
//! A byte that follows the escape byte is a command code; it ends the frame,
//! and the buffer then holds the command's arguments.

use vstd::prelude::*;
use crate::protocol::{Command, Response, ResponseView};
use tockloader_proto::{Command as Wire, CommandDecoder, Response as WireResponse, ResponseEncoder};

verus! {

/// The byte that introduces a command code.
pub const ESCAPE: u8 = 0xFC;

/// The code of `Ping`.
pub const CODE_PING: u8 = 0x01;

/// The code of `Info`.
pub const CODE_INFO: u8 = 0x03;

/// The code of `Reset`.
pub const CODE_RESET: u8 = 0x05;

/// The code of `ErasePage`.
pub const CODE_ERASE_PAGE: u8 = 0x06;

/// The code of `WritePage`.
pub const CODE_WRITE_PAGE: u8 = 0x07;

/// The code of `ReadRange`.
pub const CODE_READ_RANGE: u8 = 0x11;

/// The code of `SetAttr`.
pub const CODE_SET_ATTR: u8 = 0x13;

/// The code of `GetAttr`.
pub const CODE_GET_ATTR: u8 = 0x14;

/// The decoder of `tockloader_proto`, carried as an opaque value.
#[verifier::external_type_specification]
#[verifier::external_body]
pub struct ExCommandDecoder(tockloader_proto::CommandDecoder);

/// The bytes that a decoder has buffered for the frame in progress.
pub uninterp spec fn buffered(decoder: CommandDecoder) -> Seq<u8>;

/// Whether the last byte that a decoder took was an escape byte that still
/// waits for its command code.
pub uninterp spec fn escaped(decoder: CommandDecoder) -> bool;

/// The bytes that encode a response, or `None` where the encoder refuses
/// it.
pub uninterp spec fn wire_bytes(response: ResponseView) -> Option<Seq<u8>>;

/// What one received byte came to.
#[derive(Debug)]
pub enum Decoded {
    /// The frame is not complete yet.
    Incomplete,
    /// The byte completed this command.
    Complete(Command),
    /// The byte ended a frame that is no command.
    Failed,
}

/// The receive buffer after one more byte: a full buffer drops it.
pub open spec fn appended(buffer: Seq<u8>, byte: u8) -> Seq<u8> {
    if buffer.len() < 520 {
        buffer.push(byte)
    } else {
        buffer
    }
}

/// The 16-bit number that stands at `at`, least significant byte first.
pub open spec fn le16(buffer: Seq<u8>, at: int) -> int {
    buffer[at] as int + buffer[at + 1] as int * 0x100
}

/// The 32-bit number that stands at `at`, least significant byte first.
pub open spec fn le32(buffer: Seq<u8>, at: int) -> int {
    buffer[at] as int + buffer[at + 1] as int * 0x100 + buffer[at + 2] as int * 0x1_0000
        + buffer[at + 3] as int * 0x100_0000
}

/// For the code of a command that the protocol knows and this firmware does
/// not implement: whether `buffer` holds exactly the command's arguments.
/// `None` for a byte that is the code of no such command.
pub open spec fn other_command(buffer: Seq<u8>, code: u8) -> Option<bool> {
    if code == 0x04 || code == 0x10 || code == 0x18 || code == 0x19 {
        Some(true)
    } else if code == 0x08 || code == 0x17 {
        Some(buffer.len() == 4)
    } else if code == 0x09 {
        Some(buffer.len() == 260)
    } else if code == 0x12 {
        Some(buffer.len() == 6)
    } else if code == 0x15 || code == 0x16 || code == 0x20 {
        Some(buffer.len() == 8)
    } else if code == 0x21 {
        Some(buffer.len() == 5 && (buffer[0] == 1 || buffer[0] == 2))
    } else {
        None
    }
}

/// Whether `decoded` is what a frame comes to that holds `buffer` and ends
/// with the command code `code`. A command is complete only if the buffer
/// holds exactly its arguments, else the frame has failed; numbers are
/// little-endian. A byte that is no command code leaves the frame open.
pub open spec fn decodes(buffer: Seq<u8>, code: u8, decoded: Decoded) -> bool {
    if code == ESCAPE {
        decoded is Incomplete
    } else if code == CODE_PING {
        decoded == Decoded::Complete(Command::Ping)
    } else if code == CODE_INFO {
        decoded == Decoded::Complete(Command::Info)
    } else if code == CODE_RESET {
        decoded == Decoded::Complete(Command::Reset)
    } else if code == CODE_ERASE_PAGE {
        if buffer.len() == 4 {
            decoded == Decoded::Complete(Command::ErasePage { address: le32(buffer, 0) as u32 })
        } else {
            decoded is Failed
        }
    } else if code == CODE_WRITE_PAGE {
        if buffer.len() == 516 {
            decoded matches Decoded::Complete(Command::WritePage { address, data }) && address
                == le32(buffer, 0) && data@ == buffer.subrange(4, 516)
        } else {
            decoded is Failed
        }
    } else if code == CODE_READ_RANGE {
        if buffer.len() == 6 {
            decoded == Decoded::Complete(
                Command::ReadRange {
                    address: le32(buffer, 0) as u32,
                    length: le16(buffer, 4) as u16,
                },
            )
        } else {
            decoded is Failed
        }
    } else if code == CODE_GET_ATTR {
        if buffer.len() == 1 {
            decoded == Decoded::Complete(Command::GetAttr { index: buffer[0] })
        } else {
            decoded is Failed
        }
    } else if code == CODE_SET_ATTR {
        if buffer.len() >= 10 && buffer.len() == 10 + buffer[9] {
            decoded matches Decoded::Complete(Command::SetAttr { index, key, value }) && index
                == buffer[0] && key@ == buffer.subrange(1, 9) && value@ == buffer.subrange(
                10,
                10 + buffer[9],
            )
        } else {
            decoded is Failed
        }
    } else {
        match other_command(buffer, code) {
            Some(true) => decoded == Decoded::Complete(Command::Unimplemented),
            Some(false) => decoded is Failed,
            None => decoded is Incomplete,
        }
    }
}

/// The responses that the encoder accepts: an identity string of at most
/// 192 bytes, a key of 8 bytes with a value of at most 55, and every
/// response of the other kinds.
pub open spec fn encodable(response: ResponseView) -> bool {
    match response {
        ResponseView::Info { info } => info.len() <= 192,
        ResponseView::GetAttr { key, value } => key.len() == 8 && value.len() <= 55,
        _ => true,
    }
}

/// `CommandDecoder::new`: a decoder with an empty buffer that waits for an
/// ordinary byte.
pub assume_specification[ tockloader_proto::CommandDecoder::new ]() -> (decoder: CommandDecoder)
    ensures
        buffered(decoder) == Seq::<u8>::empty(),
        !escaped(decoder),
;

/// `CommandDecoder::reset`: empties the buffer and leaves the escape flag as
/// it is.
pub assume_specification[ tockloader_proto::CommandDecoder::reset ](decoder: &mut CommandDecoder)
    ensures
        buffered(*final(decoder)) == Seq::<u8>::empty(),
        escaped(*final(decoder)) == escaped(*old(decoder)),
;

/// `CommandDecoder::receive`, with the command copied into this crate's
/// type. An ordinary byte is buffered and the escape byte raises the flag;
/// neither completes a frame. After an escape byte, a second escape byte is
/// buffered as data, and any other byte is taken as a command code: the flag
/// drops, the buffer is emptied unless the frame goes on, and what comes
/// back is what `decodes` says of the buffer and the code.
#[verifier::external_body]
pub(crate) fn receive(decoder: &mut CommandDecoder, byte: u8) -> (decoded: Decoded)
    ensures
        !escaped(*old(decoder)) ==> decoded is Incomplete && escaped(*final(decoder)) == (byte
            == ESCAPE) && buffered(*final(decoder)) == if byte == ESCAPE {
            buffered(*old(decoder))
        } else {
            appended(buffered(*old(decoder)), byte)
        },
        escaped(*old(decoder)) ==> !escaped(*final(decoder)) && decodes(
            buffered(*old(decoder)),
            byte,
            decoded,
        ),
        escaped(*old(decoder)) && byte == ESCAPE ==> buffered(*final(decoder)) == appended(
            buffered(*old(decoder)),
            byte,
        ),
        escaped(*old(decoder)) && byte != ESCAPE ==> buffered(*final(decoder)) == if decoded is Incomplete {
            buffered(*old(decoder))
        } else {
            Seq::<u8>::empty()
        },
{
    let Ok(frame) = decoder.receive(byte) else { return Decoded::Failed };
    let Some(command) = frame else { return Decoded::Incomplete };
    Decoded::Complete(match command {
        Wire::Ping => Command::Ping,
        Wire::Info => Command::Info,
        Wire::Reset => Command::Reset,
        Wire::ErasePage { address } => Command::ErasePage { address },
        Wire::WritePage { address, data } => Command::WritePage { address, data: data.to_vec() },
        Wire::ReadRange { address, length } => Command::ReadRange { address, length },
        Wire::GetAttr { index } => Command::GetAttr { index },
        Wire::SetAttr { index, key, value } => {
            Command::SetAttr { index, key: key.to_vec(), value: value.to_vec() }
        },
        _ => Command::Unimplemented,
    })
}

/// `ResponseEncoder::new` and the bytes that the encoder then yields, all of
/// them. The encoder refuses exactly the responses that are not encodable.
#[verifier::external_body]
fn encode_with(response: &Response) -> (bytes: Option<Vec<u8>>)
    ensures
        bytes is Some <==> encodable(response@),
        match bytes {
            Some(b) => wire_bytes(response@) == Some(b@),
            None => wire_bytes(response@) is None,
        },
{
    let wire = match response {
        Response::Pong => WireResponse::Pong,
        Response::Info { info } => WireResponse::Info { info },
        Response::Success => WireResponse::Ok,
        Response::BadArguments => WireResponse::BadArguments,
        Response::InternalError => WireResponse::InternalError,
        Response::Unknown => WireResponse::Unknown,
        Response::ReadRange { data } => WireResponse::ReadRange { data },
        Response::GetAttr { key, value } => WireResponse::GetAttr { key, value },
    };
    match ResponseEncoder::new(&wire) {
        Ok(encoder) => Some(encoder.collect()),
        Err(_) => None,
    }
}

/// The bytes to send for `response`, or `None` where it cannot be encoded:
/// that is, where it carries an identity string of more than 192 bytes.
pub fn encode(response: &Response) -> (bytes: Option<Vec<u8>>)
    ensures
        bytes is Some <==> encodable(response@),
        match bytes {
            Some(b) => wire_bytes(response@) == Some(b@),
            None => wire_bytes(response@) is None,
        },
{
    encode_with(response)
}

} // verus!
