//! The commands that the host sends and the responses that go back, as plain
//! values.

use vstd::prelude::*;
use crate::attributes::version_tag;

verus! {

/// A decoded command.
#[derive(Clone, Debug, PartialEq, Eq)]
pub enum Command {
    /// Ask for a `Pong`.
    Ping,
    /// Ask for the identity string.
    Info,
    /// Drop whatever partial frame the decoder holds.
    Reset,
    /// Erase the page that starts at `address`.
    ErasePage { address: u32 },
    /// Program `data`, word by word, from `address` on.
    WritePage { address: u32, data: Vec<u8> },
    /// Read `length` bytes from `address` on.
    ReadRange { address: u32, length: u16 },
    /// Read the attribute slot `index`.
    GetAttr { index: u8 },
    /// Write an attribute slot. Recognised, not implemented.
    SetAttr { index: u8, key: Vec<u8>, value: Vec<u8> },
    /// Any other command that the protocol knows and this firmware does not
    /// implement.
    Unimplemented,
}

/// A response, ready to be encoded.
#[derive(Clone, Debug, PartialEq, Eq)]
pub enum Response {
    /// The answer to `Ping`.
    Pong,
    /// The identity string.
    Info { info: Vec<u8> },
    /// The operation succeeded.
    Success,
    /// The command's arguments were refused, or the flash driver failed.
    BadArguments,
    /// The bytes received did not form a command.
    InternalError,
    /// The command is not implemented.
    Unknown,
    /// The bytes read.
    ReadRange { data: Vec<u8> },
    /// Key and whole value buffer of an attribute slot.
    GetAttr { key: [u8; 8], value: [u8; 47] },
}

/// A response with its byte buffers as sequences.
pub enum ResponseView {
    Pong,
    Info { info: Seq<u8> },
    Success,
    BadArguments,
    InternalError,
    Unknown,
    ReadRange { data: Seq<u8> },
    GetAttr { key: Seq<u8>, value: Seq<u8> },
}

impl View for Response {
    type V = ResponseView;

    open spec fn view(&self) -> ResponseView {
        match *self {
            Response::Pong => ResponseView::Pong,
            Response::Info { info } => ResponseView::Info { info: info@ },
            Response::Success => ResponseView::Success,
            Response::BadArguments => ResponseView::BadArguments,
            Response::InternalError => ResponseView::InternalError,
            Response::Unknown => ResponseView::Unknown,
            Response::ReadRange { data } => ResponseView::ReadRange { data: data@ },
            Response::GetAttr { key, value } => ResponseView::GetAttr {
                key: key@,
                value: value@,
            },
        }
    }
}

/// The identity string that `Info` returns:
/// `{ "version":"0.1.0", "name":"Tock Bootloader" }`.
pub open spec fn identity_string() -> Seq<u8> {
    seq![
        123u8, 32, 34, 118, 101, 114, 115, 105, 111, 110, 34, 58, 34, 48, 46, 49,
        46, 48, 34, 44, 32, 34, 110, 97, 109, 101, 34, 58, 34, 84, 111, 99,
        107, 32, 66, 111, 111, 116, 108, 111, 97, 100, 101, 114, 34, 32, 125,
    ]
}

/// The version that the identity string names is the version string of the
/// identity record, without its padding.
pub proof fn lemma_identity_names_version()
    ensures
        identity_string().subrange(13, 18) == version_tag().subrange(0, 5),
        version_tag().subrange(5, 8) == seq![0u8, 0u8, 0u8],
{
    assert(identity_string().subrange(13, 18) =~= version_tag().subrange(0, 5));
    assert(version_tag().subrange(5, 8) =~= seq![0u8, 0u8, 0u8]);
}

/// The identity string, byte for byte.
pub fn identity() -> (info: Vec<u8>)
    ensures
        info@ == identity_string(),
{
    let info = vec![
        123u8, 32, 34, 118, 101, 114, 115, 105, 111, 110, 34, 58, 34, 48, 46, 49,
        46, 48, 34, 44, 32, 34, 110, 97, 109, 101, 34, 58, 34, 84, 111, 99,
        107, 32, 66, 111, 111, 116, 108, 111, 97, 100, 101, 114, 34, 32, 125,
    ];
    assert(info@ =~= identity_string());
    info
}

} // verus!
