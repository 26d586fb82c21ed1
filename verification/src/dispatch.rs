//! The dispatcher: what each command asks of the flash driver, and which
//! response goes back.
//!
//! The dispatcher never touches the hardware. `dispatch` answers a command
//! either with a response or with a job: a flash operation for the caller to
//! perform. The caller reports the driver's answer to the job, which says
//! what comes next. A page write is a chain of such steps, one per word, and
//! ends at the first word that the driver refuses.

use vstd::prelude::*;
use crate::attributes::FlashInfo;
use crate::protocol::{identity, identity_string, Command, Response, ResponseView};

verus! {

/// One word-program operation for the flash driver.
#[derive(Clone, Copy, Debug, PartialEq, Eq)]
pub struct ProgramCall {
    pub address: u32,
    pub word: u32,
}

/// The `k`-th word of `data`: four consecutive bytes, most significant first.
pub open spec fn word_at(data: Seq<u8>, k: int) -> int
    recommends
        0 <= k,
        4 * k + 4 <= data.len(),
{
    data[4 * k] as int * 0x100_0000 + data[4 * k + 1] as int * 0x1_0000 + data[4 * k + 2] as int
        * 0x100 + data[4 * k + 3] as int
}

/// The address of the `k`-th word of a write that starts at `base`. Addresses
/// are 32 bits wide and wrap around.
pub open spec fn address_at(base: u32, k: int) -> int {
    (base as int + 4 * k) % 0x1_0000_0000
}

/// The `k`-th program operation of a write of `data` at `base`.
pub open spec fn planned_call(base: u32, data: Seq<u8>, k: int) -> ProgramCall {
    ProgramCall { address: address_at(base, k) as u32, word: word_at(data, k) as u32 }
}

/// How a write of `len` bytes goes on once the driver has answered for word
/// number `done`: the response that ends it, or `None` where the next word
/// is due.
pub open spec fn after_word(len: nat, done: nat, programmed: bool) -> Option<ResponseView> {
    if !programmed {
        Some(ResponseView::BadArguments)
    } else if 4 * done + 4 == len {
        Some(ResponseView::Success)
    } else {
        None
    }
}

/// A write of `data` at `base`, taken up at word number `done`, against a
/// driver that answers the successive program operations with `outcomes`:
/// the operations issued, in order, and the response, if the write came to
/// its end.
pub open spec fn write_run(base: u32, data: Seq<u8>, done: nat, outcomes: Seq<bool>) -> (
    Seq<ProgramCall>,
    Option<ResponseView>,
)
    decreases outcomes.len(),
{
    if outcomes.len() == 0 {
        (Seq::empty(), None)
    } else {
        let call = planned_call(base, data, done as int);
        match after_word(data.len(), done, outcomes[0]) {
            Some(verdict) => (seq![call], Some(verdict)),
            None => {
                let rest = write_run(base, data, done + 1, outcomes.drop_first());
                (seq![call] + rest.0, rest.1)
            },
        }
    }
}

/// Whether `k` is the first operation that the driver refuses.
pub open spec fn first_refusal(outcomes: Seq<bool>, k: int) -> bool {
    &&& 0 <= k < outcomes.len()
    &&& !outcomes[k]
    &&& forall|i: int| 0 <= i < k ==> outcomes[i]
}

proof fn lemma_write_run(base: u32, data: Seq<u8>, done: nat, outcomes: Seq<bool>)
    requires
        outcomes.len() >= 1,
        4 * done + 4 * outcomes.len() == data.len(),
    ensures
        ({
            let (calls, response) = write_run(base, data, done, outcomes);
            &&& 1 <= calls.len() <= outcomes.len()
            &&& forall|i: int|
                0 <= i < calls.len() ==> calls[i] == planned_call(base, data, done + i)
            &&& (forall|i: int| 0 <= i < outcomes.len() ==> outcomes[i]) ==> calls.len()
                == outcomes.len() && response == Some(ResponseView::Success)
            &&& forall|k: int|
                first_refusal(outcomes, k) ==> calls.len() == k + 1 && response == Some(
                    ResponseView::BadArguments,
                )
        }),
    decreases outcomes.len(),
{
    let (calls, response) = write_run(base, data, done, outcomes);
    if outcomes[0] && outcomes.len() > 1 {
        let tail = outcomes.drop_first();
        let rest = write_run(base, data, done + 1, tail);
        lemma_write_run(base, data, done + 1, tail);
        assert(calls == seq![planned_call(base, data, done as int)] + rest.0);
        assert forall|i: int| 0 <= i < calls.len() implies calls[i] == planned_call(
            base,
            data,
            done + i,
        ) by {
            if i > 0 {
                assert(calls[i] == rest.0[i - 1]);
            }
        }
        if forall|i: int| 0 <= i < outcomes.len() ==> outcomes[i] {
            assert forall|i: int| 0 <= i < tail.len() implies tail[i] by {
                assert(tail[i] == outcomes[i + 1]);
            }
        }
        assert forall|k: int| first_refusal(outcomes, k) implies calls.len() == k + 1
            && response == Some(ResponseView::BadArguments) by {
            assert(k > 0);
            assert(tail[k - 1] == outcomes[k]);
            assert forall|i: int| 0 <= i < k - 1 implies tail[i] by {
                assert(tail[i] == outcomes[i + 1]);
            }
            assert(first_refusal(tail, k - 1));
        }
    } else {
        assert(calls == seq![planned_call(base, data, done as int)]);
        assert forall|k: int| first_refusal(outcomes, k) implies calls.len() == k + 1
            && response == Some(ResponseView::BadArguments) by {
            if k > 0 {
                assert(outcomes[0]);
            }
        }
    }
}

/// A write of `n` words issues at most `n` program operations, at the
/// addresses `base`, `base + 4`, and so on, each with the word that stands at
/// that place in the data. If the driver programs them all, all `n` are
/// issued and the write succeeds. If operation `k` is the first that it
/// refuses, exactly `k + 1` are issued and the write ends with bad
/// arguments.
pub proof fn lemma_write_page_calls(base: u32, data: Seq<u8>, outcomes: Seq<bool>)
    requires
        data.len() > 0,
        data.len() == 4 * outcomes.len(),
    ensures
        ({
            let (calls, response) = write_run(base, data, 0, outcomes);
            &&& calls.len() <= outcomes.len()
            &&& forall|i: int| 0 <= i < calls.len() ==> calls[i] == planned_call(base, data, i)
            &&& (forall|i: int| 0 <= i < outcomes.len() ==> outcomes[i]) ==> calls.len()
                == outcomes.len() && response == Some(ResponseView::Success)
            &&& forall|k: int|
                first_refusal(outcomes, k) ==> calls.len() == k + 1 && response == Some(
                    ResponseView::BadArguments,
                )
        }),
{
    lemma_write_run(base, data, 0, outcomes);
}

/// A page erase that the caller has to perform.
#[derive(Debug)]
pub struct EraseJob {
    address: u32,
}

impl EraseJob {
    /// The address to hand to the driver.
    pub closed spec fn spec_address(self) -> u32 {
        self.address
    }

    /// The address to hand to the driver.
    pub fn address(&self) -> (address: u32)
        ensures
            address == self.spec_address(),
    {
        self.address
    }

    /// The response, given whether the driver erased the page. Every driver
    /// failure, whatever its cause, is reported as bad arguments.
    pub fn finish(self, erased: bool) -> (response: Response)
        ensures
            erased ==> response@ == ResponseView::Success,
            !erased ==> response@ == ResponseView::BadArguments,
    {
        if erased {
            Response::Success
        } else {
            Response::BadArguments
        }
    }
}

/// A raw memory read that the caller has to perform. Neither address nor
/// length is validated: the command itself is the only gate.
#[derive(Debug)]
pub struct ReadJob {
    address: u32,
    length: u16,
}

impl ReadJob {
    /// The address to read from.
    pub closed spec fn spec_address(self) -> u32 {
        self.address
    }

    /// The number of bytes to read.
    pub closed spec fn spec_length(self) -> u16 {
        self.length
    }

    /// The address to read from.
    pub fn address(&self) -> (address: u32)
        ensures
            address == self.spec_address(),
    {
        self.address
    }

    /// The number of bytes to read.
    pub fn length(&self) -> (length: u16)
        ensures
            length == self.spec_length(),
    {
        self.length
    }

    /// The response that carries the bytes read, all of them and nothing
    /// else.
    pub fn finish(self, data: Vec<u8>) -> (response: Response)
        requires
            data@.len() == self.spec_length(),
        ensures
            response@ == (ResponseView::ReadRange { data: data@ }),
    {
        Response::ReadRange { data }
    }
}

/// A page write in progress: the next word to program, and what is left
/// after it.
#[derive(Debug)]
pub struct WriteJob {
    base: u32,
    data: Vec<u8>,
    done: usize,
    address: u32,
}

/// What follows one word of a page write.
#[derive(Debug)]
pub enum WriteStep {
    /// Another word is to be programmed.
    Continue(WriteJob),
    /// The write is over.
    Finished(Response),
}

impl WriteJob {
    /// The data is a whole number of words, at least one word is left, and
    /// the running address belongs to the next word.
    #[verifier::type_invariant]
    closed spec fn inv(self) -> bool {
        &&& self.data@.len() % 4 == 0
        &&& 4 * self.done + 4 <= self.data@.len()
        &&& self.address == address_at(self.base, self.done as int)
    }

    /// The address of the first word.
    pub closed spec fn spec_base(self) -> u32 {
        self.base
    }

    /// All the bytes of the write.
    pub closed spec fn spec_data(self) -> Seq<u8> {
        self.data@
    }

    /// How many words the driver has programmed so far.
    pub closed spec fn spec_done(self) -> nat {
        self.done as nat
    }

    /// The operation to hand to the driver next.
    pub fn call(&self) -> (call: ProgramCall)
        ensures
            call == planned_call(self.spec_base(), self.spec_data(), self.spec_done() as int),
            4 * self.spec_done() + 4 <= self.spec_data().len(),
    {
        proof {
            use_type_invariant(self);
        }
        let len: usize = self.data.len();
        assert(4 * self.done + 4 <= len);
        let i: usize = 4 * self.done;
        let b0: u32 = self.data[i] as u32;
        let b1: u32 = self.data[i + 1] as u32;
        let b2: u32 = self.data[i + 2] as u32;
        let b3: u32 = self.data[i + 3] as u32;
        let word: u32 = (b0 << 24) | (b1 << 16) | (b2 << 8) | b3;
        assert(word == b0 * 0x100_0000 + b1 * 0x1_0000 + b2 * 0x100 + b3) by (bit_vector)
            requires
                b0 < 256,
                b1 < 256,
                b2 < 256,
                b3 < 256,
                word == (b0 << 24) | (b1 << 16) | (b2 << 8) | b3,
        ;
        ProgramCall { address: self.address, word }
    }

    /// What follows, given whether the driver programmed the word of `call`.
    /// A refused word ends the write at once with bad arguments; words
    /// programmed before it stay as they are. The write succeeds when the
    /// last word has been programmed.
    pub fn advance(self, programmed: bool) -> (next: WriteStep)
        ensures
            match after_word(self.spec_data().len(), self.spec_done(), programmed) {
                Some(verdict) => next matches WriteStep::Finished(r) && r@ == verdict,
                None => next matches WriteStep::Continue(job) && job.spec_base()
                    == self.spec_base() && job.spec_data() == self.spec_data()
                    && job.spec_done() == self.spec_done() + 1,
            },
    {
        proof {
            use_type_invariant(&self);
        }
        if !programmed {
            return WriteStep::Finished(Response::BadArguments);
        }
        let len: usize = self.data.len();
        assert(4 * self.done + 4 <= len);
        let done: usize = self.done + 1;
        if 4 * done == len {
            return WriteStep::Finished(Response::Success);
        }
        let address: u32 = if self.address >= 0xFFFF_FFFC {
            self.address - 0xFFFF_FFFC
        } else {
            self.address + 4
        };
        WriteStep::Continue(WriteJob { base: self.base, data: self.data, done, address })
    }
}

/// What the caller does next for a command.
#[derive(Debug)]
pub enum Step {
    /// Send this response.
    Reply(Response),
    /// Clear the decoder and send nothing.
    Reset,
    /// Erase a page and report how it went.
    Erase(EraseJob),
    /// Program a word and report how it went.
    Write(WriteJob),
    /// Read memory and hand over the bytes.
    Read(ReadJob),
}

/// `ReadRange`: the read to perform. There is no bounds or protection check
/// by design; a host that asks for memory gets it.
pub fn handle_rrange(address: u32, length: u16) -> (job: ReadJob)
    ensures
        job.spec_address() == address,
        job.spec_length() == length,
{
    ReadJob { address, length }
}

/// `GetAttr`: key and whole value buffer of slot `index`, or bad arguments
/// when `index` is past the table.
pub fn handle_getattr(table: &FlashInfo, index: u8) -> (response: Response)
    ensures
        index < 16 ==> response@ == (ResponseView::GetAttr {
            key: table.spec_attributes()[index as int].spec_key(),
            value: table.spec_attributes()[index as int].spec_value(),
        }),
        index >= 16 ==> response@ == ResponseView::BadArguments,
{
    match table.lookup(index as usize) {
        Some(slot) => Response::GetAttr { key: slot.key(), value: slot.value() },
        None => Response::BadArguments,
    }
}

/// `ErasePage`: the erase to perform. The driver judges alignment and
/// protection.
pub fn handle_erase_page(address: u32) -> (job: EraseJob)
    ensures
        job.spec_address() == address,
{
    EraseJob { address }
}

/// `WritePage`: bad arguments, with no word programmed, when `data` is not a
/// whole number of words; success at once when there is nothing to write;
/// else the write job, at its first word.
pub fn handle_write_page(address: u32, data: Vec<u8>) -> (step: Step)
    ensures
        data@.len() % 4 != 0 ==> (step matches Step::Reply(r) && r@
            == ResponseView::BadArguments),
        data@.len() == 0 ==> (step matches Step::Reply(r) && r@ == ResponseView::Success),
        data@.len() % 4 == 0 && data@.len() > 0 ==> (step matches Step::Write(job)
            && job.spec_base() == address && job.spec_data() == data@ && job.spec_done() == 0),
{
    if data.len() % 4 != 0 {
        return Step::Reply(Response::BadArguments);
    }
    if data.len() == 0 {
        return Step::Reply(Response::Success);
    }
    Step::Write(WriteJob { base: address, data, done: 0, address })
}

/// Whether `step` is the step that `command` calls for, given the attribute
/// table.
pub open spec fn answers(table: FlashInfo, command: Command, step: Step) -> bool {
    match command {
        Command::Ping => step matches Step::Reply(r) && r@ == ResponseView::Pong,
        Command::Info => step matches Step::Reply(r) && r@ == (ResponseView::Info {
            info: identity_string(),
        }),
        Command::Reset => step is Reset,
        Command::ErasePage { address } => step matches Step::Erase(job) && job.spec_address()
            == address,
        Command::WritePage { address, data } => if data@.len() % 4 != 0 {
            step matches Step::Reply(r) && r@ == ResponseView::BadArguments
        } else if data@.len() == 0 {
            step matches Step::Reply(r) && r@ == ResponseView::Success
        } else {
            step matches Step::Write(job) && job.spec_base() == address && job.spec_data()
                == data@ && job.spec_done() == 0
        },
        Command::ReadRange { address, length } => step matches Step::Read(job)
            && job.spec_address() == address && job.spec_length() == length,
        Command::GetAttr { index } => if index < 16 {
            step matches Step::Reply(r) && r@ == (ResponseView::GetAttr {
                key: table.spec_attributes()[index as int].spec_key(),
                value: table.spec_attributes()[index as int].spec_value(),
            })
        } else {
            step matches Step::Reply(r) && r@ == ResponseView::BadArguments
        },
        Command::SetAttr { .. } => step matches Step::Reply(r) && r@ == ResponseView::Unknown,
        Command::Unimplemented => step matches Step::Reply(r) && r@ == ResponseView::Unknown,
    }
}

/// The step that `command` calls for. Every command gets exactly one: a
/// response, a job that ends in a response, or, for `Reset`, the order to
/// clear the decoder.
pub fn dispatch(table: &FlashInfo, command: Command) -> (step: Step)
    ensures
        answers(*table, command, step),
{
    match command {
        Command::Ping => Step::Reply(Response::Pong),
        Command::Info => Step::Reply(Response::Info { info: identity() }),
        Command::Reset => Step::Reset,
        Command::ErasePage { address } => Step::Erase(handle_erase_page(address)),
        Command::WritePage { address, data } => handle_write_page(address, data),
        Command::ReadRange { address, length } => Step::Read(handle_rrange(address, length)),
        Command::GetAttr { index } => Step::Reply(handle_getattr(table, index)),
        Command::SetAttr { .. } => Step::Reply(Response::Unknown),
        Command::Unimplemented => Step::Reply(Response::Unknown),
    }
}

} // verus!
