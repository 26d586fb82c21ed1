use launchpad_bootloader::attributes::{Attribute, FlashInfo};
use launchpad_bootloader::dispatch::{
    dispatch, handle_erase_page, handle_getattr, handle_rrange, handle_write_page, ProgramCall,
    Step, WriteStep,
};
use launchpad_bootloader::flash::{page_address, protection_line, ProtectMode};
use launchpad_bootloader::protocol::{identity, Command, Response};

const PAGE: usize = 2048;

#[derive(Clone, Copy, PartialEq, Debug)]
enum Mode {
    ReadOnly,
    ReadWrite,
}

/// A flash array in memory, with one protection mode per page.
struct FakeFlash {
    bytes: Vec<u8>,
    modes: Vec<Mode>,
    programs: Vec<ProgramCall>,
    fail_at: Option<usize>,
}

impl FakeFlash {
    fn new() -> FakeFlash {
        FakeFlash {
            bytes: vec![0xAA; 128 * PAGE],
            modes: vec![Mode::ReadWrite; 128],
            programs: Vec::new(),
            fail_at: None,
        }
    }

    fn erase(&mut self, address: u32) -> bool {
        let a = address as usize;
        if a % PAGE != 0 || a >= self.bytes.len() || self.modes[a / PAGE] != Mode::ReadWrite {
            return false;
        }
        for b in &mut self.bytes[a..a + PAGE] {
            *b = 0xFF;
        }
        true
    }

    fn program(&mut self, call: ProgramCall) -> bool {
        let n = self.programs.len();
        self.programs.push(call);
        let a = call.address as usize;
        if self.fail_at == Some(n) || a % 4 != 0 || a + 4 > self.bytes.len() {
            return false;
        }
        if self.modes[a / PAGE] != Mode::ReadWrite {
            return false;
        }
        self.bytes[a..a + 4].copy_from_slice(&call.word.to_be_bytes());
        true
    }

    fn read(&self, address: u32, length: u16) -> Vec<u8> {
        let a = address as usize;
        self.bytes[a..a + length as usize].to_vec()
    }
}

/// Performs a step as the protocol loop does.
fn perform(step: Step, flash: &mut FakeFlash) -> Option<Response> {
    match step {
        Step::Reply(response) => Some(response),
        Step::Reset => None,
        Step::Erase(job) => {
            let erased = flash.erase(job.address());
            Some(job.finish(erased))
        }
        Step::Read(job) => {
            let data = flash.read(job.address(), job.length());
            assert_eq!(data.len(), job.length() as usize);
            Some(job.finish(data))
        }
        Step::Write(mut job) => loop {
            let programmed = flash.program(job.call());
            match job.advance(programmed) {
                WriteStep::Continue(next) => job = next,
                WriteStep::Finished(response) => return Some(response),
            }
        },
    }
}

fn run(command: Command, flash: &mut FakeFlash) -> Option<Response> {
    perform(dispatch(&FlashInfo::reference(), command), flash)
}

fn padded(text: &[u8], size: usize) -> Vec<u8> {
    let mut v = text.to_vec();
    v.resize(size, 0);
    v
}

#[test]
fn ping_gets_pong() {
    let mut flash = FakeFlash::new();
    assert_eq!(run(Command::Ping, &mut flash), Some(Response::Pong));
}

#[test]
fn info_returns_identity_string() {
    let mut flash = FakeFlash::new();
    let expected = b"{ \"version\":\"0.1.0\", \"name\":\"Tock Bootloader\" }".to_vec();
    assert_eq!(identity(), expected);
    assert_eq!(
        run(Command::Info, &mut flash),
        Some(Response::Info { info: expected.clone() })
    );
    // Whatever came before, the string is the same.
    run(Command::ErasePage { address: 0 }, &mut flash);
    run(Command::GetAttr { index: 99 }, &mut flash);
    assert_eq!(run(Command::Info, &mut flash), Some(Response::Info { info: expected }));
}

#[test]
fn reset_gets_no_response() {
    let mut flash = FakeFlash::new();
    assert_eq!(run(Command::Reset, &mut flash), None);
    assert!(matches!(dispatch(&FlashInfo::reference(), Command::Reset), Step::Reset));
}

#[test]
fn unimplemented_commands_get_unknown() {
    let mut flash = FakeFlash::new();
    assert_eq!(run(Command::Unimplemented, &mut flash), Some(Response::Unknown));
    let set = Command::SetAttr { index: 1, key: b"sometext".to_vec(), value: vec![1, 2, 3] };
    assert_eq!(run(set, &mut flash), Some(Response::Unknown));
}

#[test]
fn getattr_first_slot_of_reference_table() {
    let table = FlashInfo::reference();
    match handle_getattr(&table, 0) {
        Response::GetAttr { key, value } => {
            assert_eq!(&key, b"board\0\0\0");
            assert_eq!(value.to_vec(), padded(b"stellaris launchpad", 47));
        }
        other => panic!("unexpected {:?}", other),
    }
}

#[test]
fn getattr_other_slots_of_reference_table() {
    let table = FlashInfo::reference();
    match handle_getattr(&table, 1) {
        Response::GetAttr { key, value } => {
            assert_eq!(&key, b"arch\0\0\0\0");
            assert_eq!(value.to_vec(), padded(b"cortex-m4", 47));
        }
        other => panic!("unexpected {:?}", other),
    }
    match handle_getattr(&table, 2) {
        Response::GetAttr { key, value } => {
            assert_eq!(&key, b"jldevice");
            assert_eq!(value.to_vec(), padded(b"LM4F120H5QR", 47));
        }
        other => panic!("unexpected {:?}", other),
    }
    for index in 3..16 {
        match handle_getattr(&table, index) {
            Response::GetAttr { key, value } => {
                assert_eq!(key, [0u8; 8]);
                assert_eq!(value, [0u8; 47]);
            }
            other => panic!("unexpected {:?}", other),
        }
    }
}

#[test]
fn getattr_past_the_table_is_refused() {
    let table = FlashInfo::reference();
    for index in 16..=255u8 {
        assert_eq!(handle_getattr(&table, index), Response::BadArguments);
    }
    let mut flash = FakeFlash::new();
    assert_eq!(run(Command::GetAttr { index: 20 }, &mut flash), Some(Response::BadArguments));
    // Independent of what came before.
    run(Command::WritePage { address: 0, data: vec![1, 2, 3, 4] }, &mut flash);
    assert_eq!(run(Command::GetAttr { index: 16 }, &mut flash), Some(Response::BadArguments));
}

#[test]
fn declared_lengths_fit_the_value_buffer() {
    let table = FlashInfo::reference();
    let mut lengths = Vec::new();
    for index in 0..16 {
        let slot = table.lookup(index).unwrap();
        assert!(slot.length() <= 47);
        lengths.push(slot.length());
    }
    assert_eq!(lengths, vec![4, 9, 11, 0, 0, 0, 0, 0, 0, 0, 0, 0, 0, 0, 0, 0]);
    assert!(table.lookup(16).is_none());
    assert!(table.lookup(usize::MAX).is_none());
}

#[test]
fn attribute_constructor_checks_the_length() {
    assert!(Attribute::new([1; 8], 48, [2; 47]).is_none());
    assert!(Attribute::new([1; 8], 255, [2; 47]).is_none());
    let slot = Attribute::new([1; 8], 47, [2; 47]).unwrap();
    assert_eq!(slot.key(), [1; 8]);
    assert_eq!(slot.length(), 47);
    assert_eq!(slot.value(), [2; 47]);
    let blank = Attribute::blank();
    assert_eq!(blank.key(), [0; 8]);
    assert_eq!(blank.length(), 0);
    assert_eq!(blank.value(), [0; 47]);
}

#[test]
fn reference_record_header() {
    let table = FlashInfo::reference();
    assert_eq!(&table.magic(), b"TOCKBOOTLOADER");
    assert_eq!(&table.version(), b"0.1.0\0\0\0");
}

#[test]
fn write_page_refuses_a_partial_word() {
    for len in [1usize, 2, 3, 5, 6, 7, 513] {
        let mut flash = FakeFlash::new();
        let before = flash.bytes.clone();
        let command = Command::WritePage { address: 0x800, data: vec![0x55; len] };
        assert_eq!(run(command, &mut flash), Some(Response::BadArguments));
        assert!(flash.programs.is_empty());
        assert_eq!(flash.bytes, before);
    }
}

#[test]
fn write_page_programs_big_endian_words_in_order() {
    let mut flash = FakeFlash::new();
    let data = vec![0x01, 0x02, 0x03, 0x04, 0xA0, 0xB0, 0xC0, 0xD0, 0xFF, 0x00, 0x00, 0x01];
    let command = Command::WritePage { address: 0x1000, data: data.clone() };
    assert_eq!(run(command, &mut flash), Some(Response::Success));
    assert_eq!(
        flash.programs,
        vec![
            ProgramCall { address: 0x1000, word: 0x0102_0304 },
            ProgramCall { address: 0x1004, word: 0xA0B0_C0D0 },
            ProgramCall { address: 0x1008, word: 0xFF00_0001 },
        ]
    );
    assert_eq!(&flash.bytes[0x1000..0x100C], &data[..]);
}

#[test]
fn write_page_stops_at_the_first_refused_word() {
    for k in 0..4usize {
        let mut flash = FakeFlash::new();
        flash.fail_at = Some(k);
        let data: Vec<u8> = (0..16).collect();
        let command = Command::WritePage { address: 0x2000, data: data.clone() };
        assert_eq!(run(command, &mut flash), Some(Response::BadArguments));
        assert_eq!(flash.programs.len(), k + 1);
        for (i, call) in flash.programs.iter().enumerate() {
            assert_eq!(call.address, 0x2000 + 4 * i as u32);
        }
        // Words before the refused one stay written; nothing after it is touched.
        assert_eq!(&flash.bytes[0x2000..0x2000 + 4 * k], &data[..4 * k]);
        assert!(flash.bytes[0x2000 + 4 * k..0x2010].iter().all(|b| *b == 0xAA));
    }
}

#[test]
fn write_page_with_no_data_succeeds_without_a_call() {
    let mut flash = FakeFlash::new();
    let command = Command::WritePage { address: 0x2000, data: Vec::new() };
    assert_eq!(run(command, &mut flash), Some(Response::Success));
    assert!(flash.programs.is_empty());
    assert!(matches!(handle_write_page(3, Vec::new()), Step::Reply(Response::Success)));
}

#[test]
fn write_page_addresses_wrap_around() {
    let mut calls = Vec::new();
    let mut step = handle_write_page(0xFFFF_FFFC, vec![0, 0, 0, 1, 0, 0, 0, 2]);
    loop {
        match step {
            Step::Write(job) => {
                calls.push(job.call());
                step = match job.advance(true) {
                    WriteStep::Continue(next) => Step::Write(next),
                    WriteStep::Finished(response) => Step::Reply(response),
                };
            }
            Step::Reply(response) => {
                assert_eq!(response, Response::Success);
                break;
            }
            other => panic!("unexpected {:?}", other),
        }
    }
    assert_eq!(
        calls,
        vec![
            ProgramCall { address: 0xFFFF_FFFC, word: 1 },
            ProgramCall { address: 0, word: 2 },
        ]
    );
}

#[test]
fn write_page_on_a_misaligned_address_is_left_to_the_driver() {
    let mut flash = FakeFlash::new();
    let command = Command::WritePage { address: 0x1001, data: vec![1, 2, 3, 4, 5, 6, 7, 8] };
    assert_eq!(run(command, &mut flash), Some(Response::BadArguments));
    assert_eq!(flash.programs, vec![ProgramCall { address: 0x1001, word: 0x0102_0304 }]);
}

#[test]
fn erase_page_follows_the_driver() {
    let mut flash = FakeFlash::new();
    assert_eq!(run(Command::ErasePage { address: 0x800 }, &mut flash), Some(Response::Success));
    assert!(flash.bytes[0x800..0x1000].iter().all(|b| *b == 0xFF));
    assert_eq!(run(Command::ErasePage { address: 0x801 }, &mut flash), Some(Response::BadArguments));
    assert_eq!(
        run(Command::ErasePage { address: 0x4_0000 }, &mut flash),
        Some(Response::BadArguments)
    );
    let job = handle_erase_page(0x1234_5678);
    assert_eq!(job.address(), 0x1234_5678);
    assert_eq!(job.finish(true), Response::Success);
    assert_eq!(handle_erase_page(0).finish(false), Response::BadArguments);
}

#[test]
fn erase_of_a_read_only_page_is_refused() {
    let mut flash = FakeFlash::new();
    flash.modes[3] = Mode::ReadOnly;
    let before = flash.bytes.clone();
    assert_eq!(
        run(Command::ErasePage { address: 3 * 2048 }, &mut flash),
        Some(Response::BadArguments)
    );
    assert_eq!(flash.bytes, before);
}

#[test]
fn read_range_returns_exactly_the_bytes_asked_for() {
    let mut flash = FakeFlash::new();
    flash.bytes[0x100] = 7;
    flash.bytes[0x101] = 8;
    for length in [0u16, 1, 2, 300] {
        let command = Command::ReadRange { address: 0x100, length };
        match run(command, &mut flash) {
            Some(Response::ReadRange { data }) => {
                assert_eq!(data.len(), length as usize);
                assert_eq!(data, flash.bytes[0x100..0x100 + length as usize].to_vec());
            }
            other => panic!("unexpected {:?}", other),
        }
    }
    // No address is refused: the job carries whatever was asked.
    let job = handle_rrange(0xFFFF_FFF0, 0xFFFF);
    assert_eq!(job.address(), 0xFFFF_FFF0);
    assert_eq!(job.length(), 0xFFFF);
}

#[test]
fn scenario_of_four_commands() {
    let mut flash = FakeFlash::new();
    flash.modes[5] = Mode::ReadOnly;
    let before = flash.bytes.clone();
    assert_eq!(run(Command::Ping, &mut flash), Some(Response::Pong));
    assert_eq!(run(Command::GetAttr { index: 20 }, &mut flash), Some(Response::BadArguments));
    let write = Command::WritePage { address: 0, data: vec![1, 2, 3, 4, 5, 6] };
    assert_eq!(run(write, &mut flash), Some(Response::BadArguments));
    assert!(flash.programs.is_empty());
    let erase = Command::ErasePage { address: 5 * 2048 };
    assert_eq!(run(erase, &mut flash), Some(Response::BadArguments));
    assert_eq!(flash.bytes, before);
}

#[test]
fn page_addresses() {
    assert_eq!(page_address(0), Some(0));
    assert_eq!(page_address(1), Some(2048));
    assert_eq!(page_address(127), Some(260096));
    assert_eq!(page_address(128), None);
    assert_eq!(page_address(u32::MAX), None);
}

#[test]
fn protection_report_lines() {
    assert_eq!(protection_line(0, ProtectMode::ReadOnly), b"0x00000000: RO\n".to_vec());
    assert_eq!(protection_line(0x3F800, ProtectMode::ReadWrite), b"0x0003f800: RW\n".to_vec());
    assert_eq!(
        protection_line(0x89AB_CDEF, ProtectMode::ExecuteOnly),
        b"0x89abcdef: XO\n".to_vec()
    );
    for page in 0..128u32 {
        let line = protection_line(page * 2048, ProtectMode::ReadWrite);
        assert_eq!(line, format!("0x{:08x}: RW\n", page * 2048).into_bytes());
    }
}

#[test]
fn record_layout_in_flash() {
    let bytes = FlashInfo::reference().to_bytes();
    assert_eq!(bytes.len(), 1408);
    assert_eq!(&bytes[0..14], b"TOCKBOOTLOADER");
    assert_eq!(&bytes[14..22], b"0.1.0\0\0\0");
    assert!(bytes[22..512].iter().all(|b| *b == 0));
    assert_eq!(&bytes[512..520], b"board\0\0\0");
    assert_eq!(bytes[520], 4);
    assert_eq!(bytes[521..568].to_vec(), padded(b"stellaris launchpad", 47));
    assert_eq!(&bytes[568..576], b"arch\0\0\0\0");
    assert_eq!(bytes[576], 9);
    assert_eq!(bytes[577..624].to_vec(), padded(b"cortex-m4", 47));
    assert_eq!(&bytes[624..632], b"jldevice");
    assert_eq!(bytes[632], 11);
    assert_eq!(bytes[633..680].to_vec(), padded(b"LM4F120H5QR", 47));
    assert!(bytes[680..].iter().all(|b| *b == 0));
}

#[test]
fn slot_layout_in_flash() {
    let slot = Attribute::new(*b"abcdefgh", 3, [9; 47]).unwrap();
    let bytes = slot.to_bytes();
    assert_eq!(bytes.len(), 56);
    assert_eq!(&bytes[0..8], b"abcdefgh");
    assert_eq!(bytes[8], 3);
    assert_eq!(bytes[9..].to_vec(), vec![9u8; 47]);
}
