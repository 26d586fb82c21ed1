//! The geometry of the flash array, the protection modes of its pages, and
//! the report of them that the bootloader prints when it starts.

use vstd::prelude::*;

verus! {

/// Size of a page, the unit of erasure, in bytes.
pub const PAGE_SIZE: u32 = 2048;

/// Number of pages in the flash array.
pub const PAGE_COUNT: u32 = 128;

/// Size of the flash array in bytes.
pub const FLASH_SIZE: u32 = 262144;

/// What the hardware allows on a page.
#[derive(Clone, Copy, Debug, PartialEq, Eq)]
pub enum ProtectMode {
    ReadOnly,
    ReadWrite,
    ExecuteOnly,
}

/// The address at which page number `page` starts, or `None` when the flash
/// array has no such page.
pub fn page_address(page: u32) -> (address: Option<u32>)
    ensures
        address is Some <==> page < 128,
        address matches Some(a) ==> a == page * 2048 && a < 262144,
{
    if page < PAGE_COUNT {
        Some(page * PAGE_SIZE)
    } else {
        None
    }
}

/// The lower-case hexadecimal digit for a value below sixteen.
pub open spec fn hex_digit(value: int) -> u8 {
    if value < 10 {
        (48 + value) as u8
    } else {
        (87 + value) as u8
    }
}

/// `address` in eight hexadecimal digits, most significant first.
pub open spec fn hex8(address: u32) -> Seq<u8> {
    seq![
        hex_digit(address as int / 0x1000_0000 % 16),
        hex_digit(address as int / 0x100_0000 % 16),
        hex_digit(address as int / 0x10_0000 % 16),
        hex_digit(address as int / 0x1_0000 % 16),
        hex_digit(address as int / 0x1000 % 16),
        hex_digit(address as int / 0x100 % 16),
        hex_digit(address as int / 0x10 % 16),
        hex_digit(address as int % 16),
    ]
}

/// The two letters that stand for a mode: `RO`, `RW` or `XO`.
pub open spec fn mode_label(mode: ProtectMode) -> Seq<u8> {
    match mode {
        ProtectMode::ReadOnly => seq![82u8, 79],
        ProtectMode::ReadWrite => seq![82u8, 87],
        ProtectMode::ExecuteOnly => seq![88u8, 79],
    }
}

/// One line of the report: `0x`, the address in eight hexadecimal digits, a
/// colon and a space, the mode's label, and a line feed.
pub open spec fn report_line(address: u32, mode: ProtectMode) -> Seq<u8> {
    seq![48u8, 120] + hex8(address) + seq![58u8, 32] + mode_label(mode) + seq![10u8]
}

fn digit(value: u32) -> (d: u8)
    requires
        value < 16,
    ensures
        d == hex_digit(value as int),
{
    if value < 10 {
        (48 + value) as u8
    } else {
        (87 + value) as u8
    }
}

/// The line of the start-up report for the page at `address`.
pub fn protection_line(address: u32, mode: ProtectMode) -> (line: Vec<u8>)
    ensures
        line@ == report_line(address, mode),
{
    let mut line: Vec<u8> = Vec::new();
    line.push(48);
    line.push(120);
    line.push(digit(address / 0x1000_0000 % 16));
    line.push(digit(address / 0x100_0000 % 16));
    line.push(digit(address / 0x10_0000 % 16));
    line.push(digit(address / 0x1_0000 % 16));
    line.push(digit(address / 0x1000 % 16));
    line.push(digit(address / 0x100 % 16));
    line.push(digit(address / 0x10 % 16));
    line.push(digit(address % 16));
    line.push(58);
    line.push(32);
    match mode {
        ProtectMode::ReadOnly => {
            line.push(82);
            line.push(79);
        },
        ProtectMode::ReadWrite => {
            line.push(82);
            line.push(87);
        },
        ProtectMode::ExecuteOnly => {
            line.push(88);
            line.push(79);
        },
    }
    line.push(10);
    assert(line@ =~= report_line(address, mode));
    line
}

} // verus!
