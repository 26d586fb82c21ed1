//! The identity record that the bootloader keeps in flash, and its table of
//! attribute slots.
//!
//! The record is read-only at run time: there is a constructor for the blank
//! slot, one for the table this firmware ships with, and a bounds-checked
//! lookup. Every slot carries the invariant that its declared length fits the
//! value buffer.

use vstd::prelude::*;

verus! {

/// Number of attribute slots in the identity record.
pub const ATTRIBUTE_COUNT: usize = 16;

/// Size of an attribute's key, in bytes.
pub const KEY_SIZE: usize = 8;

/// Size of an attribute's value buffer, and the largest declared length.
pub const VALUE_CAPACITY: usize = 47;

/// Size of the identity record in flash: 512 bytes of header and sixteen
/// slots of 56 bytes.
pub const RECORD_SIZE: usize = 1408;

/// Puts the bytes of `part` at the end of `bytes`.
fn append(bytes: &mut Vec<u8>, part: &[u8])
    ensures
        final(bytes)@ == old(bytes)@ + part@,
{
    let mut i: usize = 0;
    while i < part.len()
        invariant
            i <= part@.len(),
            bytes@ == old(bytes)@ + part@.subrange(0, i as int),
        decreases part@.len() - i,
    {
        bytes.push(part[i]);
        i += 1;
        assert(bytes@ =~= old(bytes)@ + part@.subrange(0, i as int));
    }
    assert(part@.subrange(0, i as int) =~= part@);
}

/// One key/value record of the identity table: 8 bytes of null-padded key,
/// the declared length of the value, and 47 bytes of value buffer.
#[derive(Clone, Copy, Debug)]
pub struct Attribute {
    key: [u8; 8],
    length: u8,
    value: [u8; 47],
}

impl Attribute {
    /// The declared length fits the value buffer.
    #[verifier::type_invariant]
    pub closed spec fn inv(self) -> bool {
        self.length <= 47
    }

    /// The key bytes, null-padded.
    pub closed spec fn spec_key(self) -> Seq<u8> {
        self.key@
    }

    /// The declared length of the value.
    pub closed spec fn spec_length(self) -> u8 {
        self.length
    }

    /// The whole value buffer, padding included.
    pub closed spec fn spec_value(self) -> Seq<u8> {
        self.value@
    }

    /// Key and value buffers always have their fixed sizes.
    pub broadcast proof fn lemma_sizes(self)
        ensures
            #[trigger] self.spec_key().len() == 8,
            #[trigger] self.spec_value().len() == 47,
    {
    }

    /// A slot with the given contents; `None` exactly when the declared
    /// length does not fit the value buffer.
    pub fn new(key: [u8; 8], length: u8, value: [u8; 47]) -> (slot: Option<Attribute>)
        ensures
            slot is Some <==> length <= 47,
            slot matches Some(a) ==> a.spec_key() == key@ && a.spec_length() == length
                && a.spec_value() == value@,
    {
        if length <= 47 {
            Some(Attribute { key, length, value })
        } else {
            None
        }
    }

    /// The unused slot: key, length and value all zero.
    pub fn blank() -> (slot: Attribute)
        ensures
            slot.spec_length() == 0,
            slot.spec_key() == Seq::new(8, |i: int| 0u8),
            slot.spec_value() == Seq::new(47, |i: int| 0u8),
    {
        let slot = Attribute { key: [0u8; 8], length: 0, value: [0u8; 47] };
        assert(slot.key@ =~= Seq::new(8, |i: int| 0u8));
        assert(slot.value@ =~= Seq::new(47, |i: int| 0u8));
        slot
    }

    /// The slot as it lies in flash, 56 bytes: the key, the declared length,
    /// the value buffer.
    pub open spec fn spec_bytes(self) -> Seq<u8> {
        self.spec_key() + seq![self.spec_length()] + self.spec_value()
    }

    /// The slot as it lies in flash.
    pub fn to_bytes(&self) -> (bytes: Vec<u8>)
        ensures
            bytes@ == self.spec_bytes(),
            bytes@.len() == 56,
    {
        let mut bytes: Vec<u8> = Vec::new();
        append(&mut bytes, self.key.as_slice());
        bytes.push(self.length);
        append(&mut bytes, self.value.as_slice());
        assert(bytes@ =~= self.spec_bytes());
        bytes
    }

    /// The key bytes.
    pub fn key(&self) -> (key: [u8; 8])
        ensures
            key@ == self.spec_key(),
    {
        self.key
    }

    /// The declared length, which never exceeds the value buffer.
    pub fn length(&self) -> (length: u8)
        ensures
            length == self.spec_length(),
            length <= 47,
    {
        proof {
            use_type_invariant(self);
        }
        self.length
    }

    /// The whole value buffer, padding beyond the declared length included.
    pub fn value(&self) -> (value: [u8; 47])
        ensures
            value@ == self.spec_value(),
    {
        self.value
    }
}

/// The identity record: a magic tag, a version string, reserved space and the
/// sixteen attribute slots.
#[derive(Clone, Copy, Debug)]
pub struct FlashInfo {
    flag_bootloader_exists: [u8; 14],
    flag_version_string: [u8; 8],
    flag_padding: [u8; 490],
    attributes: [Attribute; 16],
}

/// The magic tag `TOCKBOOTLOADER`.
pub open spec fn magic_tag() -> Seq<u8> {
    seq![84u8, 79, 67, 75, 66, 79, 79, 84, 76, 79, 65, 68, 69, 82]
}

/// The version string `0.1.0`, null-padded to 8 bytes.
pub open spec fn version_tag() -> Seq<u8> {
    seq![48u8, 46, 49, 46, 48, 0, 0, 0]
}

/// The key `board`, null-padded to 8 bytes.
pub open spec fn board_key() -> Seq<u8> {
    seq![98u8, 111, 97, 114, 100, 0, 0, 0]
}

/// The text `stellaris launchpad`, without padding.
pub open spec fn board_name() -> Seq<u8> {
    seq![
        115u8, 116, 101, 108, 108, 97, 114, 105, 115, 32, 108, 97, 117, 110, 99, 104,
        112, 97, 100,
    ]
}

/// The key `arch`, null-padded to 8 bytes.
pub open spec fn arch_key() -> Seq<u8> {
    seq![97u8, 114, 99, 104, 0, 0, 0, 0]
}

/// The text `cortex-m4`, without padding.
pub open spec fn arch_name() -> Seq<u8> {
    seq![99u8, 111, 114, 116, 101, 120, 45, 109, 52]
}

/// The key `jldevice`.
pub open spec fn device_key() -> Seq<u8> {
    seq![106u8, 108, 100, 101, 118, 105, 99, 101]
}

/// The text `LM4F120H5QR`, without padding.
pub open spec fn device_name() -> Seq<u8> {
    seq![76u8, 77, 52, 70, 49, 50, 48, 72, 53, 81, 82]
}

/// `text` followed by zeros up to `size` bytes.
pub open spec fn zero_padded(text: Seq<u8>, size: nat) -> Seq<u8> {
    Seq::new(size, |i: int| if i < text.len() { text[i] } else { 0u8 })
}

/// The first `n` slots of a table as they lie in flash, one after the other.
pub open spec fn table_bytes(slots: Seq<Attribute>, n: nat) -> Seq<u8>
    decreases n,
{
    if n == 0 {
        Seq::empty()
    } else {
        table_bytes(slots, (n - 1) as nat) + slots[n - 1].spec_bytes()
    }
}

proof fn lemma_table_bytes(slots: Seq<Attribute>, n: nat)
    requires
        n <= slots.len(),
    ensures
        table_bytes(slots, n).len() == 56 * n,
        forall|i: int|
            0 <= i < n ==> #[trigger] table_bytes(slots, n).subrange(56 * i, 56 * i + 56)
                == slots[i].spec_bytes(),
    decreases n,
{
    broadcast use Attribute::lemma_sizes;

    if n > 0 {
        let before = table_bytes(slots, (n - 1) as nat);
        let all = table_bytes(slots, n);
        lemma_table_bytes(slots, (n - 1) as nat);
        assert(slots[n - 1].spec_bytes().len() == 56);
        assert forall|i: int| 0 <= i < n implies #[trigger] all.subrange(56 * i, 56 * i + 56)
            == slots[i].spec_bytes() by {
            if i < n - 1 {
                assert(all.subrange(56 * i, 56 * i + 56) =~= before.subrange(56 * i, 56 * i + 56));
            } else {
                assert(all.subrange(56 * i, 56 * i + 56) =~= slots[i].spec_bytes());
            }
        }
    }
}

impl FlashInfo {
    /// The record as it lies in flash: the magic tag, the version string,
    /// the reserved bytes, and the sixteen slots.
    pub open spec fn spec_bytes(self) -> Seq<u8> {
        self.spec_magic() + self.spec_version() + self.spec_reserved() + table_bytes(
            self.spec_attributes(),
            16,
        )
    }

    /// Where each field lies in the record: the magic tag at offset 0, the
    /// version string at 14, the reserved bytes at 22, and slot `i` at
    /// `512 + 56 * i`, with its key first, its declared length at offset 8
    /// of the slot and its value buffer at offset 9.
    pub proof fn lemma_layout(self)
        ensures
            self.spec_bytes().len() == 1408,
            self.spec_bytes().subrange(0, 14) == self.spec_magic(),
            self.spec_bytes().subrange(14, 22) == self.spec_version(),
            self.spec_bytes().subrange(22, 512) == self.spec_reserved(),
            forall|i: int|
                #![trigger self.spec_attributes()[i]]
                0 <= i < 16 ==> {
                    let at = 512 + 56 * i;
                    let slot = self.spec_attributes()[i];
                    &&& self.spec_bytes().subrange(at, at + 8) == slot.spec_key()
                    &&& self.spec_bytes()[at + 8] == slot.spec_length()
                    &&& self.spec_bytes().subrange(at + 9, at + 56) == slot.spec_value()
                },
    {
        broadcast use {Attribute::lemma_sizes, FlashInfo::lemma_sizes};

        let bytes = self.spec_bytes();
        let table = table_bytes(self.spec_attributes(), 16);
        lemma_table_bytes(self.spec_attributes(), 16);
        assert(bytes.subrange(0, 14) =~= self.spec_magic());
        assert(bytes.subrange(14, 22) =~= self.spec_version());
        assert(bytes.subrange(22, 512) =~= self.spec_reserved());
        assert forall|i: int| #![trigger self.spec_attributes()[i]] 0 <= i < 16 implies {
            let at = 512 + 56 * i;
            let slot = self.spec_attributes()[i];
            &&& bytes.subrange(at, at + 8) == slot.spec_key()
            &&& bytes[at + 8] == slot.spec_length()
            &&& bytes.subrange(at + 9, at + 56) == slot.spec_value()
        } by {
            let at = 512 + 56 * i;
            let slot = self.spec_attributes()[i];
            let image = table.subrange(56 * i, 56 * i + 56);
            assert(image == slot.spec_bytes());
            assert(bytes.subrange(at, at + 56) =~= image);
            assert(bytes.subrange(at, at + 8) =~= image.subrange(0, 8));
            assert(image.subrange(0, 8) =~= slot.spec_key());
            assert(bytes[at + 8] == image[8]);
            assert(bytes.subrange(at + 9, at + 56) =~= image.subrange(9, 56));
            assert(image.subrange(9, 56) =~= slot.spec_value());
        }
    }

    /// The record as it lies in flash, 1408 bytes.
    pub fn to_bytes(&self) -> (bytes: Vec<u8>)
        ensures
            bytes@ == self.spec_bytes(),
            bytes@.len() == 1408,
    {
        let mut bytes: Vec<u8> = Vec::new();
        append(&mut bytes, self.flag_bootloader_exists.as_slice());
        append(&mut bytes, self.flag_version_string.as_slice());
        append(&mut bytes, self.flag_padding.as_slice());
        let ghost header = bytes@;
        let mut i: usize = 0;
        while i < 16
            invariant
                i <= 16,
                header == self.spec_magic() + self.spec_version() + self.spec_reserved(),
                bytes@ == header + table_bytes(self.spec_attributes(), i as nat),
            decreases 16 - i,
        {
            let slot = self.attributes[i].to_bytes();
            append(&mut bytes, slot.as_slice());
            i += 1;
            assert(bytes@ =~= header + table_bytes(self.spec_attributes(), i as nat));
        }
        proof {
            self.lemma_layout();
        }
        bytes
    }

    /// The magic tag at the start of the record.
    pub closed spec fn spec_magic(self) -> Seq<u8> {
        self.flag_bootloader_exists@
    }

    /// The version string of the record.
    pub closed spec fn spec_version(self) -> Seq<u8> {
        self.flag_version_string@
    }

    /// The reserved bytes between the version string and the table.
    pub closed spec fn spec_reserved(self) -> Seq<u8> {
        self.flag_padding@
    }

    /// The attribute table.
    pub closed spec fn spec_attributes(self) -> Seq<Attribute> {
        self.attributes@
    }

    /// The table always has sixteen slots, and the header fields their fixed
    /// sizes.
    pub broadcast proof fn lemma_sizes(self)
        ensures
            #[trigger] self.spec_attributes().len() == 16,
            #[trigger] self.spec_magic().len() == 14,
            #[trigger] self.spec_version().len() == 8,
            #[trigger] self.spec_reserved().len() == 490,
    {
    }

    /// The record this firmware ships with: three attributes that name the
    /// board, its architecture and its debug-probe device, and thirteen blank
    /// slots.
    pub fn reference() -> (info: FlashInfo)
        ensures
            info.spec_magic() == magic_tag(),
            info.spec_version() == version_tag(),
            info.spec_reserved() == zero_padded(Seq::empty(), 490),
            info.spec_attributes()[0].spec_key() == board_key(),
            info.spec_attributes()[0].spec_length() == 4,
            info.spec_attributes()[0].spec_value() == zero_padded(board_name(), 47),
            info.spec_attributes()[1].spec_key() == arch_key(),
            info.spec_attributes()[1].spec_length() == 9,
            info.spec_attributes()[1].spec_value() == zero_padded(arch_name(), 47),
            info.spec_attributes()[2].spec_key() == device_key(),
            info.spec_attributes()[2].spec_length() == 11,
            info.spec_attributes()[2].spec_value() == zero_padded(device_name(), 47),
            forall|i: int|
                3 <= i < 16 ==> {
                    &&& (#[trigger] info.spec_attributes()[i]).spec_length() == 0
                    &&& info.spec_attributes()[i].spec_key() == zero_padded(Seq::empty(), 8)
                    &&& info.spec_attributes()[i].spec_value() == zero_padded(Seq::empty(), 47)
                },
    {
        let board = Attribute {
            key: BOARD_KEY,
            length: 4,
            value: BOARD_VALUE,
        };
        let arch = Attribute {
            key: ARCH_KEY,
            length: 9,
            value: ARCH_VALUE,
        };
        let device = Attribute {
            key: DEVICE_KEY,
            length: 11,
            value: DEVICE_VALUE,
        };
        let blank = Attribute { key: [0u8; 8], length: 0, value: [0u8; 47] };
        let info = FlashInfo {
            flag_bootloader_exists: MAGIC,
            flag_version_string: VERSION,
            flag_padding: [0u8; 490],
            attributes: [
                board, arch, device, blank, blank, blank, blank, blank,
                blank, blank, blank, blank, blank, blank, blank, blank,
            ],
        };
        assert(info.flag_bootloader_exists@ =~= magic_tag());
        assert(info.flag_version_string@ =~= version_tag());
        assert(info.flag_padding@ =~= zero_padded(Seq::empty(), 490));
        assert(board.key@ =~= board_key());
        assert(board.value@ =~= zero_padded(board_name(), 47));
        assert(arch.key@ =~= arch_key());
        assert(arch.value@ =~= zero_padded(arch_name(), 47));
        assert(device.key@ =~= device_key());
        assert(device.value@ =~= zero_padded(device_name(), 47));
        assert(blank.key@ =~= zero_padded(Seq::empty(), 8));
        assert(blank.value@ =~= zero_padded(Seq::empty(), 47));
        info
    }

    /// The slot at `index`, or `None` when `index` is past the table. The
    /// slot that comes back keeps the invariant of every slot: its declared
    /// length fits the value buffer.
    pub fn lookup(&self, index: usize) -> (slot: Option<&Attribute>)
        ensures
            slot is Some <==> index < 16,
            slot matches Some(a) ==> *a == self.spec_attributes()[index as int]
                && a.spec_length() <= 47,
    {
        if index < ATTRIBUTE_COUNT {
            let a = &self.attributes[index];
            proof {
                use_type_invariant(a);
            }
            Some(a)
        } else {
            None
        }
    }

    /// The magic tag at the start of the record.
    pub fn magic(&self) -> (tag: [u8; 14])
        ensures
            tag@ == self.spec_magic(),
    {
        self.flag_bootloader_exists
    }

    /// The version string of the record.
    pub fn version(&self) -> (tag: [u8; 8])
        ensures
            tag@ == self.spec_version(),
    {
        self.flag_version_string
    }
}

const MAGIC: [u8; 14] = [84, 79, 67, 75, 66, 79, 79, 84, 76, 79, 65, 68, 69, 82];

const VERSION: [u8; 8] = [48, 46, 49, 46, 48, 0, 0, 0];

const BOARD_KEY: [u8; 8] = [98, 111, 97, 114, 100, 0, 0, 0];

const BOARD_VALUE: [u8; 47] = [
    115, 116, 101, 108, 108, 97, 114, 105, 115, 32, 108, 97, 117, 110, 99, 104,
    112, 97, 100, 0, 0, 0, 0, 0, 0, 0, 0, 0, 0, 0, 0, 0,
    0, 0, 0, 0, 0, 0, 0, 0, 0, 0, 0, 0, 0, 0, 0,
];

const ARCH_KEY: [u8; 8] = [97, 114, 99, 104, 0, 0, 0, 0];

const ARCH_VALUE: [u8; 47] = [
    99, 111, 114, 116, 101, 120, 45, 109, 52, 0, 0, 0, 0, 0, 0, 0,
    0, 0, 0, 0, 0, 0, 0, 0, 0, 0, 0, 0, 0, 0, 0, 0,
    0, 0, 0, 0, 0, 0, 0, 0, 0, 0, 0, 0, 0, 0, 0,
];

const DEVICE_KEY: [u8; 8] = [106, 108, 100, 101, 118, 105, 99, 101];

const DEVICE_VALUE: [u8; 47] = [
    76, 77, 52, 70, 49, 50, 48, 72, 53, 81, 82, 0, 0, 0, 0, 0,
    0, 0, 0, 0, 0, 0, 0, 0, 0, 0, 0, 0, 0, 0, 0, 0,
    0, 0, 0, 0, 0, 0, 0, 0, 0, 0, 0, 0, 0, 0, 0,
];

} // verus!
