//! Cartridge image: an iNES-flavoured header followed by program-ROM and
//! character-ROM banks. Parsing validates the header and bank sizes and
//! yields an immutable cartridge.

use vstd::prelude::*;

verus! {

/// How the cartridge wires the nametable address lines.
#[derive(Clone, Copy, Debug, PartialEq, Eq, Structural)]
pub enum MirroringType {
    Horizontal,
    Vertical,
    FourScreen,
}

/// Why a cartridge image was rejected.
#[derive(Clone, Copy, Debug, PartialEq, Eq, Structural)]
pub enum RomError {
    /// Fewer than the 16 header bytes.
    TooShort,
    /// The four magic bytes are not `NES\x1a`.
    BadMagic,
    /// Header bytes 9 through 15 are not all zero.
    NonzeroHeaderTail,
    /// The low nibble of the second control byte is nonzero.
    BadControlBits,
    /// The image length disagrees with the bank counts in the header.
    SizeMismatch,
}

/// A parsed cartridge. Immutable for the lifetime of a run.
pub struct Rom {
    pub prg_rom: Vec<u8>,
    pub chr_rom: Vec<u8>,
    pub mapper_number: u8,
    pub mirroring: MirroringType,
    pub battery_backed_ram: bool,
    pub trainer: bool,
}

/// The image opens with the magic bytes `NES\x1a`.
pub open spec fn magic_ok(d: Seq<u8>) -> bool {
    &&& d[0] == 0x4Eu8
    &&& d[1] == 0x45u8
    &&& d[2] == 0x53u8
    &&& d[3] == 0x1Au8
}

/// Header bytes 9 through 15 are zero.
pub open spec fn header_tail_zero(d: Seq<u8>) -> bool {
    forall|i: int| 9 <= i < 16 ==> d[i] == 0u8
}

/// Program-ROM byte count announced by the header: 16 KiB banks.
pub open spec fn prg_len_of(d: Seq<u8>) -> int {
    d[4] * 0x4000
}

/// Character-ROM byte count announced by the header: 8 KiB banks.
pub open spec fn chr_len_of(d: Seq<u8>) -> int {
    d[5] * 0x2000
}

/// Mapper number assembled from the high nibbles of the two control bytes.
pub open spec fn mapper_of(b6: u8, b7: u8) -> u8 {
    (b7 & 0xF0u8) | ((b6 & 0xF0u8) >> 4u8)
}

/// Mirroring selected by control byte 1: bit 3 forces four-screen,
/// otherwise bit 0 picks vertical over horizontal.
pub open spec fn mirroring_of(b6: u8) -> MirroringType {
    if b6 & 0x08u8 != 0u8 {
        MirroringType::FourScreen
    } else if b6 & 0x01u8 == 0u8 {
        MirroringType::Horizontal
    } else {
        MirroringType::Vertical
    }
}

/// The whole image is well-formed: header checks pass and the length
/// matches the announced banks exactly.
pub open spec fn image_ok(d: Seq<u8>) -> bool {
    &&& d.len() >= 16
    &&& magic_ok(d)
    &&& header_tail_zero(d)
    &&& d[7] & 0x0Fu8 == 0u8
    &&& d.len() == 16 + prg_len_of(d) + chr_len_of(d)
}

/// Copies `len` bytes of `data` starting at `start` into a fresh vector.
fn copy_range(data: &[u8], start: usize, len: usize) -> (r: Vec<u8>)
    requires
        start + len <= data@.len(),
    ensures
        r@ == data@.subrange(start as int, start + len),
{
    let n: usize = data.len();
    let mut out: Vec<u8> = Vec::new();
    let mut i: usize = 0;
    while i < len
        invariant
            i <= len,
            start + len <= n,
            n == data@.len(),
            out@ == data@.subrange(start as int, start + i),
        decreases len - i,
    {
        out.push(data[start + i]);
        assert(out@ == data@.subrange(start as int, start + i + 1));
        i = i + 1;
    }
    out
}

impl Rom {
    /// Parses a cartridge image. The checks run in a fixed order, so for
    /// a malformed image the error names the first failed check.
    pub fn new(data: &[u8]) -> (r: Result<Rom, RomError>)
        ensures
            data@.len() < 16 ==> r == Err::<Rom, RomError>(RomError::TooShort),
            data@.len() >= 16 && !magic_ok(data@) ==> r == Err::<Rom, RomError>(
                RomError::BadMagic,
            ),
            data@.len() >= 16 && magic_ok(data@) && !header_tail_zero(data@) ==> r == Err::<
                Rom,
                RomError,
            >(RomError::NonzeroHeaderTail),
            data@.len() >= 16 && magic_ok(data@) && header_tail_zero(data@) && data@[7] & 0x0Fu8
                != 0u8 ==> r == Err::<Rom, RomError>(RomError::BadControlBits),
            data@.len() >= 16 && magic_ok(data@) && header_tail_zero(data@) && data@[7] & 0x0Fu8
                == 0u8 && data@.len() != 16 + prg_len_of(data@) + chr_len_of(data@) ==> r == Err::<
                Rom,
                RomError,
            >(RomError::SizeMismatch),
            image_ok(data@) <==> r is Ok,
            r matches Ok(rom) ==> {
                &&& rom.prg_rom@ == data@.subrange(16, 16 + prg_len_of(data@))
                &&& rom.chr_rom@ == data@.subrange(
                    16 + prg_len_of(data@),
                    16 + prg_len_of(data@) + chr_len_of(data@),
                )
                &&& rom.mapper_number == mapper_of(data@[6], data@[7])
                &&& rom.mirroring == mirroring_of(data@[6])
                &&& rom.battery_backed_ram == (data@[6] & 0x02u8 != 0u8)
                &&& rom.trainer == (data@[6] & 0x04u8 != 0u8)
            },
    {
        if data.len() < 16 {
            return Err(RomError::TooShort);
        }
        if !(data[0] == 0x4E && data[1] == 0x45 && data[2] == 0x53 && data[3] == 0x1A) {
            return Err(RomError::BadMagic);
        }
        let mut i: usize = 9;
        while i < 16
            invariant
                9 <= i <= 16,
                data@.len() >= 16,
                magic_ok(data@),
                forall|j: int| 9 <= j < i ==> data@[j] == 0u8,
            decreases 16 - i,
        {
            if data[i] != 0 {
                return Err(RomError::NonzeroHeaderTail);
            }
            i = i + 1;
        }
        let ctrl_1 = data[6];
        let ctrl_2 = data[7];
        if ctrl_2 & 0x0F != 0 {
            return Err(RomError::BadControlBits);
        }
        let prg_bytes: usize = (data[4] as usize) * 0x4000;
        let chr_bytes: usize = (data[5] as usize) * 0x2000;
        if data.len() != 16 + prg_bytes + chr_bytes {
            return Err(RomError::SizeMismatch);
        }
        let prg_rom = copy_range(data, 16, prg_bytes);
        let chr_rom = copy_range(data, 16 + prg_bytes, chr_bytes);
        Ok(
            Rom {
                prg_rom,
                chr_rom,
                mapper_number: (ctrl_2 & 0xF0) | ((ctrl_1 & 0xF0) >> 4),
                mirroring: if ctrl_1 & 0x08 != 0 {
                    MirroringType::FourScreen
                } else if ctrl_1 & 0x01 == 0 {
                    MirroringType::Horizontal
                } else {
                    MirroringType::Vertical
                },
                battery_backed_ram: ctrl_1 & 0x02 != 0,
                trainer: ctrl_1 & 0x04 != 0,
            },
        )
    }
}

} // verus!
