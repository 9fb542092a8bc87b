//! The 16-byte header of a cartridge image, in its legacy and its extended
//! dialect.

use vstd::arithmetic::power2::{lemma2_to64, lemma2_to64_rest, lemma_pow2_strictly_increases, pow2};
use vstd::prelude::*;

verus! {

/// Bytes in one bank of program ROM.
pub const PRG_ROM_BANK_SIZE: u64 = 16384;

/// Bytes in one bank of graphics ROM.
pub const CHR_ROM_BANK_SIZE: u64 = 8192;

/// Bytes in one bank of program RAM.
pub const PRG_RAM_BANK_SIZE: u64 = 8192;

/// The header does not start with the magic constant `N`, `E`, `S`, `0x1A`.
#[derive(Debug, Clone, Copy, PartialEq, Eq, Structural)]
pub struct InvalidHeaderError;

/// How the nametables are laid out.
#[derive(Debug, Clone, Copy, PartialEq, Eq, Structural)]
pub enum Mirroring {
    Vertical,
    Horizontal,
    FourScreen,
    SingleScreen,
}

/// The television timing that the cartridge was made for.
#[derive(Debug, Clone, Copy, PartialEq, Eq, Structural)]
pub enum TvSystem {
    Ntsc,
    Pal,
    DualCompatible,
    Dendy,
}

impl InvalidHeaderError {
    /// What went wrong, in words.
    pub open spec fn spec_message(self) -> Seq<char> {
        "Invalid header constant"@
    }

    /// What went wrong, in words.
    pub fn to_string(&self) -> (text: String)
        ensures
            text@ == self.spec_message(),
    {
        "Invalid header constant".to_owned()
    }
}

impl Mirroring {
    /// The name of the layout.
    pub open spec fn spec_name(self) -> Seq<char> {
        match self {
            Mirroring::Vertical => "Vertical"@,
            Mirroring::Horizontal => "Horizontal"@,
            Mirroring::FourScreen => "Four Screen"@,
            Mirroring::SingleScreen => "Single Screen"@,
        }
    }

    /// The name of the layout.
    pub fn to_string(&self) -> (text: String)
        ensures
            text@ == self.spec_name(),
    {
        match self {
            Mirroring::Vertical => "Vertical".to_owned(),
            Mirroring::Horizontal => "Horizontal".to_owned(),
            Mirroring::FourScreen => "Four Screen".to_owned(),
            Mirroring::SingleScreen => "Single Screen".to_owned(),
        }
    }
}

impl TvSystem {
    /// The name of the timing.
    pub open spec fn spec_name(self) -> Seq<char> {
        match self {
            TvSystem::Ntsc => "NTSC"@,
            TvSystem::Pal => "PAL"@,
            TvSystem::DualCompatible => "Dual Compatible"@,
            TvSystem::Dendy => "Dendy"@,
        }
    }

    /// The name of the timing.
    pub fn to_string(&self) -> (text: String)
        ensures
            text@ == self.spec_name(),
    {
        match self {
            TvSystem::Ntsc => "NTSC".to_owned(),
            TvSystem::Pal => "PAL".to_owned(),
            TvSystem::DualCompatible => "Dual Compatible".to_owned(),
            TvSystem::Dendy => "Dendy".to_owned(),
        }
    }
}

/// What the header says of the cartridge. All sizes are in bytes.
#[derive(Debug, Clone, Copy, PartialEq, Eq, Structural)]
pub struct HeaderData {
    pub prg_rom_size: u64,
    pub chr_rom_size: u64,
    pub mapper: u32,
    pub submapper: u32,
    pub trainer_present: bool,
    pub mirroring: Mirroring,
    pub nes2: bool,
    pub prg_ram_size: u64,
    pub chr_ram_size: u64,
    pub prg_nvram_size: u64,
    pub chr_nvram_size: u64,
    pub tv_system: TvSystem,
    pub prg_ram_present: bool,
    pub has_bus_conflicts: bool,
}

/// The same record, named for the image it heads.
pub type RomHeader = HeaderData;

/// The upper four bits of `b`.
pub open spec fn high_nibble(b: u8) -> nat {
    b as nat / 16
}

/// The lower four bits of `b`.
pub open spec fn low_nibble(b: u8) -> nat {
    b as nat % 16
}

/// The header starts with `N`, `E`, `S`, `0x1A`.
pub open spec fn has_magic(bytes: Seq<u8>) -> bool {
    bytes[0] == 0x4E && bytes[1] == 0x45 && bytes[2] == 0x53 && bytes[3] == 0x1A
}

/// Bits 2 and 3 of byte 7 hold the value 2: the header is in the extended
/// dialect. Every other value selects the legacy dialect.
pub open spec fn is_extended(bytes: Seq<u8>) -> bool {
    (bytes[7] as nat / 4) % 4 == 2
}

/// The nametable layout that flags 6 select: bit 3 and bit 0 form a two-bit
/// selector, bit 3 the upper one.
pub open spec fn spec_nametable_layout(flags6: u8) -> Mirroring {
    let selector = 2 * ((flags6 as nat / 8) % 2) + flags6 as nat % 2;
    if selector == 0 {
        Mirroring::Vertical
    } else if selector == 1 {
        Mirroring::Horizontal
    } else if selector == 2 {
        Mirroring::SingleScreen
    } else {
        Mirroring::FourScreen
    }
}

/// The timing of a legacy header: bit 0 of flags 10 marks a cartridge for
/// both systems, whatever flags 9 say; otherwise bit 0 of flags 9 tells PAL
/// from NTSC.
pub open spec fn spec_legacy_tv_system(flags9: u8, flags10: u8) -> TvSystem {
    if flags10 as nat % 2 == 1 {
        TvSystem::DualCompatible
    } else if flags9 as nat % 2 == 0 {
        TvSystem::Ntsc
    } else {
        TvSystem::Pal
    }
}

/// The record that a legacy header of 16 bytes stands for.
pub open spec fn spec_ines1_header(bytes: Seq<u8>) -> HeaderData {
    HeaderData {
        prg_rom_size: (bytes[4] as nat * 16384) as u64,
        chr_rom_size: (bytes[5] as nat * 8192) as u64,
        mapper: (high_nibble(bytes[6]) + 16 * high_nibble(bytes[7])) as u32,
        submapper: 0,
        trainer_present: (bytes[6] as nat / 8) % 2 == 1,
        mirroring: spec_nametable_layout(bytes[6]),
        nes2: false,
        prg_ram_size: ((if bytes[8] == 0 { 1 } else { bytes[8] as nat }) * 8192) as u64,
        chr_ram_size: 0,
        prg_nvram_size: 0,
        chr_nvram_size: 0,
        tv_system: spec_legacy_tv_system(bytes[9], bytes[10]),
        prg_ram_present: (bytes[10] as nat / 16) % 2 == 1,
        has_bus_conflicts: (bytes[10] as nat / 32) % 2 == 1,
    }
}

/// A size field of the extended dialect is in exponent-multiplier notation
/// when its bits 8 to 11 are all set.
pub open spec fn is_exponent_notation(field: u16) -> bool {
    (field as nat / 256) % 16 == 15
}

/// The exponent of a size field in exponent-multiplier notation: its low
/// byte with the two multiplier bits cleared.
pub open spec fn rom_size_exponent(field: u16) -> nat {
    4 * ((field as nat % 256) / 4)
}

/// The multiplier of a size field in exponent-multiplier notation: its two
/// lowest bits.
pub open spec fn rom_size_multiplier(field: u16) -> nat {
    field as nat % 4
}

/// The ROM size in bytes that a size field of the extended dialect encodes:
/// `2^exponent * (2 * multiplier + 1)` in exponent-multiplier notation, else
/// the lower twelve bits of the field as a count of banks.
pub open spec fn spec_ines2_rom_size(field: u16, bank_size: u64) -> nat {
    if is_exponent_notation(field) {
        pow2(rom_size_exponent(field)) * (2 * rom_size_multiplier(field) + 1)
    } else {
        (field as nat % 4096) * bank_size as nat
    }
}

/// The RAM size in bytes that a shift count encodes: none for 0, else
/// `64 * 2^shift_count`.
pub open spec fn spec_ines2_ram_size(shift_count: u8) -> nat {
    if shift_count == 0 {
        0
    } else {
        64 * pow2(shift_count as nat)
    }
}

/// The size field for program ROM in an extended header: byte 4, extended
/// upwards by the low nibble of byte 9.
pub open spec fn prg_rom_field(bytes: Seq<u8>) -> u16 {
    (bytes[4] as nat + 256 * low_nibble(bytes[9])) as u16
}

/// The size field for graphics ROM in an extended header: byte 5, extended
/// upwards by the high nibble of byte 9.
pub open spec fn chr_rom_field(bytes: Seq<u8>) -> u16 {
    (bytes[5] as nat + 256 * high_nibble(bytes[9])) as u16
}

/// The timing of an extended header: the two lowest bits of flags 12.
pub open spec fn spec_extended_tv_system(flags12: u8) -> TvSystem {
    let selector = flags12 as nat % 4;
    if selector == 0 {
        TvSystem::Ntsc
    } else if selector == 1 {
        TvSystem::Pal
    } else if selector == 2 {
        TvSystem::DualCompatible
    } else {
        TvSystem::Dendy
    }
}

/// Both ROM sizes of an extended header fit the record's 64-bit fields.
pub open spec fn ines2_sizes_fit(bytes: Seq<u8>) -> bool {
    &&& spec_ines2_rom_size(prg_rom_field(bytes), PRG_ROM_BANK_SIZE) <= u64::MAX
    &&& spec_ines2_rom_size(chr_rom_field(bytes), CHR_ROM_BANK_SIZE) <= u64::MAX
}

/// The record that an extended header of 16 bytes stands for.
pub open spec fn spec_ines2_header(bytes: Seq<u8>) -> HeaderData {
    HeaderData {
        prg_rom_size: spec_ines2_rom_size(prg_rom_field(bytes), PRG_ROM_BANK_SIZE) as u64,
        chr_rom_size: spec_ines2_rom_size(chr_rom_field(bytes), CHR_ROM_BANK_SIZE) as u64,
        mapper: (high_nibble(bytes[6]) + 16 * high_nibble(bytes[7]) + 256 * low_nibble(
            bytes[8],
        )) as u32,
        submapper: high_nibble(bytes[8]) as u32,
        trainer_present: (bytes[6] as nat / 8) % 2 == 1,
        mirroring: spec_nametable_layout(bytes[6]),
        nes2: true,
        prg_ram_size: spec_ines2_ram_size(low_nibble(bytes[10]) as u8) as u64,
        chr_ram_size: spec_ines2_ram_size(low_nibble(bytes[11]) as u8) as u64,
        prg_nvram_size: spec_ines2_ram_size(high_nibble(bytes[10]) as u8) as u64,
        chr_nvram_size: spec_ines2_ram_size(high_nibble(bytes[11]) as u8) as u64,
        tv_system: spec_extended_tv_system(bytes[12]),
        prg_ram_present: low_nibble(bytes[10]) > 0,
        has_bus_conflicts: false,
    }
}

/// The sizes that the header announces can be held: always so for a header
/// without the magic constant or in the legacy dialect.
pub open spec fn header_representable(bytes: Seq<u8>) -> bool {
    has_magic(bytes) && is_extended(bytes) ==> ines2_sizes_fit(bytes)
}

/// What a header of 16 bytes decodes to.
pub open spec fn spec_parse(bytes: Seq<u8>) -> Result<HeaderData, InvalidHeaderError> {
    if !has_magic(bytes) {
        Err(InvalidHeaderError)
    } else if is_extended(bytes) {
        Ok(spec_ines2_header(bytes))
    } else {
        Ok(spec_ines1_header(bytes))
    }
}

/// Every header with the magic constant belongs to exactly one dialect, the
/// one that bits 2 and 3 of byte 7 select, and a header in the legacy
/// dialect always decodes: its sizes can be held whatever its bytes are.
pub proof fn lemma_dialects_are_exclusive(bytes: Seq<u8>)
    requires
        bytes.len() == 16,
        has_magic(bytes),
    ensures
        spec_parse(bytes) is Ok,
        spec_parse(bytes).unwrap().nes2 == is_extended(bytes),
        !is_extended(bytes) ==> header_representable(bytes) && spec_parse(bytes) == Ok::<
            HeaderData,
            InvalidHeaderError,
        >(spec_ines1_header(bytes)),
        is_extended(bytes) ==> spec_parse(bytes) == Ok::<HeaderData, InvalidHeaderError>(
            spec_ines2_header(bytes),
        ),
{
}

/// A header without the magic constant does not decode, whatever else it
/// holds.
pub proof fn lemma_magic_is_required(bytes: Seq<u8>)
    requires
        bytes.len() == 16,
        !has_magic(bytes),
    ensures
        header_representable(bytes),
        spec_parse(bytes) == Err::<HeaderData, InvalidHeaderError>(InvalidHeaderError),
{
}

/// Two decodings of the same header are equal.
pub proof fn lemma_parse_is_deterministic(
    bytes: Seq<u8>,
    first: Result<HeaderData, InvalidHeaderError>,
    second: Result<HeaderData, InvalidHeaderError>,
)
    requires
        first == spec_parse(bytes),
        second == spec_parse(bytes),
    ensures
        first == second,
{
}

/// A power of two that a 64-bit integer holds has an exponent below 64.
proof fn lemma_pow2_fits_u64(e: nat)
    requires
        pow2(e) <= u64::MAX,
    ensures
        e < 64,
{
    if e >= 64 {
        lemma2_to64_rest();
        if e > 64 {
            lemma_pow2_strictly_increases(64, e);
        }
    }
}

/// A ROM size in exponent-multiplier notation fits 64 bits exactly when
/// its exponent is at most 60, and a count of at most 4095 banks of at
/// most 16 KiB always fits.
pub proof fn lemma_rom_size_fits(field: u16, bank_size: u64)
    requires
        bank_size <= PRG_ROM_BANK_SIZE,
    ensures
        spec_ines2_rom_size(field, bank_size) <= u64::MAX <==> (is_exponent_notation(field)
            ==> rom_size_exponent(field) <= 60),
{
    let e = rom_size_exponent(field);
    let m = rom_size_multiplier(field);
    lemma2_to64_rest();
    if is_exponent_notation(field) {
        if e <= 60 {
            if e < 60 {
                lemma_pow2_strictly_increases(e, 60);
            }
            assert(pow2(e) * (2 * m + 1) <= 0x1000_0000_0000_0000 * 7) by (nonlinear_arith)
                requires
                    pow2(e) <= 0x1000_0000_0000_0000,
                    m < 4,
            ;
        } else {
            if e > 64 {
                lemma_pow2_strictly_increases(64, e);
            }
            assert(pow2(e) * (2 * m + 1) >= pow2(e)) by (nonlinear_arith);
        }
    } else {
        assert((field as nat % 4096) * bank_size as nat <= 4095 * 16384) by (nonlinear_arith)
            requires
                field as nat % 4096 <= 4095,
                bank_size as nat <= 16384,
        ;
    }
}

impl HeaderData {
    /// Tells whether the sizes that the header announces can be held, which
    /// is what `parse` asks of its argument.
    pub fn is_representable(header_data: &[u8; 16]) -> (fits: bool)
        ensures
            fits == header_representable(header_data@),
    {
        let flags7 = header_data[7];
        let flags9 = header_data[9];
        let byte4 = header_data[4];
        let byte5 = header_data[5];
        let prg_field: u16 = byte4 as u16 | ((flags9 as u16 & 0xF) << 8);
        let chr_field: u16 = byte5 as u16 | ((flags9 as u16 & 0xF0) << 4);
        assert({
            &&& (((flags7 >> 2) & 3) == 2) == ((flags7 / 4) % 4 == 2)
            &&& (byte4 as u16 | ((flags9 as u16 & 0xF) << 8)) == byte4 + 256 * (flags9 % 16)
            &&& (byte5 as u16 | ((flags9 as u16 & 0xF0) << 4)) == byte5 + 256 * (flags9 / 16)
        }) by (bit_vector);
        assert({
            &&& (prg_field & 0xF00 == 0xF00) == ((prg_field / 256) % 16 == 15)
            &&& prg_field & 0xFC == 4 * ((prg_field % 256) / 4)
            &&& (chr_field & 0xF00 == 0xF00) == ((chr_field / 256) % 16 == 15)
            &&& chr_field & 0xFC == 4 * ((chr_field % 256) / 4)
        }) by (bit_vector);
        proof {
            lemma_rom_size_fits(prg_field, PRG_ROM_BANK_SIZE);
            lemma_rom_size_fits(chr_field, CHR_ROM_BANK_SIZE);
        }
        let magic = header_data[0] == 0x4E && header_data[1] == 0x45 && header_data[2] == 0x53
            && header_data[3] == 0x1A;
        if magic && ((flags7 >> 2) & 3) == 2 {
            (prg_field & 0xF00 != 0xF00 || prg_field & 0xFC <= 60) && (chr_field & 0xF00 != 0xF00
                || chr_field & 0xFC <= 60)
        } else {
            true
        }
    }

    /// Decodes a header. It fails on a header without the magic constant,
    /// and on no other; bits 2 and 3 of byte 7 then choose the dialect.
    pub fn parse(header_data: &[u8; 16]) -> (result: Result<HeaderData, InvalidHeaderError>)
        requires
            header_representable(header_data@),
        ensures
            result == spec_parse(header_data@),
    {
        if header_data[0] == 0x4E && header_data[1] == 0x45 && header_data[2] == 0x53
            && header_data[3] == 0x1A {
            let flags7 = header_data[7];
            let ines2 = ((flags7 >> 2) & 3) == 2;
            assert((((flags7 >> 2) & 3) == 2) == ((flags7 / 4) % 4 == 2)) by (bit_vector);
            if ines2 {
                HeaderData::parse_ines2_header(header_data)
            } else {
                HeaderData::parse_ines1_header(header_data)
            }
        } else {
            Err(InvalidHeaderError)
        }
    }

    /// The nametable layout that flags 6 select.
    pub fn nametable_layout(flags6: &u8) -> (layout: Mirroring)
        ensures
            layout == spec_nametable_layout(*flags6),
    {
        let f: u8 = *flags6;
        let nametable_flag = ((f >> 2) & 2) | (f & 1);
        assert((((f >> 2) & 2) | (f & 1)) == 2 * ((f / 8) % 2) + f % 2) by (bit_vector);
        if nametable_flag == 0 {
            Mirroring::Vertical
        } else if nametable_flag == 1 {
            Mirroring::Horizontal
        } else if nametable_flag == 2 {
            Mirroring::SingleScreen
        } else {
            Mirroring::FourScreen
        }
    }

    /// Decodes a header in the legacy dialect. Every such header decodes.
    pub fn parse_ines1_header(header_data: &[u8; 16]) -> (result: Result<
        HeaderData,
        InvalidHeaderError,
    >)
        ensures
            result == Ok::<HeaderData, InvalidHeaderError>(spec_ines1_header(header_data@)),
    {
        let flags6 = header_data[6];
        let flags7 = header_data[7];
        let flags8 = header_data[8];
        let flags9 = header_data[9];
        let flags10 = header_data[10];

        let tv = if (flags10 & 3) == 1 || (flags10 & 3) == 3 {
            TvSystem::DualCompatible
        } else if (flags9 & 1) == 0 {
            TvSystem::Ntsc
        } else {
            TvSystem::Pal
        };
        assert({
            &&& ((flags10 & 3) == 1 || (flags10 & 3) == 3) == (flags10 % 2 == 1)
            &&& ((flags9 & 1) == 0) == (flags9 % 2 == 0)
            &&& ((flags6 >> 4) | (flags7 & 0xF0)) == flags6 / 16 + 16 * (flags7 / 16)
            &&& (((flags6 >> 3) & 1) > 0) == ((flags6 / 8) % 2 == 1)
            &&& (((flags10 >> 4) & 1) > 0) == ((flags10 / 16) % 2 == 1)
            &&& (((flags10 >> 5) & 1) > 0) == ((flags10 / 32) % 2 == 1)
        }) by (bit_vector);

        let prg_ram_banks: u8 = if flags8 == 0 {
            1
        } else {
            flags8
        };
        Ok(
            HeaderData {
                prg_rom_size: header_data[4] as u64 * PRG_ROM_BANK_SIZE,
                chr_rom_size: header_data[5] as u64 * CHR_ROM_BANK_SIZE,
                mapper: ((flags6 >> 4) | (flags7 & 0xF0)) as u32,
                submapper: 0,
                trainer_present: ((flags6 >> 3) & 1) > 0,
                mirroring: HeaderData::nametable_layout(&flags6),
                nes2: false,
                prg_ram_size: prg_ram_banks as u64 * PRG_RAM_BANK_SIZE,
                chr_ram_size: 0,
                prg_nvram_size: 0,
                chr_nvram_size: 0,
                tv_system: tv,
                prg_ram_present: ((flags10 >> 4) & 1) > 0,
                has_bus_conflicts: ((flags10 >> 5) & 1) > 0,
            },
        )
    }

    /// The ROM size in bytes that a size field of the extended dialect
    /// encodes, where a 64-bit integer holds it.
    pub fn ines2_rom_size(bytes: u16, bank_size: u64) -> (size: u64)
        requires
            spec_ines2_rom_size(bytes, bank_size) <= u64::MAX,
        ensures
            size == spec_ines2_rom_size(bytes, bank_size),
    {
        assert({
            &&& (bytes & 0xF00 == 0xF00) == ((bytes / 256) % 16 == 15)
            &&& bytes & 0x3 == bytes % 4
            &&& bytes & 0xFC == 4 * ((bytes % 256) / 4)
            &&& bytes & 0xFFF == bytes % 4096
        }) by (bit_vector);
        if bytes & 0xF00 == 0xF00 {
            let multiplier: u64 = (bytes & 0x3) as u64;
            let exponent: u64 = (bytes & 0xFC) as u64;
            proof {
                let e = rom_size_exponent(bytes);
                assert(pow2(e) <= pow2(e) * (2 * rom_size_multiplier(bytes) + 1))
                    by (nonlinear_arith);
                lemma_pow2_fits_u64(e);
                vstd::bits::lemma_u64_shl_is_mul(1, exponent);
            }
            (1u64 << exponent) * (multiplier * 2 + 1)
        } else {
            (bytes & 0xFFF) as u64 * bank_size
        }
    }

    /// The RAM size in bytes that a shift count encodes, where a 64-bit
    /// integer holds it.
    pub fn ines2_ram_size(shift_count: u8) -> (size: u64)
        requires
            spec_ines2_ram_size(shift_count) <= u64::MAX,
        ensures
            size == spec_ines2_ram_size(shift_count),
    {
        if shift_count == 0 {
            0u64
        } else {
            proof {
                let e = shift_count as nat;
                assert(pow2(e) <= 64 * pow2(e)) by (nonlinear_arith);
                lemma_pow2_fits_u64(e);
                vstd::bits::lemma_u64_shl_is_mul(64, shift_count as u64);
            }
            64u64 << (shift_count as u64)
        }
    }

    /// Decodes a header in the extended dialect. Every such header whose ROM
    /// sizes can be held decodes.
    pub fn parse_ines2_header(header_data: &[u8; 16]) -> (result: Result<
        HeaderData,
        InvalidHeaderError,
    >)
        requires
            ines2_sizes_fit(header_data@),
        ensures
            result == Ok::<HeaderData, InvalidHeaderError>(spec_ines2_header(header_data@)),
    {
        let flags6 = header_data[6];
        let flags7 = header_data[7];
        let flags8 = header_data[8];
        let flags9 = header_data[9];
        let flags10 = header_data[10];
        let flags11 = header_data[11];
        let flags12 = header_data[12];
        let byte4 = header_data[4];
        let byte5 = header_data[5];

        let prg_rom_size_bytes: u16 = byte4 as u16 | ((flags9 as u16 & 0xF) << 8);
        let chr_rom_size_bytes: u16 = byte5 as u16 | ((flags9 as u16 & 0xF0) << 4);
        let selector = flags12 & 0x3;
        let tv = if selector == 0 {
            TvSystem::Ntsc
        } else if selector == 1 {
            TvSystem::Pal
        } else if selector == 2 {
            TvSystem::DualCompatible
        } else {
            TvSystem::Dendy
        };
        let mapper: u32 = (flags6 >> 4) as u32 | (flags7 & 0xF0) as u32 | ((flags8 & 0x0F) as u32)
            << 8;
        assert({
            &&& (byte4 as u16 | ((flags9 as u16 & 0xF) << 8)) == byte4 + 256 * (flags9 % 16)
            &&& (byte5 as u16 | ((flags9 as u16 & 0xF0) << 4)) == byte5 + 256 * (flags9 / 16)
            &&& flags12 & 0x3 == flags12 % 4
            &&& ((flags6 >> 4) as u32 | (flags7 & 0xF0) as u32 | ((flags8 & 0x0F) as u32) << 8)
                == flags6 / 16 + 16 * (flags7 / 16) + 256 * (flags8 % 16)
            &&& flags8 >> 4 == flags8 / 16
            &&& (((flags6 >> 3) & 1) > 0) == ((flags6 / 8) % 2 == 1)
            &&& flags10 & 0xF == flags10 % 16
            &&& flags11 & 0xF == flags11 % 16
            &&& flags10 >> 4 == flags10 / 16
            &&& flags11 >> 4 == flags11 / 16
        }) by (bit_vector);
        proof {
            lemma_ram_size_of_nibble_fits(flags10 & 0xF);
            lemma_ram_size_of_nibble_fits(flags11 & 0xF);
            lemma_ram_size_of_nibble_fits(flags10 >> 4);
            lemma_ram_size_of_nibble_fits(flags11 >> 4);
        }

        Ok(
            HeaderData {
                prg_rom_size: HeaderData::ines2_rom_size(prg_rom_size_bytes, PRG_ROM_BANK_SIZE),
                chr_rom_size: HeaderData::ines2_rom_size(chr_rom_size_bytes, CHR_ROM_BANK_SIZE),
                mapper,
                submapper: (flags8 >> 4) as u32,
                trainer_present: ((flags6 >> 3) & 1) > 0,
                mirroring: HeaderData::nametable_layout(&flags6),
                nes2: true,
                prg_ram_size: HeaderData::ines2_ram_size(flags10 & 0xF),
                chr_ram_size: HeaderData::ines2_ram_size(flags11 & 0xF),
                prg_nvram_size: HeaderData::ines2_ram_size(flags10 >> 4),
                chr_nvram_size: HeaderData::ines2_ram_size(flags11 >> 4),
                tv_system: tv,
                prg_ram_present: flags10 & 0xF > 0,
                has_bus_conflicts: false,
            },
        )
    }
}

/// The RAM size that a four-bit shift count encodes is at most 2 MiB.
pub proof fn lemma_ram_size_of_nibble_fits(shift_count: u8)
    requires
        shift_count < 16,
    ensures
        spec_ines2_ram_size(shift_count) <= 0x20_0000,
{
    lemma2_to64();
    if shift_count > 0 && shift_count < 15 {
        lemma_pow2_strictly_increases(shift_count as nat, 15);
    }
    assert(pow2(15) == 0x8000);
}

} // verus!
