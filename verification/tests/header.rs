use nes_rom::header::{
    HeaderData, InvalidHeaderError, Mirroring, RomHeader, TvSystem, CHR_ROM_BANK_SIZE,
    PRG_RAM_BANK_SIZE, PRG_ROM_BANK_SIZE,
};

fn legacy(flags: [u8; 12]) -> [u8; 16] {
    let mut header = [0u8; 16];
    header[0] = 0x4E;
    header[1] = 0x45;
    header[2] = 0x53;
    header[3] = 0x1A;
    header[4..16].copy_from_slice(&flags);
    header
}

#[test]
fn header_parse_valid_ines1_header() {
    let valid_header: [u8; 16] = [
        0x4E, 0x45, 0x53, 0x1A, 0x10, 0x00, 0x11, 0x00, 0x00, 0x00, 0x00, 0x00, 0x00, 0x00, 0x00,
        0x00,
    ];
    let result = RomHeader::parse(&valid_header);

    assert_eq!(
        result,
        Ok(RomHeader {
            prg_rom_size: 16 * PRG_ROM_BANK_SIZE,
            chr_rom_size: 0,
            mapper: 1,
            trainer_present: false,
            mirroring: Mirroring::Horizontal,
            nes2: false,
            prg_ram_size: 1 * PRG_RAM_BANK_SIZE,
            tv_system: TvSystem::Ntsc,
            prg_ram_present: false,
            has_bus_conflicts: false,
            submapper: 0,
            chr_ram_size: 0,
            prg_nvram_size: 0,
            chr_nvram_size: 0
        })
    );
}

#[test]
fn header_parse_invalid_ines1_header() {
    let invalid_header: [u8; 16] = [
        0x4E, 0x45, 0x53, 0x23, 0x10, 0x00, 0x11, 0x00, 0x00, 0x00, 0x00, 0x00, 0x00, 0x00, 0x00,
        0x00,
    ];
    let result = RomHeader::parse(&invalid_header);

    assert_eq!(result, Err(InvalidHeaderError));
}

#[test]
fn header_parse_valid_ines2_header() {
    let valid_header: [u8; 16] = [
        0x4E, 0x45, 0x53, 0x1A, 0x01, 0x01, 0x00, 0x08, 0x00, 0x00, 0x00, 0x00, 0x00, 0x00, 0x00,
        0x00,
    ];
    let result = RomHeader::parse(&valid_header);

    assert_eq!(
        result,
        Ok(RomHeader {
            prg_rom_size: PRG_ROM_BANK_SIZE,
            chr_rom_size: CHR_ROM_BANK_SIZE,
            mapper: 0,
            submapper: 0,
            trainer_present: false,
            mirroring: Mirroring::Vertical,
            nes2: true,
            prg_ram_size: 0,
            chr_ram_size: 0,
            prg_nvram_size: 0,
            chr_nvram_size: 0,
            tv_system: TvSystem::Ntsc,
            prg_ram_present: false,
            has_bus_conflicts: false
        })
    );
}

#[test]
fn header_parse_invalid_ines2_header() {
    let invalid_header: [u8; 16] = [
        0x4E, 0x45, 0x53, 0x23, 0x10, 0x00, 0x08, 0x08, 0x00, 0x00, 0x00, 0x00, 0x00, 0x00, 0x00,
        0x00,
    ];
    let result = RomHeader::parse(&invalid_header);

    assert_eq!(result, Err(InvalidHeaderError));
}

#[test]
fn header_data_parse_valid_ines1_header() {
    let valid_header: [u8; 16] = [
        0x4E, 0x45, 0x53, 0x1A, 0x10, 0x00, 0x11, 0x00, 0x00, 0x00, 0x00, 0x00, 0x00, 0x00, 0x00,
        0x00,
    ];
    let result = HeaderData::parse(&valid_header);

    assert_eq!(
        result,
        Ok(HeaderData {
            prg_rom_size: 16 * PRG_ROM_BANK_SIZE,
            chr_rom_size: 0,
            mapper: 1,
            trainer_present: false,
            mirroring: Mirroring::Horizontal,
            nes2: false,
            prg_ram_size: 1 * PRG_RAM_BANK_SIZE,
            tv_system: TvSystem::Ntsc,
            prg_ram_present: false,
            has_bus_conflicts: false,
            submapper: 0,
            chr_ram_size: 0,
            prg_nvram_size: 0,
            chr_nvram_size: 0
        })
    );
}

#[test]
fn header_data_parse_invalid_ines1_header() {
    let invalid_header: [u8; 16] = [
        0x4E, 0x45, 0x53, 0x23, 0x10, 0x00, 0x11, 0x00, 0x00, 0x00, 0x00, 0x00, 0x00, 0x00, 0x00,
        0x00,
    ];
    let result = HeaderData::parse(&invalid_header);

    assert_eq!(result, Err(InvalidHeaderError));
}

#[test]
fn header_data_parse_valid_ines2_header() {
    let valid_header: [u8; 16] = [
        0x4E, 0x45, 0x53, 0x1A, 0x01, 0x01, 0x00, 0x08, 0x00, 0x00, 0x00, 0x00, 0x00, 0x00, 0x00,
        0x00,
    ];
    let result = HeaderData::parse(&valid_header);

    assert_eq!(
        result,
        Ok(HeaderData {
            prg_rom_size: PRG_ROM_BANK_SIZE,
            chr_rom_size: CHR_ROM_BANK_SIZE,
            mapper: 0,
            submapper: 0,
            trainer_present: false,
            mirroring: Mirroring::Vertical,
            nes2: true,
            prg_ram_size: 0,
            chr_ram_size: 0,
            prg_nvram_size: 0,
            chr_nvram_size: 0,
            tv_system: TvSystem::Ntsc,
            prg_ram_present: false,
            has_bus_conflicts: false
        })
    );
}

#[test]
fn header_data_parse_invalid_ines2_header() {
    let invalid_header: [u8; 16] = [
        0x4E, 0x45, 0x53, 0x23, 0x10, 0x00, 0x08, 0x08, 0x00, 0x00, 0x00, 0x00, 0x00, 0x00, 0x00,
        0x00,
    ];
    let result = HeaderData::parse(&invalid_header);

    assert_eq!(result, Err(InvalidHeaderError));
}

#[test]
fn every_byte_of_the_magic_constant_counts() {
    let valid = legacy([1, 1, 0, 0, 0, 0, 0, 0, 0, 0, 0, 0]);
    assert!(HeaderData::parse(&valid).is_ok());
    for position in 0..4 {
        let mut header = valid;
        header[position] ^= 0x01;
        assert_eq!(HeaderData::parse(&header), Err(InvalidHeaderError));
    }
}

#[test]
fn dialect_follows_bits_2_and_3_of_byte_7() {
    for selector in 0u8..4 {
        let header = legacy([1, 1, 0, selector << 2, 0, 0, 0, 0, 0, 0, 0, 0]);
        let decoded = HeaderData::parse(&header).unwrap();
        assert_eq!(decoded.nes2, selector == 2);
    }
}

#[test]
fn every_legacy_header_decodes() {
    for flags6 in 0u8..=255 {
        for flags7 in [0x00u8, 0x04, 0x0C, 0xF0, 0xF7, 0xFF] {
            let header = legacy([0xFF, 0xFF, flags6, flags7, 0xFF, 0xFF, 0xFF, 0, 0, 0, 0, 0]);
            assert!(HeaderData::is_representable(&header));
            let decoded = HeaderData::parse(&header).unwrap();
            assert!(!decoded.nes2);
            assert_eq!(decoded.prg_rom_size, 255 * 16384);
            assert_eq!(decoded.chr_rom_size, 255 * 8192);
            assert_eq!(decoded.mapper, ((flags6 >> 4) | (flags7 & 0xF0)) as u32);
        }
    }
}

#[test]
fn legacy_mirroring_takes_bit_3_and_bit_0() {
    assert_eq!(HeaderData::nametable_layout(&0x00), Mirroring::Vertical);
    assert_eq!(HeaderData::nametable_layout(&0x01), Mirroring::Horizontal);
    assert_eq!(HeaderData::nametable_layout(&0x08), Mirroring::SingleScreen);
    assert_eq!(HeaderData::nametable_layout(&0x09), Mirroring::FourScreen);
    assert_eq!(HeaderData::nametable_layout(&0xF6), Mirroring::Vertical);
    assert_eq!(HeaderData::nametable_layout(&0xFF), Mirroring::FourScreen);
}

#[test]
fn legacy_trainer_flag_is_bit_3_of_flags_6() {
    let with = HeaderData::parse(&legacy([1, 0, 0x08, 0, 0, 0, 0, 0, 0, 0, 0, 0])).unwrap();
    let without = HeaderData::parse(&legacy([1, 0, 0xF7, 0, 0, 0, 0, 0, 0, 0, 0, 0])).unwrap();
    assert!(with.trainer_present);
    assert!(!without.trainer_present);
}

#[test]
fn legacy_prg_ram_counts_zero_banks_as_one() {
    let none = HeaderData::parse(&legacy([1, 0, 0, 0, 0, 0, 0, 0, 0, 0, 0, 0])).unwrap();
    let one = HeaderData::parse(&legacy([1, 0, 0, 0, 1, 0, 0, 0, 0, 0, 0, 0])).unwrap();
    let three = HeaderData::parse(&legacy([1, 0, 0, 0, 3, 0, 0, 0, 0, 0, 0, 0])).unwrap();
    assert_eq!(none.prg_ram_size, 8192);
    assert_eq!(one.prg_ram_size, 8192);
    assert_eq!(three.prg_ram_size, 24576);
}

#[test]
fn legacy_tv_system() {
    let tv = |flags9: u8, flags10: u8| {
        HeaderData::parse(&legacy([1, 0, 0, 0, 0, flags9, flags10, 0, 0, 0, 0, 0]))
            .unwrap()
            .tv_system
    };
    assert_eq!(tv(0, 0), TvSystem::Ntsc);
    assert_eq!(tv(1, 0), TvSystem::Pal);
    assert_eq!(tv(0, 2), TvSystem::Ntsc);
    assert_eq!(tv(1, 2), TvSystem::Pal);
    assert_eq!(tv(0, 1), TvSystem::DualCompatible);
    assert_eq!(tv(1, 1), TvSystem::DualCompatible);
    assert_eq!(tv(0, 3), TvSystem::DualCompatible);
    assert_eq!(tv(1, 3), TvSystem::DualCompatible);
}

#[test]
fn legacy_flags_10_bits() {
    let decoded = HeaderData::parse(&legacy([1, 0, 0, 0, 0, 0, 0x10, 0, 0, 0, 0, 0])).unwrap();
    assert!(decoded.prg_ram_present);
    assert!(!decoded.has_bus_conflicts);
    let decoded = HeaderData::parse(&legacy([1, 0, 0, 0, 0, 0, 0x20, 0, 0, 0, 0, 0])).unwrap();
    assert!(!decoded.prg_ram_present);
    assert!(decoded.has_bus_conflicts);
}

#[test]
fn extended_size_fields_take_their_nibble_of_byte_9() {
    let header = legacy([0x02, 0x03, 0, 0x08, 0, 0x21, 0, 0, 0, 0, 0, 0]);
    let decoded = HeaderData::parse(&header).unwrap();
    assert!(decoded.nes2);
    assert_eq!(decoded.prg_rom_size, 0x102 * 16384);
    assert_eq!(decoded.chr_rom_size, 0x203 * 8192);
}

#[test]
fn exponent_multiplier_size_is_not_a_bank_count() {
    assert_eq!(HeaderData::ines2_rom_size(0xF05, 16384), 48);
    assert_ne!(HeaderData::ines2_rom_size(0xF05, 16384), 0xF05 * 16384);
    assert_eq!(HeaderData::ines2_rom_size(0xF00, 16384), 1);
    assert_eq!(HeaderData::ines2_rom_size(0xF03, 16384), 7);
    assert_eq!(HeaderData::ines2_rom_size(0xF10, 8192), 65536);
    assert_eq!(HeaderData::ines2_rom_size(0xF3F, 8192), (1u64 << 60) * 7);
    assert_eq!(HeaderData::ines2_rom_size(0xEFF, 16384), 0xEFF * 16384);
    assert_eq!(HeaderData::ines2_rom_size(0x001, 8192), 8192);

    let header = legacy([0x05, 0x10, 0, 0x08, 0, 0xFF, 0, 0, 0, 0, 0, 0]);
    let decoded = HeaderData::parse(&header).unwrap();
    assert_eq!(decoded.prg_rom_size, 48);
    assert_eq!(decoded.chr_rom_size, 65536);
}

#[test]
fn extended_sizes_beyond_64_bits_are_told_apart() {
    let fits = legacy([0x3F, 0x00, 0, 0x08, 0, 0x0F, 0, 0, 0, 0, 0, 0]);
    let too_large = legacy([0x40, 0x00, 0, 0x08, 0, 0x0F, 0, 0, 0, 0, 0, 0]);
    let too_large_chr = legacy([0x01, 0xFC, 0, 0x08, 0, 0xF0, 0, 0, 0, 0, 0, 0]);
    assert!(HeaderData::is_representable(&fits));
    assert!(!HeaderData::is_representable(&too_large));
    assert!(!HeaderData::is_representable(&too_large_chr));
    let mut legacy_header = too_large;
    legacy_header[7] = 0;
    assert!(HeaderData::is_representable(&legacy_header));
    let mut no_magic = too_large;
    no_magic[0] = 0;
    assert!(HeaderData::is_representable(&no_magic));
}

#[test]
fn extended_ram_sizes() {
    assert_eq!(HeaderData::ines2_ram_size(0), 0);
    assert_eq!(HeaderData::ines2_ram_size(1), 128);
    assert_eq!(HeaderData::ines2_ram_size(7), 8192);
    assert_eq!(HeaderData::ines2_ram_size(15), 2097152);

    let header = legacy([1, 1, 0, 0x08, 0, 0, 0x71, 0xF2, 0, 0, 0, 0]);
    let decoded = HeaderData::parse(&header).unwrap();
    assert_eq!(decoded.prg_ram_size, 128);
    assert_eq!(decoded.prg_nvram_size, 8192);
    assert_eq!(decoded.chr_ram_size, 256);
    assert_eq!(decoded.chr_nvram_size, 2097152);
    assert!(decoded.prg_ram_present);
    assert!(!decoded.has_bus_conflicts);
}

#[test]
fn extended_mapper_has_three_nibbles() {
    let header = legacy([1, 1, 0x10, 0x28, 0x3A, 0, 0, 0, 0, 0, 0, 0]);
    let decoded = HeaderData::parse(&header).unwrap();
    assert_eq!(decoded.mapper, 0xA21);
    assert_eq!(decoded.submapper, 3);
}

#[test]
fn extended_tv_system() {
    let tv = |flags12: u8| {
        HeaderData::parse(&legacy([1, 1, 0, 0x08, 0, 0, 0, 0, flags12, 0, 0, 0]))
            .unwrap()
            .tv_system
    };
    assert_eq!(tv(0), TvSystem::Ntsc);
    assert_eq!(tv(1), TvSystem::Pal);
    assert_eq!(tv(2), TvSystem::DualCompatible);
    assert_eq!(tv(3), TvSystem::Dendy);
    assert_eq!(tv(0xFD), TvSystem::Pal);
}

#[test]
fn extended_header_never_reports_bus_conflicts() {
    let header = legacy([1, 1, 0, 0x08, 0, 0, 0x20, 0, 0, 0, 0, 0]);
    assert!(!HeaderData::parse(&header).unwrap().has_bus_conflicts);
}

#[test]
fn the_dialects_decode_by_themselves() {
    let header = legacy([2, 1, 0x01, 0x00, 0, 0, 0, 0, 0, 0, 0, 0]);
    assert_eq!(HeaderData::parse_ines1_header(&header), HeaderData::parse(&header));
    let header = legacy([2, 1, 0x01, 0x08, 0, 0, 0, 0, 0, 0, 0, 0]);
    assert_eq!(HeaderData::parse_ines2_header(&header), HeaderData::parse(&header));
}

#[test]
fn decoding_a_header_twice_gives_equal_records() {
    let header = legacy([0x12, 0x34, 0x56, 0x78, 0x9A, 0x0C, 0xDE, 0xF0, 0x12, 0, 0, 0]);
    assert_eq!(HeaderData::parse(&header), HeaderData::parse(&header));
}
