use nes_rom::chr::InvalidChrDataError;
use nes_rom::header::{InvalidHeaderError, Mirroring, TvSystem};
use nes_rom::instructions::Mnemonic;
use nes_rom::prg::{InvalidPrgDataError, PrgFault};
use nes_rom::reader::{RomReader, RomReaderError};

/// An image in the legacy dialect with one bank of each kind: the NMI
/// routine is a lone return from interrupt at the start of the program, and
/// the first tile is the one of the interleaving example.
fn image(trainer: bool) -> Vec<u8> {
    let mut data = vec![0x4E, 0x45, 0x53, 0x1A, 0x01, 0x01, 0x00, 0x00];
    data.resize(16, 0);
    if trainer {
        data[6] |= 0x08;
        data.extend(vec![0xEAu8; 512]);
    }
    let mut prg = vec![0u8; 0x4000];
    prg[0] = 0x40;
    prg[0x3FFA] = 0x00;
    prg[0x3FFB] = 0x80;
    data.extend(prg);
    let mut chr = vec![0u8; 0x2000];
    chr[..16].copy_from_slice(&[
        0x41, 0xC2, 0x44, 0x48, 0x10, 0x20, 0x40, 0x80, 0x01, 0x02, 0x04, 0x08, 0x16, 0x21, 0x42,
        0x87,
    ]);
    data.extend(chr);
    data
}

#[test]
fn a_whole_image_is_read() {
    let data = image(false);
    assert!(RomReader::can_read(&data));
    let result = RomReader::read(data).unwrap();
    assert_eq!(result.header.prg_rom_size, 16384);
    assert_eq!(result.header.chr_rom_size, 8192);
    assert_eq!(result.header.mirroring, Mirroring::Vertical);
    assert_eq!(result.header.tv_system, TvSystem::Ntsc);
    assert!(!result.header.nes2);
    assert_eq!(result.chr_data.pattern_tables.len(), 2);
    assert_eq!(
        result.chr_data.pattern_tables[0].tiles[0],
        [0x1003, 0x500C, 0x1030, 0x10C0, 0x0328, 0x0C02, 0x3008, 0xC02A]
    );
    assert_eq!(result.prg_data.instructions.len(), 1);
    assert_eq!(result.prg_data.instructions[&0x2000].mnemonic, Mnemonic::Rti);
    assert_eq!(result.prg_data.labels[&0x2000], "nmi");
}

#[test]
fn a_trainer_moves_the_regions_by_512_bytes() {
    let data = image(true);
    assert!(RomReader::can_read(&data));
    let result = RomReader::read(data).unwrap();
    assert!(result.header.trainer_present);
    assert_eq!(result.header.mirroring, Mirroring::SingleScreen);
    assert_eq!(result.prg_data.instructions.len(), 1);
    assert_eq!(result.prg_data.instructions[&0x2000].mnemonic, Mnemonic::Rti);
    assert_eq!(
        result.chr_data.pattern_tables[0].tiles[0],
        [0x1003, 0x500C, 0x1030, 0x10C0, 0x0328, 0x0C02, 0x3008, 0xC02A]
    );
    assert_eq!(result, RomReader::read(image(true)).unwrap());
}

#[test]
fn bytes_behind_the_image_are_ignored() {
    let mut data = image(false);
    data.extend([0xFFu8; 100]);
    assert!(RomReader::can_read(&data));
    assert_eq!(RomReader::read(data).unwrap(), RomReader::read(image(false)).unwrap());
}

#[test]
fn an_image_without_graphics_is_read() {
    let mut data = image(false);
    data[5] = 0;
    data.truncate(16 + 0x4000);
    assert!(RomReader::can_read(&data));
    let result = RomReader::read(data).unwrap();
    assert_eq!(result.header.chr_rom_size, 0);
    assert!(result.chr_data.pattern_tables.is_empty());
}

#[test]
fn a_corrupted_magic_constant_fails_at_the_header() {
    let mut data = image(false);
    data[3] = 0x23;
    assert!(RomReader::can_read(&data));
    assert_eq!(RomReader::read(data), Err(RomReaderError::Header(InvalidHeaderError)));

    // Nothing behind the header is looked at.
    let header_only = vec![
        0x4E, 0x45, 0x53, 0x23, 0x10, 0x00, 0x11, 0x00, 0x00, 0x00, 0x00, 0x00, 0x00, 0x00, 0x00,
        0x00,
    ];
    assert!(RomReader::can_read(&header_only));
    assert_eq!(RomReader::read(header_only), Err(RomReaderError::Header(InvalidHeaderError)));
}

#[test]
fn a_short_image_cannot_be_read() {
    assert!(!RomReader::can_read(&Vec::new()));
    assert!(!RomReader::can_read(&vec![0x4E, 0x45, 0x53, 0x1A]));
    assert!(!RomReader::can_read(&image(false)[..15].to_vec()));
    let data = image(false);
    assert!(!RomReader::can_read(&data[..16].to_vec()));
    assert!(!RomReader::can_read(&data[..data.len() - 1].to_vec()));
    let with_trainer = image(true);
    assert!(!RomReader::can_read(&with_trainer[..with_trainer.len() - 1].to_vec()));
    let mut flagged = image(false);
    flagged[6] |= 0x08;
    assert!(!RomReader::can_read(&flagged));
}

#[test]
fn an_image_without_program_cannot_be_read() {
    let mut data = image(false);
    data[4] = 0;
    assert!(!RomReader::can_read(&data));
}

#[test]
fn an_image_with_sizes_beyond_64_bits_cannot_be_read() {
    let mut data = image(false);
    data[7] = 0x08;
    data[9] = 0x0F;
    data[4] = 0x40;
    assert!(!RomReader::can_read(&data));
}

#[test]
fn a_program_region_of_no_whole_bank_fails_at_the_program() {
    // Extended dialect, program size 2^4 * 3 = 48 bytes, no graphics.
    let mut data = vec![0x4E, 0x45, 0x53, 0x1A, 0x05, 0x00, 0x00, 0x08, 0x00, 0x0F];
    data.resize(16 + 48, 0);
    assert!(RomReader::can_read(&data));
    assert_eq!(
        RomReader::read(data),
        Err(RomReaderError::PrgData(InvalidPrgDataError { fault: PrgFault::Misaligned }))
    );
}

#[test]
fn a_routine_without_return_fails_at_the_program() {
    let mut data = image(false);
    data[16] = 0x00;
    assert!(RomReader::can_read(&data));
    assert_eq!(
        RomReader::read(data),
        Err(RomReaderError::PrgData(InvalidPrgDataError { fault: PrgFault::TraceIncomplete }))
    );
}

#[test]
fn a_graphics_region_of_no_whole_bank_fails_at_the_graphics() {
    // Extended dialect, one bank of program, graphics size 2^4 * 3 = 48 bytes.
    let mut data = image(false);
    data[7] = 0x08;
    data[5] = 0x05;
    data[9] = 0xF0;
    data.truncate(16 + 0x4000 + 48);
    assert!(RomReader::can_read(&data));
    assert_eq!(RomReader::read(data), Err(RomReaderError::ChrData(InvalidChrDataError)));
}

#[test]
fn the_program_fails_before_the_graphics() {
    let mut data = vec![0x4E, 0x45, 0x53, 0x1A, 0x05, 0x05, 0x00, 0x08, 0x00, 0xFF];
    data.resize(16 + 48 + 48, 0);
    assert!(RomReader::can_read(&data));
    assert_eq!(
        RomReader::read(data),
        Err(RomReaderError::PrgData(InvalidPrgDataError { fault: PrgFault::Misaligned }))
    );
}

#[test]
fn regions_are_read_under_a_given_header() {
    let data = image(true);
    let header = RomReader::read(data.clone()).unwrap().header;
    assert_eq!(RomReader::read_regions(&data, header), RomReader::read(data));
}

#[test]
fn reading_twice_gives_equal_results() {
    assert_eq!(RomReader::read(image(false)), RomReader::read(image(false)));
    let mut corrupted = image(false);
    corrupted[0] = 0;
    assert_eq!(RomReader::read(corrupted.clone()), RomReader::read(corrupted));
}

#[test]
fn stage_errors_are_wrapped() {
    assert_eq!(RomReaderError::from(InvalidHeaderError), RomReaderError::Header(InvalidHeaderError));
    assert_eq!(
        RomReaderError::from(InvalidChrDataError),
        RomReaderError::ChrData(InvalidChrDataError)
    );
    let fault = InvalidPrgDataError { fault: PrgFault::TraceIncomplete };
    assert_eq!(RomReaderError::from(fault), RomReaderError::PrgData(fault));
}

#[test]
fn errors_in_words() {
    assert_eq!(InvalidHeaderError.to_string(), "Invalid header constant");
    assert_eq!(InvalidChrDataError.to_string(), "Invalid CHR ROM data");
    assert_eq!(RomReaderError::Header(InvalidHeaderError).to_string(), "Invalid header constant");
    assert_eq!(RomReaderError::ChrData(InvalidChrDataError).to_string(), "Invalid CHR ROM data");
    assert_eq!(
        RomReaderError::PrgData(InvalidPrgDataError { fault: PrgFault::Misaligned }).to_string(),
        "Invalid PRG ROM data"
    );
    assert_eq!(Mirroring::Vertical.to_string(), "Vertical");
    assert_eq!(Mirroring::Horizontal.to_string(), "Horizontal");
    assert_eq!(Mirroring::FourScreen.to_string(), "Four Screen");
    assert_eq!(Mirroring::SingleScreen.to_string(), "Single Screen");
    assert_eq!(TvSystem::Ntsc.to_string(), "NTSC");
    assert_eq!(TvSystem::Pal.to_string(), "PAL");
    assert_eq!(TvSystem::DualCompatible.to_string(), "Dual Compatible");
    assert_eq!(TvSystem::Dendy.to_string(), "Dendy");
}
