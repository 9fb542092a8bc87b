//! Decoding of NES cartridge images.
//!
//! A cartridge image starts with a 16-byte header in one of two dialects,
//! followed by an optional trainer, the program (PRG) region and the tile
//! graphics (CHR) region. This crate decodes the header into a record, the
//! graphics into pattern tables of tiles, and traces the interrupt routines
//! of the program into an instruction listing.
//!
//! * [`header`] decodes the header, [`chr`] the graphics, [`prg`] the
//!   program, and [`reader`] a whole image, stage by stage.
//! * [`execution`] is the processor context on its memory bus that the
//!   trace steps through, [`instructions`] and [`opcodes`] say what each
//!   opcode byte stands for, and [`hex`] writes numbers as assemblers do.
//!
//! Every function is a pure transformation of the bytes it is given. Each
//! contract states the result over the byte sequence alone, and the proof
//! functions beside them state what holds of every input.

pub mod chr;
pub mod execution;
pub mod header;
pub mod hex;
pub mod instructions;
pub mod opcodes;
pub mod prg;
pub mod reader;
