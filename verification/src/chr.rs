//! Tile graphics: the CHR region decoded into pattern tables, and a pattern
//! table rendered to RGBA pixels.

use vstd::arithmetic::power2::{lemma2_to64, pow2};
use vstd::prelude::*;

verus! {

/// Bytes in one bank of graphics data.
pub const CHR_BANK_SIZE: usize = 0x2000;

/// Pattern tables in one bank.
pub const PATTERN_TABLES_PER_BANK: usize = 2;

/// Bytes in one pattern table.
pub const PATTERN_TABLE_SIZE_IN_BYTES: usize = 0x1000;

/// Tiles in one pattern table.
pub const TILES_PER_PATTERN_TABLE: usize = 256;

/// Bytes that encode one tile: eight rows of the low bit-plane, then eight
/// rows of the high one.
pub const TILE_SIZE_IN_BYTES: usize = 16;

/// Rows in one tile.
pub const TILE_PATTERN_ROWS: usize = 8;

/// Tiles side by side in a rendered pattern table.
pub const TILES_PER_ROW: usize = 16;

/// Width of a tile in pixels.
pub const TILE_WIDTH_IN_PIXELS: usize = 8;

/// Rows of tiles in a rendered pattern table.
pub const TILE_ROWS: usize = 16;

/// Height of a tile in pixels.
pub const TILE_HEIGHT_IN_PIXELS: usize = 8;

/// Bits that encode one pixel.
pub const BITS_PER_PIXEL: usize = 2;

/// Width of a rendered pattern table in pixels.
pub const TILE_PATTERN_WIDTH_IN_PIXELS: usize = 128;

/// Height of a rendered pattern table in pixels.
pub const TILE_PATTERN_HEIGHT_IN_PIXELS: usize = 128;

/// Bytes of one rendered pixel: red, green, blue, alpha.
pub const RGBA_COLOR_DEPTH_IN_BYTES: usize = 4;

/// The length of the graphics data is not a multiple of the bank size.
#[derive(Debug, Clone, Copy, PartialEq, Eq, Structural)]
pub struct InvalidChrDataError;

impl InvalidChrDataError {
    /// What went wrong, in words.
    pub open spec fn spec_message(self) -> Seq<char> {
        "Invalid CHR ROM data"@
    }

    /// What went wrong, in words.
    pub fn to_string(&self) -> (text: String)
        ensures
            text@ == self.spec_message(),
    {
        "Invalid CHR ROM data".to_owned()
    }
}

/// Eight rows of eight pixels. Each row holds its pixels' two-bit colour
/// indices side by side, the leftmost pixel in the two highest bits.
pub type Tile = [u16; TILE_PATTERN_ROWS];

/// The 256 tiles of one pattern table, in the order of their bytes.
#[derive(PartialEq, Clone, Debug, Copy)]
pub struct PatternTable {
    pub tiles: [Tile; TILES_PER_PATTERN_TABLE],
}

/// The pattern tables of a cartridge, two for each bank, in the order of
/// their bytes.
#[derive(PartialEq, Debug, Clone)]
pub struct ChrData {
    pub pattern_tables: Vec<PatternTable>,
}

/// Bit `i` of a bit-plane byte, as 0 or 1.
pub open spec fn plane_bit(b: u8, i: nat) -> nat {
    (b as nat / pow2(i)) % 2
}

/// The bits of `b` spread out so that bit `i` stands at position `2 * i`.
pub open spec fn spread_bits(b: u8) -> nat {
    (b as nat % 2) + 4 * ((b as nat / 2) % 2) + 16 * ((b as nat / 4) % 2) + 64 * ((b as nat / 8)
        % 2) + 256 * ((b as nat / 16) % 2) + 1024 * ((b as nat / 32) % 2) + 4096 * ((b as nat / 64)
        % 2) + 16384 * ((b as nat / 128) % 2)
}

/// One row of a tile: bit `i` of the low plane at position `2 * i`, bit `i`
/// of the high plane just above it.
pub open spec fn spec_interleave(lsb: u8, msb: u8) -> u16 {
    (spread_bits(lsb) + 2 * spread_bits(msb)) as u16
}

/// The colour index of the pixel in `column` of a row, column 0 being the
/// leftmost.
pub open spec fn pixel_index(row: u16, column: nat) -> nat
    recommends
        column < 8,
{
    (row as nat / pow2((2 * (7 - column)) as nat)) % 4
}

/// The tile whose 16 bytes start at `offset`.
pub open spec fn spec_tile(chr: Seq<u8>, offset: int) -> Seq<u16> {
    Seq::new(8, |row: int| spec_interleave(chr[offset + row], chr[offset + row + 8]))
}

/// The pattern table with the number `table`, counted over all banks.
pub open spec fn spec_pattern_table(chr: Seq<u8>, table: int) -> Seq<Seq<u16>> {
    Seq::new(256, |tile: int| spec_tile(chr, 4096 * table + 16 * tile))
}

/// The pattern tables of graphics data whose length is a multiple of the
/// bank size.
pub open spec fn spec_pattern_tables(chr: Seq<u8>) -> Seq<Seq<Seq<u16>>> {
    Seq::new((2 * (chr.len() / 8192)) as nat, |table: int| spec_pattern_table(chr, table))
}

/// What graphics data decodes to.
pub open spec fn spec_parse(chr: Seq<u8>) -> Result<Seq<Seq<Seq<u16>>>, InvalidChrDataError> {
    if chr.len() % 8192 != 0 {
        Err(InvalidChrDataError)
    } else {
        Ok(spec_pattern_tables(chr))
    }
}

/// One byte of a packed RGBA colour: channel 0 is red, the highest byte,
/// and channel 3 is alpha, the lowest.
pub open spec fn color_channel(color: u32, channel: nat) -> u8 {
    if channel == 0 {
        (color as nat / 0x100_0000) as u8
    } else if channel == 1 {
        ((color as nat / 0x1_0000) % 256) as u8
    } else if channel == 2 {
        ((color as nat / 0x100) % 256) as u8
    } else {
        (color as nat % 256) as u8
    }
}

/// Byte `k` of the rendering of a pattern table. The rendering is 128
/// pixels wide, row by row, four bytes to a pixel; the pixel at `(x, y)`
/// belongs to the tile in column `x / 8` and row `y / 8` of the 16 by 16
/// grid and shows the palette entry that its colour index selects.
pub open spec fn spec_rgba_byte(tiles: Seq<Seq<u16>>, palette: Seq<u32>, k: int) -> u8 {
    let pixel = k / 4;
    let x = pixel % 128;
    let y = pixel / 128;
    let row = tiles[(y / 8) * 16 + x / 8][y % 8];
    color_channel(palette[pixel_index(row, (x % 8) as nat) as int], (k % 4) as nat)
}

/// The rendering of a pattern table with a palette of four colours: 128
/// by 128 pixels of four bytes each.
pub open spec fn spec_rgba_pixels(tiles: Seq<Seq<u16>>, palette: Seq<u32>) -> Seq<u8> {
    Seq::new(65536, |k: int| spec_rgba_byte(tiles, palette, k))
}

impl View for PatternTable {
    type V = Seq<Seq<u16>>;

    /// The tiles, each as the sequence of its rows.
    open spec fn view(&self) -> Seq<Seq<u16>> {
        Seq::new(256, |tile: int| self.tiles[tile]@)
    }
}

impl View for ChrData {
    type V = Seq<Seq<Seq<u16>>>;

    /// The pattern tables, each as the sequence of its tiles.
    open spec fn view(&self) -> Seq<Seq<Seq<u16>>> {
        Seq::new(self.pattern_tables@.len(), |table: int| self.pattern_tables@[table]@)
    }
}

/// The view of a decoding result.
pub open spec fn result_view(result: Result<ChrData, InvalidChrDataError>) -> Result<
    Seq<Seq<Seq<u16>>>,
    InvalidChrDataError,
> {
    match result {
        Ok(data) => Ok(data@),
        Err(e) => Err(e),
    }
}

/// Graphics data of whole banks decodes to two pattern tables for each
/// bank, each of 256 tiles of eight rows; other data does not decode.
pub proof fn lemma_parse_shape(chr: Seq<u8>)
    ensures
        chr.len() % 8192 != 0 ==> spec_parse(chr) == Err::<
            Seq<Seq<Seq<u16>>>,
            InvalidChrDataError,
        >(InvalidChrDataError),
        chr.len() % 8192 == 0 ==> {
            &&& spec_parse(chr) is Ok
            &&& spec_parse(chr).unwrap().len() == 2 * (chr.len() / 8192)
            &&& forall|table: int, tile: int|
                #![trigger spec_parse(chr).unwrap()[table][tile]]
                0 <= table < 2 * (chr.len() / 8192) && 0 <= tile < 256 ==> spec_parse(
                    chr,
                ).unwrap()[table].len() == 256 && spec_parse(chr).unwrap()[table][tile].len() == 8
        },
{
}

/// Each pixel of a row is found again by shifting and masking: the colour
/// index in `column` holds the bit of the low plane in its lower bit and
/// the bit of the high plane in its upper bit. Column 0, the leftmost,
/// comes from bit 7 of the two bytes.
pub proof fn lemma_interleave_pixels(lsb: u8, msb: u8, column: nat)
    requires
        column < 8,
    ensures
        pixel_index(spec_interleave(lsb, msb), column) == plane_bit(lsb, (7 - column) as nat) + 2
            * plane_bit(msb, (7 - column) as nat),
{
    lemma2_to64();
    lemma_row_pixels(lsb, msb, spec_interleave(lsb, msb));
    let row = spec_interleave(lsb, msb);
    if column == 0 {
        assert(pow2(14) == 16384 && pow2(7) == 128);
        assert(pixel_index(row, 0) == (row as nat / 16384) % 4);
        assert(plane_bit(lsb, 7) == (lsb as nat / 128) % 2);
        assert(plane_bit(msb, 7) == (msb as nat / 128) % 2);
    } else if column == 1 {
        assert(pow2(12) == 4096 && pow2(6) == 64);
        assert(pixel_index(row, 1) == (row as nat / 4096) % 4);
        assert(plane_bit(lsb, 6) == (lsb as nat / 64) % 2);
        assert(plane_bit(msb, 6) == (msb as nat / 64) % 2);
    } else if column == 2 {
        assert(pow2(10) == 1024 && pow2(5) == 32);
        assert(pixel_index(row, 2) == (row as nat / 1024) % 4);
        assert(plane_bit(lsb, 5) == (lsb as nat / 32) % 2);
        assert(plane_bit(msb, 5) == (msb as nat / 32) % 2);
    } else if column == 3 {
        assert(pow2(8) == 256 && pow2(4) == 16);
        assert(pixel_index(row, 3) == (row as nat / 256) % 4);
        assert(plane_bit(lsb, 4) == (lsb as nat / 16) % 2);
        assert(plane_bit(msb, 4) == (msb as nat / 16) % 2);
    } else if column == 4 {
        assert(pow2(6) == 64 && pow2(3) == 8);
        assert(pixel_index(row, 4) == (row as nat / 64) % 4);
        assert(plane_bit(lsb, 3) == (lsb as nat / 8) % 2);
        assert(plane_bit(msb, 3) == (msb as nat / 8) % 2);
    } else if column == 5 {
        assert(pow2(4) == 16 && pow2(2) == 4);
        assert(pixel_index(row, 5) == (row as nat / 16) % 4);
        assert(plane_bit(lsb, 2) == (lsb as nat / 4) % 2);
        assert(plane_bit(msb, 2) == (msb as nat / 4) % 2);
    } else if column == 6 {
        assert(pow2(2) == 4 && pow2(1) == 2);
        assert(pixel_index(row, 6) == (row as nat / 4) % 4);
        assert(plane_bit(lsb, 1) == (lsb as nat / 2) % 2);
        assert(plane_bit(msb, 1) == (msb as nat / 2) % 2);
    } else {
        assert(pow2(0) == 1 && pow2(0) == 1);
        assert(pixel_index(row, 7) == (row as nat / 1) % 4);
        assert(plane_bit(lsb, 0) == (lsb as nat / 1) % 2);
        assert(plane_bit(msb, 0) == (msb as nat / 1) % 2);
    }
}

/// The eight colour indices of a row, each by division and remainder.
proof fn lemma_row_pixels(lsb: u8, msb: u8, row: u16)
    requires
        row == spec_interleave(lsb, msb),
    ensures
        (row / 16384) % 4 == (lsb / 128) % 2 + 2 * ((msb / 128) % 2),
        (row / 4096) % 4 == (lsb / 64) % 2 + 2 * ((msb / 64) % 2),
        (row / 1024) % 4 == (lsb / 32) % 2 + 2 * ((msb / 32) % 2),
        (row / 256) % 4 == (lsb / 16) % 2 + 2 * ((msb / 16) % 2),
        (row / 64) % 4 == (lsb / 8) % 2 + 2 * ((msb / 8) % 2),
        (row / 16) % 4 == (lsb / 4) % 2 + 2 * ((msb / 4) % 2),
        (row / 4) % 4 == (lsb / 2) % 2 + 2 * ((msb / 2) % 2),
        row % 4 == lsb % 2 + 2 * (msb % 2),
{
    assert(row == spec_interleave(lsb, msb) ==> {
        &&& (row / 16384) % 4 == (lsb / 128) % 2 + 2 * ((msb / 128) % 2)
        &&& (row / 4096) % 4 == (lsb / 64) % 2 + 2 * ((msb / 64) % 2)
        &&& (row / 1024) % 4 == (lsb / 32) % 2 + 2 * ((msb / 32) % 2)
        &&& (row / 256) % 4 == (lsb / 16) % 2 + 2 * ((msb / 16) % 2)
        &&& (row / 64) % 4 == (lsb / 8) % 2 + 2 * ((msb / 8) % 2)
        &&& (row / 16) % 4 == (lsb / 4) % 2 + 2 * ((msb / 4) % 2)
        &&& (row / 4) % 4 == (lsb / 2) % 2 + 2 * ((msb / 2) % 2)
        &&& row % 4 == lsb % 2 + 2 * (msb % 2)
    }) by (bit_vector);
}

/// Where a tile lands in the rendering: pixel (`column`, `row`) of the tile
/// with the number `index` is the pixel at `(index % 16) * 8 + column`,
/// `(index / 16) * 8 + row`, and shows the palette entry of its colour
/// index, red first.
pub proof fn lemma_tile_placement(
    tiles: Seq<Seq<u16>>,
    palette: Seq<u32>,
    index: int,
    row: int,
    column: int,
    channel: int,
)
    requires
        0 <= index < 256,
        0 <= row < 8,
        0 <= column < 8,
        0 <= channel < 4,
    ensures
        ({
            let x = (index % 16) * 8 + column;
            let y = (index / 16) * 8 + row;
            let k = (y * 128 + x) * 4 + channel;
            &&& 0 <= k < spec_rgba_pixels(tiles, palette).len()
            &&& spec_rgba_pixels(tiles, palette)[k] == color_channel(
                palette[pixel_index(tiles[index][row], column as nat) as int],
                channel as nat,
            )
        }),
{
    let x = (index % 16) * 8 + column;
    let y = (index / 16) * 8 + row;
    let k = (y * 128 + x) * 4 + channel;
    assert(k / 4 == y * 128 + x);
    assert(k % 4 == channel);
    assert((y * 128 + x) % 128 == x);
    assert((y * 128 + x) / 128 == y);
    assert((y / 8) * 16 + x / 8 == index);
}

/// Two decodings of the same graphics data are equal.
pub proof fn lemma_parse_is_deterministic(
    chr: Seq<u8>,
    first: Result<ChrData, InvalidChrDataError>,
    second: Result<ChrData, InvalidChrDataError>,
)
    requires
        result_view(first) == spec_parse(chr),
        result_view(second) == spec_parse(chr),
    ensures
        result_view(first) == result_view(second),
{
}

impl PatternTable {
    /// Renders the pattern table with a palette of four packed RGBA
    /// colours.
    pub fn to_rgba_pixels(self, palette: [u32; 4]) -> (buffer: Vec<u8>)
        ensures
            buffer@ == spec_rgba_pixels(self@, palette@),
    {
        let mut buffer: Vec<u8> = Vec::new();
        let mut position_y: usize = 0;
        while position_y < TILE_PATTERN_HEIGHT_IN_PIXELS
            invariant
                position_y <= 128,
                buffer@.len() == 512 * position_y,
                forall|k: int|
                    0 <= k < buffer@.len() ==> #[trigger] buffer@[k] == spec_rgba_byte(
                        self@,
                        palette@,
                        k,
                    ),
            decreases 128 - position_y,
        {
            let mut position_x: usize = 0;
            while position_x < TILE_PATTERN_WIDTH_IN_PIXELS
                invariant
                    position_y < 128,
                    position_x <= 128,
                    buffer@.len() == 512 * position_y + 4 * position_x,
                    forall|k: int|
                        0 <= k < buffer@.len() ==> #[trigger] buffer@[k] == spec_rgba_byte(
                            self@,
                            palette@,
                            k,
                        ),
                decreases 128 - position_x,
            {
                let index: usize = (position_y / TILE_HEIGHT_IN_PIXELS) * TILES_PER_ROW
                    + position_x / TILE_WIDTH_IN_PIXELS;
                let tile_row: u16 = self.tiles[index][position_y % TILE_HEIGHT_IN_PIXELS];
                let column: usize = position_x % TILE_WIDTH_IN_PIXELS;
                let shift: u16 = (((TILE_WIDTH_IN_PIXELS - 1) - column) * BITS_PER_PIXEL) as u16;
                let pixel: u16 = (tile_row >> shift) & 3;
                proof {
                    let shifted: u16 = tile_row >> shift;
                    assert(shifted & 3 == shifted % 4) by (bit_vector);
                }
                let color: u32 = palette[pixel as usize];
                proof {
                    vstd::bits::lemma_u16_shr_is_div(tile_row, shift);
                    assert({
                        &&& ((color >> 24) & 0xFF) == color / 0x100_0000
                        &&& ((color >> 16) & 0xFF) == (color / 0x1_0000) % 256
                        &&& ((color >> 8) & 0xFF) == (color / 0x100) % 256
                        &&& (color & 0xFF) == color % 256
                    }) by (bit_vector);
                    assert(pixel as nat == pixel_index(tile_row, column as nat));
                }
                let ghost base: int = buffer@.len() as int;
                let ghost before: Seq<u8> = buffer@;
                buffer.push(((color >> 24) & 0xFF) as u8);
                buffer.push(((color >> 16) & 0xFF) as u8);
                buffer.push(((color >> 8) & 0xFF) as u8);
                buffer.push((color & 0xFF) as u8);
                proof {
                    assert(base == 4 * (128 * position_y + position_x));
                    assert(self@[index as int] == self.tiles[index as int]@);
                    assert forall|k: int| 0 <= k < buffer@.len() implies #[trigger] buffer@[k]
                        == spec_rgba_byte(self@, palette@, k) by {
                        if k < base {
                            assert(buffer@[k] == before[k]);
                        } else {
                            let channel = k - base;
                            assert(k / 4 == 128 * position_y + position_x);
                            assert(k % 4 == channel);
                            assert((k / 4) % 128 == position_x as int);
                            assert((k / 4) / 128 == position_y as int);
                        }
                    }
                }
                position_x += 1;
            }
            position_y += 1;
        }
        assert(buffer@ =~= spec_rgba_pixels(self@, palette@));
        buffer
    }
}

impl ChrData {
    /// Decodes graphics data. It fails where the length is not a multiple of
    /// the bank size, and nowhere else.
    pub fn parse(chr_data: Vec<u8>) -> (result: Result<ChrData, InvalidChrDataError>)
        ensures
            result_view(result) == spec_parse(chr_data@),
    {
        if chr_data.len() % CHR_BANK_SIZE != 0 {
            return Err(InvalidChrDataError);
        }
        let chr_rom_banks: usize = chr_data.len() / CHR_BANK_SIZE;
        let pattern_table_count: usize = chr_rom_banks * PATTERN_TABLES_PER_BANK;
        let mut tables: Vec<PatternTable> = Vec::new();
        let mut pattern_table_id: usize = 0;
        while pattern_table_id < pattern_table_count
            invariant
                pattern_table_id <= pattern_table_count,
                pattern_table_count == 2 * (chr_data@.len() / 8192),
                chr_data@.len() % 8192 == 0,
                tables@.len() == pattern_table_id,
                forall|t: int|
                    0 <= t < pattern_table_id ==> (#[trigger] tables@[t])@ == spec_pattern_table(
                        chr_data@,
                        t,
                    ),
            decreases pattern_table_count - pattern_table_id,
        {
            let tiles = ChrData::get_tiles_from_pattern_table(
                pattern_table_id,
                chr_data.as_slice(),
            );
            tables.push(PatternTable { tiles });
            pattern_table_id += 1;
        }
        let data = ChrData { pattern_tables: tables };
        assert(data@ =~= spec_pattern_tables(chr_data@));
        Ok(data)
    }

    /// One row of a tile from its byte in the low and in the high bit-plane.
    pub fn interleave_pattern_bytes(lsb: u8, msb: u8) -> (pattern: u16)
        ensures
            pattern == spec_interleave(lsb, msb),
    {
        let planes: u16 = (lsb as u16) | (msb as u16) << 8;
        let nibbles: u16 = (planes & 0xF00F) | ((planes & 0x0F00) >> 4) | ((planes & 0x00F0) << 4);
        let pairs: u16 = (nibbles & 0xC3C3) | ((nibbles & 0x3030) >> 2) | ((nibbles & 0x0C0C) << 2);
        let pattern: u16 = (pairs & 0x9999) | ((pairs & 0x4444) >> 1) | ((pairs & 0x2222) << 1);
        assert(pattern == spec_interleave(lsb, msb)) by (bit_vector)
            requires
                planes == (lsb as u16) | (msb as u16) << 8,
                nibbles == (planes & 0xF00F) | ((planes & 0x0F00) >> 4) | ((planes & 0x00F0) << 4),
                pairs == (nibbles & 0xC3C3) | ((nibbles & 0x3030) >> 2) | ((nibbles & 0x0C0C) << 2),
                pattern == (pairs & 0x9999) | ((pairs & 0x4444) >> 1) | ((pairs & 0x2222) << 1),
        ;
        pattern
    }

    /// The 256 tiles of the pattern table with the number `pattern_table_id`.
    pub fn get_tiles_from_pattern_table(pattern_table_id: usize, chr_data: &[u8]) -> (tiles: [Tile;
        TILES_PER_PATTERN_TABLE])
        requires
            4096 * (pattern_table_id + 1) <= chr_data@.len(),
        ensures
            (PatternTable { tiles })@ == spec_pattern_table(chr_data@, pattern_table_id as int),
    {
        let length: usize = chr_data.len();
        let mut tiles: [Tile; TILES_PER_PATTERN_TABLE] = [[0u16; TILE_PATTERN_ROWS];
            TILES_PER_PATTERN_TABLE];
        let mut tile_number: usize = 0;
        while tile_number < TILES_PER_PATTERN_TABLE
            invariant
                tile_number <= 256,
                length == chr_data@.len(),
                4096 * (pattern_table_id + 1) <= length,
                forall|t: int|
                    0 <= t < tile_number ==> (#[trigger] tiles[t])@ == spec_tile(
                        chr_data@,
                        4096 * pattern_table_id + 16 * t,
                    ),
            decreases 256 - tile_number,
        {
            let offset: usize = PATTERN_TABLE_SIZE_IN_BYTES * pattern_table_id + tile_number
                * TILE_SIZE_IN_BYTES;
            let mut tile_pattern: Tile = [0u16; TILE_PATTERN_ROWS];
            let mut row: usize = 0;
            while row < TILE_PATTERN_ROWS
                invariant
                    row <= 8,
                    length == chr_data@.len(),
                    offset + 16 <= length,
                    forall|r: int|
                        0 <= r < row ==> #[trigger] tile_pattern[r] == spec_interleave(
                            chr_data@[offset + r],
                            chr_data@[offset + r + 8],
                        ),
                decreases 8 - row,
            {
                let tile_lsb = chr_data[offset + row];
                let tile_msb = chr_data[offset + row + TILE_PATTERN_ROWS];
                tile_pattern[row] = ChrData::interleave_pattern_bytes(tile_lsb, tile_msb);
                row += 1;
            }
            assert(tile_pattern@ =~= spec_tile(chr_data@, offset as int));
            tiles[tile_number] = tile_pattern;
            tile_number += 1;
        }
        assert((PatternTable { tiles })@ =~= spec_pattern_table(
            chr_data@,
            pattern_table_id as int,
        ));
        tiles
    }
}

} // verus!
