//! The container: the header, then an optional trainer, the program region
//! and the graphics region, each decoded in turn.

use crate::chr::{ChrData, InvalidChrDataError};
use crate::header::{header_representable, HeaderData, InvalidHeaderError};
use crate::prg::{InvalidPrgDataError, PrgData, PrgDataView};
use vstd::prelude::*;
use vstd::slice::{slice_subrange, slice_to_vec};
use vstd::std_specs::convert::FromSpecImpl;

verus! {

/// Length of the header in bytes.
pub const HEADER_SIZE_BYTES: usize = 16;

/// Length of a trainer in bytes.
pub const TRAINER_SIZE_BYTES: usize = 512;

/// What a cartridge image decodes to.
#[derive(Debug, PartialEq)]
pub struct RomReaderResult {
    pub header: HeaderData,
    pub chr_data: ChrData,
    pub prg_data: PrgData,
}

/// A decoded cartridge image as a value.
pub struct RomReaderResultView {
    pub header: HeaderData,
    pub chr_data: Seq<Seq<Seq<u16>>>,
    pub prg_data: PrgDataView,
}

impl View for RomReaderResult {
    type V = RomReaderResultView;

    open spec fn view(&self) -> RomReaderResultView {
        RomReaderResultView {
            header: self.header,
            chr_data: self.chr_data@,
            prg_data: self.prg_data@,
        }
    }
}

/// The stage that failed, with its error.
#[derive(Debug, Clone, Copy, PartialEq, Eq, Structural)]
pub enum RomReaderError {
    Header(InvalidHeaderError),
    ChrData(InvalidChrDataError),
    PrgData(InvalidPrgDataError),
}

impl RomReaderError {
    /// What went wrong, in the words of the stage that failed.
    pub open spec fn spec_message(self) -> Seq<char> {
        match self {
            RomReaderError::Header(e) => e.spec_message(),
            RomReaderError::ChrData(e) => e.spec_message(),
            RomReaderError::PrgData(e) => e.spec_message(),
        }
    }

    /// What went wrong, in the words of the stage that failed.
    pub fn to_string(&self) -> (text: String)
        ensures
            text@ == self.spec_message(),
    {
        match self {
            RomReaderError::Header(e) => e.to_string(),
            RomReaderError::ChrData(e) => e.to_string(),
            RomReaderError::PrgData(e) => e.to_string(),
        }
    }
}

impl From<InvalidHeaderError> for RomReaderError {
    fn from(value: InvalidHeaderError) -> (error: Self) {
        RomReaderError::Header(value)
    }
}

impl FromSpecImpl<InvalidHeaderError> for RomReaderError {
    open spec fn obeys_from_spec() -> bool {
        true
    }

    open spec fn from_spec(value: InvalidHeaderError) -> Self {
        RomReaderError::Header(value)
    }
}

impl From<InvalidChrDataError> for RomReaderError {
    fn from(value: InvalidChrDataError) -> (error: Self) {
        RomReaderError::ChrData(value)
    }
}

impl FromSpecImpl<InvalidChrDataError> for RomReaderError {
    open spec fn obeys_from_spec() -> bool {
        true
    }

    open spec fn from_spec(value: InvalidChrDataError) -> Self {
        RomReaderError::ChrData(value)
    }
}

impl From<InvalidPrgDataError> for RomReaderError {
    fn from(value: InvalidPrgDataError) -> (error: Self) {
        RomReaderError::PrgData(value)
    }
}

impl FromSpecImpl<InvalidPrgDataError> for RomReaderError {
    open spec fn obeys_from_spec() -> bool {
        true
    }

    open spec fn from_spec(value: InvalidPrgDataError) -> Self {
        RomReaderError::PrgData(value)
    }
}

/// The header of an image: its first 16 bytes.
pub open spec fn header_bytes(data: Seq<u8>) -> Seq<u8> {
    data.subrange(0, 16)
}

/// Where the program region starts: behind the header, and behind the
/// trainer where there is one.
pub open spec fn prg_rom_start(header: HeaderData) -> int {
    if header.trainer_present {
        528
    } else {
        16
    }
}

/// Where the graphics region starts: behind the program region.
pub open spec fn chr_rom_start(header: HeaderData) -> int {
    prg_rom_start(header) + header.prg_rom_size
}

/// The length of an image with this header.
pub open spec fn image_len(header: HeaderData) -> int {
    chr_rom_start(header) + header.chr_rom_size
}

/// The program region of an image.
pub open spec fn prg_rom_bytes(data: Seq<u8>, header: HeaderData) -> Seq<u8> {
    data.subrange(prg_rom_start(header), chr_rom_start(header))
}

/// The graphics region of an image.
pub open spec fn chr_rom_bytes(data: Seq<u8>, header: HeaderData) -> Seq<u8> {
    data.subrange(chr_rom_start(header), image_len(header))
}

/// The image holds a whole header, and where that header decodes, the
/// sizes it announces can be held, its program region is not empty, and
/// the image is as long as the header says.
pub open spec fn readable(data: Seq<u8>) -> bool {
    &&& data.len() >= 16
    &&& header_representable(header_bytes(data))
    &&& match crate::header::spec_parse(header_bytes(data)) {
        Ok(header) => header.prg_rom_size > 0 && data.len() >= image_len(header),
        Err(_) => true,
    }
}

/// What the regions of an image decode to under a header: the program
/// region first, then the graphics region, and the error of the first of
/// them that fails.
pub open spec fn spec_read_regions(data: Seq<u8>, header: HeaderData) -> Result<
    RomReaderResultView,
    RomReaderError,
> {
    match crate::prg::spec_parse(prg_rom_bytes(data, header)) {
        Err(e) => Err(RomReaderError::PrgData(e)),
        Ok(prg_data) => match crate::chr::spec_parse(chr_rom_bytes(data, header)) {
            Err(e) => Err(RomReaderError::ChrData(e)),
            Ok(chr_data) => Ok(RomReaderResultView { header, chr_data, prg_data }),
        },
    }
}

/// What an image decodes to: the header first, then the regions that the
/// header lays out, and the error of the first stage that fails.
pub open spec fn spec_read(data: Seq<u8>) -> Result<RomReaderResultView, RomReaderError> {
    match crate::header::spec_parse(header_bytes(data)) {
        Err(e) => Err(RomReaderError::Header(e)),
        Ok(header) => spec_read_regions(data, header),
    }
}

/// The view of a reading result.
pub open spec fn result_view(result: Result<RomReaderResult, RomReaderError>) -> Result<
    RomReaderResultView,
    RomReaderError,
> {
    match result {
        Ok(value) => Ok(value@),
        Err(e) => Err(e),
    }
}

/// An image whose header lacks the magic constant fails at the header:
/// whatever follows the header, no other stage has a say, and `read` can
/// take every such image that holds 16 bytes.
pub proof fn lemma_bad_magic_fails_at_the_header(data: Seq<u8>)
    requires
        data.len() >= 16,
        !crate::header::has_magic(header_bytes(data)),
    ensures
        readable(data),
        spec_read(data) == Err::<RomReaderResultView, RomReaderError>(
            RomReaderError::Header(InvalidHeaderError),
        ),
{
}

/// The stages fail in their order: an image is read exactly when its
/// header, its program region and its graphics region all decode, and
/// otherwise the error is that of the first of them that does not.
pub proof fn lemma_first_failure_wins(data: Seq<u8>)
    ensures
        ({
            let header = crate::header::spec_parse(header_bytes(data));
            let prg = crate::prg::spec_parse(prg_rom_bytes(data, header.unwrap()));
            let chr = crate::chr::spec_parse(chr_rom_bytes(data, header.unwrap()));
            &&& spec_read(data) is Ok <==> header is Ok && prg is Ok && chr is Ok
            &&& header is Err ==> spec_read(data) == Err::<RomReaderResultView, RomReaderError>(
                RomReaderError::Header(header->Err_0),
            )
            &&& header is Ok && prg is Err ==> spec_read(data) == Err::<
                RomReaderResultView,
                RomReaderError,
            >(RomReaderError::PrgData(prg->Err_0))
            &&& header is Ok && prg is Ok && chr is Err ==> spec_read(data) == Err::<
                RomReaderResultView,
                RomReaderError,
            >(RomReaderError::ChrData(chr->Err_0))
        }),
{
}

/// Two readings of the same image are equal: a reading depends on nothing
/// but the bytes.
pub proof fn lemma_read_is_deterministic(
    data: Seq<u8>,
    first: Result<RomReaderResult, RomReaderError>,
    second: Result<RomReaderResult, RomReaderError>,
)
    requires
        result_view(first) == spec_read(data),
        result_view(second) == spec_read(data),
    ensures
        result_view(first) == result_view(second),
{
}

/// Reads cartridge images.
pub struct RomReader;

impl RomReader {
    /// The first 16 bytes of an image.
    fn header_of(data: &Vec<u8>) -> (header: [u8; 16])
        requires
            data@.len() >= 16,
        ensures
            header@ == header_bytes(data@),
    {
        let header: [u8; 16] = [
            data[0],
            data[1],
            data[2],
            data[3],
            data[4],
            data[5],
            data[6],
            data[7],
            data[8],
            data[9],
            data[10],
            data[11],
            data[12],
            data[13],
            data[14],
            data[15],
        ];
        assert(header@ =~= header_bytes(data@));
        header
    }

    /// Tells whether `read` can take the image.
    pub fn can_read(data: &Vec<u8>) -> (ok: bool)
        ensures
            ok == readable(data@),
    {
        if data.len() < HEADER_SIZE_BYTES {
            return false;
        }
        let header_bytes = RomReader::header_of(data);
        if !HeaderData::is_representable(&header_bytes) {
            return false;
        }
        match HeaderData::parse(&header_bytes) {
            Ok(header) => {
                let start: u128 = if header.trainer_present {
                    528
                } else {
                    16
                };
                header.prg_rom_size > 0 && start + header.prg_rom_size as u128
                    + header.chr_rom_size as u128 <= data.len() as u128
            },
            Err(_) => true,
        }
    }

    /// Decodes an image: its header, its program region and its graphics
    /// region. The first stage that fails gives the error.
    pub fn read(data: Vec<u8>) -> (result: Result<RomReaderResult, RomReaderError>)
        requires
            readable(data@),
        ensures
            result_view(result) == spec_read(data@),
    {
        let header_bytes = RomReader::header_of(&data);
        let header = match HeaderData::parse(&header_bytes) {
            Ok(header) => header,
            Err(e) => {
                return Err(RomReaderError::from(e));
            },
        };
        RomReader::read_regions(&data, header)
    }

    /// Decodes the regions of an image whose header is already decoded:
    /// the program region, then the graphics region.
    pub fn read_regions(data: &Vec<u8>, header: HeaderData) -> (result: Result<
        RomReaderResult,
        RomReaderError,
    >)
        requires
            header.prg_rom_size > 0,
            data@.len() >= image_len(header),
        ensures
            result_view(result) == spec_read_regions(data@, header),
    {
        let length: usize = data.len();
        assert(image_len(header) <= length);
        let prg_rom_start: usize = HEADER_SIZE_BYTES + (if header.trainer_present {
            TRAINER_SIZE_BYTES
        } else {
            0
        });
        let chr_rom_start: usize = prg_rom_start + header.prg_rom_size as usize;
        let chr_rom_end: usize = chr_rom_start + header.chr_rom_size as usize;
        let prg_rom_bytes = slice_to_vec(
            slice_subrange(data.as_slice(), prg_rom_start, chr_rom_start),
        );
        let prg_data = match PrgData::parse(prg_rom_bytes) {
            Ok(prg_data) => prg_data,
            Err(e) => {
                return Err(RomReaderError::from(e));
            },
        };
        let chr_rom_bytes = slice_to_vec(
            slice_subrange(data.as_slice(), chr_rom_start, chr_rom_end),
        );
        let chr_data = match ChrData::parse(chr_rom_bytes) {
            Ok(chr_data) => chr_data,
            Err(e) => {
                return Err(RomReaderError::from(e));
            },
        };
        Ok(RomReaderResult { header, chr_data, prg_data })
    }
}

} // verus!
