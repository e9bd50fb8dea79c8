//! The view of a user program: its entry point and its loadable segments.
//!
//! A program is accepted only if it starts with the four bytes of the ELF
//! magic number, and a segment only if it lies within the window of
//! virtual addresses that is set aside for user code.

use vstd::prelude::*;
use object::{Object, ObjectSegment};

verus! {

/// First address of the window for user code.
pub const USER_CODE_START: u64 = 0x5000000;

/// First address above the window for user code.
pub const USER_CODE_END: u64 = 0x80000000;

/// Length of the magic number.
pub const ELF_MAGIC_LEN: usize = 4;

/// A loadable segment: where it goes in memory, how much memory it takes,
/// and the bytes that the file holds for it, if they can be read.
#[derive(Debug)]
pub struct Segment {
    pub address: u64,
    pub size: u64,
    pub data: Option<Vec<u8>>,
}

/// A loadable segment as a mathematical value.
pub struct SegmentView {
    pub address: u64,
    pub size: u64,
    pub data: Option<Seq<u8>>,
}

impl View for Segment {
    type V = SegmentView;

    open spec fn view(&self) -> SegmentView {
        SegmentView {
            address: self.address,
            size: self.size,
            data: match self.data {
                Some(bytes) => Some(bytes@),
                None => None,
            },
        }
    }
}

/// A parsed program: its entry point and its loadable segments in the
/// order of the file.
#[derive(Debug)]
pub struct ElfImage {
    pub entry: u64,
    pub segments: Vec<Segment>,
}

/// A parsed program as a mathematical value.
pub struct ElfImageView {
    pub entry: u64,
    pub segments: Seq<SegmentView>,
}

impl View for ElfImage {
    type V = ElfImageView;

    open spec fn view(&self) -> ElfImageView {
        ElfImageView {
            entry: self.entry,
            segments: Seq::new(self.segments@.len(), |i: int| self.segments@[i]@),
        }
    }
}

/// The magic number: the byte 0x7f and the letters E, L, F.
pub open spec fn elf_magic() -> Seq<u8> {
    seq![0x7fu8, 0x45u8, 0x4cu8, 0x46u8]
}

/// `bytes` starts with the magic number.
pub open spec fn has_elf_magic(bytes: Seq<u8>) -> bool {
    bytes.len() >= 4 && bytes.subrange(0, 4) == elf_magic()
}

/// Whether `bin` starts with the magic number. Anything shorter than the
/// magic number does not.
pub fn is_elf(bin: &[u8]) -> (found: bool)
    ensures
        found == has_elf_magic(bin@),
{
    if bin.len() < ELF_MAGIC_LEN {
        return false;
    }
    let found = bin[0] == 0x7f && bin[1] == 0x45 && bin[2] == 0x4c && bin[3] == 0x46;
    proof {
        if found {
            assert(bin@.subrange(0, 4) =~= elf_magic());
        } else {
            assert(bin@.subrange(0, 4)[0] == bin@[0]);
            assert(bin@.subrange(0, 4)[1] == bin@[1]);
            assert(bin@.subrange(0, 4)[2] == bin@[2]);
            assert(bin@.subrange(0, 4)[3] == bin@[3]);
        }
    }
    found
}

/// A segment of `size` bytes at `address` lies within the window for user
/// code: it starts at or above the lower bound and ends at or below the
/// upper bound.
pub open spec fn in_user_window(address: u64, size: u64) -> bool {
    USER_CODE_START <= address && address + size <= USER_CODE_END
}

/// Whether a segment of `size` bytes at `address` lies within the window
/// for user code.
pub fn segment_in_window(address: u64, size: u64) -> (inside: bool)
    ensures
        inside == in_user_window(address, size),
{
    address >= USER_CODE_START && address <= USER_CODE_END && size <= USER_CODE_END - address
}

/// A segment that ends exactly at the upper bound of the window is
/// accepted; one that ends one byte above it is not.
pub proof fn lemma_window_upper_bound(address: u64, size: u64)
    requires
        USER_CODE_START <= address,
    ensures
        address + size == USER_CODE_END ==> in_user_window(address, size),
        address + size == USER_CODE_END + 1 ==> !in_user_window(address, size),
{
}

/// A segment that starts below the lower bound of the window is not
/// accepted, whatever its size.
pub proof fn lemma_window_lower_bound(address: u64, size: u64)
    requires
        address < USER_CODE_START,
    ensures
        !in_user_window(address, size),
{
}

/// What the parser of the `object` crate makes of a file: `None` where it
/// refuses the file, else the entry point and the loadable segments.
pub uninterp spec fn object_file(bytes: Seq<u8>) -> Option<ElfImageView>;

/// Calls `object::File::parse` and reads from the parsed file its entry
/// point (`Object::entry`) and, for each loadable segment
/// (`Object::segments`), its address, its size in memory and its bytes in
/// the file (`ObjectSegment::address`, `size`, `data`). The `object` crate
/// is built with its feature `unaligned`: every header is then read byte by
/// byte, wherever in memory the file lies. Trusted: the result is a
/// function of the bytes of the file alone.
#[verifier::external_body]
fn parse_object(bin: &[u8]) -> (image: Option<ElfImage>)
    ensures
        image.is_some() == object_file(bin@).is_some(),
        image matches Some(parsed) ==> parsed@ == object_file(bin@).unwrap(),
{
    let file = object::File::parse(bin).ok()?;
    let mut segments = Vec::new();
    for segment in file.segments() {
        let data = segment.data().ok().map(<[u8]>::to_vec);
        segments.push(Segment { address: segment.address(), size: segment.size(), data });
    }
    Some(ElfImage { entry: file.entry(), segments })
}

/// Why a program was not read.
#[derive(Debug, Clone, Copy, PartialEq, Eq, Structural)]
pub enum ElfError {
    /// The file does not start with the magic number.
    NotElf,
    /// The file starts with the magic number but cannot be parsed.
    Malformed,
}

/// What reading a file gives, as a function of its bytes: a file without
/// the magic number is refused without being parsed.
pub open spec fn spec_read_image(bytes: Seq<u8>) -> Result<ElfImageView, ElfError> {
    if !has_elf_magic(bytes) {
        Err(ElfError::NotElf)
    } else {
        match object_file(bytes) {
            Some(image) => Ok(image),
            None => Err(ElfError::Malformed),
        }
    }
}

/// Reads a program: checks the magic number and, only if it is there,
/// parses the file.
pub fn read_image(bin: &[u8]) -> (image: Result<ElfImage, ElfError>)
    ensures
        image is Ok == spec_read_image(bin@) is Ok,
        image matches Ok(parsed) ==> Ok::<ElfImageView, ElfError>(parsed@) == spec_read_image(
            bin@,
        ),
        image matches Err(error) ==> Err::<ElfImageView, ElfError>(error) == spec_read_image(bin@),
{
    if !is_elf(bin) {
        return Err(ElfError::NotElf);
    }
    match parse_object(bin) {
        Some(image) => Ok(image),
        None => Err(ElfError::Malformed),
    }
}

/// A file that does not start with the magic number is refused as not
/// being an ELF file, whatever a parser would make of it.
pub proof fn lemma_bad_magic_rejected(bytes: Seq<u8>)
    requires
        !has_elf_magic(bytes),
    ensures
        spec_read_image(bytes) == Err::<ElfImageView, ElfError>(ElfError::NotElf),
{
}

} // verus!
