//! The IDE disk: port values, the layout of what the disk sends, and the
//! position arithmetic of a byte stream laid over sectors.
//!
//! Port input and output is the caller's work. Here is decided what is
//! written to which port, when the disk is ready, and what the bytes that
//! it sent mean.

use vstd::prelude::*;
use vstd::bytes::{spec_u32_from_le_bytes, u32_from_le_bytes};
use vstd::slice::slice_subrange;
use crate::interrupts::{PortWrite, WAIT_PORT};

verus! {

/// Size of a sector in bytes.
pub const SECTOR_SIZE: usize = 512;

/// Base port of the primary channel.
pub const PRIMARY_BASE: u16 = 0x1f0;

/// Base port of the secondary channel.
pub const SECONDARY_BASE: u16 = 0x170;

/// Control port of the primary channel.
pub const PRIMARY_CONTROL: u16 = 0x3f6;

/// Control port of the secondary channel.
pub const SECONDARY_CONTROL: u16 = 0x376;

/// Command: describe yourself.
pub const COMMAND_IDENTIFY: u8 = 0xec;

/// Command: read sectors.
pub const COMMAND_READ: u8 = 0x20;

/// Command: write sectors.
pub const COMMAND_WRITE: u8 = 0x30;

/// Status bit: the disk is busy.
pub const STATUS_BUSY: u8 = 0x80;

/// Status bit: the disk is ready to transfer data.
pub const STATUS_DATA_REQUEST: u8 = 0x08;

/// Status bit: the command has failed.
pub const STATUS_ERROR: u8 = 0x01;

/// Offset of the partition table in the first sector.
pub const PARTITION_TABLE_OFFSET: usize = 446;

/// Size of an entry of the partition table.
pub const PARTITION_ENTRY_SIZE: usize = 16;

/// A disk that answered the identify command.
#[derive(Debug, PartialEq, Eq)]
pub struct IdeDevice {
    pub channel: &'static str,
    pub drive: &'static str,
    /// The model name: forty characters, padded with blanks.
    pub model: Vec<u8>,
}

/// The control port that goes with the base port of a channel.
pub fn control_base(channel_base: u16) -> (control: u16)
    ensures
        control == (if channel_base == PRIMARY_BASE {
            PRIMARY_CONTROL
        } else {
            SECONDARY_CONTROL
        }),
{
    if channel_base == PRIMARY_BASE {
        PRIMARY_CONTROL
    } else {
        SECONDARY_CONTROL
    }
}

/// The name of a channel.
pub fn channel_name(channel: usize) -> (name: &'static str)
    ensures
        name@ == (if channel == 0 {
            "Primário"@
        } else {
            "Secundário"@
        }),
{
    if channel == 0 {
        "Primário"
    } else {
        "Secundário"
    }
}

/// The name of a drive on its channel.
pub fn drive_name(is_master: bool) -> (name: &'static str)
    ensures
        name@ == (if is_master {
            "Master"@
        } else {
            "Slave"@
        }),
{
    if is_master {
        "Master"
    } else {
        "Slave"
    }
}

/// The writes that ask a drive to identify itself: the drive is selected,
/// the sector registers are cleared, and the command is given. After the
/// selection and after the command comes a write to the wait port.
pub open spec fn spec_identify_command(channel_base: u16, is_master: bool) -> Seq<PortWrite> {
    seq![
        PortWrite { port: (channel_base + 6) as u16, value: if is_master { 0xa0 } else { 0xb0 } },
        PortWrite { port: WAIT_PORT, value: 0 },
        PortWrite { port: (channel_base + 2) as u16, value: 0 },
        PortWrite { port: (channel_base + 3) as u16, value: 0 },
        PortWrite { port: (channel_base + 4) as u16, value: 0 },
        PortWrite { port: (channel_base + 5) as u16, value: 0 },
        PortWrite { port: (channel_base + 7) as u16, value: COMMAND_IDENTIFY },
        PortWrite { port: WAIT_PORT, value: 0 },
    ]
}

/// The writes that ask a drive to identify itself.
pub fn identify_command(channel_base: u16, is_master: bool) -> (writes: Vec<PortWrite>)
    requires
        channel_base <= u16::MAX - 7,
    ensures
        writes@ == spec_identify_command(channel_base, is_master),
{
    let select: u8 = if is_master {
        0xa0
    } else {
        0xb0
    };
    let writes = vec![
        PortWrite { port: channel_base + 6, value: select },
        PortWrite { port: WAIT_PORT, value: 0 },
        PortWrite { port: channel_base + 2, value: 0 },
        PortWrite { port: channel_base + 3, value: 0 },
        PortWrite { port: channel_base + 4, value: 0 },
        PortWrite { port: channel_base + 5, value: 0 },
        PortWrite { port: channel_base + 7, value: COMMAND_IDENTIFY },
        PortWrite { port: WAIT_PORT, value: 0 },
    ];
    assert(writes@ =~= spec_identify_command(channel_base, is_master));
    writes
}

/// Whether a drive is there at all. `status` is the status read right
/// after the identify command was given: a status of zero means that
/// nothing is connected.
pub fn device_present(status: u8) -> (present: bool)
    ensures
        present == (status != 0),
{
    status != 0
}

/// The disk that answered the identify command on the given channel and
/// drive with the 256 words `words`.
pub open spec fn spec_identified(channel: usize, is_master: bool, words: Seq<u16>) -> (
    Seq<char>,
    Seq<char>,
    Seq<u8>,
) {
    (
        if channel == 0 {
            "Primário"@
        } else {
            "Secundário"@
        },
        if is_master {
            "Master"@
        } else {
            "Slave"@
        },
        spec_model(words),
    )
}

/// What the detection of one drive gives. `status` is the status read
/// right after the identify command, `words` are the 256 words that the
/// drive then sent (they do not count where nothing is connected). `None`
/// if and only if the status is zero; else the disk with the names of its
/// channel and drive and its model name.
pub fn identified_device(channel: usize, is_master: bool, status: u8, words: &[u16; 256]) -> (device:
    Option<IdeDevice>)
    ensures
        device.is_some() == (status != 0),
        device matches Some(found) ==> (found.channel@, found.drive@, found.model@)
            == spec_identified(channel, is_master, words@),
{
    if device_present(status) {
        Some(
            IdeDevice {
                channel: channel_name(channel),
                drive: drive_name(is_master),
                model: identify_model(words),
            },
        )
    } else {
        None
    }
}

/// What one drive answered to the identify command: the status read
/// right after the command and, where a drive is there, the 256 words
/// that it sent.
#[derive(Debug, Clone, Copy)]
pub struct IdentifyAnswer {
    pub status: u8,
    pub words: [u16; 256],
}

/// The disks of the machine, out of the answers of the four drives: the
/// two drives of the primary channel first, of each channel the master
/// first. A drive whose status was zero is not there.
pub fn detect_ide_devices(answers: &[IdentifyAnswer; 4]) -> (devices: [Option<IdeDevice>; 4])
    ensures
        forall|i: int|
            0 <= i < 4 ==> {
                &&& (#[trigger] devices@[i]).is_some() == (answers@[i].status != 0)
                &&& devices@[i] matches Some(found) ==> (found.channel@, found.drive@, found.model@)
                    == spec_identified((i / 2) as usize, i % 2 == 0, answers@[i].words@)
            },
{
    [
        identified_device(0, true, answers[0].status, &answers[0].words),
        identified_device(0, false, answers[1].status, &answers[1].words),
        identified_device(1, true, answers[2].status, &answers[2].words),
        identified_device(1, false, answers[3].status, &answers[3].words),
    ]
}

/// What to do after the status of a drive was read while it identifies
/// itself.
#[derive(Debug, Clone, Copy, PartialEq, Eq, Structural)]
pub enum IdentifyPoll {
    /// The drive is busy, or has nothing to say yet: read the status
    /// again.
    Wait,
    /// The drive is done: read what it sends.
    Transfer,
}

/// While a drive identifies itself: it is done when it is not busy and
/// either requests a transfer or reports an error.
pub fn identify_poll(status: u8) -> (poll: IdentifyPoll)
    ensures
        poll == (if status & STATUS_BUSY == 0 && (status & STATUS_DATA_REQUEST != 0 || status
            & STATUS_ERROR != 0) {
            IdentifyPoll::Transfer
        } else {
            IdentifyPoll::Wait
        }),
{
    if status & STATUS_BUSY != 0 {
        IdentifyPoll::Wait
    } else if status & STATUS_DATA_REQUEST != 0 {
        IdentifyPoll::Transfer
    } else if status & STATUS_ERROR != 0 {
        IdentifyPoll::Transfer
    } else {
        IdentifyPoll::Wait
    }
}

/// Whether a drive is ready to transfer a sector: not busy, and
/// requesting data.
pub fn data_ready(status: u8) -> (ready: bool)
    ensures
        ready == (status & STATUS_BUSY == 0 && status & STATUS_DATA_REQUEST != 0),
{
    status & STATUS_BUSY == 0 && status & STATUS_DATA_REQUEST != 0
}

/// The place of a drive among the four: two channels with two drives
/// each.
pub fn device_index(channel: usize, drive: usize) -> (index: usize)
    requires
        channel < 2,
        drive < 2,
    ensures
        index == channel * 2 + drive,
        index < 4,
{
    channel * 2 + drive
}

/// The model name in the words that a drive sends about itself: words 27
/// to 46, of each the high byte first.
pub open spec fn spec_model(words: Seq<u16>) -> Seq<u8> {
    Seq::new(
        40,
        |k: int|
            if k % 2 == 0 {
                (words[27 + k / 2] >> 8) as u8
            } else {
                (words[27 + k / 2] & 0xff) as u8
            },
    )
}

/// Reads the model name out of the 256 words that a drive sends about
/// itself.
pub fn identify_model(words: &[u16; 256]) -> (model: Vec<u8>)
    ensures
        model@ == spec_model(words@),
{
    let mut model: Vec<u8> = Vec::with_capacity(40);
    let mut i: usize = 0;
    while i < 20
        invariant
            0 <= i <= 20,
            model@.len() == 2 * i,
            forall|k: int| 0 <= k < 2 * i ==> model@[k] == spec_model(words@)[k],
        decreases 20 - i,
    {
        let word = words[27 + i];
        assert(word >> 8 <= 0xff) by (bit_vector);
        assert(word & 0xff <= 0xff) by (bit_vector);
        model.push((word >> 8) as u8);
        model.push((word & 0xff) as u8);
        i += 1;
    }
    assert(model@ =~= spec_model(words@));
    model
}

/// The writes that ask the first drive of a channel for a transfer of one
/// sector: the drive is selected together with the top four bits of the
/// sector number, after a wait the sector count of one and the lower three
/// bytes of the sector number are written, then the command, then a wait.
pub open spec fn spec_sector_command(channel_base: u16, lba: u32, command: u8) -> Seq<PortWrite> {
    seq![
        PortWrite { port: (channel_base + 6) as u16, value: 0xe0u8 | (((lba >> 24) & 0x0f) as u8) },
        PortWrite { port: WAIT_PORT, value: 0 },
        PortWrite { port: (channel_base + 2) as u16, value: 1 },
        PortWrite { port: (channel_base + 3) as u16, value: (lba & 0xff) as u8 },
        PortWrite { port: (channel_base + 4) as u16, value: ((lba >> 8) & 0xff) as u8 },
        PortWrite { port: (channel_base + 5) as u16, value: ((lba >> 16) & 0xff) as u8 },
        PortWrite { port: (channel_base + 7) as u16, value: command },
        PortWrite { port: WAIT_PORT, value: 0 },
    ]
}

/// The writes that ask the first drive of a channel for a transfer of the
/// sector `lba`.
pub fn sector_command(channel_base: u16, lba: u32, command: u8) -> (writes: Vec<PortWrite>)
    requires
        channel_base <= u16::MAX - 7,
    ensures
        writes@ == spec_sector_command(channel_base, lba, command),
{
    assert((lba >> 24) & 0x0f <= 0xff) by (bit_vector);
    assert(lba & 0xff <= 0xff) by (bit_vector);
    assert((lba >> 8) & 0xff <= 0xff) by (bit_vector);
    assert((lba >> 16) & 0xff <= 0xff) by (bit_vector);
    let writes = vec![
        PortWrite { port: channel_base + 6, value: 0xe0u8 | (((lba >> 24) & 0x0f) as u8) },
        PortWrite { port: WAIT_PORT, value: 0 },
        PortWrite { port: channel_base + 2, value: 1 },
        PortWrite { port: channel_base + 3, value: (lba & 0xff) as u8 },
        PortWrite { port: channel_base + 4, value: ((lba >> 8) & 0xff) as u8 },
        PortWrite { port: channel_base + 5, value: ((lba >> 16) & 0xff) as u8 },
        PortWrite { port: channel_base + 7, value: command },
        PortWrite { port: WAIT_PORT, value: 0 },
    ];
    assert(writes@ =~= spec_sector_command(channel_base, lba, command));
    writes
}

/// The writes before a sector is read.
pub fn read_sector(channel_base: u16, lba: u32) -> (writes: Vec<PortWrite>)
    requires
        channel_base <= u16::MAX - 7,
    ensures
        writes@ == spec_sector_command(channel_base, lba, COMMAND_READ),
{
    sector_command(channel_base, lba, COMMAND_READ)
}

/// The writes before a sector is written.
pub fn write_sector(channel_base: u16, lba: u32) -> (writes: Vec<PortWrite>)
    requires
        channel_base <= u16::MAX - 7,
    ensures
        writes@ == spec_sector_command(channel_base, lba, COMMAND_WRITE),
{
    sector_command(channel_base, lba, COMMAND_WRITE)
}

/// The bytes of a sector that was transferred as 256 words: of each word
/// the low byte first.
pub open spec fn spec_sector_bytes(words: Seq<u16>) -> Seq<u8> {
    Seq::new(
        512,
        |k: int|
            if k % 2 == 0 {
                (words[k / 2] & 0xff) as u8
            } else {
                (words[k / 2] >> 8) as u8
            },
    )
}

/// Puts the 256 words that the disk sent into the buffer of a sector.
pub fn store_sector(words: &[u16; 256], buffer: &mut Vec<u8>)
    requires
        old(buffer).len() == SECTOR_SIZE,
    ensures
        final(buffer)@ == spec_sector_bytes(words@),
{
    let mut i: usize = 0;
    while i < 256
        invariant
            0 <= i <= 256,
            buffer.len() == SECTOR_SIZE,
            forall|k: int| 0 <= k < 2 * i ==> buffer@[k] == spec_sector_bytes(words@)[k],
        decreases 256 - i,
    {
        let word = words[i];
        assert(word >> 8 <= 0xff) by (bit_vector);
        assert(word & 0xff <= 0xff) by (bit_vector);
        buffer.set(2 * i, (word & 0xff) as u8);
        buffer.set(2 * i + 1, (word >> 8) as u8);
        i += 1;
    }
    assert(buffer@ =~= spec_sector_bytes(words@));
}

/// The word that is sent to the disk for the bytes `low` and `high` of a
/// sector.
pub fn sector_word(low: u8, high: u8) -> (word: u16)
    ensures
        word == (low as u16) | ((high as u16) << 8),
        word & 0xff == low,
        word >> 8 == high,
{
    let word = (low as u16) | ((high as u16) << 8);
    assert(((low as u16) | ((high as u16) << 8)) & 0xff == low as u16) by (bit_vector);
    assert(((low as u16) | ((high as u16) << 8)) >> 8 == high as u16) by (bit_vector);
    word
}

/// An entry of the partition table.
#[derive(Debug, Clone, Copy, PartialEq, Eq)]
pub struct PartitionEntry {
    pub boot_flag: u8,
    pub chs_start: [u8; 3],
    pub part_type: u8,
    pub chs_end: [u8; 3],
    pub lba_start: u32,
    pub num_sectors: u32,
}

/// `entry` is what the sixteen bytes of `sector` from `offset` on say.
pub open spec fn spec_partition_at(entry: PartitionEntry, sector: Seq<u8>, offset: int) -> bool {
    &&& entry.boot_flag == sector[offset]
    &&& entry.chs_start@ == sector.subrange(offset + 1, offset + 4)
    &&& entry.part_type == sector[offset + 4]
    &&& entry.chs_end@ == sector.subrange(offset + 5, offset + 8)
    &&& entry.lba_start == spec_u32_from_le_bytes(sector.subrange(offset + 8, offset + 12))
    &&& entry.num_sectors == spec_u32_from_le_bytes(sector.subrange(offset + 12, offset + 16))
}

fn partition_at(sector: &[u8; 512], offset: usize) -> (entry: PartitionEntry)
    requires
        offset + 16 <= 512,
    ensures
        spec_partition_at(entry, sector@, offset as int),
{
    let bytes = sector.as_slice();
    let chs_start = [sector[offset + 1], sector[offset + 2], sector[offset + 3]];
    let chs_end = [sector[offset + 5], sector[offset + 6], sector[offset + 7]];
    assert(chs_start@ =~= sector@.subrange(offset + 1, offset + 4));
    assert(chs_end@ =~= sector@.subrange(offset + 5, offset + 8));
    PartitionEntry {
        boot_flag: sector[offset],
        chs_start,
        part_type: sector[offset + 4],
        chs_end,
        lba_start: u32_from_le_bytes(slice_subrange(bytes, offset + 8, offset + 12)),
        num_sectors: u32_from_le_bytes(slice_subrange(bytes, offset + 12, offset + 16)),
    }
}

/// Reads the four entries of the partition table out of the first sector
/// of a disk.
pub fn read_partition_table(mbr: &[u8; 512]) -> (parts: [PartitionEntry; 4])
    ensures
        forall|i: int|
            0 <= i < 4 ==> spec_partition_at(
                #[trigger] parts@[i],
                mbr@,
                PARTITION_TABLE_OFFSET + PARTITION_ENTRY_SIZE * i,
            ),
{
    [
        partition_at(mbr, PARTITION_TABLE_OFFSET),
        partition_at(mbr, PARTITION_TABLE_OFFSET + PARTITION_ENTRY_SIZE),
        partition_at(mbr, PARTITION_TABLE_OFFSET + 2 * PARTITION_ENTRY_SIZE),
        partition_at(mbr, PARTITION_TABLE_OFFSET + 3 * PARTITION_ENTRY_SIZE),
    ]
}

/// Where a byte stream over the disk is moved to.
#[derive(Debug, Clone, Copy, PartialEq, Eq, Structural)]
pub enum SeekFrom {
    /// To this many bytes from the start.
    Start(u64),
    /// By this many bytes from where it is.
    Current(i64),
    /// Relative to the end: not supported, the stream stays where it is.
    End(i64),
}

/// The part of a sector that one read or write covers.
#[derive(Debug, Clone, Copy, PartialEq, Eq, Structural)]
pub struct SectorSpan {
    /// The sector, counted from the start of the disk.
    pub sector: u32,
    /// The first byte within the sector.
    pub offset: usize,
    /// The number of bytes.
    pub len: usize,
}

/// A byte stream over a partition of the disk.
#[derive(Debug, Clone, Copy, PartialEq, Eq, Structural)]
pub struct IdeBlockDevice {
    /// The sector at which the partition starts.
    pub lba_start: u64,
    /// The position within the partition in bytes.
    pub pos: u64,
}

impl IdeBlockDevice {
    /// A stream at the start of the partition that begins at sector
    /// `lba_start`.
    pub fn new(lba_start: u64) -> (device: Self)
        ensures
            device == (IdeBlockDevice { lba_start, pos: 0 }),
    {
        IdeBlockDevice { lba_start, pos: 0 }
    }

    /// The span that a transfer of up to `len` bytes at the position of
    /// the stream covers: it begins at the position and ends with the
    /// sector or after `len` bytes, whichever comes first. The sector
    /// number is taken modulo 2^32, as the disk is addressed with 32 bits.
    pub open spec fn spec_span(self, len: usize) -> SectorSpan {
        let offset = (self.pos % 512) as usize;
        SectorSpan {
            sector: ((self.lba_start % 0x1_0000_0000 + (self.pos / 512) % 0x1_0000_0000)
                % 0x1_0000_0000) as u32,
            offset,
            len: if len <= 512 - offset {
                len
            } else {
                (512 - offset) as usize
            },
        }
    }

    /// The span that a transfer of up to `len` bytes covers.
    pub fn span(&self, len: usize) -> (span: SectorSpan)
        ensures
            span == self.spec_span(len),
            span.offset + span.len <= SECTOR_SIZE,
            span.len <= len,
    {
        let sector_idx = ((self.pos / 512) % 0x1_0000_0000) as u32;
        let offset = (self.pos % 512) as usize;
        let start = (self.lba_start % 0x1_0000_0000) as u32;
        let to_copy = if len <= SECTOR_SIZE - offset {
            len
        } else {
            SECTOR_SIZE - offset
        };
        SectorSpan { sector: start.wrapping_add(sector_idx), offset, len: to_copy }
    }

    /// Moves the stream on by the `count` bytes that were transferred.
    pub fn advance(&mut self, count: usize)
        requires
            old(self).pos + count <= u64::MAX,
        ensures
            final(self).lba_start == old(self).lba_start,
            final(self).pos == old(self).pos + count,
    {
        self.pos = self.pos + count as u64;
    }

    /// The position after a seek. A move from the current position wraps
    /// around at 2^64.
    pub open spec fn spec_seek(self, to: SeekFrom) -> u64 {
        match to {
            SeekFrom::Start(offset) => offset,
            SeekFrom::Current(offset) => ((self.pos + offset) % 0x1_0000_0000_0000_0000) as u64,
            SeekFrom::End(_) => self.pos,
        }
    }

    /// Moves the stream and returns its new position.
    pub fn seek(&mut self, to: SeekFrom) -> (position: u64)
        ensures
            final(self).lba_start == old(self).lba_start,
            final(self).pos == old(self).spec_seek(to),
            position == final(self).pos,
    {
        let position = match to {
            SeekFrom::Start(offset) => offset,
            SeekFrom::Current(offset) => self.pos.wrapping_add_signed(offset),
            SeekFrom::End(_) => self.pos,
        };
        self.pos = position;
        position
    }
}

/// The kinds of error of the disk.
#[derive(Debug, Clone, Copy, PartialEq, Eq, Structural)]
pub enum IDEErrorKind {
    General,
    NotFound,
    PermissionDenied,
    UnexpectedEOF,
    Interrupted,
    InvalidData,
}

/// An error of the disk: its kind and, if there is one, a message.
#[derive(Debug)]
pub struct IDEError {
    kind: IDEErrorKind,
    message: Option<String>,
}

impl IDEError {
    pub fn new(kind: IDEErrorKind, message: Option<String>) -> (error: Self)
        ensures
            error.spec_kind() == kind,
            error.spec_message() == message,
    {
        IDEError { kind, message }
    }

    pub closed spec fn spec_kind(&self) -> IDEErrorKind {
        self.kind
    }

    pub closed spec fn spec_message(&self) -> Option<String> {
        self.message
    }

    pub fn kind(&self) -> (kind: &IDEErrorKind)
        ensures
            *kind == self.spec_kind(),
    {
        &self.kind
    }

    pub fn message(&self) -> (message: Option<&String>)
        ensures
            match message {
                Some(text) => self.spec_message() == Some(*text),
                None => self.spec_message().is_none(),
            },
    {
        self.message.as_ref()
    }
}

} // verus!
