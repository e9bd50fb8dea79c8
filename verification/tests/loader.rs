use aurora_kernel::elf::{is_elf, read_image, segment_in_window, ElfError, USER_CODE_END, USER_CODE_START};
use aurora_kernel::loader::{new_user_thread, LoadAction, UserThreadLoader, USER_PAGE_FLAGS};
use aurora_kernel::memory::{allocate_pages_mapper, BootInfoFrameAllocator, MapStep, MemoryRegion};
use aurora_kernel::process::ThreadError;

/// A 64-bit little-endian executable with one program header per segment.
/// Each segment is given as (address, size in memory, bytes in the file).
fn elf(entry: u64, segments: &[(u64, u64, &[u8])]) -> Vec<u8> {
    let mut image = vec![0x7f, b'E', b'L', b'F', 2, 1, 1, 0, 0, 0, 0, 0, 0, 0, 0, 0];
    image.extend_from_slice(&2u16.to_le_bytes()); // executable
    image.extend_from_slice(&0x3eu16.to_le_bytes()); // x86-64
    image.extend_from_slice(&1u32.to_le_bytes());
    image.extend_from_slice(&entry.to_le_bytes());
    image.extend_from_slice(&64u64.to_le_bytes()); // program headers follow the header
    image.extend_from_slice(&0u64.to_le_bytes()); // no section headers
    image.extend_from_slice(&0u32.to_le_bytes());
    image.extend_from_slice(&64u16.to_le_bytes());
    image.extend_from_slice(&56u16.to_le_bytes());
    image.extend_from_slice(&(segments.len() as u16).to_le_bytes());
    image.extend_from_slice(&64u16.to_le_bytes());
    image.extend_from_slice(&0u16.to_le_bytes());
    image.extend_from_slice(&0u16.to_le_bytes());
    let mut offset = 64 + 56 * segments.len() as u64;
    for (address, size, data) in segments {
        image.extend_from_slice(&1u32.to_le_bytes()); // loadable
        image.extend_from_slice(&7u32.to_le_bytes());
        image.extend_from_slice(&offset.to_le_bytes());
        image.extend_from_slice(&address.to_le_bytes());
        image.extend_from_slice(&address.to_le_bytes());
        image.extend_from_slice(&(data.len() as u64).to_le_bytes());
        image.extend_from_slice(&size.to_le_bytes());
        image.extend_from_slice(&0x1000u64.to_le_bytes());
        offset += data.len() as u64;
    }
    for (_, _, data) in segments {
        image.extend_from_slice(data);
    }
    image
}

fn frames() -> BootInfoFrameAllocator {
    BootInfoFrameAllocator::init(vec![MemoryRegion { start: 0x10_0000, end: 0x20_0000, usable: true }])
        .unwrap()
}

/// Runs the loader as a kernel would, against a frame allocator and a page
/// table that takes every mapping. Returns the pages mapped, the copies
/// made, and how the loading ended.
fn load(
    loader: &mut UserThreadLoader,
    frames: &mut BootInfoFrameAllocator,
) -> (Vec<(u64, u64)>, Vec<(u64, Vec<u8>)>, Result<u64, ThreadError>) {
    let mut mapped = Vec::new();
    let mut copied = Vec::new();
    let mut ok = true;
    loop {
        match loader.advance(ok) {
            LoadAction::MapRegion { start, size, flags } => {
                assert_eq!(flags, USER_PAGE_FLAGS);
                let mut cursor = allocate_pages_mapper(start, size, flags).unwrap();
                ok = loop {
                    match cursor.next_page(frames) {
                        MapStep::MapPage { page, frame, .. } => mapped.push((page, frame)),
                        MapStep::Finished => break true,
                        MapStep::OutOfFrames => break false,
                    }
                };
            }
            LoadAction::CopyData { segment, address } => {
                copied.push((address, loader.segment_data(segment).unwrap().clone()));
                ok = true;
            }
            LoadAction::Spawn { entry } => return (mapped, copied, Ok(entry)),
            LoadAction::Failed(error) => return (mapped, copied, Err(error)),
        }
    }
}

#[test]
fn magic_number_is_checked_first() {
    assert!(is_elf(&[0x7f, b'E', b'L', b'F']));
    assert!(is_elf(&elf(0, &[])));
    assert!(!is_elf(b"BAD!"));
    assert!(!is_elf(b"\x7fEL"));
    assert!(!is_elf(b""));
    assert!(!is_elf(b"\x7fELG rest"));
    assert!(!is_elf(b"ELF\x7f"));
}

#[test]
fn bad_header_is_rejected_as_not_elf() {
    assert_eq!(new_user_thread(b"BAD!").err(), Some(ThreadError::NotElf));
    assert_eq!(new_user_thread(b"").err(), Some(ThreadError::NotElf));
    assert_eq!(read_image(b"BAD!").err(), Some(ElfError::NotElf));
    // Even a file that would parse but for its magic number.
    let mut image = elf(0x500_0000, &[(0x500_0000, 0x1000, b"code")]);
    image[3] = b'G';
    assert_eq!(new_user_thread(&image).err(), Some(ThreadError::NotElf));
}

#[test]
fn magic_number_alone_does_not_parse() {
    assert_eq!(new_user_thread(b"\x7fELF").err(), Some(ThreadError::Malformed));
    assert_eq!(new_user_thread(b"\x7fELF\x02\x01\x01 and then nothing of use").err(), Some(ThreadError::Malformed));
    assert_eq!(read_image(b"\x7fELF").err(), Some(ElfError::Malformed));
}

#[test]
fn parsed_image_has_entry_and_segments() {
    let image = read_image(&elf(
        0x500_0040,
        &[(0x500_0000, 0x2000, b"first"), (0x600_0000, 0x10, b"")],
    ))
    .unwrap();
    assert_eq!(image.entry, 0x500_0040);
    assert_eq!(image.segments.len(), 2);
    assert_eq!(image.segments[0].address, 0x500_0000);
    assert_eq!(image.segments[0].size, 0x2000);
    assert_eq!(image.segments[0].data.as_deref(), Some(&b"first"[..]));
    assert_eq!(image.segments[1].address, 0x600_0000);
    assert_eq!(image.segments[1].size, 0x10);
    assert_eq!(image.segments[1].data.as_deref(), Some(&b""[..]));
}

#[test]
fn window_bounds() {
    assert_eq!(USER_CODE_START, 0x500_0000);
    assert_eq!(USER_CODE_END, 0x8000_0000);
    assert!(segment_in_window(0x500_0000, 0));
    assert!(segment_in_window(0x500_0000, 0x7b00_0000));
    assert!(!segment_in_window(0x500_0000, 0x7b00_0001));
    assert!(!segment_in_window(0x4ff_ffff, 1));
    assert!(!segment_in_window(0x4ff_f000, 0x1000));
    assert!(segment_in_window(0x7fff_f000, 0x1000));
    assert!(!segment_in_window(0x7fff_f000, 0x1001));
    assert!(segment_in_window(0x8000_0000, 0));
    assert!(!segment_in_window(0x8000_0001, 0));
    assert!(!segment_in_window(u64::MAX, 2));
    assert!(!segment_in_window(0x600_0000, u64::MAX));
}

#[test]
fn segment_ending_at_the_upper_bound_is_loaded() {
    let image = elf(0x7fff_f000, &[(0x7fff_f000, 0x1000, b"top")]);
    let mut loader = new_user_thread(&image).unwrap();
    let mut frames = frames();
    let (mapped, copied, result) = load(&mut loader, &mut frames);
    assert_eq!(result, Ok(0x7fff_f000));
    assert_eq!(mapped[0], (0x7fff_f000, 0x10_0000));
    assert_eq!(copied, vec![(0x7fff_f000, b"top".to_vec())]);
}

#[test]
fn segment_ending_one_byte_above_the_upper_bound_is_rejected() {
    let image = elf(0x7fff_f000, &[(0x7fff_f000, 0x1001, b"top")]);
    let mut loader = new_user_thread(&image).unwrap();
    let mut frames = frames();
    let (mapped, copied, result) = load(&mut loader, &mut frames);
    assert_eq!(result, Err(ThreadError::SegmentOutOfRange));
    assert!(mapped.is_empty());
    assert!(copied.is_empty());
}

#[test]
fn segment_one_page_below_the_window_is_rejected_and_nothing_is_mapped() {
    let image = elf(0x500_0000, &[(USER_CODE_START - 0x1000, 0x2000, b"low")]);
    let mut loader = new_user_thread(&image).unwrap();
    let mut frames = frames();
    let (mapped, copied, result) = load(&mut loader, &mut frames);
    assert_eq!(result, Err(ThreadError::SegmentOutOfRange));
    assert!(mapped.is_empty());
    assert!(copied.is_empty());
    // No frame was consumed.
    assert_eq!(frames.allocated(), 0);
    assert_eq!(frames.allocate_frame(), Some(0x10_0000));
    // The failure is final.
    assert_eq!(loader.advance(true), LoadAction::Failed(ThreadError::SegmentOutOfRange));
}

#[test]
fn program_is_mapped_segment_by_segment_and_then_its_stack() {
    let image = elf(
        0x500_0010,
        &[(0x500_0000, 0x1800, b"text"), (0x600_0800, 0x1000, b"data")],
    );
    let mut loader = new_user_thread(&image).unwrap();
    assert_eq!(loader.entry(), 0x500_0010);
    assert_eq!(loader.segment_count(), 2);
    let mut frames = frames();
    let (mapped, copied, result) = load(&mut loader, &mut frames);
    assert_eq!(result, Ok(0x500_0010));
    assert_eq!(
        mapped,
        vec![
            (0x500_0000, 0x10_0000),
            (0x500_1000, 0x10_1000),
            (0x600_0000, 0x10_2000),
            (0x600_1000, 0x10_3000),
            // The user stack: five pages from its fixed address.
            (0x500_2000, 0x10_4000),
            (0x500_3000, 0x10_5000),
            (0x500_4000, 0x10_6000),
            (0x500_5000, 0x10_7000),
            (0x500_6000, 0x10_8000),
        ]
    );
    assert_eq!(copied, vec![(0x500_0000, b"text".to_vec()), (0x600_0800, b"data".to_vec())]);
    assert_eq!(frames.allocated(), 9);
    // Once ready, the loader keeps saying so.
    assert_eq!(loader.advance(false), LoadAction::Spawn { entry: 0x500_0010 });
}

#[test]
fn actions_come_in_order() {
    let image = elf(0x500_0000, &[(0x500_0000, 0x20, b"abc")]);
    let mut loader = new_user_thread(&image).unwrap();
    assert_eq!(
        loader.advance(false),
        LoadAction::MapRegion { start: 0x500_0000, size: 0x20, flags: 7 }
    );
    assert_eq!(loader.advance(true), LoadAction::CopyData { segment: 0, address: 0x500_0000 });
    assert_eq!(
        loader.advance(true),
        LoadAction::MapRegion { start: 0x500_2000, size: 0x5000, flags: 7 }
    );
    assert_eq!(loader.advance(true), LoadAction::Spawn { entry: 0x500_0000 });
}

#[test]
fn second_segment_out_of_range_is_rejected_after_the_first_was_mapped() {
    let image = elf(
        0x500_0000,
        &[(0x500_0000, 0x1000, b"ok"), (0x8000_0000, 0x1000, b"too high")],
    );
    let mut loader = new_user_thread(&image).unwrap();
    let mut frames = frames();
    let (mapped, copied, result) = load(&mut loader, &mut frames);
    assert_eq!(result, Err(ThreadError::SegmentOutOfRange));
    assert_eq!(mapped, vec![(0x500_0000, 0x10_0000)]);
    assert_eq!(copied, vec![(0x500_0000, b"ok".to_vec())]);
}

#[test]
fn failed_mapping_is_reported_as_allocation_failure() {
    let image = elf(0x500_0000, &[(0x500_0000, 0x3000, b"big")]);
    let mut loader = new_user_thread(&image).unwrap();
    let mut frames = BootInfoFrameAllocator::init(vec![MemoryRegion {
        start: 0x10_0000,
        end: 0x10_2000,
        usable: true,
    }])
    .unwrap();
    let (mapped, copied, result) = load(&mut loader, &mut frames);
    assert_eq!(result, Err(ThreadError::AllocationFailed));
    assert_eq!(mapped.len(), 2);
    assert!(copied.is_empty());
    assert_eq!(loader.advance(true), LoadAction::Failed(ThreadError::AllocationFailed));
}

#[test]
fn failed_stack_mapping_is_reported() {
    let image = elf(0x500_0000, &[]);
    let mut loader = new_user_thread(&image).unwrap();
    assert_eq!(
        loader.advance(true),
        LoadAction::MapRegion { start: 0x500_2000, size: 0x5000, flags: 7 }
    );
    assert_eq!(loader.advance(false), LoadAction::Failed(ThreadError::AllocationFailed));
}

#[test]
fn segment_without_file_bytes_is_mapped_but_not_copied() {
    // The file range of the segment reaches beyond the end of the file.
    let mut image = elf(0x500_0000, &[(0x500_0000, 0x1000, b"")]);
    let filesz_at = 64 + 32;
    image[filesz_at..filesz_at + 8].copy_from_slice(&0x1_0000u64.to_le_bytes());
    let mut loader = new_user_thread(&image).unwrap();
    assert!(loader.segment_data(0).is_none());
    assert!(loader.segment_data(1).is_none());
    assert_eq!(
        loader.advance(true),
        LoadAction::MapRegion { start: 0x500_0000, size: 0x1000, flags: 7 }
    );
    assert_eq!(
        loader.advance(true),
        LoadAction::MapRegion { start: 0x500_2000, size: 0x5000, flags: 7 }
    );
}

#[test]
fn parsing_does_not_depend_on_where_the_bytes_lie() {
    let image = elf(
        0x500_0040,
        &[(0x500_0000, 0x2000, b"first"), (0x600_0000, 0x10, b"second")],
    );
    // Whatever the address of the buffer is, among eight offsets in a row
    // only one is a multiple of eight.
    let mut buffer = vec![0u8; image.len() + 8];
    for shift in 0..8 {
        buffer[shift..shift + image.len()].copy_from_slice(&image);
        let parsed = read_image(&buffer[shift..shift + image.len()]).unwrap();
        assert_eq!(parsed.entry, 0x500_0040);
        assert_eq!(parsed.segments.len(), 2);
        assert_eq!(parsed.segments[0].address, 0x500_0000);
        assert_eq!(parsed.segments[0].size, 0x2000);
        assert_eq!(parsed.segments[0].data.as_deref(), Some(&b"first"[..]));
        assert_eq!(parsed.segments[1].address, 0x600_0000);
        assert_eq!(parsed.segments[1].data.as_deref(), Some(&b"second"[..]));
        let mut loader = new_user_thread(&buffer[shift..shift + image.len()]).unwrap();
        assert_eq!(
            loader.advance(true),
            LoadAction::MapRegion { start: 0x500_0000, size: 0x2000, flags: 7 }
        );
    }
}
