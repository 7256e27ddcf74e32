use alien_base::elf::ProgramHeaderInfo;
use alien_base::loader::{image_size_of_segments, load_program, LoadError};

fn seg(offset: u64, vaddr: u64, file_size: u64, mem_size: u64, executable: bool) -> ProgramHeaderInfo {
    ProgramHeaderInfo {
        offset,
        virtual_addr: vaddr,
        file_size,
        mem_size,
        readable: true,
        writable: !executable,
        executable,
    }
}

#[test]
fn image_size_is_last_segment_end_rounded_up() {
    let segs = vec![seg(0, 0, 0x10, 0x10, true), seg(0x10, 0x2000, 0x8, 0x1801, false)];
    assert_eq!(image_size_of_segments(&segs), Ok(0x4000));
    let exact = vec![seg(0, 0x1000, 0, 0x1000, false)];
    assert_eq!(image_size_of_segments(&exact), Ok(0x2000));
}

#[test]
fn image_size_needs_a_segment() {
    assert_eq!(image_size_of_segments(&vec![]), Err(LoadError::NoLoadSegment));
}

#[test]
fn image_size_rejects_an_end_that_cannot_be_rounded() {
    let segs = vec![seg(0, u64::MAX - 0x10, 0, 0x8, false)];
    assert_eq!(image_size_of_segments(&segs), Err(LoadError::SegmentOutOfBounds));
}

#[test]
fn segments_are_copied_in_place_and_text_is_the_last_executable() {
    let bytes: Vec<u8> = (0u8..32).collect();
    let segs = vec![
        seg(0, 0x0, 4, 4, true),
        seg(8, 0x10, 4, 0x20, false),
        seg(16, 0x1004, 2, 2, true),
    ];
    let mut area = vec![0xaau8; 0x1010];
    let text = load_program(&segs, &bytes, 0x40_0000, &mut area, (0, 0));
    assert_eq!(&area[0..4], &[0, 1, 2, 3]);
    assert_eq!(area[4], 0xaa);
    assert_eq!(&area[0x10..0x14], &[8, 9, 10, 11]);
    assert_eq!(area[0x14], 0xaa);
    assert_eq!(&area[0x1004..0x1006], &[16, 17]);
    assert_eq!(text, (0x40_1000, 0x40_2000));
}

#[test]
fn no_executable_segment_keeps_the_text_range() {
    let bytes = vec![7u8; 8];
    let segs = vec![seg(0, 0x100, 8, 8, false)];
    let mut area = vec![0u8; 0x200];
    let text = load_program(&segs, &bytes, 0x1000, &mut area, (0x5000, 0x6000));
    assert_eq!(text, (0x5000, 0x6000));
    assert_eq!(&area[0x100..0x108], &[7u8; 8]);
}

#[test]
fn image_end_just_below_the_rounding_limit() {
    let limit = (usize::MAX - 0x1000) as u64;
    assert_eq!(image_size_of_segments(&vec![seg(0, limit - 8, 0, 8, false)]), Ok(usize::MAX - 0xfff));
    assert_eq!(
        image_size_of_segments(&vec![seg(0, limit - 7, 0, 8, false)]),
        Err(LoadError::SegmentOutOfBounds)
    );
}
