use std::sync::Arc;

use alien_base::elf::{DynSymbol, RelaEntry};
use alien_base::elf_layout::{elf_section_ok, elf_tables_ok};
use alien_base::loader::{
    load_segments, reloc_class, relocate_dyn, relocate_entries, relocate_entry, relocation_name, DomainLoader,
    LoadError, RelocArch, RelocClass, R_X86_64_64, R_X86_64_GLOB_DAT, R_X86_64_RELATIVE,
};

const PT_LOAD: u32 = 1;
const PT_NOTE: u32 = 4;
const PF_X: u32 = 1;
const PF_W: u32 = 2;
const PF_R: u32 = 4;

struct Seg {
    ty: u32,
    flags: u32,
    offset: u64,
    vaddr: u64,
    filesz: u64,
    memsz: u64,
}

struct Sect {
    name: &'static str,
    ty: u32,
    entsize: u64,
    data: Vec<u8>,
}

fn put16(v: &mut Vec<u8>, x: u16) {
    v.extend_from_slice(&x.to_le_bytes());
}
fn put32(v: &mut Vec<u8>, x: u32) {
    v.extend_from_slice(&x.to_le_bytes());
}
fn put64(v: &mut Vec<u8>, x: u64) {
    v.extend_from_slice(&x.to_le_bytes());
}

fn rela(offset: u64, sym: u32, ty: u32, addend: u64) -> Vec<u8> {
    let mut v = Vec::new();
    put64(&mut v, offset);
    put64(&mut v, ((sym as u64) << 32) | ty as u64);
    put64(&mut v, addend);
    v
}

fn dynsym(shndx: u16, value: u64) -> Vec<u8> {
    let mut v = Vec::new();
    put32(&mut v, 0);
    v.push(0);
    v.push(0);
    put16(&mut v, shndx);
    put64(&mut v, value);
    put64(&mut v, 0);
    v
}

/// An ELF64 little-endian shared object with the given program headers,
/// file payload (placed at offset 0x200) and sections.
fn build_elf(entry: u64, segs: &[Seg], payload: &[u8], sects: &[Sect]) -> Vec<u8> {
    let mut shstr: Vec<u8> = vec![0];
    let mut names = Vec::new();
    for s in sects {
        names.push(shstr.len() as u32);
        shstr.extend_from_slice(s.name.as_bytes());
        shstr.push(0);
    }
    let shstr_name = shstr.len() as u32;
    shstr.extend_from_slice(b".shstrtab\0");

    let mut body = vec![0u8; 0x200];
    body.extend_from_slice(payload);
    while body.len() % 8 != 0 {
        body.push(0);
    }
    let mut offsets = Vec::new();
    for s in sects {
        offsets.push(body.len() as u64);
        body.extend_from_slice(&s.data);
        while body.len() % 8 != 0 {
            body.push(0);
        }
    }
    let shstr_off = body.len() as u64;
    body.extend_from_slice(&shstr);
    while body.len() % 8 != 0 {
        body.push(0);
    }
    let shoff = body.len() as u64;
    let shnum = sects.len() as u16 + 2;

    let mut h = Vec::new();
    h.extend_from_slice(&[0x7f, b'E', b'L', b'F', 2, 1, 1, 0]);
    h.extend_from_slice(&[0; 8]);
    put16(&mut h, 3);
    put16(&mut h, 0x3e);
    put32(&mut h, 1);
    put64(&mut h, entry);
    put64(&mut h, 64);
    put64(&mut h, shoff);
    put32(&mut h, 0);
    put16(&mut h, 64);
    put16(&mut h, 56);
    put16(&mut h, segs.len() as u16);
    put16(&mut h, 64);
    put16(&mut h, shnum);
    put16(&mut h, shnum - 1);
    for s in segs {
        put32(&mut h, s.ty);
        put32(&mut h, s.flags);
        put64(&mut h, s.offset);
        put64(&mut h, s.vaddr);
        put64(&mut h, s.vaddr);
        put64(&mut h, s.filesz);
        put64(&mut h, s.memsz);
        put64(&mut h, 0x1000);
    }
    assert!(h.len() <= 0x200);
    body[..h.len()].copy_from_slice(&h);

    // section headers: null, the given ones, .shstrtab
    body.extend_from_slice(&[0u8; 64]);
    for (i, s) in sects.iter().enumerate() {
        let mut sh = Vec::new();
        put32(&mut sh, names[i]);
        put32(&mut sh, s.ty);
        put64(&mut sh, 0);
        put64(&mut sh, 0);
        put64(&mut sh, offsets[i]);
        put64(&mut sh, s.data.len() as u64);
        put32(&mut sh, 0);
        put32(&mut sh, 0);
        put64(&mut sh, 8);
        put64(&mut sh, s.entsize);
        body.extend_from_slice(&sh);
    }
    let mut sh = Vec::new();
    put32(&mut sh, shstr_name);
    put32(&mut sh, 3);
    put64(&mut sh, 0);
    put64(&mut sh, 0);
    put64(&mut sh, shstr_off);
    put64(&mut sh, shstr.len() as u64);
    put32(&mut sh, 0);
    put32(&mut sh, 0);
    put64(&mut sh, 1);
    put64(&mut sh, 0);
    body.extend_from_slice(&sh);
    body
}

/// Two loadable segments: text at 0x0 (file 0x200..0x210, executable) and
/// data at 0x2000 (file 0x210..0x218, 0x20 bytes in memory).
fn sample_segments() -> Vec<Seg> {
    vec![
        Seg { ty: PT_NOTE, flags: PF_R, offset: 0x200, vaddr: 0x9000, filesz: 4, memsz: 4 },
        Seg { ty: PT_LOAD, flags: PF_R | PF_X, offset: 0x200, vaddr: 0x0, filesz: 0x10, memsz: 0x10 },
        Seg { ty: PT_LOAD, flags: PF_R | PF_W, offset: 0x210, vaddr: 0x2000, filesz: 0x8, memsz: 0x20 },
    ]
}

fn sample_payload() -> Vec<u8> {
    (1u8..=0x18).collect()
}

fn sample_sections() -> Vec<Sect> {
    let mut rela_dyn = rela(0x2000, 0, R_X86_64_RELATIVE, 0x10);
    rela_dyn.extend(rela(0x2008, 1, R_X86_64_GLOB_DAT, 0));
    let rela_plt = rela(0x2010, 1, 7, 4);
    let mut syms = dynsym(0, 0);
    syms.extend(dynsym(5, 0x100));
    vec![
        Sect { name: ".dynsym", ty: 11, entsize: 24, data: syms },
        Sect { name: ".rela.dyn", ty: 4, entsize: 24, data: rela_dyn },
        Sect { name: ".rela.plt", ty: 4, entsize: 24, data: rela_plt },
    ]
}

fn sample_loader() -> DomainLoader {
    let image = build_elf(0x4, &sample_segments(), &sample_payload(), &sample_sections());
    DomainLoader::new(Arc::new(image), "sample")
}

#[test]
fn image_size_rounds_last_segment_end_up_to_a_page() {
    let loader = sample_loader();
    assert_eq!(loader.image_size(), Ok(0x3000));
}

#[test]
fn load_copies_segments_and_zero_fills() {
    let mut loader = sample_loader();
    let mut area = vec![0xaau8; 0x3000];
    let base = 0x4000_0000usize;
    let relocs = loader.load_into(base, &mut area, RelocArch::X86_64).expect("loads");
    assert_eq!(loader.virt_start(), base);
    // text segment bytes at 0x0
    assert_eq!(&area[0..0x10], &(1u8..=0x10).collect::<Vec<u8>>()[..]);
    // data segment file bytes at 0x2000, then zeros (bss)
    assert_eq!(&area[0x2000..0x2008], &(0x11u8..=0x18).collect::<Vec<u8>>()[..]);
    assert!(area[0x2008..0x2020].iter().all(|b| *b == 0));
    // gap between segments is zero
    assert!(area[0x10..0x2000].iter().all(|b| *b == 0));
    assert!(area[0x2020..].iter().all(|b| *b == 0));
    // relocations: relative, symbolic (GOT), then the PLT section
    assert_eq!(
        relocs,
        vec![(base + 0x2000, base + 0x10), (base + 0x2008, base + 0x100), (base + 0x2010, base + 0x104)]
    );
    // text range: the executable segment, page aligned
    assert_eq!(loader.text_region(), Some((base, 1)));
    assert_eq!(loader.entry_addr(), 0);
    loader.finish_load().expect("entry");
    assert_eq!(loader.entry_addr(), base + 4);
}

#[test]
fn relocations_move_with_the_base() {
    let image = build_elf(0x4, &sample_segments(), &sample_payload(), &sample_sections());
    let a = relocate_dyn(&image, 0x1000, RelocArch::X86_64).unwrap();
    let b = relocate_dyn(&image, 0x9000, RelocArch::X86_64).unwrap();
    assert_eq!(a.len(), b.len());
    for (x, y) in a.iter().zip(b.iter()) {
        assert_eq!(y.0 - x.0, 0x8000);
        assert_eq!(y.1 - x.1, 0x8000);
    }
}

#[test]
fn load_rejects_non_elf() {
    let loader = DomainLoader::new(Arc::new(vec![0u8; 64]), "junk");
    assert_eq!(loader.image_size(), Err(LoadError::NotElf));
    assert_eq!(LoadError::NotElf.message(), "not a elf file");
}

#[test]
fn load_reports_parser_errors() {
    let mut bytes = vec![0x7f, b'E', b'L', b'F'];
    bytes.extend_from_slice(&[0u8; 4]);
    let loader = DomainLoader::new(Arc::new(bytes), "short");
    match loader.image_size() {
        Err(LoadError::Elf(_)) => {}
        other => panic!("unexpected {:?}", other),
    }
}

#[test]
fn image_without_load_segment_is_rejected() {
    let segs = vec![Seg { ty: PT_NOTE, flags: PF_R, offset: 0x200, vaddr: 0, filesz: 4, memsz: 4 }];
    let image = build_elf(0, &segs, &sample_payload(), &sample_sections());
    let loader = DomainLoader::new(Arc::new(image), "noload");
    assert_eq!(loader.image_size(), Err(LoadError::NoLoadSegment));
}

#[test]
fn segment_outside_the_area_is_rejected_without_change() {
    let mut loader = sample_loader();
    let mut area = vec![0xaau8; 0x1000];
    assert_eq!(loader.load_into(0x10_0000, &mut area, RelocArch::X86_64), Err(LoadError::SegmentOutOfBounds));
    assert!(area.iter().all(|b| *b == 0xaa));
    assert_eq!(loader.virt_start(), 0);
    assert_eq!(loader.text_region(), None);
}

#[test]
fn unsupported_relocation_type_fails() {
    let sects = vec![Sect { name: ".rela.dyn", ty: 4, entsize: 24, data: rela(0, 0, 37, 0) }];
    let image = build_elf(0, &sample_segments(), &sample_payload(), &sects);
    assert_eq!(relocate_dyn(&image, 0x1000, RelocArch::X86_64), Err(LoadError::UnsupportedRelocation));
}

#[test]
fn symbolic_relocation_without_dynsym_fails() {
    let sects = vec![Sect { name: ".rela.dyn", ty: 4, entsize: 24, data: rela(0, 1, R_X86_64_64, 0) }];
    let image = build_elf(0, &sample_segments(), &sample_payload(), &sects);
    assert_eq!(relocate_dyn(&image, 0x1000, RelocArch::X86_64), Err(LoadError::MissingDynsym));
}

#[test]
fn relocation_section_of_wrong_kind_fails() {
    let sects = vec![Sect { name: ".rela.plt", ty: 3, entsize: 0, data: b"abc\0".to_vec() }];
    let image = build_elf(0, &sample_segments(), &sample_payload(), &sects);
    assert_eq!(relocate_dyn(&image, 0x1000, RelocArch::X86_64), Err(LoadError::BadRelocationSection));
}

#[test]
fn image_without_relocations_needs_no_words() {
    let image = build_elf(0, &sample_segments(), &sample_payload(), &[]);
    assert_eq!(relocate_dyn(&image, 0x1000, RelocArch::X86_64), Ok(vec![]));
}

#[test]
fn entries_stop_at_first_failure() {
    let syms = vec![DynSymbol { shndx: 0, value: 0 }, DynSymbol { shndx: 1, value: 0x40 }];
    let entries = vec![
        RelaEntry { offset: 8, addend: 2, sym_index: 0, ty: R_X86_64_RELATIVE },
        RelaEntry { offset: 16, addend: 0, sym_index: 0, ty: R_X86_64_64 },
        RelaEntry { offset: 24, addend: 0, sym_index: 1, ty: R_X86_64_64 },
    ];
    let mut res = vec![(1usize, 1usize)];
    assert_eq!(relocate_entries(&entries, Some(&syms), 0x100, RelocArch::X86_64, &mut res), Err(LoadError::UnresolvedSymbol));
    assert_eq!(res, vec![(1, 1), (0x108, 0x102)]);

    let bad = vec![RelaEntry { offset: 0, addend: 0, sym_index: 7, ty: R_X86_64_GLOB_DAT }];
    assert_eq!(relocate_entry(&bad[0], Some(&syms), 0, RelocArch::X86_64), Err(LoadError::BadSymbolIndex));
    assert_eq!(relocate_entry(&entries[2], Some(&syms), 0x100, RelocArch::X86_64), Ok((0x118, 0x140)));
    assert_eq!(relocate_entry(&entries[0], None, usize::MAX, RelocArch::X86_64), Ok((7, 1)));
}

#[test]
fn riscv_relocation_numbering() {
    assert_eq!(reloc_class(RelocArch::Riscv64, 3), RelocClass::Relative);
    assert_eq!(reloc_class(RelocArch::Riscv64, 2), RelocClass::Symbolic);
    assert_eq!(reloc_class(RelocArch::Riscv64, 5), RelocClass::Symbolic);
    assert_eq!(reloc_class(RelocArch::Riscv64, 4), RelocClass::Unsupported);
    assert_eq!(reloc_class(RelocArch::X86_64, 8), RelocClass::Relative);
    assert_eq!(reloc_class(RelocArch::X86_64, 6), RelocClass::Symbolic);
    assert_eq!(reloc_class(RelocArch::X86_64, 5), RelocClass::Unsupported);
    assert_eq!(relocation_name(RelocArch::Riscv64, 3), "R_RISCV_RELATIVE");
    assert_eq!(relocation_name(RelocArch::X86_64, 37), "R_X86_64_IRELATIVE");
    assert_eq!(relocation_name(RelocArch::X86_64, 99), "UNKNOWN");
}

#[test]
fn empty_loader_and_file_info() {
    let l = DomainLoader::empty();
    let (name, size) = l.domain_file_info();
    assert_eq!(name, "empty_loader");
    assert_eq!(size, 0);
    assert_eq!(l.virt_start(), 0);
    assert_eq!(l.entry_addr(), 0);
}

#[test]
fn clone_forgets_the_load() {
    let mut loader = sample_loader();
    let mut area = vec![0u8; 0x3000];
    loader.load_into(0x8000, &mut area, RelocArch::X86_64).unwrap();
    loader.finish_load().unwrap();
    let c = loader.clone();
    assert_eq!(c.virt_start(), 0);
    assert_eq!(c.entry_addr(), 0);
    assert_eq!(c.text_region(), loader.text_region());
    assert_eq!(c.domain_file_info().0, "sample");
}

fn sample_image() -> Vec<u8> {
    build_elf(0x4, &sample_segments(), &sample_payload(), &sample_sections())
}

fn shoff(image: &[u8]) -> usize {
    u64::from_le_bytes(image[40..48].try_into().unwrap()) as usize
}

fn set64(image: &mut [u8], at: usize, v: u64) {
    image[at..at + 8].copy_from_slice(&v.to_le_bytes());
}

#[test]
fn well_formed_image_passes_the_table_check() {
    assert!(elf_tables_ok(&sample_image()));
    assert!(elf_tables_ok(&[0u8; 3]));
}

#[test]
fn section_data_past_the_end_is_malformed() {
    let mut image = sample_image();
    let sh = shoff(&image);
    let len = image.len() as u64;
    // size of .rela.dyn (section 2) reaching past the end of the file
    set64(&mut image, sh + 2 * 64 + 32, len);
    assert!(!elf_tables_ok(&image));
    assert!(!elf_section_ok(&image, b".rela.dyn"));
    assert!(elf_section_ok(&image, b".rela.plt"));
    let mut loader = DomainLoader::new(Arc::new(image), "bad");
    // the program headers are fine, so the image size is known
    assert_eq!(loader.image_size(), Ok(0x3000));
    let mut area = vec![0xaau8; 0x3000];
    assert_eq!(loader.load_into(0x1000, &mut area, RelocArch::X86_64), Err(LoadError::MalformedTables));
    assert!(area.iter().all(|b| *b == 0xaa));
    assert_eq!(LoadError::MalformedTables.message(), "malformed ELF tables");
}

#[test]
fn unread_section_past_the_end_is_accepted() {
    let mut sects = sample_sections();
    sects.push(Sect { name: ".comment", ty: 1, entsize: 0, data: b"x\0".to_vec() });
    let mut image = build_elf(0x4, &sample_segments(), &sample_payload(), &sects);
    let sh = shoff(&image);
    let len = image.len() as u64;
    // size of .comment (section 4) reaching past the end of the file
    set64(&mut image, sh + 4 * 64 + 32, len);
    assert!(!elf_section_ok(&image, b".comment"));
    assert!(elf_tables_ok(&image));
    let mut loader = DomainLoader::new(Arc::new(image), "comment");
    let mut area = vec![0u8; 0x3000];
    assert_eq!(loader.load_into(0x1000, &mut area, RelocArch::X86_64).map(|v| v.len()), Ok(3));
}


#[test]
fn section_name_outside_the_name_table_is_malformed() {
    let mut image = sample_image();
    let sh = shoff(&image);
    image[sh + 64..sh + 68].copy_from_slice(&0xffff_fff0u32.to_le_bytes());
    assert!(!elf_tables_ok(&image));
    let mut loader = DomainLoader::new(Arc::new(image), "bad");
    let mut area = vec![0u8; 0x3000];
    assert_eq!(loader.load_into(0x1000, &mut area, RelocArch::X86_64), Err(LoadError::MalformedTables));
    assert_eq!(loader.virt_start(), 0);
}

#[test]
fn misaligned_relocation_table_is_malformed() {
    let mut image = sample_image();
    let sh = shoff(&image);
    let off = u64::from_le_bytes(image[sh + 2 * 64 + 24..sh + 2 * 64 + 32].try_into().unwrap());
    set64(&mut image, sh + 2 * 64 + 24, off + 4);
    assert!(!elf_tables_ok(&image));
}

#[test]
fn program_header_table_past_the_end_is_malformed() {
    let mut image = sample_image();
    // 0x300 program headers of 56 bytes cannot fit
    image[56..58].copy_from_slice(&0x300u16.to_le_bytes());
    assert!(!elf_tables_ok(&image));
    let loader = DomainLoader::new(Arc::new(image), "bad");
    assert_eq!(loader.image_size(), Err(LoadError::MalformedTables));
}

#[test]
fn image_at_an_odd_address_parses_the_same() {
    let image = sample_image();
    let mut shifted = vec![0u8];
    shifted.extend_from_slice(&image);
    let odd = &shifted[1..];
    assert_eq!(load_segments(odd).unwrap().len(), 2);
    assert_eq!(
        relocate_dyn(odd, 0x1000, RelocArch::X86_64).unwrap(),
        relocate_dyn(&image, 0x1000, RelocArch::X86_64).unwrap()
    );
}

#[test]
fn header_errors_are_the_parsers() {
    let mut short = vec![0x7f, b'E', b'L', b'F'];
    short.extend_from_slice(&[2u8; 12]);
    let loader = DomainLoader::new(Arc::new(short), "short64");
    assert_eq!(loader.image_size(), Err(LoadError::Elf("File is shorter than ELF headers")));
    let mut bad_class = vec![0x7f, b'E', b'L', b'F', 3];
    bad_class.extend_from_slice(&[0u8; 59]);
    let loader = DomainLoader::new(Arc::new(bad_class), "class");
    assert_eq!(loader.image_size(), Err(LoadError::Elf("Invalid ELF class")));
}
