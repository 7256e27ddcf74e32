//! Plain-value views of the ELF structures the domain loader reads, and the
//! trusted calls into `xmas-elf` that produce them from the raw image bytes.

use vstd::prelude::*;
use bytemuck::{cast_slice, pod_collect_to_vec};
use xmas_elf::program::Type;
use xmas_elf::ElfFile;
use xmas_elf::sections::SectionData;
use xmas_elf::symbol_table::Entry;

use crate::elf_layout::{is_elf64, le32, le64, ph_num, program_headers_ok, sections_ok};
use vstd::string::StringSliceAdditionalSpecFns;
use self::SectionContents::{DynSymbols64, Other};

verus! {

/// The segment type of a program header, as `xmas-elf` classifies it.
#[derive(Clone, Copy, Debug, PartialEq, Eq, Structural)]
pub enum ProgramKind {
    Null,
    Load,
    Dynamic,
    Interp,
    Note,
    ShLib,
    Phdr,
    Tls,
    GnuRelro,
    OsSpecific(u32),
    ProcessorSpecific(u32),
    /// A type value that `xmas-elf` rejects.
    Invalid,
}

/// What the loader reads of one program header besides its type.
#[derive(Clone, Copy, Debug)]
pub struct ProgramHeaderInfo {
    pub offset: u64,
    pub virtual_addr: u64,
    pub file_size: u64,
    pub mem_size: u64,
    pub readable: bool,
    pub writable: bool,
    pub executable: bool,
}

/// One entry of a `Rela64` relocation table.
#[derive(Clone, Copy, Debug)]
pub struct RelaEntry {
    pub offset: u64,
    pub addend: u64,
    pub sym_index: u32,
    pub ty: u32,
}

/// What the loader reads of one dynamic symbol.
#[derive(Clone, Copy, Debug)]
pub struct DynSymbol {
    pub shndx: u16,
    pub value: u64,
}

/// The contents of a section, for the two kinds the loader uses.
#[derive(Clone, Debug)]
pub enum SectionContents {
    Rela64(Vec<RelaEntry>),
    DynSymbols64(Vec<DynSymbol>),
    /// Any other kind of section data.
    Other,
}

/// What `ElfFile::new` (`parse_header`) makes of the start of an image: it
/// needs the first 16 bytes, the ELF magic number, a 32-bit or 64-bit
/// class, and the rest of the header of that class.
pub open spec fn elf_header_parse(bytes: Seq<u8>) -> Result<(), &'static str> {
    if bytes.len() < 16 {
        Err("File is shorter than the first ELF header part")
    } else if !(bytes[0] == 0x7fu8 && bytes[1] == 0x45u8 && bytes[2] == 0x4cu8 && bytes[3] == 0x46u8) {
        Err("Did not find ELF magic number")
    } else if bytes[4] != 1u8 && bytes[4] != 2u8 {
        Err("Invalid ELF class")
    } else if (bytes[4] == 1u8 && bytes.len() < 52) || (bytes[4] == 2u8 && bytes.len() < 64) {
        Err("File is shorter than ELF headers")
    } else {
        Ok(())
    }
}

/// What `ElfFile::new` followed by `header.pt2.entry_point()` gives for an
/// image: the header's error, or the entry field (offset 24, 8 bytes in a
/// 64-bit image and 4 in a 32-bit one).
pub open spec fn elf_entry_point_of(bytes: Seq<u8>) -> Result<u64, &'static str> {
    match elf_header_parse(bytes) {
        Err(m) => Err(m),
        Ok(_) => Ok((if is_elf64(bytes) { le64(bytes, 24) } else { le32(bytes, 24) }) as u64),
    }
}

/// What `ElfFile::new` followed by `header.pt2.ph_count()` gives for an
/// image: the header's error, or the program header count field.
pub open spec fn elf_program_header_count_of(bytes: Seq<u8>) -> Result<u16, &'static str> {
    match elf_header_parse(bytes) {
        Err(m) => Err(m),
        Ok(_) => Ok(ph_num(bytes) as u16),
    }
}

/// What `ElfFile::new` followed by `program_header(index)` gives, field by field.
pub uninterp spec fn elf_program_header_of(bytes: Seq<u8>, index: u16) -> Result<ProgramHeaderInfo, &'static str>;

/// What `ElfFile::new`, `program_header(index)` and `get_type()` give.
pub uninterp spec fn elf_program_kind_of(bytes: Seq<u8>, index: u16) -> Result<ProgramKind, &'static str>;

/// What `ElfFile::new`, `find_section_by_name` and `get_data` give for a
/// section name.
pub uninterp spec fn elf_section_of(bytes: Seq<u8>, name: Seq<char>) -> Result<
    Option<Result<SectionContents, &'static str>>,
    &'static str,
>;

/// Parses the ELF header with `xmas_elf::ElfFile::new` and returns the entry
/// point recorded in it, or the parser's error message.
///
/// The parser asserts that its input is aligned for the header structures,
/// so the bytes are first copied into 8-byte words
/// (`bytemuck::pod_collect_to_vec`) and read back as a byte slice of the same
/// length (`bytemuck::cast_slice`): the parser sees the same bytes at an
/// aligned address. `ElfFile::new` checks every length it reads, so no
/// input makes it panic. The result is `elf_entry_point_of` of the bytes.
#[verifier::external_body]
pub(crate) fn elf_entry_point(bytes: &[u8]) -> (r: Result<u64, &'static str>)
    ensures
        r == elf_entry_point_of(bytes@),
{
    let words: Vec<u64> = pod_collect_to_vec(bytes);
    let input = &cast_slice(&words)[..bytes.len()];
    ElfFile::new(input).map(|elf| elf.header.pt2.entry_point())
}

/// Parses the ELF header with `xmas_elf::ElfFile::new` and returns the number
/// of program headers it records (`ph_count`).
///
/// The bytes are read from an aligned copy as for `elf_entry_point`; no
/// input makes the parser panic. The result is
/// `elf_program_header_count_of` of the bytes.
#[verifier::external_body]
pub(crate) fn elf_program_header_count(bytes: &[u8]) -> (r: Result<u16, &'static str>)
    ensures
        r == elf_program_header_count_of(bytes@),
{
    let words: Vec<u64> = pod_collect_to_vec(bytes);
    let input = &cast_slice(&words)[..bytes.len()];
    ElfFile::new(input).map(|elf| elf.header.pt2.ph_count())
}

/// Reads program header `index` with `ElfFile::program_header` and returns
/// its offset, addresses, sizes and the `is_read`/`is_write`/`is_execute`
/// bits of its flags.
///
/// The bytes are read from an aligned copy as for `elf_entry_point`.
/// `program_header` slices the table entry without a length check and
/// reads it with an alignment and size assertion; `program_headers_ok`
/// (table inside the image, entries aligned and large enough) rules those
/// panics out. The result is named by `elf_program_header_of`.
#[verifier::external_body]
pub(crate) fn elf_program_header(bytes: &[u8], index: u16) -> (r: Result<ProgramHeaderInfo, &'static str>)
    requires
        program_headers_ok(bytes@),
    ensures
        r == elf_program_header_of(bytes@, index),
{
    let words: Vec<u64> = pod_collect_to_vec(bytes);
    let elf = ElfFile::new(&cast_slice(&words)[..bytes.len()])?;
    let ph = elf.program_header(index)?;
    let f = ph.flags();
    Ok(ProgramHeaderInfo {
        offset: ph.offset(), virtual_addr: ph.virtual_addr(), file_size: ph.file_size(),
        mem_size: ph.mem_size(), readable: f.is_read(), writable: f.is_write(), executable: f.is_execute(),
    })
}

/// Reads the type of program header `index` with `ProgramHeader::get_type`,
/// one variant of `xmas_elf::program::Type` to one of `ProgramKind`, and a
/// rejected type value to `ProgramKind::Invalid`.
///
/// The bytes are read from an aligned copy and `program_headers_ok` rules
/// out the parser's panics, as for `elf_program_header`. The result is named
/// by `elf_program_kind_of`.
#[verifier::external_body]
pub(crate) fn elf_program_kind(bytes: &[u8], index: u16) -> (r: Result<ProgramKind, &'static str>)
    requires
        program_headers_ok(bytes@),
    ensures
        r == elf_program_kind_of(bytes@, index),
{
    let words: Vec<u64> = pod_collect_to_vec(bytes);
    let ty = ElfFile::new(&cast_slice(&words)[..bytes.len()])?.program_header(index)?.get_type();
    Ok(match ty {
        Ok(Type::Null) => ProgramKind::Null, Ok(Type::Load) => ProgramKind::Load,
        Ok(Type::Dynamic) => ProgramKind::Dynamic, Ok(Type::Interp) => ProgramKind::Interp,
        Ok(Type::Note) => ProgramKind::Note, Ok(Type::ShLib) => ProgramKind::ShLib,
        Ok(Type::Phdr) => ProgramKind::Phdr, Ok(Type::Tls) => ProgramKind::Tls,
        Ok(Type::GnuRelro) => ProgramKind::GnuRelro,
        Ok(Type::OsSpecific(t)) => ProgramKind::OsSpecific(t),
        Ok(Type::ProcessorSpecific(t)) => ProgramKind::ProcessorSpecific(t),
        Err(_) => ProgramKind::Invalid,
    })
}

/// Parses the image with `xmas_elf::ElfFile::new`, looks the section up with
/// `find_section_by_name` and reads it with `get_data`, converting a
/// `Rela64` table or a 64-bit dynamic symbol table entry by entry.
///
/// The bytes are read from an aligned copy as for `elf_entry_point`. The
/// lookup asserts that section indices are below the reserved range, slices
/// section headers, the name table and section data, reads names as
/// NUL-terminated UTF-8, and reads tables with size and alignment
/// assertions; `sections_ok` for `name` (header table inside the image and
/// aligned, the names the lookup reads inside the image and ASCII, the data
/// of any section so named inside the image, aligned, in whole entries)
/// rules those panics out. The result is named
/// by `elf_section_of`.
#[verifier::external_body]
pub(crate) fn elf_section(bytes: &[u8], name: &str) -> (r: Result<
    Option<Result<SectionContents, &'static str>>,
    &'static str,
>)
    requires
        sections_ok(bytes@, name.spec_bytes()),
    ensures
        r == elf_section_of(bytes@, name@),
{
    let words: Vec<u64> = pod_collect_to_vec(bytes);
    let elf = ElfFile::new(&cast_slice(&words)[..bytes.len()])?;
    Ok(elf.find_section_by_name(name).map(|section| section.get_data(&elf).map(|data| match data {
        SectionData::Rela64(es) => SectionContents::Rela64(es.iter().map(|e| RelaEntry {
            offset: e.get_offset(), addend: e.get_addend(),
            sym_index: e.get_symbol_table_index(), ty: e.get_type(),
        }).collect()),
        SectionData::DynSymbolTable64(ss) => DynSymbols64(
            ss.iter().map(|s| DynSymbol { shndx: s.shndx(), value: s.value() }).collect()),
        _ => Other,
    })))
}

} // verus!
