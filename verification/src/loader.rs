//! The domain loader: turns an ELF image of a domain into a runtime image at
//! a given base, with its dynamic relocations and executable text range.
//!
//! Mapping memory, writing the relocated words and changing page
//! permissions stay with the caller; the loader decides what to copy where,
//! which words to write and which pages become executable.

use std::ops::Range;
use vstd::arithmetic::div_mod::{lemma_add_mod_noop, lemma_mod_add_multiples_vanish, lemma_small_mod};
use std::sync::Arc;
use vstd::prelude::*;

use crate::addr::{
    align_down_4k, align_down_4k_spec, align_up_4k, align_up_4k_spec, lemma_align_down_4k,
    lemma_align_up_4k,
};
use crate::elf_layout::{
    elf_program_headers_ok, elf_tables_ok, elf_tables_ok_spec, program_headers_ok,
    relocation_sections_ok, sections_ok,
};
use vstd::string::StringSliceAdditionalSpecFns;
use crate::elf::{
    elf_entry_point, elf_entry_point_of, elf_program_header, elf_program_header_count,
    elf_program_header_count_of, elf_program_header_of, elf_program_kind, elf_program_kind_of,
    elf_section, elf_section_of, DynSymbol, ProgramHeaderInfo, ProgramKind, RelaEntry,
    SectionContents,
};

verus! {

/// Size of the pages the loader maps and protects.
pub const FRAME_SIZE: usize = 4096;

/// RISC-V relocation types.
pub const R_RISCV_64: u32 = 2;
pub const R_RISCV_RELATIVE: u32 = 3;
pub const R_RISCV_COPY: u32 = 4;
pub const R_RISCV_JUMP_SLOT: u32 = 5;
/// x86-64 relocation types.
pub const R_X86_64_64: u32 = 1;
pub const R_X86_64_COPY: u32 = 5;
pub const R_X86_64_GLOB_DAT: u32 = 6;
pub const R_X86_64_JUMP_SLOT: u32 = 7;
pub const R_X86_64_RELATIVE: u32 = 8;
pub const R_X86_64_IRELATIVE: u32 = 37;

/// The architecture whose relocation numbering an image uses.
#[derive(Clone, Copy, Debug, PartialEq, Eq, Structural)]
pub enum RelocArch {
    X86_64,
    Riscv64,
}

/// How the loader treats a relocation type.
#[derive(Clone, Copy, Debug, PartialEq, Eq, Structural)]
pub enum RelocClass {
    /// Base plus addend.
    Relative,
    /// Base plus symbol value plus addend (absolute, GOT and PLT entries).
    Symbolic,
    /// Not handled by the loader.
    Unsupported,
}

/// Why loading a domain image failed.
#[derive(Clone, Copy, Debug, PartialEq, Eq)]
pub enum LoadError {
    /// The image does not start with the ELF magic number.
    NotElf,
    /// `xmas-elf` rejected the image, with its message.
    Elf(&'static str),
    /// A relocation section could not be read as a `Rela64` table.
    BadRelocationSection,
    /// `.dynsym` could not be read as a 64-bit dynamic symbol table.
    BadDynsym,
    /// A symbolic relocation in an image without `.dynsym`.
    MissingDynsym,
    /// A relocation names a symbol past the end of `.dynsym`.
    BadSymbolIndex,
    /// A relocation names an undefined symbol.
    UnresolvedSymbol,
    /// A relocation type the loader does not handle.
    UnsupportedRelocation,
    /// The image has no loadable segment.
    NoLoadSegment,
    /// A loadable segment lies outside the file or the runtime image, or its
    /// addresses overflow.
    SegmentOutOfBounds,
    /// The program header table, the section header table, a section name
    /// or a section's data runs past the end of the image or is not laid
    /// out as its entries need.
    MalformedTables,
}

/// The message the loader reports for error `e`; a parser error carries
/// its own.
pub open spec fn load_error_message(e: LoadError) -> &'static str {
    match e {
        LoadError::NotElf => "not a elf file",
        LoadError::Elf(m) => m,
        LoadError::BadRelocationSection => "bad relocation section",
        LoadError::BadDynsym => "bad .dynsym",
        LoadError::MissingDynsym => "missing .dynsym for symbolic relocation",
        LoadError::BadSymbolIndex => "bad relocation symbol index",
        LoadError::UnresolvedSymbol => "unresolved relocation symbol",
        LoadError::UnsupportedRelocation => "unsupported relocation type",
        LoadError::NoLoadSegment => "no loadable segment",
        LoadError::SegmentOutOfBounds => "segment out of bounds",
        LoadError::MalformedTables => "malformed ELF tables",
    }
}

impl LoadError {
    /// The message the loader reports for this error.
    pub fn message(&self) -> (r: &'static str)
        ensures
            r == load_error_message(*self),
    {
        match self {
            LoadError::NotElf => "not a elf file",
            LoadError::Elf(m) => m,
            LoadError::BadRelocationSection => "bad relocation section",
            LoadError::BadDynsym => "bad .dynsym",
            LoadError::MissingDynsym => "missing .dynsym for symbolic relocation",
            LoadError::BadSymbolIndex => "bad relocation symbol index",
            LoadError::UnresolvedSymbol => "unresolved relocation symbol",
            LoadError::UnsupportedRelocation => "unsupported relocation type",
            LoadError::NoLoadSegment => "no loadable segment",
            LoadError::SegmentOutOfBounds => "segment out of bounds",
            LoadError::MalformedTables => "malformed ELF tables",
        }
    }
}

/// The class of relocation type `ty` on `arch`; the relative type is
/// checked first, as RISC-V has no GOT type and uses `u32::MAX` for it.
pub open spec fn reloc_class_spec(arch: RelocArch, ty: u32) -> RelocClass {
    match arch {
        RelocArch::X86_64 => if ty == R_X86_64_RELATIVE {
            RelocClass::Relative
        } else if ty == R_X86_64_64 || ty == R_X86_64_GLOB_DAT || ty == R_X86_64_JUMP_SLOT {
            RelocClass::Symbolic
        } else {
            RelocClass::Unsupported
        },
        RelocArch::Riscv64 => if ty == R_RISCV_RELATIVE {
            RelocClass::Relative
        } else if ty == R_RISCV_64 || ty == u32::MAX || ty == R_RISCV_JUMP_SLOT {
            RelocClass::Symbolic
        } else {
            RelocClass::Unsupported
        },
    }
}

/// Classifies relocation type `ty` on `arch`.
pub fn reloc_class(arch: RelocArch, ty: u32) -> (r: RelocClass)
    ensures
        r == reloc_class_spec(arch, ty),
{
    match arch {
        RelocArch::X86_64 => if ty == R_X86_64_RELATIVE {
            RelocClass::Relative
        } else if ty == R_X86_64_64 || ty == R_X86_64_GLOB_DAT || ty == R_X86_64_JUMP_SLOT {
            RelocClass::Symbolic
        } else {
            RelocClass::Unsupported
        },
        RelocArch::Riscv64 => if ty == R_RISCV_RELATIVE {
            RelocClass::Relative
        } else if ty == R_RISCV_64 || ty == u32::MAX || ty == R_RISCV_JUMP_SLOT {
            RelocClass::Symbolic
        } else {
            RelocClass::Unsupported
        },
    }
}

/// The name of relocation type `ty` on `arch`, "UNKNOWN" for others.
pub fn relocation_name(arch: RelocArch, ty: u32) -> (r: &'static str)
    ensures
        r == (match arch {
            RelocArch::Riscv64 => if ty == R_RISCV_64 { "R_RISCV_64" } else if ty
                == R_RISCV_RELATIVE { "R_RISCV_RELATIVE" } else if ty == R_RISCV_COPY {
                "R_RISCV_COPY"
            } else if ty == R_RISCV_JUMP_SLOT { "R_RISCV_JUMP_SLOT" } else { "UNKNOWN" },
            RelocArch::X86_64 => if ty == R_X86_64_64 { "R_X86_64_64" } else if ty
                == R_X86_64_COPY { "R_X86_64_COPY" } else if ty == R_X86_64_GLOB_DAT {
                "R_X86_64_GLOB_DAT"
            } else if ty == R_X86_64_JUMP_SLOT { "R_X86_64_JUMP_SLOT" } else if ty
                == R_X86_64_RELATIVE { "R_X86_64_RELATIVE" } else if ty == R_X86_64_IRELATIVE {
                "R_X86_64_IRELATIVE"
            } else { "UNKNOWN" },
        }),
{
    match arch {
        RelocArch::Riscv64 => if ty == R_RISCV_64 {
            "R_RISCV_64"
        } else if ty == R_RISCV_RELATIVE {
            "R_RISCV_RELATIVE"
        } else if ty == R_RISCV_COPY {
            "R_RISCV_COPY"
        } else if ty == R_RISCV_JUMP_SLOT {
            "R_RISCV_JUMP_SLOT"
        } else {
            "UNKNOWN"
        },
        RelocArch::X86_64 => if ty == R_X86_64_64 {
            "R_X86_64_64"
        } else if ty == R_X86_64_COPY {
            "R_X86_64_COPY"
        } else if ty == R_X86_64_GLOB_DAT {
            "R_X86_64_GLOB_DAT"
        } else if ty == R_X86_64_JUMP_SLOT {
            "R_X86_64_JUMP_SLOT"
        } else if ty == R_X86_64_RELATIVE {
            "R_X86_64_RELATIVE"
        } else if ty == R_X86_64_IRELATIVE {
            "R_X86_64_IRELATIVE"
        } else {
            "UNKNOWN"
        },
    }
}

/// The word one relocation entry writes, as (runtime address, value), for an
/// image loaded at `base`. Addresses wrap at the word size.
pub open spec fn relocate_entry_spec(
    e: RelaEntry,
    dynsym: Option<Seq<DynSymbol>>,
    base: usize,
    arch: RelocArch,
) -> Result<(usize, usize), LoadError> {
    let addr = base.wrapping_add(e.offset as usize);
    match reloc_class_spec(arch, e.ty) {
        RelocClass::Relative => Ok((addr, base.wrapping_add(e.addend as usize))),
        RelocClass::Symbolic => match dynsym {
            None => Err(LoadError::MissingDynsym),
            Some(syms) => if (e.sym_index as int) < syms.len() {
                let sym = syms[e.sym_index as int];
                if sym.shndx == 0 {
                    Err(LoadError::UnresolvedSymbol)
                } else {
                    Ok((addr, base.wrapping_add(sym.value as usize).wrapping_add(e.addend as usize)))
                }
            } else {
                Err(LoadError::BadSymbolIndex)
            },
        },
        RelocClass::Unsupported => Err(LoadError::UnsupportedRelocation),
    }
}

/// Running the entries in order: the words of the entries before the first
/// failing one, and that entry's error if there is one.
pub open spec fn relocate_run(
    entries: Seq<RelaEntry>,
    dynsym: Option<Seq<DynSymbol>>,
    base: usize,
    arch: RelocArch,
) -> (Seq<(usize, usize)>, Option<LoadError>)
    decreases entries.len(),
{
    if entries.len() == 0 {
        (seq![], None)
    } else {
        match relocate_entry_spec(entries[0], dynsym, base, arch) {
            Err(e) => (seq![], Some(e)),
            Ok(w) => {
                let rest = relocate_run(entries.drop_first(), dynsym, base, arch);
                (seq![w] + rest.0, rest.1)
            },
        }
    }
}

/// The contents of an optional vector.
pub open spec fn opt_vec_view<T>(v: Option<&Vec<T>>) -> Option<Seq<T>> {
    match v {
        Some(v) => Some(v@),
        None => None,
    }
}

/// The outcome of a run: its error, if it stopped at one.
pub open spec fn run_result(o: Option<LoadError>) -> Result<(), LoadError> {
    match o {
        Some(e) => Err(e),
        None => Ok(()),
    }
}

/// Computes the word of one relocation entry.
pub fn relocate_entry(
    e: &RelaEntry,
    dynsym: Option<&Vec<DynSymbol>>,
    base: usize,
    arch: RelocArch,
) -> (r: Result<(usize, usize), LoadError>)
    ensures
        r == relocate_entry_spec(*e, opt_vec_view(dynsym), base, arch),
{
    let addr = base.wrapping_add(e.offset as usize);
    match reloc_class(arch, e.ty) {
        RelocClass::Relative => Ok((addr, base.wrapping_add(e.addend as usize))),
        RelocClass::Symbolic => {
            let syms = match dynsym {
                None => {
                    return Err(LoadError::MissingDynsym);
                },
                Some(syms) => syms,
            };
            let idx = e.sym_index as usize;
            if idx < syms.len() {
                let sym = syms[idx];
                if sym.shndx == 0 {
                    Err(LoadError::UnresolvedSymbol)
                } else {
                    Ok((addr, base.wrapping_add(sym.value as usize).wrapping_add(e.addend as usize)))
                }
            } else {
                Err(LoadError::BadSymbolIndex)
            }
        },
        RelocClass::Unsupported => Err(LoadError::UnsupportedRelocation),
    }
}

/// Appends to `res` the words of `entries` in order, stopping at the first
/// entry that fails.
pub fn relocate_entries(
    entries: &Vec<RelaEntry>,
    dynsym: Option<&Vec<DynSymbol>>,
    base: usize,
    arch: RelocArch,
    res: &mut Vec<(usize, usize)>,
) -> (r: Result<(), LoadError>)
    ensures
        final(res)@ == old(res)@ + relocate_run(entries@, opt_vec_view(dynsym), base, arch).0,
        r == run_result(relocate_run(entries@, opt_vec_view(dynsym), base, arch).1),
{
    let ghost ds = opt_vec_view(dynsym);
    let ghost prefix: Seq<(usize, usize)> = seq![];
    let mut i: usize = 0;
    assert(entries@.skip(0) =~= entries@);
    assert(prefix + relocate_run(entries@, ds, base, arch).0 =~= relocate_run(entries@, ds, base, arch).0);
    assert(res@ =~= old(res)@ + prefix);
    while i < entries.len()
        invariant
            i <= entries.len(),
            res@ == old(res)@ + prefix,
            relocate_run(entries@, ds, base, arch).0 == prefix + relocate_run(
                entries@.skip(i as int),
                ds,
                base,
                arch,
            ).0,
            relocate_run(entries@, ds, base, arch).1 == relocate_run(
                entries@.skip(i as int),
                ds,
                base,
                arch,
            ).1,
            ds == opt_vec_view(dynsym),
        decreases entries.len() - i,
    {
        let ghost s = entries@.skip(i as int);
        assert(s[0] == entries@[i as int]);
        assert(s.drop_first() =~= entries@.skip(i + 1));
        match relocate_entry(&entries[i], dynsym, base, arch) {
            Err(e) => {
                assert(prefix + relocate_run(s, ds, base, arch).0 =~= prefix);
                return Err(e);
            },
            Ok(w) => {
                res.push(w);
                proof {
                    let rest = relocate_run(entries@.skip(i + 1), ds, base, arch);
                    assert(prefix + (seq![w] + rest.0) =~= prefix.push(w) + rest.0);
                    prefix = prefix.push(w);
                }
            },
        }
        i = i + 1;
    }
    assert(entries@.skip(i as int) =~= Seq::<RelaEntry>::empty());
    assert(prefix + Seq::<(usize, usize)>::empty() =~= prefix);
    Ok(())
}

/// The dynamic symbol table of an image: absent, or its entries.
pub open spec fn dynsym_table_spec(bytes: Seq<u8>) -> Result<Option<Seq<DynSymbol>>, LoadError> {
    match elf_section_of(bytes, ".dynsym"@) {
        Err(m) => Err(LoadError::Elf(m)),
        Ok(None) => Ok(None),
        Ok(Some(Err(_))) => Err(LoadError::BadDynsym),
        Ok(Some(Ok(contents))) => match contents {
            SectionContents::DynSymbols64(v) => Ok(Some(v@)),
            _ => Err(LoadError::BadDynsym),
        },
    }
}

/// The words the relocation section `name` writes for an image loaded at
/// `base`, and the error that stopped it if any. A missing section writes
/// nothing.
pub open spec fn section_relocations_spec(
    bytes: Seq<u8>,
    name: Seq<char>,
    base: usize,
    arch: RelocArch,
) -> (Seq<(usize, usize)>, Option<LoadError>) {
    match elf_section_of(bytes, name) {
        Err(m) => (seq![], Some(LoadError::Elf(m))),
        Ok(None) => (seq![], None),
        Ok(Some(Err(_))) => (seq![], Some(LoadError::BadRelocationSection)),
        Ok(Some(Ok(contents))) => match contents {
            SectionContents::Rela64(entries) => match dynsym_table_spec(bytes) {
                Err(e) => (seq![], Some(e)),
                Ok(ds) => relocate_run(entries@, ds, base, arch),
            },
            _ => (seq![], Some(LoadError::BadRelocationSection)),
        },
    }
}

/// All the words an image loaded at `base` needs written: those of
/// `.rela.dyn`, then those of `.rela.plt`.
pub open spec fn dyn_relocations_spec(bytes: Seq<u8>, base: usize, arch: RelocArch) -> Result<
    Seq<(usize, usize)>,
    LoadError,
> {
    let d = section_relocations_spec(bytes, ".rela.dyn"@, base, arch);
    match d.1 {
        Some(e) => Err(e),
        None => {
            let p = section_relocations_spec(bytes, ".rela.plt"@, base, arch);
            match p.1 {
                Some(e) => Err(e),
                None => Ok(d.0 + p.0),
            }
        },
    }
}

fn dynsym_table(bytes: &[u8]) -> (r: Result<Option<Vec<DynSymbol>>, LoadError>)
    requires
        sections_ok(bytes@, ".dynsym".spec_bytes()),
    ensures
        match r {
            Ok(Some(v)) => dynsym_table_spec(bytes@) == Ok::<_, LoadError>(Some(v@)),
            Ok(None) => dynsym_table_spec(bytes@) == Ok::<Option<Seq<DynSymbol>>, LoadError>(None),
            Err(e) => dynsym_table_spec(bytes@) == Err::<Option<Seq<DynSymbol>>, LoadError>(e),
        },
{
    match elf_section(bytes, ".dynsym") {
        Err(m) => Err(LoadError::Elf(m)),
        Ok(None) => Ok(None),
        Ok(Some(Err(_))) => Err(LoadError::BadDynsym),
        Ok(Some(Ok(contents))) => match contents {
            SectionContents::DynSymbols64(v) => Ok(Some(v)),
            _ => Err(LoadError::BadDynsym),
        },
    }
}

/// Appends to `res` the words of relocation section `section_name`.
fn apply_relocation_section(
    bytes: &[u8],
    section_name: &str,
    region_start: usize,
    arch: RelocArch,
    res: &mut Vec<(usize, usize)>,
) -> (r: Result<(), LoadError>)
    requires
        sections_ok(bytes@, section_name.spec_bytes()),
        sections_ok(bytes@, ".dynsym".spec_bytes()),
    ensures
        final(res)@ == old(res)@ + section_relocations_spec(bytes@, section_name@, region_start, arch).0,
        r == run_result(section_relocations_spec(bytes@, section_name@, region_start, arch).1),
{
    let entries = match elf_section(bytes, section_name) {
        Err(m) => {
            assert(old(res)@ + Seq::<(usize, usize)>::empty() =~= old(res)@);
            return Err(LoadError::Elf(m));
        },
        Ok(None) => {
            assert(old(res)@ + Seq::<(usize, usize)>::empty() =~= old(res)@);
            return Ok(());
        },
        Ok(Some(Err(_))) => {
            assert(old(res)@ + Seq::<(usize, usize)>::empty() =~= old(res)@);
            return Err(LoadError::BadRelocationSection);
        },
        Ok(Some(Ok(contents))) => match contents {
            SectionContents::Rela64(entries) => entries,
            _ => {
                assert(old(res)@ + Seq::<(usize, usize)>::empty() =~= old(res)@);
                return Err(LoadError::BadRelocationSection);
            },
        },
    };
    let dynsym = match dynsym_table(bytes) {
        Err(e) => {
            assert(old(res)@ + Seq::<(usize, usize)>::empty() =~= old(res)@);
            return Err(e);
        },
        Ok(d) => d,
    };
    relocate_entries(&entries, dynsym.as_ref(), region_start, arch, res)
}

/// The words an image loaded at `region_start` needs written, from
/// `.rela.dyn` and then `.rela.plt`. The three sections the loader reads
/// must be readable (`relocation_sections_ok`); the parser panics on images
/// whose tables or section data run past their end.
pub fn relocate_dyn(bytes: &[u8], region_start: usize, arch: RelocArch) -> (r: Result<
    Vec<(usize, usize)>,
    LoadError,
>)
    requires
        relocation_sections_ok(bytes@),
    ensures
        match r {
            Ok(v) => dyn_relocations_spec(bytes@, region_start, arch) == Ok::<_, LoadError>(v@),
            Err(e) => dyn_relocations_spec(bytes@, region_start, arch) == Err::<Seq<(usize, usize)>, LoadError>(e),
        },
{
    let mut res: Vec<(usize, usize)> = Vec::new();
    apply_relocation_section(bytes, ".rela.dyn", region_start, arch, &mut res)?;
    apply_relocation_section(bytes, ".rela.plt", region_start, arch, &mut res)?;
    Ok(res)
}

/// The program headers that iteration yields from index `i` on: it stops
/// at the first header that cannot be read.
pub open spec fn headers_from(bytes: Seq<u8>, i: int, n: int) -> Seq<(ProgramKind, ProgramHeaderInfo)>
    decreases n - i,
{
    if i < 0 || i >= n {
        seq![]
    } else {
        match elf_program_header_of(bytes, i as u16) {
            Ok(h) => match elf_program_kind_of(bytes, i as u16) {
                Ok(k) => seq![(k, h)] + headers_from(bytes, i + 1, n),
                Err(_) => seq![],
            },
            Err(_) => seq![],
        }
    }
}

/// The `Load` headers of a list, in order.
pub open spec fn load_headers(s: Seq<(ProgramKind, ProgramHeaderInfo)>) -> Seq<ProgramHeaderInfo>
    decreases s.len(),
{
    if s.len() == 0 {
        seq![]
    } else if s[0].0 == ProgramKind::Load {
        seq![s[0].1] + load_headers(s.drop_first())
    } else {
        load_headers(s.drop_first())
    }
}

/// The loadable segments of an image, in header order.
pub open spec fn load_segments_spec(bytes: Seq<u8>) -> Result<Seq<ProgramHeaderInfo>, LoadError> {
    match elf_program_header_count_of(bytes) {
        Err(m) => Err(LoadError::Elf(m)),
        Ok(n) => Ok(load_headers(headers_from(bytes, 0, n as int))),
    }
}

/// Lists the loadable segments of an image. The program header table must
/// be readable (`program_headers_ok`); the parser panics on images whose
/// table runs past their end.
pub fn load_segments(bytes: &[u8]) -> (r: Result<Vec<ProgramHeaderInfo>, LoadError>)
    requires
        program_headers_ok(bytes@),
    ensures
        match r {
            Ok(v) => load_segments_spec(bytes@) == Ok::<_, LoadError>(v@),
            Err(e) => load_segments_spec(bytes@) == Err::<Seq<ProgramHeaderInfo>, LoadError>(e),
        },
{
    let count = match elf_program_header_count(bytes) {
        Err(m) => {
            return Err(LoadError::Elf(m));
        },
        Ok(n) => n,
    };
    let ghost all = headers_from(bytes@, 0, count as int);
    let mut out: Vec<ProgramHeaderInfo> = Vec::new();
    let mut i: u16 = 0;
    assert(out@ + load_headers(all) =~= load_headers(all));
    loop
        invariant_except_break
            i <= count,
            program_headers_ok(bytes@),
            load_headers(all) == out@ + load_headers(headers_from(bytes@, i as int, count as int)),
        ensures
            load_headers(all) == out@,
        decreases count - i,
    {
        if i >= count {
            assert(out@ + Seq::<ProgramHeaderInfo>::empty() =~= out@);
            break;
        }
        let ghost rest = headers_from(bytes@, i as int, count as int);
        let h = match elf_program_header(bytes, i) {
            Err(_) => {
                assert(out@ + Seq::<ProgramHeaderInfo>::empty() =~= out@);
                break;
            },
            Ok(h) => h,
        };
        let k = match elf_program_kind(bytes, i) {
            Err(_) => {
                assert(out@ + Seq::<ProgramHeaderInfo>::empty() =~= out@);
                break;
            },
            Ok(k) => k,
        };
        proof {
            let next = headers_from(bytes@, i + 1, count as int);
            assert(rest == seq![(k, h)] + next);
            assert(rest[0] == (k, h));
            assert(rest.drop_first() =~= next);
        }
        match k {
            ProgramKind::Load => {
                proof {
                    let next = headers_from(bytes@, i + 1, count as int);
                    assert(out@ + (seq![h] + load_headers(next)) =~= out@.push(h) + load_headers(next));
                }
                out.push(h);
            },
            _ => {},
        }
        i = i + 1;
    }
    Ok(out)
}

/// Size of the runtime image of segments `segs`: the end of the last one,
/// rounded up to a page.
pub open spec fn image_size_spec(segs: Seq<ProgramHeaderInfo>) -> Result<usize, LoadError> {
    if segs.len() == 0 {
        Err(LoadError::NoLoadSegment)
    } else {
        let end = segs.last().virtual_addr as usize as int + segs.last().mem_size as usize as int;
        if end > usize::MAX - 0x1000 {
            Err(LoadError::SegmentOutOfBounds)
        } else {
            Ok(align_up_4k_spec(end as usize))
        }
    }
}

/// The number of bytes a runtime image of segments `segs` needs: the end
/// of the last one rounded up to a page.
pub fn image_size_of_segments(segs: &Vec<ProgramHeaderInfo>) -> (r: Result<usize, LoadError>)
    ensures
        r == image_size_spec(segs@),
{
    if segs.len() == 0 {
        return Err(LoadError::NoLoadSegment);
    }
    let last = segs[segs.len() - 1];
    let vaddr = last.virtual_addr as usize;
    let msize = last.mem_size as usize;
    if vaddr > usize::MAX - 0x1000 || msize > usize::MAX - 0x1000 - vaddr {
        return Err(LoadError::SegmentOutOfBounds);
    }
    Ok(align_up_4k(vaddr + msize))
}

/// Whether segment `s` can be copied: its bytes lie in the file, its copy in
/// the runtime image, and its runtime end address rounds up without
/// overflow.
pub open spec fn segment_fits(s: ProgramHeaderInfo, data_len: int, area_len: int, base: usize) -> bool {
    &&& s.offset as int + s.file_size as int <= data_len
    &&& (s.virtual_addr as usize) as int + s.file_size as int <= area_len
    &&& base as int + (s.virtual_addr as usize) as int + (s.mem_size as usize) as int <= usize::MAX - 0x1000
}

/// Whether every segment of `segs` can be copied.
pub open spec fn all_segments_fit(segs: Seq<ProgramHeaderInfo>, data_len: int, area_len: int, base: usize) -> bool {
    forall|k: int| 0 <= k < segs.len() ==> #[trigger] segment_fits(segs[k], data_len, area_len, base)
}

/// The image after copying the file bytes of segment `s` to its place.
pub open spec fn copy_segment(img: Seq<u8>, data: Seq<u8>, s: ProgramHeaderInfo) -> Seq<u8> {
    let at = (s.virtual_addr as usize) as int;
    let len = s.file_size as int;
    img.subrange(0, at) + data.subrange(s.offset as int, s.offset as int + len) + img.subrange(
        at + len,
        img.len() as int,
    )
}

/// The image after copying every segment, in order.
pub open spec fn load_image_spec(img: Seq<u8>, data: Seq<u8>, segs: Seq<ProgramHeaderInfo>) -> Seq<u8>
    decreases segs.len(),
{
    if segs.len() == 0 {
        img
    } else {
        load_image_spec(copy_segment(img, data, segs[0]), data, segs.drop_first())
    }
}

/// The page-aligned runtime range of segment `s` for an image at `base`.
pub open spec fn segment_pages(s: ProgramHeaderInfo, base: usize) -> (usize, usize) {
    let start = ((s.virtual_addr as usize) + base) as usize;
    let end = (start + (s.mem_size as usize)) as usize;
    (align_down_4k_spec(start), align_up_4k_spec(end))
}

/// The text range after the segments: the page range of the last executable
/// one, or `text` if none is.
pub open spec fn text_after(text: (usize, usize), segs: Seq<ProgramHeaderInfo>, base: usize) -> (usize, usize)
    decreases segs.len(),
{
    if segs.len() == 0 {
        text
    } else {
        text_after(
            if segs[0].executable { segment_pages(segs[0], base) } else { text },
            segs.drop_first(),
            base,
        )
    }
}

/// A zero-filled image of `n` bytes.
pub open spec fn zeroed(n: nat) -> Seq<u8> {
    Seq::new(n, |i: int| 0u8)
}

/// The state of a loader: the image file, its name, and once loaded the
/// runtime base, the executable range and the entry address.
pub struct DomainLoader {
    entry_point: usize,
    data: Arc<Vec<u8>>,
    virt_start: usize,
    ident: String,
    text_section: Range<usize>,
}

/// What a loader holds, as plain values.
pub struct DomainLoaderView {
    pub entry_point: usize,
    pub data: Seq<u8>,
    pub virt_start: usize,
    pub ident: Seq<char>,
    pub text: (usize, usize),
}

impl View for DomainLoader {
    type V = DomainLoaderView;

    closed spec fn view(&self) -> DomainLoaderView {
        DomainLoaderView {
            entry_point: self.entry_point,
            data: self.data@,
            virt_start: self.virt_start,
            ident: self.ident@,
            text: (self.text_section.start, self.text_section.end),
        }
    }
}

impl DomainLoader {
    /// A loader for image `data` named `ident`, not loaded yet.
    pub fn new(data: Arc<Vec<u8>>, ident: &str) -> (r: Self)
        ensures
            r@ == (DomainLoaderView {
                entry_point: 0,
                data: data@,
                virt_start: 0,
                ident: ident@,
                text: (0, 0),
            }),
    {
        DomainLoader {
            entry_point: 0,
            data,
            virt_start: 0,
            ident: ident.to_string(),
            text_section: 0..0,
        }
    }

    /// The loader of an empty image named "empty_loader".
    pub fn empty() -> (r: Self)
        ensures
            r@ == (DomainLoaderView {
                entry_point: 0,
                data: Seq::empty(),
                virt_start: 0,
                ident: "empty_loader"@,
                text: (0, 0),
            }),
    {
        Self::new(Arc::new(vec![]), "empty_loader")
    }

    /// The image name and its size in bytes.
    pub fn domain_file_info(&self) -> (r: (String, usize))
        ensures
            r.0@ == self@.ident,
            r.1 == self@.data.len(),
    {
        (self.ident.clone(), self.data.len())
    }

    fn entry_point(&self) -> (r: usize)
        ensures
            r == self@.entry_point,
    {
        self.entry_point
    }

    /// The runtime base of the loaded image.
    pub fn virt_start(&self) -> (r: usize)
        ensures
            r == self@.virt_start,
    {
        self.virt_start
    }

    /// The runtime entry address of the loaded image.
    pub fn entry_addr(&self) -> (r: usize)
        ensures
            r == self@.entry_point,
    {
        self.entry_point()
    }

    /// The number of bytes the runtime image needs: the end of the last
    /// loadable segment rounded up to a page. The file must start with the
    /// ELF magic number and parse as ELF.
    pub fn image_size(&self) -> (r: Result<usize, LoadError>)
        requires
            self@.data.len() >= 4,
        ensures
            r == (if self@.data.subrange(0, 4) != seq![0x7fu8, 0x45u8, 0x4cu8, 0x46u8] {
                Err(LoadError::NotElf)
            } else {
                match elf_entry_point_of(self@.data) {
                    Err(m) => Err(LoadError::Elf(m)),
                    Ok(_) => if !program_headers_ok(self@.data) {
                        Err(LoadError::MalformedTables)
                    } else {
                        match load_segments_spec(self@.data) {
                            Err(e) => Err(e),
                            Ok(segs) => image_size_spec(segs),
                        }
                    },
                }
            }),
    {
        let bytes = self.data.as_slice();
        if !(bytes[0] == 0x7fu8 && bytes[1] == 0x45u8 && bytes[2] == 0x4cu8 && bytes[3] == 0x46u8) {
            proof {
                if self@.data.subrange(0, 4) == seq![0x7fu8, 0x45u8, 0x4cu8, 0x46u8] {
                    assert(self@.data[0] == self@.data.subrange(0, 4)[0]);
                    assert(self@.data[1] == self@.data.subrange(0, 4)[1]);
                    assert(self@.data[2] == self@.data.subrange(0, 4)[2]);
                    assert(self@.data[3] == self@.data.subrange(0, 4)[3]);
                }
            }
            return Err(LoadError::NotElf);
        }
        assert(self@.data.subrange(0, 4) =~= seq![0x7fu8, 0x45u8, 0x4cu8, 0x46u8]);
        if let Err(m) = elf_entry_point(bytes) {
            return Err(LoadError::Elf(m));
        }
        if !elf_program_headers_ok(bytes) {
            return Err(LoadError::MalformedTables);
        }
        let segs = load_segments(bytes)?;
        image_size_of_segments(&segs)
    }

    /// Copies the loadable segments of the image into `area`, the runtime
    /// image at `region_start`, and computes the relocation words to write.
    ///
    /// The area is zero-filled first, the base is recorded and the text
    /// range becomes the page range of the last executable segment. When a
    /// segment does not fit, nothing changes.
    pub fn load_into(&mut self, region_start: usize, area: &mut [u8], arch: RelocArch) -> (r: Result<
        Vec<(usize, usize)>,
        LoadError,
    >)
        requires
            region_start as int + old(area)@.len() <= usize::MAX,
        ensures
            !elf_tables_ok_spec(old(self)@.data) ==> r == Err::<Vec<(usize, usize)>, LoadError>(
                LoadError::MalformedTables,
            ) && final(self)@ == old(self)@ && final(area)@ == old(area)@,
            elf_tables_ok_spec(old(self)@.data) ==> match load_segments_spec(old(self)@.data) {
                Err(e) => r == Err::<Vec<(usize, usize)>, LoadError>(e) && final(self)@ == old(self)@
                    && final(area)@ == old(area)@,
                Ok(segs) => if !all_segments_fit(
                    segs,
                    old(self)@.data.len() as int,
                    old(area)@.len() as int,
                    region_start,
                ) {
                    r == Err::<Vec<(usize, usize)>, LoadError>(LoadError::SegmentOutOfBounds)
                        && final(self)@ == old(self)@ && final(area)@ == old(area)@
                } else {
                    &&& final(area)@ == load_image_spec(zeroed(old(area)@.len()), old(self)@.data, segs)
                    &&& final(self)@ == (DomainLoaderView {
                        virt_start: region_start,
                        text: text_after(old(self)@.text, segs, region_start),
                        ..old(self)@
                    })
                    &&& match r {
                        Ok(v) => dyn_relocations_spec(old(self)@.data, region_start, arch) == Ok::<_, LoadError>(v@),
                        Err(e) => dyn_relocations_spec(old(self)@.data, region_start, arch) == Err::<Seq<(usize, usize)>, LoadError>(e),
                    }
                },
            },
    {
        let bytes = self.data.as_slice();
        if !elf_tables_ok(bytes) {
            return Err(LoadError::MalformedTables);
        }
        let segs = load_segments(bytes)?;
        let data_len = bytes.len();
        let area_len = area.len();
        let limit: usize = usize::MAX - 0x1000;
        let mut k: usize = 0;
        while k < segs.len()
            invariant
                k <= segs.len(),
                data_len == self@.data.len(),
                bytes@ == self@.data,
                self@ == old(self)@,
                area@ == old(area)@,
                elf_tables_ok_spec(self@.data),
                load_segments_spec(self@.data) == Ok::<_, LoadError>(segs@),
                area_len == area@.len(),
                limit == usize::MAX - 0x1000,
                forall|m: int| 0 <= m < k ==> #[trigger] segment_fits(segs@[m], data_len as int, area_len as int, region_start),
            decreases segs.len() - k,
        {
            let s = segs[k];
            let vaddr = s.virtual_addr as usize;
            let msize = s.mem_size as usize;
            if s.offset > data_len as u64 || s.file_size > data_len as u64 - s.offset
                || vaddr > area_len || s.file_size > (area_len - vaddr) as u64
                || region_start > limit || vaddr > limit - region_start
                || msize > limit - region_start - vaddr {
                assert(!segment_fits(segs@[k as int], data_len as int, area_len as int, region_start));
                assert(!all_segments_fit(segs@, self@.data.len() as int, area@.len() as int, region_start));
                return Err(LoadError::SegmentOutOfBounds);
            }
            k = k + 1;
        }
        let mut j: usize = 0;
        while j < area.len()
            invariant
                j <= area@.len(),
                area@.len() == area_len,
                forall|m: int| 0 <= m < j ==> area@[m] == 0u8,
            decreases area@.len() - j,
        {
            area[j] = 0u8;
            j = j + 1;
        }
        assert(area@ =~= zeroed(area_len as nat));
        self.virt_start = region_start;
        let text = load_program(&segs, bytes, region_start, area, (self.text_section.start, self.text_section.end));
        self.text_section = text.0..text.1;
        relocate_dyn(bytes, region_start, arch)
    }

    /// The executable range to protect after loading: its start and its
    /// number of pages, when it is not empty.
    pub fn text_region(&self) -> (r: Option<(usize, usize)>)
        ensures
            r == (if self@.text.1 > self@.text.0 {
                Some((self@.text.0, ((self@.text.1 - self@.text.0) / FRAME_SIZE as int) as usize))
            } else {
                None
            }),
    {
        if self.text_section.end > self.text_section.start {
            Some((self.text_section.start, (self.text_section.end - self.text_section.start) / FRAME_SIZE))
        } else {
            None
        }
    }

    /// Records the runtime entry address: the image's entry point moved by
    /// the runtime base (wrapping at the word size).
    pub fn finish_load(&mut self) -> (r: Result<(), LoadError>)
        ensures
            match elf_entry_point_of(old(self)@.data) {
                Err(m) => r == Err::<(), LoadError>(LoadError::Elf(m)) && final(self)@ == old(self)@,
                Ok(e) => r is Ok && final(self)@ == (DomainLoaderView {
                    entry_point: (e as usize).wrapping_add(old(self)@.virt_start),
                    ..old(self)@
                }),
            },
    {
        let entry = match elf_entry_point(self.data.as_slice()) {
            Err(m) => {
                return Err(LoadError::Elf(m));
            },
            Ok(e) => e,
        };
        self.entry_point = (entry as usize).wrapping_add(self.virt_start);
        Ok(())
    }
}

impl Clone for DomainLoader {
    /// A loader for the same image, name and text range, not loaded.
    fn clone(&self) -> (r: Self)
        ensures
            r@ == (DomainLoaderView { entry_point: 0, virt_start: 0, ..self@ }),
    {
        DomainLoader {
            entry_point: 0,
            data: self.data.clone(),
            virt_start: 0,
            ident: self.ident.clone(),
            text_section: self.text_section.start..self.text_section.end,
        }
    }
}

/// Wrapping addition is addition modulo the word range.
proof fn lemma_wrapping_add_mod(x: usize, y: usize)
    ensures
        x.wrapping_add(y) as int == (x as int + y as int) % (usize::MAX as int + 1),
{
    let m = usize::MAX as int + 1;
    if x as int + y as int > usize::MAX as int {
        lemma_mod_add_multiples_vanish(x as int + y as int - m, m);
        lemma_small_mod((x as int + y as int - m) as nat, m as nat);
    } else {
        lemma_small_mod((x as int + y as int) as nat, m as nat);
    }
}

/// Wrapping subtraction is subtraction modulo the word range.
proof fn lemma_wrapping_sub_mod(x: usize, y: usize)
    ensures
        x.wrapping_sub(y) as int == (x as int - y as int) % (usize::MAX as int + 1),
{
    let m = usize::MAX as int + 1;
    if (x as int) - (y as int) < 0 {
        lemma_mod_add_multiples_vanish(x as int - y as int, m);
        lemma_small_mod((x as int - y as int + m) as nat, m as nat);
    } else {
        lemma_small_mod((x as int - y as int) as nat, m as nat);
    }
}

/// Moving a sum by `d` moves either of its wrapping forms by `d`.
proof fn lemma_wrapping_shift(b1: usize, b2: usize, x: usize)
    ensures
        b2.wrapping_add(x) == b1.wrapping_add(x).wrapping_add(b2.wrapping_sub(b1)),
{
    let m = usize::MAX as int + 1;
    let d = b2.wrapping_sub(b1);
    let y = b1.wrapping_add(x);
    lemma_wrapping_add_mod(b2, x);
    lemma_wrapping_add_mod(b1, x);
    lemma_wrapping_sub_mod(b2, b1);
    lemma_wrapping_add_mod(y, d);
    lemma_add_mod_noop(b1 as int + x as int, b2 as int - b1 as int, m);
    assert(y as int == (b1 as int + x as int) % m);
    assert(d as int == (b2 as int - b1 as int) % m);
}

/// Wrapping additions may be done in either order.
proof fn lemma_wrapping_add_swap(y: usize, a: usize, d: usize)
    ensures
        y.wrapping_add(a).wrapping_add(d) == y.wrapping_add(d).wrapping_add(a),
{
    let m = usize::MAX as int + 1;
    lemma_wrapping_add_mod(y, a);
    lemma_wrapping_add_mod(y, d);
    lemma_wrapping_add_mod(y.wrapping_add(a), d);
    lemma_wrapping_add_mod(y.wrapping_add(d), a);
    lemma_add_mod_noop(y as int + a as int, d as int, m);
    lemma_add_mod_noop(y as int + d as int, a as int, m);
    assert(d as int % m == d as int) by {
        lemma_small_mod(d as nat, m as nat);
    }
    assert(a as int % m == a as int) by {
        lemma_small_mod(a as nat, m as nat);
    }
}

/// Loading an image at another base moves every relocated word, and the
/// address it is written to, by the difference of the bases; whether an
/// entry can be relocated, and why not, does not depend on the base.
pub proof fn lemma_relocation_moves_with_base(
    e: RelaEntry,
    dynsym: Option<Seq<DynSymbol>>,
    arch: RelocArch,
    b1: usize,
    b2: usize,
)
    ensures
        relocate_entry_spec(e, dynsym, b1, arch) is Err ==> relocate_entry_spec(e, dynsym, b2, arch)
            == relocate_entry_spec(e, dynsym, b1, arch),
        relocate_entry_spec(e, dynsym, b1, arch) is Ok ==> {
            let w1 = relocate_entry_spec(e, dynsym, b1, arch)->Ok_0;
            let d = b2.wrapping_sub(b1);
            relocate_entry_spec(e, dynsym, b2, arch) == Ok::<(usize, usize), LoadError>(
                (w1.0.wrapping_add(d), w1.1.wrapping_add(d)),
            )
        },
{
    let d = b2.wrapping_sub(b1);
    lemma_wrapping_shift(b1, b2, e.offset as usize);
    lemma_wrapping_shift(b1, b2, e.addend as usize);
    if let Some(syms) = dynsym {
        if (e.sym_index as int) < syms.len() {
            let v = syms[e.sym_index as int].value as usize;
            lemma_wrapping_shift(b1, b2, v);
            lemma_wrapping_add_swap(b1.wrapping_add(v), e.addend as usize, d);
        }
    }
}

/// Whether byte `k` of the image is one segment `s` copies from the file.
pub open spec fn covers(s: ProgramHeaderInfo, k: int) -> bool {
    (s.virtual_addr as usize) as int <= k < (s.virtual_addr as usize) as int + s.file_size as int
}

/// Whether every segment's file bytes lie in `data` and its copy in an
/// image of `n` bytes.
pub open spec fn segments_within(segs: Seq<ProgramHeaderInfo>, data_len: int, n: int) -> bool {
    forall|j: int|
        0 <= j < segs.len() ==> {
            &&& #[trigger] segs[j].offset as int + segs[j].file_size as int <= data_len
            &&& (segs[j].virtual_addr as usize) as int + segs[j].file_size as int <= n
        }
}

proof fn lemma_segments_within_rest(segs: Seq<ProgramHeaderInfo>, data_len: int, n: int)
    requires
        segs.len() > 0,
        segments_within(segs, data_len, n),
    ensures
        segments_within(segs.drop_first(), data_len, n),
{
    assert forall|j: int| 0 <= j < segs.drop_first().len() implies {
        &&& #[trigger] segs.drop_first()[j].offset as int + segs.drop_first()[j].file_size as int <= data_len
        &&& (segs.drop_first()[j].virtual_addr as usize) as int + segs.drop_first()[j].file_size as int <= n
    } by {
        assert(segs.drop_first()[j] == segs[j + 1]);
        assert(segs[j + 1].offset as int + segs[j + 1].file_size as int <= data_len);
    }
}

/// Copying the segments keeps the image size, and leaves every byte that no
/// segment covers as it was.
pub proof fn lemma_load_image_untouched(img: Seq<u8>, data: Seq<u8>, segs: Seq<ProgramHeaderInfo>, k: int)
    requires
        segments_within(segs, data.len() as int, img.len() as int),
        forall|j: int| 0 <= j < segs.len() ==> !covers(#[trigger] segs[j], k),
    ensures
        load_image_spec(img, data, segs).len() == img.len(),
        0 <= k < img.len() ==> load_image_spec(img, data, segs)[k] == img[k],
    decreases segs.len(),
{
    if segs.len() > 0 {
        let s = segs[0];
        assert(segs[0].offset as int + segs[0].file_size as int <= data.len());
        let next = copy_segment(img, data, s);
        assert(next.len() == img.len());
        assert(!covers(segs[0], k));
        if 0 <= k < img.len() {
            let at = (s.virtual_addr as usize) as int;
            if k < at {
                assert(next[k] == img.subrange(0, at)[k]);
            } else {
                assert(next[k] == img.subrange(at + s.file_size as int, img.len() as int)[k - at - s.file_size as int]);
            }
        }
        lemma_segments_within_rest(segs, data.len() as int, img.len() as int);
        assert forall|j: int| 0 <= j < segs.drop_first().len() implies !covers(#[trigger] segs.drop_first()[j], k) by {
            assert(segs.drop_first()[j] == segs[j + 1]);
        }
        lemma_load_image_untouched(next, data, segs.drop_first(), k);
    }
}

/// A byte of the runtime image that no segment copies from the file is
/// zero: the image is cleared before the segments are copied, which gives
/// `.bss` and the gaps between segments their zero value.
pub proof fn lemma_uncovered_bytes_are_zero(n: nat, data: Seq<u8>, segs: Seq<ProgramHeaderInfo>, k: int)
    requires
        segments_within(segs, data.len() as int, n as int),
        0 <= k < n,
        forall|j: int| 0 <= j < segs.len() ==> !covers(#[trigger] segs[j], k),
    ensures
        load_image_spec(zeroed(n), data, segs)[k] == 0,
{
    lemma_load_image_untouched(zeroed(n), data, segs, k);
}

/// A byte of the runtime image holds the file byte of the last segment that
/// covers it: segment `i` covers byte `k` and no later segment does.
pub proof fn lemma_covered_byte(
    img: Seq<u8>,
    data: Seq<u8>,
    segs: Seq<ProgramHeaderInfo>,
    i: int,
    k: int,
)
    requires
        segments_within(segs, data.len() as int, img.len() as int),
        0 <= i < segs.len(),
        covers(segs[i], k),
        forall|j: int| i < j < segs.len() ==> !covers(#[trigger] segs[j], k),
    ensures
        load_image_spec(img, data, segs)[k] == data[segs[i].offset as int + (k - (segs[i].virtual_addr as usize) as int)],
    decreases segs.len(),
{
    let s = segs[0];
    assert(segs[0].offset as int + segs[0].file_size as int <= data.len());
    assert((segs[0].virtual_addr as usize) as int + segs[0].file_size as int <= img.len());
    let next = copy_segment(img, data, s);
    lemma_segments_within_rest(segs, data.len() as int, img.len() as int);
    if i == 0 {
        let at = (s.virtual_addr as usize) as int;
        assert(next[k] == data.subrange(s.offset as int, s.offset as int + s.file_size as int)[k - at]);
        assert forall|j: int| 0 <= j < segs.drop_first().len() implies !covers(#[trigger] segs.drop_first()[j], k) by {
            assert(segs.drop_first()[j] == segs[j + 1]);
        }
        lemma_load_image_untouched(next, data, segs.drop_first(), k);
    } else {
        assert(segs.drop_first()[i - 1] == segs[i]);
        assert forall|j: int| i - 1 < j < segs.drop_first().len() implies !covers(#[trigger] segs.drop_first()[j], k) by {
            assert(segs.drop_first()[j] == segs[j + 1]);
        }
        lemma_covered_byte(next, data, segs.drop_first(), i - 1, k);
    }
}

/// The runtime image is page aligned in size and ends within the page after
/// the end of the last loadable segment.
pub proof fn lemma_image_size_covers_last_segment(segs: Seq<ProgramHeaderInfo>)
    requires
        image_size_spec(segs) is Ok,
    ensures
        image_size_spec(segs)->Ok_0 % 4096 == 0,
        segs.last().virtual_addr as usize as int + segs.last().mem_size as usize as int <= image_size_spec(segs)->Ok_0,
        image_size_spec(segs)->Ok_0 < segs.last().virtual_addr as usize as int + segs.last().mem_size as usize as int + 4096,
{
    let end = segs.last().virtual_addr as usize as int + segs.last().mem_size as usize as int;
    lemma_align_up_4k(end as usize);
}

/// The executable range of a segment starts and ends on page boundaries and
/// contains the whole segment as mapped at `base`.
pub proof fn lemma_segment_pages_cover(s: ProgramHeaderInfo, base: usize)
    requires
        base as int + (s.virtual_addr as usize) as int + (s.mem_size as usize) as int <= usize::MAX - 0x1000,
    ensures
        segment_pages(s, base).0 % 4096 == 0,
        segment_pages(s, base).1 % 4096 == 0,
        segment_pages(s, base).0 <= base as int + (s.virtual_addr as usize) as int,
        base as int + (s.virtual_addr as usize) as int + (s.mem_size as usize) as int <= segment_pages(s, base).1,
{
    let start = ((s.virtual_addr as usize) + base) as usize;
    let end = (start + (s.mem_size as usize)) as usize;
    lemma_align_down_4k(start);
    lemma_align_up_4k(end);
}

/// Copies the file bytes of one segment to its place in the image.
fn copy_segment_bytes(s: &ProgramHeaderInfo, bytes: &[u8], area: &mut [u8])
    requires
        s.offset as int + s.file_size as int <= bytes@.len(),
        (s.virtual_addr as usize) as int + s.file_size as int <= old(area)@.len(),
    ensures
        final(area)@ == copy_segment(old(area)@, bytes@, *s),
{
    let alen = area.len();
    let blen = bytes.len();
    let at = s.virtual_addr as usize;
    let from = s.offset as usize;
    let len = s.file_size as usize;
    let mut j: usize = 0;
    while j < len
        invariant
            j <= len,
            alen == area@.len(),
            blen == bytes@.len(),
            len == s.file_size,
            at == s.virtual_addr as usize,
            from == s.offset,
            at as int + len as int <= area@.len(),
            from as int + len as int <= bytes@.len(),
            area@.len() == old(area)@.len(),
            forall|m: int| at <= m < at + j ==> #[trigger] area@[m] == bytes@[from + (m - at)],
            forall|m: int| 0 <= m < area@.len() && !(at <= m < at + j) ==> area@[m] == old(area)@[m],
        decreases len - j,
    {
        area[at + j] = bytes[from + j];
        j = j + 1;
    }
    assert(area@ =~= copy_segment(old(area)@, bytes@, *s));
}

/// Copies every loadable segment into the image `area` at `base` and
/// returns the text range: the page range of the last executable segment,
/// or `text` if none is.
pub fn load_program(
    segs: &Vec<ProgramHeaderInfo>,
    bytes: &[u8],
    base: usize,
    area: &mut [u8],
    text: (usize, usize),
) -> (r: (usize, usize))
    requires
        all_segments_fit(segs@, bytes@.len() as int, old(area)@.len() as int, base),
    ensures
        final(area)@ == load_image_spec(old(area)@, bytes@, segs@),
        r == text_after(text, segs@, base),
{
    let mut cur = text;
    let mut i: usize = 0;
    assert(segs@.skip(0) =~= segs@);
    while i < segs.len()
        invariant
            i <= segs.len(),
            area@.len() == old(area)@.len(),
            all_segments_fit(segs@, bytes@.len() as int, old(area)@.len() as int, base),
            load_image_spec(old(area)@, bytes@, segs@) == load_image_spec(area@, bytes@, segs@.skip(i as int)),
            text_after(text, segs@, base) == text_after(cur, segs@.skip(i as int), base),
        decreases segs.len() - i,
    {
        let s = segs[i];
        assert(segment_fits(segs@[i as int], bytes@.len() as int, old(area)@.len() as int, base));
        proof {
            let rest = segs@.skip(i as int);
            assert(rest[0] == s);
            assert(rest.drop_first() =~= segs@.skip(i + 1));
        }
        copy_segment_bytes(&s, bytes, area);
        if s.executable {
            let start = (s.virtual_addr as usize) + base;
            let end = start + (s.mem_size as usize);
            cur = (align_down_4k(start), align_up_4k(end));
        }
        i = i + 1;
    }
    assert(segs@.skip(i as int) =~= Seq::<ProgramHeaderInfo>::empty());
    cur
}

} // verus!
