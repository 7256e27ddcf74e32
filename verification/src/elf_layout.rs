//! The layout conditions under which the ELF parser reads an image without
//! running past its end or misreading a table: the program header table,
//! the section header table, the section name strings and the section data
//! lie inside the image, with the sizes and alignments their entries need.
//! The fields are read little-endian, as on the machines the kernel runs on.

use vstd::prelude::*;
use vstd::string::StringSliceAdditionalSpecFns;

verus! {

/// The little-endian 16-bit value at `at`.
pub open spec fn le16(b: Seq<u8>, at: int) -> int {
    b[at] as int + 256 * (b[at + 1] as int)
}

/// The little-endian 32-bit value at `at`.
pub open spec fn le32(b: Seq<u8>, at: int) -> int {
    le16(b, at) + 0x1_0000 * le16(b, at + 2)
}

/// The little-endian 64-bit value at `at`.
pub open spec fn le64(b: Seq<u8>, at: int) -> int {
    le32(b, at) + 0x1_0000_0000 * le32(b, at + 4)
}

/// Whether the image starts with a whole ELF header: the magic number, a
/// 32-bit or 64-bit class, and room for the rest of the header.
pub open spec fn elf_header_ok(b: Seq<u8>) -> bool {
    &&& b.len() >= 16
    &&& b[0] == 0x7fu8 && b[1] == 0x45u8 && b[2] == 0x4cu8 && b[3] == 0x46u8
    &&& ((b[4] == 1u8 && b.len() >= 52) || (b[4] == 2u8 && b.len() >= 64))
}

/// Whether the image is of the 64-bit class.
pub open spec fn is_elf64(b: Seq<u8>) -> bool {
    b[4] == 2u8
}

/// The alignment of the image's word-sized entries.
pub open spec fn word_align(b: Seq<u8>) -> int {
    if is_elf64(b) { 8 } else { 4 }
}

/// Offset of the program header table.
pub open spec fn ph_off(b: Seq<u8>) -> int {
    if is_elf64(b) { le64(b, 32) } else { le32(b, 28) }
}

/// Size of a program header table entry.
pub open spec fn ph_ent(b: Seq<u8>) -> int {
    if is_elf64(b) { le16(b, 54) } else { le16(b, 42) }
}

/// Number of program headers.
pub open spec fn ph_num(b: Seq<u8>) -> int {
    if is_elf64(b) { le16(b, 56) } else { le16(b, 44) }
}

/// Offset of the section header table.
pub open spec fn sh_off(b: Seq<u8>) -> int {
    if is_elf64(b) { le64(b, 40) } else { le32(b, 32) }
}

/// Size of a section header table entry.
pub open spec fn sh_ent(b: Seq<u8>) -> int {
    if is_elf64(b) { le16(b, 58) } else { le16(b, 46) }
}

/// Number of section headers.
pub open spec fn sh_num(b: Seq<u8>) -> int {
    if is_elf64(b) { le16(b, 60) } else { le16(b, 48) }
}

/// Index of the section holding the section names.
pub open spec fn sh_strndx(b: Seq<u8>) -> int {
    if is_elf64(b) { le16(b, 62) } else { le16(b, 50) }
}

/// Where section header `i` starts.
pub open spec fn sh_base(b: Seq<u8>, i: int) -> int {
    sh_off(b) + i * sh_ent(b)
}

/// The name index of the section header at `base`.
pub open spec fn sect_name_at(b: Seq<u8>, base: int) -> int {
    le32(b, base)
}

/// The type of the section header at `base`.
pub open spec fn sect_type_at(b: Seq<u8>, base: int) -> int {
    le32(b, base + 4)
}

/// The file offset of the section data of the header at `base`.
pub open spec fn sect_offset_at(b: Seq<u8>, base: int) -> int {
    if is_elf64(b) { le64(b, base + 24) } else { le32(b, base + 16) }
}

/// The size of the section data of the header at `base`.
pub open spec fn sect_size_at(b: Seq<u8>, base: int) -> int {
    if is_elf64(b) { le64(b, base + 32) } else { le32(b, base + 20) }
}

/// Whether the parser knows section type `ty`.
pub open spec fn is_known_sh_type(ty: int) -> bool {
    (0 <= ty <= 11) || (14 <= ty <= 18) || ty >= 0x6000_0000
}

/// The entry size of a section of type `ty` that the parser reads as an
/// array (symbol tables, relocations, dynamic entries, function arrays), 0
/// for other types.
pub open spec fn sh_array_entry(is64: bool, ty: int) -> int {
    if ty == 2 || ty == 11 {
        if is64 { 24 } else { 16 }
    } else if ty == 4 {
        if is64 { 24 } else { 12 }
    } else if ty == 9 || ty == 6 {
        if is64 { 16 } else { 8 }
    } else if 14 <= ty <= 16 {
        if is64 { 8 } else { 4 }
    } else {
        0
    }
}

/// Whether the data of the section header at `base` can be read as its type
/// says: inside the image, a whole number of aligned entries for an array,
/// and long enough for a group, note or hash header.
pub open spec fn section_data_ok_at(b: Seq<u8>, base: int) -> bool {
    let ty = sect_type_at(b, base);
    let off = sect_offset_at(b, base);
    let sz = sect_size_at(b, base);
    let e = sh_array_entry(is_elf64(b), ty);
    if ty == 0 || ty == 8 || !is_known_sh_type(ty) {
        true
    } else {
        &&& off + sz <= b.len()
        &&& e > 0 ==> off % word_align(b) == 0 && sz % e == 0
        &&& (ty == 17 || ty == 18) ==> off % 4 == 0 && sz % 4 == 0
        &&& ty == 17 ==> sz >= 4
        &&& (ty == 5 || (ty == 7 && is_elf64(b))) ==> off % 4 == 0 && sz >= 12
    }
}

/// Whether a NUL-terminated ASCII string starts at `p`.
pub open spec fn cstr_ok(b: Seq<u8>, p: int) -> bool {
    exists|k: int| p <= k < b.len() && b[k] == 0u8 && (forall|j: int| p <= j < k ==> b[j] < 0x80u8)
}

/// Whether the NUL-terminated string at `p` is `name`: its bytes, then a
/// NUL.
pub open spec fn names_at(b: Seq<u8>, p: int, name: Seq<u8>) -> bool {
    &&& p + name.len() < b.len()
    &&& b.subrange(p, p + name.len()) == name
    &&& b[p + name.len()] == 0u8
}

/// Whether looking up the section name `name` reads the section header at
/// `base` safely, with the name table at `str_off`. The lookup reads the
/// name of every section of a known, non-null type; it must be a
/// NUL-terminated ASCII string inside the image. The data of a section with
/// that name is read when it is the one found; it must be readable.
pub open spec fn section_ok_at(b: Seq<u8>, base: int, str_off: int, name: Seq<u8>) -> bool {
    let ty = sect_type_at(b, base);
    let p = str_off + sect_name_at(b, base);
    (ty != 0 && is_known_sh_type(ty)) ==> {
        &&& cstr_ok(b, p)
        &&& names_at(b, p, name) ==> section_data_ok_at(b, base)
    }
}

/// Whether looking up `name` reads section `i` safely.
pub open spec fn section_ok(b: Seq<u8>, i: int, name: Seq<u8>) -> bool {
    section_ok_at(b, sh_base(b, i), sect_offset_at(b, sh_base(b, sh_strndx(b))), name)
}

/// Whether the program header table can be read: when the header records
/// one, it lies inside the image with entries large enough for a program
/// header and aligned for it.
pub open spec fn program_headers_ok(b: Seq<u8>) -> bool {
    (elf_header_ok(b) && ph_num(b) > 0 && ph_off(b) > 0 && ph_ent(b) > 0) ==> {
        &&& ph_off(b) + ph_num(b) * ph_ent(b) <= b.len()
        &&& ph_ent(b) >= (if is_elf64(b) { 56int } else { 32int })
        &&& ph_off(b) % word_align(b) == 0
        &&& ph_ent(b) % word_align(b) == 0
    }
}

/// Whether the section `name` (given by its bytes) can be looked up and
/// read: when there are sections, the header table lies inside the image
/// with aligned entries large enough for a section header, there are fewer
/// than the reserved indices, the name table's header exists, every name
/// the lookup reads is readable, and the data of every section with that
/// name is readable.
pub open spec fn sections_ok(b: Seq<u8>, name: Seq<u8>) -> bool {
    (elf_header_ok(b) && sh_num(b) > 0) ==> {
        &&& sh_num(b) <= 0xff00
        &&& sh_strndx(b) < sh_num(b)
        &&& sh_off(b) + sh_num(b) * sh_ent(b) <= b.len()
        &&& sh_ent(b) >= (if is_elf64(b) { 64int } else { 40int })
        &&& sh_off(b) % word_align(b) == 0
        &&& sh_ent(b) % word_align(b) == 0
        &&& forall|i: int| 0 <= i < sh_num(b) ==> #[trigger] section_ok(b, i, name)
    }
}

/// Looking up `name` is accepted on every image whose section header table
/// lies inside the file with aligned entries large enough for a section
/// header, whose name table is one of its sections, and each of whose
/// sections has a readable name and, when so named, readable data, whatever
/// the number of sections below the reserved indices.
pub proof fn lemma_laid_out_sections_accepted(b: Seq<u8>, name: Seq<u8>)
    requires
        elf_header_ok(b),
        0 < sh_num(b) <= 0xff00,
        sh_strndx(b) < sh_num(b),
        sh_off(b) + sh_num(b) * sh_ent(b) <= b.len(),
        sh_ent(b) >= (if is_elf64(b) { 64int } else { 40int }),
        sh_off(b) % word_align(b) == 0,
        sh_ent(b) % word_align(b) == 0,
        forall|i: int| 0 <= i < sh_num(b) ==> #[trigger] section_ok(b, i, name),
    ensures
        sections_ok(b, name),
{
}

/// An image without sections is accepted for every name: the lookup reads
/// nothing and finds nothing.
pub proof fn lemma_no_sections_accepted(b: Seq<u8>, name: Seq<u8>)
    requires
        sh_num(b) == 0,
    ensures
        sections_ok(b, name),
{
}

/// Whether the three sections the loader reads (`.rela.dyn`, `.rela.plt`
/// and `.dynsym`) can be looked up and read.
pub open spec fn relocation_sections_ok(b: Seq<u8>) -> bool {
    &&& sections_ok(b, ".rela.dyn".spec_bytes())
    &&& sections_ok(b, ".rela.plt".spec_bytes())
    &&& sections_ok(b, ".dynsym".spec_bytes())
}

/// Whether the loader can read the image's program headers and relocation
/// sections without running past its end.
pub open spec fn elf_tables_ok_spec(b: Seq<u8>) -> bool {
    program_headers_ok(b) && relocation_sections_ok(b)
}

fn rd16(b: &[u8], at: usize) -> (r: u64)
    requires
        at + 2 <= b@.len(),
    ensures
        r as int == le16(b@, at as int),
        r < 0x1_0000,
{
    b[at] as u64 + 256 * (b[at + 1] as u64)
}

fn rd32(b: &[u8], at: usize) -> (r: u64)
    requires
        at + 4 <= b@.len(),
    ensures
        r as int == le32(b@, at as int),
        r < 0x1_0000_0000,
{
    let n = b.len();
    assert(at + 2 <= n);
    let lo = rd16(b, at);
    let hi = rd16(b, at + 2);
    assert(0x1_0000 * hi <= 0x1_0000 * 0xffff);
    lo + 0x1_0000 * hi
}

fn rd64(b: &[u8], at: usize) -> (r: u64)
    requires
        at + 8 <= b@.len(),
    ensures
        r as int == le64(b@, at as int),
{
    let n = b.len();
    assert(at + 4 <= n);
    let lo = rd32(b, at);
    let hi = rd32(b, at + 4);
    assert(0x1_0000_0000 * hi <= 0x1_0000_0000 * 0xffff_ffff);
    lo + 0x1_0000_0000 * hi
}

fn header_ok(b: &[u8]) -> (r: bool)
    ensures
        r == elf_header_ok(b@),
{
    let n = b.len();
    if n < 16 {
        return false;
    }
    if !(b[0] == 0x7fu8 && b[1] == 0x45u8 && b[2] == 0x4cu8 && b[3] == 0x46u8) {
        return false;
    }
    (b[4] == 1u8 && n >= 52) || (b[4] == 2u8 && n >= 64)
}

fn program_headers_ok_exec(b: &[u8]) -> (r: bool)
    requires
        elf_header_ok(b@),
    ensures
        r == program_headers_ok(b@),
{
    let is64 = b[4] == 2u8;
    let off = if is64 { rd64(b, 32) } else { rd32(b, 28) };
    let ent = if is64 { rd16(b, 54) } else { rd16(b, 42) };
    let num = if is64 { rd16(b, 56) } else { rd16(b, 44) };
    if !(num > 0 && off > 0 && ent > 0) {
        return true;
    }
    let w: u64 = if is64 { 8 } else { 4 };
    let min: u64 = if is64 { 56 } else { 32 };
    let len = b.len() as u64;
    assert(num * ent <= 0xffff * 0xffff) by (nonlinear_arith)
        requires num < 0x1_0000, ent < 0x1_0000;
    let span = num * ent;
    span <= len && off <= len - span && ent >= min && off % w == 0 && ent % w == 0
}

/// The type, data offset and data size of the section header at `base`.
fn section_fields(b: &[u8], base: u64) -> (r: (u64, u64, u64))
    requires
        elf_header_ok(b@),
        base + (if is_elf64(b@) { 64int } else { 40int }) <= b@.len(),
    ensures
        r.0 as int == sect_type_at(b@, base as int),
        r.1 as int == sect_offset_at(b@, base as int),
        r.2 as int == sect_size_at(b@, base as int),
{
    let at = base as usize;
    if b[4] == 2u8 {
        (rd32(b, at + 4), rd64(b, at + 24), rd64(b, at + 32))
    } else {
        (rd32(b, at + 4), rd32(b, at + 16), rd32(b, at + 20))
    }
}

fn section_data_ok_exec(b: &[u8], base: u64) -> (r: bool)
    requires
        elf_header_ok(b@),
        base + (if is_elf64(b@) { 64int } else { 40int }) <= b@.len(),
    ensures
        r == section_data_ok_at(b@, base as int),
{
    let is64 = b[4] == 2u8;
    let (ty, off, sz) = section_fields(b, base);
    if ty == 0 || ty == 8 || !((ty <= 11) || (14 <= ty && ty <= 18) || ty >= 0x6000_0000) {
        return true;
    }
    let len = b.len() as u64;
    if !(sz <= len && off <= len - sz) {
        return false;
    }
    let e: u64 = if ty == 2 || ty == 11 {
        if is64 { 24 } else { 16 }
    } else if ty == 4 {
        if is64 { 24 } else { 12 }
    } else if ty == 9 || ty == 6 {
        if is64 { 16 } else { 8 }
    } else if 14 <= ty && ty <= 16 {
        if is64 { 8 } else { 4 }
    } else {
        0
    };
    let w: u64 = if is64 { 8 } else { 4 };
    if e > 0 && !(off % w == 0 && sz % e == 0) {
        return false;
    }
    if (ty == 17 || ty == 18) && !(off % 4 == 0 && sz % 4 == 0) {
        return false;
    }
    if ty == 17 && sz < 4 {
        return false;
    }
    if (ty == 5 || (ty == 7 && is64)) && !(off % 4 == 0 && sz >= 12) {
        return false;
    }
    true
}

fn cstr_ok_exec(b: &[u8], p: usize) -> (r: bool)
    requires
        p < b@.len(),
    ensures
        r == cstr_ok(b@, p as int),
{
    let mut k = p;
    while k < b.len() && b[k] != 0 && b[k] < 0x80
        invariant
            p <= k <= b@.len(),
            forall|j: int| p <= j < k ==> b@[j] != 0u8 && b@[j] < 0x80u8,
        decreases b@.len() - k,
    {
        k = k + 1;
    }
    if k < b.len() && b[k] == 0 {
        assert(p <= k < b@.len() && b@[k as int] == 0u8 && (forall|j: int| p <= j < k ==> b@[j] < 0x80u8));
        true
    } else {
        assert(!cstr_ok(b@, p as int)) by {
            if cstr_ok(b@, p as int) {
                let k2 = choose|k2: int|
                    p <= k2 < b@.len() && b@[k2] == 0u8 && (forall|j: int| p <= j < k2 ==> b@[j] < 0x80u8);
                if k2 < k {
                    assert(b@[k2] != 0u8);
                } else if k2 == k {
                } else {
                    assert(b@[k as int] < 0x80u8);
                }
            }
        }
        false
    }
}

fn names_at_exec(b: &[u8], p: usize, name: &[u8]) -> (r: bool)
    requires
        p < b@.len(),
    ensures
        r == names_at(b@, p as int, name@),
{
    let n = name.len();
    let blen = b.len();
    if n >= blen - p {
        return false;
    }
    let mut j: usize = 0;
    while j < n
        invariant
            j <= n,
            n == name@.len(),
            p + n < b@.len(),
            b@.len() <= usize::MAX,
            forall|m: int| 0 <= m < j ==> b@[p + m] == name@[m],
        decreases n - j,
    {
        if b[p + j] != name[j] {
            assert(b@.subrange(p as int, p + n)[j as int] != name@[j as int]);
            return false;
        }
        j = j + 1;
    }
    assert(b@.subrange(p as int, p + n) =~= name@);
    b[p + n] == 0
}

/// Whether looking up `name` reads section header `base` safely, with the
/// name table at `str_off`.
fn section_ok_exec(b: &[u8], base: u64, str_off: u64, name: &[u8]) -> (r: bool)
    requires
        elf_header_ok(b@),
        base + (if is_elf64(b@) { 64int } else { 40int }) <= b@.len(),
    ensures
        r == section_ok_at(b@, base as int, str_off as int, name@),
{
    let (ty, _, _) = section_fields(b, base);
    if ty == 0 || !((ty <= 11) || (14 <= ty && ty <= 18) || ty >= 0x6000_0000) {
        return true;
    }
    let idx = rd32(b, base as usize);
    let len = b.len() as u64;
    if str_off >= len || idx >= len - str_off {
        return false;
    }
    let p = (str_off + idx) as usize;
    if !cstr_ok_exec(b, p) {
        return false;
    }
    if names_at_exec(b, p, name) {
        section_data_ok_exec(b, base)
    } else {
        true
    }
}

fn sections_ok_exec(b: &[u8], name: &[u8]) -> (r: bool)
    requires
        elf_header_ok(b@),
    ensures
        r == sections_ok(b@, name@),
{
    let is64 = b[4] == 2u8;
    let off = if is64 { rd64(b, 40) } else { rd32(b, 32) };
    let ent = if is64 { rd16(b, 58) } else { rd16(b, 46) };
    let num = if is64 { rd16(b, 60) } else { rd16(b, 48) };
    let strndx = if is64 { rd16(b, 62) } else { rd16(b, 50) };
    if num == 0 {
        return true;
    }
    let w: u64 = if is64 { 8 } else { 4 };
    let min: u64 = if is64 { 64 } else { 40 };
    let len = b.len() as u64;
    assert(num * ent <= 0xffff * 0xffff) by (nonlinear_arith)
        requires num < 0x1_0000, ent < 0x1_0000;
    let span = num * ent;
    if !(num <= 0xff00 && strndx < num && span <= len && off <= len - span && ent >= min && off % w == 0
        && ent % w == 0) {
        return false;
    }
    assert(strndx * ent + ent <= num * ent) by (nonlinear_arith)
        requires strndx < num, ent >= 0;
    let str_base = off + strndx * ent;
    let (_, str_off, _) = section_fields(b, str_base);
    let mut i: u64 = 0;
    let mut base: u64 = off;
    while i < num
        invariant
            elf_header_ok(b@),
            len as int == b@.len(),
            is64 == is_elf64(b@),
            min as int == (if is_elf64(b@) { 64int } else { 40int }),
            ent >= min,
            num as int == sh_num(b@),
            off as int == sh_off(b@),
            ent as int == sh_ent(b@),
            str_off as int == sect_offset_at(b@, sh_base(b@, sh_strndx(b@))),
            off + num * ent <= b@.len(),
            i <= num,
            base == off + i * ent,
            forall|j: int| 0 <= j < i ==> #[trigger] section_ok(b@, j, name@),
        decreases num - i,
    {
        assert(i * ent + ent <= num * ent && (i + 1) * ent == i * ent + ent) by (nonlinear_arith)
            requires i < num, ent >= 0;
        if !section_ok_exec(b, base, str_off, name) {
            assert(!section_ok(b@, i as int, name@));
            return false;
        }
        assert(base + ent <= b@.len());
        assert(b@.len() == len);
        base = base + ent;
        i = i + 1;
    }
    true
}

/// Whether the program header table can be read, as `program_headers_ok`
/// states.
pub fn elf_program_headers_ok(bytes: &[u8]) -> (r: bool)
    ensures
        r == program_headers_ok(bytes@),
{
    if !header_ok(bytes) {
        return true;
    }
    program_headers_ok_exec(bytes)
}

/// Whether the section `name` (given by its bytes) can be looked up and
/// read, as `sections_ok` states.
pub fn elf_section_ok(bytes: &[u8], name: &[u8]) -> (r: bool)
    ensures
        r == sections_ok(bytes@, name@),
{
    if !header_ok(bytes) {
        return true;
    }
    sections_ok_exec(bytes, name)
}

/// Whether the loader can read the image's tables, as `elf_tables_ok_spec`
/// states.
pub fn elf_tables_ok(bytes: &[u8]) -> (r: bool)
    ensures
        r == elf_tables_ok_spec(bytes@),
{
    elf_program_headers_ok(bytes) && elf_section_ok(bytes, ".rela.dyn".as_bytes())
        && elf_section_ok(bytes, ".rela.plt".as_bytes()) && elf_section_ok(bytes, ".dynsym".as_bytes())
}

} // verus!
