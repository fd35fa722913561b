//! Detection of the RAW container format from the leading magic bytes of a file.

use vstd::prelude::*;

verus! {

/// The RAW container formats that can be told apart by their magic bytes.
#[derive(PartialEq, Eq, Structural, Clone, Copy, Debug)]
pub enum RawFormat {
    /// A TIFF-based RAW file (DNG, NEF, ARW, CR2, ...): `II*\0` or `MM\0*`.
    TiffRaw,
    /// Canon CR3, an ISO base-media container whose brand is `crx `.
    Cr3,
    /// Fujifilm RAF, starting with `FUJIFILMCCD-RAW `.
    Raf,
    /// Anything else, including files shorter than the smallest header.
    Unknown,
}

/// The shortest input on which any format is recognised.
pub open spec fn min_header_len() -> nat {
    12
}

/// Little-endian TIFF magic: `I I 0x2A 0x00`.
pub open spec fn tiff_le_magic() -> Seq<u8> {
    seq![0x49u8, 0x49u8, 0x2Au8, 0x00u8]
}

/// Big-endian TIFF magic: `M M 0x00 0x2A`.
pub open spec fn tiff_be_magic() -> Seq<u8> {
    seq![0x4Du8, 0x4Du8, 0x00u8, 0x2Au8]
}

/// The ISO base-media box type `ftyp`.
pub open spec fn ftyp_magic() -> Seq<u8> {
    seq![0x66u8, 0x74u8, 0x79u8, 0x70u8]
}

/// The Canon CR3 brand `crx ` (with a trailing space).
pub open spec fn crx_brand() -> Seq<u8> {
    seq![0x63u8, 0x72u8, 0x78u8, 0x20u8]
}

/// The Fujifilm RAF signature `FUJIFILMCCD-RAW ` (16 bytes, trailing space).
pub open spec fn raf_magic() -> Seq<u8> {
    seq![
        0x46u8, 0x55u8, 0x4Au8, 0x49u8, 0x46u8, 0x49u8, 0x4Cu8, 0x4Du8,
        0x43u8, 0x43u8, 0x44u8, 0x2Du8, 0x52u8, 0x41u8, 0x57u8, 0x20u8,
    ]
}

/// `bytes` holds `magic` starting at `offset`.
pub open spec fn has_magic_at(bytes: Seq<u8>, offset: int, magic: Seq<u8>) -> bool {
    &&& 0 <= offset
    &&& offset + magic.len() <= bytes.len()
    &&& bytes.subrange(offset, offset + magic.len()) == magic
}

/// The format of a file, decided by its first bytes. The checks are made in
/// order: a file shorter than 12 bytes is unknown; then TIFF, CR3 and RAF.
pub open spec fn format_of(bytes: Seq<u8>) -> RawFormat {
    if bytes.len() < min_header_len() {
        RawFormat::Unknown
    } else if has_magic_at(bytes, 0, tiff_le_magic()) || has_magic_at(bytes, 0, tiff_be_magic()) {
        RawFormat::TiffRaw
    } else if has_magic_at(bytes, 4, ftyp_magic()) && has_magic_at(bytes, 8, crx_brand()) {
        RawFormat::Cr3
    } else if has_magic_at(bytes, 0, raf_magic()) {
        RawFormat::Raf
    } else {
        RawFormat::Unknown
    }
}

/// The name under which each format is reported.
pub open spec fn format_name(format: RawFormat) -> Seq<char> {
    match format {
        RawFormat::TiffRaw => "DNG/TIFF-RAW"@,
        RawFormat::Cr3 => "CR3"@,
        RawFormat::Raf => "RAF"@,
        RawFormat::Unknown => "unknown"@,
    }
}

/// A magic number that ends within the first `n` bytes is seen alike in two
/// files that agree on those bytes.
proof fn lemma_magic_within_prefix(a: Seq<u8>, b: Seq<u8>, n: int, offset: int, magic: Seq<u8>)
    requires
        0 <= offset,
        offset + magic.len() <= n <= a.len(),
        n <= b.len(),
        a.subrange(0, n) == b.subrange(0, n),
    ensures
        has_magic_at(a, offset, magic) == has_magic_at(b, offset, magic),
{
    assert(a.subrange(offset, offset + magic.len()) =~= a.subrange(0, n).subrange(
        offset,
        offset + magic.len(),
    ));
    assert(b.subrange(offset, offset + magic.len()) =~= b.subrange(0, n).subrange(
        offset,
        offset + magic.len(),
    ));
}

/// Files shorter than twelve bytes are never recognised.
pub proof fn lemma_short_input_is_unknown(bytes: Seq<u8>)
    requires
        bytes.len() < 12,
    ensures
        format_of(bytes) == RawFormat::Unknown,
{
}

/// The format is decided by the first sixteen bytes: two files of at least
/// sixteen bytes that agree on them have the same format.
pub proof fn lemma_header_determines_format(a: Seq<u8>, b: Seq<u8>)
    requires
        a.len() >= 16,
        b.len() >= 16,
        a.subrange(0, 16) == b.subrange(0, 16),
    ensures
        format_of(a) == format_of(b),
{
    lemma_magic_within_prefix(a, b, 16, 0, tiff_le_magic());
    lemma_magic_within_prefix(a, b, 16, 0, tiff_be_magic());
    lemma_magic_within_prefix(a, b, 16, 4, ftyp_magic());
    lemma_magic_within_prefix(a, b, 16, 8, crx_brand());
    lemma_magic_within_prefix(a, b, 16, 0, raf_magic());
}

/// Appending data to a file never changes a format that was already
/// recognised, and never changes anything once the file holds sixteen bytes.
pub proof fn lemma_appending_keeps_format(bytes: Seq<u8>, extra: Seq<u8>)
    requires
        format_of(bytes) != RawFormat::Unknown || bytes.len() >= 16,
    ensures
        format_of(bytes + extra) == format_of(bytes),
{
    let whole = bytes + extra;
    let n = if bytes.len() >= 16 { 16 } else { 12 };
    assert(whole.subrange(0, n) =~= bytes.subrange(0, n));
    lemma_magic_within_prefix(bytes, whole, n, 0, tiff_le_magic());
    lemma_magic_within_prefix(bytes, whole, n, 0, tiff_be_magic());
    lemma_magic_within_prefix(bytes, whole, n, 4, ftyp_magic());
    lemma_magic_within_prefix(bytes, whole, n, 8, crx_brand());
    if n == 16 {
        lemma_magic_within_prefix(bytes, whole, n, 0, raf_magic());
    }
}

/// Distinct formats are reported under distinct names, so the name returned
/// by [`detect_format`] identifies the format.
pub proof fn lemma_format_names_distinct(f: RawFormat, g: RawFormat)
    requires
        f != g,
    ensures
        format_name(f) != format_name(g),
{
    reveal_strlit("DNG/TIFF-RAW");
    reveal_strlit("CR3");
    reveal_strlit("RAF");
    reveal_strlit("unknown");
    assert(format_name(RawFormat::TiffRaw).len() == 12);
    assert(format_name(RawFormat::Cr3).len() == 3);
    assert(format_name(RawFormat::Raf).len() == 3);
    assert(format_name(RawFormat::Unknown).len() == 7);
    assert(format_name(RawFormat::Cr3)[0] != format_name(RawFormat::Raf)[0]);
}

/// Whether `bytes[offset..offset + magic.len()]` equals `magic`.
fn matches_at(bytes: &[u8], offset: usize, magic: &[u8]) -> (r: bool)
    ensures
        r == has_magic_at(bytes@, offset as int, magic@),
{
    if offset > bytes.len() || magic.len() > bytes.len() - offset {
        return false;
    }
    let mut i: usize = 0;
    while i < magic.len()
        invariant
            offset + magic.len() <= bytes.len(),
            0 <= i <= magic.len(),
            forall|k: int| 0 <= k < i ==> bytes@[offset + k] == #[trigger] magic@[k],
        decreases magic.len() - i,
    {
        if bytes[offset + i] != magic[i] {
            proof {
                assert(bytes@.subrange(offset as int, offset + magic.len())[i as int] != magic@[i as int]);
            }
            return false;
        }
        i = i + 1;
    }
    assert(bytes@.subrange(offset as int, offset + magic.len()) =~= magic@);
    true
}

impl RawFormat {
    /// The name of the format, as reported by [`detect_format`].
    pub fn name(&self) -> (r: String)
        ensures
            r@ == format_name(*self),
    {
        match self {
            RawFormat::TiffRaw => "DNG/TIFF-RAW".to_string(),
            RawFormat::Cr3 => "CR3".to_string(),
            RawFormat::Raf => "RAF".to_string(),
            RawFormat::Unknown => "unknown".to_string(),
        }
    }
}

/// Detect the RAW container format from the file's magic bytes.
pub fn detect_raw_format(bytes: &[u8]) -> (r: RawFormat)
    ensures
        r == format_of(bytes@),
{
    if bytes.len() < 12 {
        return RawFormat::Unknown;
    }
    let tiff_le: [u8; 4] = [0x49, 0x49, 0x2A, 0x00];
    let tiff_be: [u8; 4] = [0x4D, 0x4D, 0x00, 0x2A];
    assert(tiff_le@ =~= tiff_le_magic());
    assert(tiff_be@ =~= tiff_be_magic());
    if matches_at(bytes, 0, &tiff_le) || matches_at(bytes, 0, &tiff_be) {
        return RawFormat::TiffRaw;
    }
    let ftyp: [u8; 4] = [0x66, 0x74, 0x79, 0x70];
    let crx: [u8; 4] = [0x63, 0x72, 0x78, 0x20];
    assert(ftyp@ =~= ftyp_magic());
    assert(crx@ =~= crx_brand());
    if matches_at(bytes, 4, &ftyp) && matches_at(bytes, 8, &crx) {
        return RawFormat::Cr3;
    }
    let raf: [u8; 16] = [
        0x46, 0x55, 0x4A, 0x49, 0x46, 0x49, 0x4C, 0x4D,
        0x43, 0x43, 0x44, 0x2D, 0x52, 0x41, 0x57, 0x20,
    ];
    assert(raf@ =~= raf_magic());
    if matches_at(bytes, 0, &raf) {
        return RawFormat::Raf;
    }
    RawFormat::Unknown
}

/// Detect RAW format from file magic bytes, as a name: `"DNG/TIFF-RAW"`,
/// `"CR3"`, `"RAF"` or `"unknown"`.
pub fn detect_format(bytes: &[u8]) -> (r: String)
    ensures
        r@ == format_name(format_of(bytes@)),
{
    detect_raw_format(bytes).name()
}

/// The RAW format of files from a camera maker, by the maker's name as
/// rawler reports it; `None` for makers whose files come in more than one
/// format (Canon, Leica) and for makers not listed.
pub open spec fn maker_format(make: Seq<char>) -> Option<Seq<char>> {
    if make == "Nikon"@ || make == "NIKON CORPORATION"@ {
        Some("NEF"@)
    } else if make == "Sony"@ || make == "SONY"@ {
        Some("ARW"@)
    } else if make == "Fujifilm"@ || make == "FUJIFILM"@ {
        Some("RAF"@)
    } else if make == "Panasonic"@ {
        Some("RW2"@)
    } else if make == "Olympus"@ || make == "OLYMPUS CORPORATION"@ || make == "OLYMPUS IMAGING CORP."@ || make == "OM Digital Solutions"@ {
        Some("ORF"@)
    } else if make == "Pentax"@ || make == "Ricoh"@ || make == "RICOH IMAGING COMPANY, LTD."@ {
        Some("PEF"@)
    } else if make == "Samsung"@ {
        Some("SRW"@)
    } else if make == "Kodak"@ {
        Some("DCR"@)
    } else if make == "Hasselblad"@ {
        Some("3FR"@)
    } else if make == "Phase One"@ || make == "Phase One A/S"@ {
        Some("IIQ"@)
    } else if make == "Leaf"@ {
        Some("MOS"@)
    } else if make == "Minolta"@ || make == "Konica Minolta"@ {
        Some("MRW"@)
    } else if make == "Epson"@ {
        Some("ERF"@)
    } else if make == "Mamiya"@ {
        Some("MEF"@)
    } else if make == "ARRI"@ {
        Some("ARI"@)
    } else {
        None
    }
}

/// The RAW format name under which a probed file is reported: `DNG` when
/// rawler decoded it as a DNG; else `CR3` or `RAF` when the magic bytes say
/// so; else Canon's TIFF-based `CR2` or older `CRW`; else the format of the
/// camera maker's files; else the magic-byte name (`DNG/TIFF-RAW`, `unknown`).
pub open spec fn raw_format_name(detected: RawFormat, make: Seq<char>, dng: bool) -> Seq<char> {
    if dng {
        "DNG"@
    } else if detected == RawFormat::Cr3 || detected == RawFormat::Raf {
        format_name(detected)
    } else if make == "Canon"@ {
        if detected == RawFormat::TiffRaw {
            "CR2"@
        } else {
            "CRW"@
        }
    } else {
        match maker_format(make) {
            Some(name) => name,
            None => format_name(detected),
        }
    }
}

/// Whether `make` is spelled `name`.
fn spelled(make: &String, name: &str) -> (r: bool)
    ensures
        r == (make@ == name@),
{
    *make == name.to_string()
}

/// The format name of a camera maker's files, see [`maker_format`].
fn maker_format_name(make: &String) -> (r: Option<&'static str>)
    ensures
        match r {
            Some(name) => maker_format(make@) == Some(name@),
            None => maker_format(make@) is None,
        },
{
    if spelled(make, "Nikon") || spelled(make, "NIKON CORPORATION") {
        Some("NEF")
    } else if spelled(make, "Sony") || spelled(make, "SONY") {
        Some("ARW")
    } else if spelled(make, "Fujifilm") || spelled(make, "FUJIFILM") {
        Some("RAF")
    } else if spelled(make, "Panasonic") {
        Some("RW2")
    } else if spelled(make, "Olympus") || spelled(make, "OLYMPUS CORPORATION") || spelled(make, "OLYMPUS IMAGING CORP.") || spelled(make, "OM Digital Solutions") {
        Some("ORF")
    } else if spelled(make, "Pentax") || spelled(make, "Ricoh") || spelled(make, "RICOH IMAGING COMPANY, LTD.") {
        Some("PEF")
    } else if spelled(make, "Samsung") {
        Some("SRW")
    } else if spelled(make, "Kodak") {
        Some("DCR")
    } else if spelled(make, "Hasselblad") {
        Some("3FR")
    } else if spelled(make, "Phase One") || spelled(make, "Phase One A/S") {
        Some("IIQ")
    } else if spelled(make, "Leaf") {
        Some("MOS")
    } else if spelled(make, "Minolta") || spelled(make, "Konica Minolta") {
        Some("MRW")
    } else if spelled(make, "Epson") {
        Some("ERF")
    } else if spelled(make, "Mamiya") {
        Some("MEF")
    } else if spelled(make, "ARRI") {
        Some("ARI")
    } else {
        None
    }
}

/// The RAW format name of a probed file, from its bytes, the camera maker
/// that rawler reports and whether rawler decoded it as a DNG.
pub fn raw_format(bytes: &[u8], make: &String, dng: bool) -> (r: String)
    ensures
        r@ == raw_format_name(format_of(bytes@), make@, dng),
{
    let detected = detect_raw_format(bytes);
    if dng {
        return "DNG".to_string();
    }
    match detected {
        RawFormat::Cr3 => return detected.name(),
        RawFormat::Raf => return detected.name(),
        _ => {},
    }
    if spelled(make, "Canon") {
        return match detected {
            RawFormat::TiffRaw => "CR2".to_string(),
            _ => "CRW".to_string(),
        };
    }
    match maker_format_name(make) {
        Some(name) => name.to_string(),
        None => detected.name(),
    }
}

} // verus!
