//! Content-type detection over a bounded prefix of a file's leading bytes.
//!
//! The prefix is sampled once by the caller (at most 64 bytes in the driving
//! application) and handed in as a byte slice; everything here is a pure
//! function of those bytes. Detection runs container disambiguators
//! (ISO-BMFF, RIFF, ZIP) first, then a JSON-shape check, then a fixed table
//! of literal byte signatures, then the binary-indicating signatures, first
//! match winning throughout. A separate scan answers whether the prefix
//! looks like a binary file at all.

use vstd::prelude::*;

verus! {

// ---------------------------------------------------------------------------
// Byte-pattern matching primitives
// ---------------------------------------------------------------------------

/// The pattern `p` occurs in `b` exactly at offset `off`.
pub open spec fn spec_starts_with_at(b: Seq<u8>, off: int, p: Seq<u8>) -> bool {
    &&& 0 <= off
    &&& off + p.len() <= b.len()
    &&& b.subrange(off, off + p.len()) == p
}

/// The pattern `p` is non-empty and occurs somewhere in `b`.
pub open spec fn spec_contains(b: Seq<u8>, p: Seq<u8>) -> bool {
    p.len() > 0 && exists|i: int| spec_starts_with_at(b, i, p)
}

/// Exact byte equality over `pat.len()` bytes of `buf` starting at `offset`;
/// false whenever the window would run past the end of `buf`.
pub fn starts_with_at(buf: &[u8], offset: usize, pat: &[u8]) -> (r: bool)
    ensures
        r == spec_starts_with_at(buf@, offset as int, pat@),
{
    if offset > buf.len() || pat.len() > buf.len() - offset {
        return false;
    }
    let n: usize = pat.len();
    let mut i: usize = 0;
    while i < n
        invariant
            n == pat@.len(),
            offset + n <= buf@.len() <= usize::MAX,
            i <= n,
            forall|k: int| 0 <= k < i ==> buf@[offset + k] == pat@[k],
        decreases n - i,
    {
        if buf[offset + i] != pat[i] {
            proof {
                let s = buf@.subrange(offset as int, offset + n);
                assert(s[i as int] == buf@[offset + i]);
            }
            return false;
        }
        i += 1;
    }
    proof {
        assert(buf@.subrange(offset as int, offset + n) =~= pat@);
    }
    true
}

/// A 4-byte tag occurs in `buf` exactly at offset `off`.
pub fn has_tag_at(buf: &[u8], off: usize, t0: u8, t1: u8, t2: u8, t3: u8) -> (r: bool)
    ensures
        r == spec_starts_with_at(buf@, off as int, seq![t0, t1, t2, t3]),
{
    if off > buf.len() || buf.len() - off < 4 {
        return false;
    }
    let r = buf[off] == t0 && buf[off + 1] == t1 && buf[off + 2] == t2 && buf[off + 3] == t3;
    proof {
        let p = seq![t0, t1, t2, t3];
        let s = buf@.subrange(off as int, off as int + 4);
        assert(s[0] == buf@[off as int]);
        assert(s[1] == buf@[off as int + 1]);
        assert(s[2] == buf@[off as int + 2]);
        assert(s[3] == buf@[off as int + 3]);
        if r {
            assert(s =~= p);
        }
    }
    r
}

/// Naive byte-window scan for `pat` anywhere in `buf`; an empty pattern is
/// never found.
pub fn contains(buf: &[u8], pat: &[u8]) -> (r: bool)
    ensures
        r == spec_contains(buf@, pat@),
{
    if pat.len() == 0 || buf.len() < pat.len() {
        return false;
    }
    let last: usize = buf.len() - pat.len();
    let mut i: usize = 0;
    while i <= last
        invariant
            0 < pat@.len() <= buf@.len() <= usize::MAX,
            last == buf@.len() - pat@.len(),
            i <= last + 1,
            forall|k: int| 0 <= k < i ==> !spec_starts_with_at(buf@, k, pat@),
        decreases last + 1 - i,
    {
        if starts_with_at(buf, i, pat) {
            return true;
        }
        i += 1;
    }
    proof {
        assert(forall|k: int| !spec_starts_with_at(buf@, k, pat@)) by {
            assert(forall|k: int| k > last ==> !spec_starts_with_at(buf@, k, pat@));
        }
    }
    false
}

// ---------------------------------------------------------------------------
// Detected-type labels
// ---------------------------------------------------------------------------

/// The optional label an exec detector returned agrees with the optional
/// label a detector specification names.
pub open spec fn label_matches(r: Option<&str>, s: Option<Seq<char>>) -> bool {
    match r {
        Option::Some(x) => s matches Option::Some(v) && v == x@,
        Option::None => s is None,
    }
}

// ---------------------------------------------------------------------------
// ISO-BMFF (MP4 family)
// ---------------------------------------------------------------------------

/// ISO-BMFF detection: at least 12 bytes with the ASCII marker "ftyp" at
/// offset 4; the four bytes at offset 8 pick the concrete subtype, and any
/// unrecognized subtype still reports mp4 (never "no match").
pub open spec fn spec_detect_mp4_like(b: Seq<u8>) -> Option<Seq<char>> {
    if b.len() < 12 || !spec_starts_with_at(b, 4, seq![('f' as u8), ('t' as u8), ('y' as u8), ('p' as u8)]) {
        Option::None
    } else if spec_starts_with_at(b, 8, seq![('M' as u8), ('4' as u8), ('V' as u8), (' ' as u8)]) {
        Option::Some("m4v"@)
    } else if spec_starts_with_at(b, 8, seq![('M' as u8), ('4' as u8), ('A' as u8), (' ' as u8)]) {
        Option::Some("m4a"@)
    } else if spec_starts_with_at(b, 8, seq![('M' as u8), ('4' as u8), ('B' as u8), (' ' as u8)]) {
        Option::Some("m4b"@)
    } else if spec_starts_with_at(b, 8, seq![('q' as u8), ('t' as u8), (' ' as u8), (' ' as u8)]) {
        Option::Some("mov"@)
    } else {
        Option::Some("mp4"@)
    }
}

/// Report the ISO-BMFF subtype of the prefix, or nothing when the container
/// marker is absent.
pub fn detect_mp4_like(buf: &[u8]) -> (r: Option<&'static str>)
    ensures
        label_matches(r, spec_detect_mp4_like(buf@)),
{
    if buf.len() < 12 || !has_tag_at(buf, 4, ('f' as u8), ('t' as u8), ('y' as u8), ('p' as u8)) {
        return Option::None;
    }
    if has_tag_at(buf, 8, ('M' as u8), ('4' as u8), ('V' as u8), (' ' as u8)) {
        Option::Some("m4v")
    } else if has_tag_at(buf, 8, ('M' as u8), ('4' as u8), ('A' as u8), (' ' as u8)) {
        Option::Some("m4a")
    } else if has_tag_at(buf, 8, ('M' as u8), ('4' as u8), ('B' as u8), (' ' as u8)) {
        Option::Some("m4b")
    } else if has_tag_at(buf, 8, ('q' as u8), ('t' as u8), (' ' as u8), (' ' as u8)) {
        Option::Some("mov")
    } else {
        Option::Some("mp4")
    }
}

// ---------------------------------------------------------------------------
// RIFF
// ---------------------------------------------------------------------------

/// RIFF detection: at least 12 bytes starting with ASCII "RIFF"; the four
/// bytes at offset 8 pick WEBP, WAV or AVI, and any other value is no match
/// (the scan falls through to later detectors).
pub open spec fn spec_detect_riff_typed(b: Seq<u8>) -> Option<Seq<char>> {
    if b.len() < 12 || !spec_starts_with_at(b, 0, seq![('R' as u8), ('I' as u8), ('F' as u8), ('F' as u8)]) {
        Option::None
    } else if spec_starts_with_at(b, 8, seq![('W' as u8), ('E' as u8), ('B' as u8), ('P' as u8)]) {
        Option::Some("webp"@)
    } else if spec_starts_with_at(b, 8, seq![('W' as u8), ('A' as u8), ('V' as u8), ('E' as u8)]) {
        Option::Some("wav"@)
    } else if spec_starts_with_at(b, 8, seq![('A' as u8), ('V' as u8), ('I' as u8), (' ' as u8)]) {
        Option::Some("avi"@)
    } else {
        Option::None
    }
}

/// Report the RIFF subtype of the prefix, or nothing when the outer marker or
/// the subtype is unrecognized.
pub fn detect_riff_typed(buf: &[u8]) -> (r: Option<&'static str>)
    ensures
        label_matches(r, spec_detect_riff_typed(buf@)),
{
    if buf.len() < 12 || !has_tag_at(buf, 0, ('R' as u8), ('I' as u8), ('F' as u8), ('F' as u8)) {
        return Option::None;
    }
    if has_tag_at(buf, 8, ('W' as u8), ('E' as u8), ('B' as u8), ('P' as u8)) {
        Option::Some("webp")
    } else if has_tag_at(buf, 8, ('W' as u8), ('A' as u8), ('V' as u8), ('E' as u8)) {
        Option::Some("wav")
    } else if has_tag_at(buf, 8, ('A' as u8), ('V' as u8), ('I' as u8), (' ' as u8)) {
        Option::Some("avi")
    } else {
        Option::None
    }
}

// ---------------------------------------------------------------------------
// ZIP family
// ---------------------------------------------------------------------------

/// The ZIP local-file-header magic "PK\x03\x04".
pub open spec fn pat_zip_magic() -> Seq<u8> {
    seq![('P' as u8), ('K' as u8), 0x03u8, 0x04u8]
}

/// The bytes of "[Content_Types].xml".
pub open spec fn pat_content_types() -> Seq<u8> {
    seq![
        ('[' as u8), ('C' as u8), ('o' as u8), ('n' as u8), ('t' as u8), ('e' as u8),
        ('n' as u8), ('t' as u8), ('_' as u8), ('T' as u8), ('y' as u8), ('p' as u8),
        ('e' as u8), ('s' as u8), (']' as u8), ('.' as u8), ('x' as u8), ('m' as u8),
        ('l' as u8),
    ]
}

/// The bytes of "word/".
pub open spec fn pat_word() -> Seq<u8> {
    seq![('w' as u8), ('o' as u8), ('r' as u8), ('d' as u8), ('/' as u8)]
}

/// The bytes of "xl/".
pub open spec fn pat_xl() -> Seq<u8> {
    seq![('x' as u8), ('l' as u8), ('/' as u8)]
}

/// The bytes of "ppt/".
pub open spec fn pat_ppt() -> Seq<u8> {
    seq![('p' as u8), ('p' as u8), ('t' as u8), ('/' as u8)]
}

/// The bytes of "AndroidManifest.xml".
pub open spec fn pat_android_manifest() -> Seq<u8> {
    seq![
        ('A' as u8), ('n' as u8), ('d' as u8), ('r' as u8), ('o' as u8), ('i' as u8),
        ('d' as u8), ('M' as u8), ('a' as u8), ('n' as u8), ('i' as u8), ('f' as u8),
        ('e' as u8), ('s' as u8), ('t' as u8), ('.' as u8), ('x' as u8), ('m' as u8),
        ('l' as u8),
    ]
}

/// The bytes of "META-INF/".
pub open spec fn pat_meta_inf() -> Seq<u8> {
    seq![
        ('M' as u8), ('E' as u8), ('T' as u8), ('A' as u8), ('-' as u8), ('I' as u8),
        ('N' as u8), ('F' as u8), ('/' as u8),
    ]
}

/// ZIP-family detection: the prefix must start with the ZIP local-file-header
/// magic; the subtype is then chosen by substring search over the sampled
/// prefix only, in a fixed priority order, and a prefix with none of the
/// distinguishing substrings is plain zip.
pub open spec fn spec_detect_zip_like(b: Seq<u8>) -> Option<Seq<char>> {
    if !spec_starts_with_at(b, 0, pat_zip_magic()) {
        Option::None
    } else if spec_contains(b, pat_content_types()) || spec_contains(b, pat_word()) {
        Option::Some("docx"@)
    } else if spec_contains(b, pat_xl()) {
        Option::Some("xlsx"@)
    } else if spec_contains(b, pat_ppt()) {
        Option::Some("pptx"@)
    } else if spec_contains(b, pat_android_manifest()) {
        Option::Some("apk"@)
    } else if spec_contains(b, pat_meta_inf()) {
        Option::Some("jar"@)
    } else {
        Option::Some("zip"@)
    }
}

/// Report the ZIP-family subtype of the prefix, or nothing when the ZIP magic
/// is absent. Subtype hits are probabilistic: they only catch distinguishing
/// substrings that fall inside the sampled prefix.
pub fn detect_zip_like(buf: &[u8]) -> (r: Option<&'static str>)
    ensures
        label_matches(r, spec_detect_zip_like(buf@)),
{
    if !has_tag_at(buf, 0, ('P' as u8), ('K' as u8), 0x03, 0x04) {
        proof {
            assert(seq![('P' as u8), ('K' as u8), 0x03u8, 0x04u8] =~= pat_zip_magic());
        }
        return Option::None;
    }
    proof {
        assert(seq![('P' as u8), ('K' as u8), 0x03u8, 0x04u8] =~= pat_zip_magic());
    }

    let content_types: Vec<u8> = vec![
        ('[' as u8), ('C' as u8), ('o' as u8), ('n' as u8), ('t' as u8), ('e' as u8),
        ('n' as u8), ('t' as u8), ('_' as u8), ('T' as u8), ('y' as u8), ('p' as u8),
        ('e' as u8), ('s' as u8), (']' as u8), ('.' as u8), ('x' as u8), ('m' as u8),
        ('l' as u8),
    ];
    proof {
        assert(content_types@ =~= pat_content_types());
    }
    let word: Vec<u8> = vec![('w' as u8), ('o' as u8), ('r' as u8), ('d' as u8), ('/' as u8)];
    proof {
        assert(word@ =~= pat_word());
    }
    if contains(buf, content_types.as_slice()) || contains(buf, word.as_slice()) {
        return Option::Some("docx");
    }

    let xl: Vec<u8> = vec![('x' as u8), ('l' as u8), ('/' as u8)];
    proof {
        assert(xl@ =~= pat_xl());
    }
    if contains(buf, xl.as_slice()) {
        return Option::Some("xlsx");
    }

    let ppt: Vec<u8> = vec![('p' as u8), ('p' as u8), ('t' as u8), ('/' as u8)];
    proof {
        assert(ppt@ =~= pat_ppt());
    }
    if contains(buf, ppt.as_slice()) {
        return Option::Some("pptx");
    }

    let android: Vec<u8> = vec![
        ('A' as u8), ('n' as u8), ('d' as u8), ('r' as u8), ('o' as u8), ('i' as u8),
        ('d' as u8), ('M' as u8), ('a' as u8), ('n' as u8), ('i' as u8), ('f' as u8),
        ('e' as u8), ('s' as u8), ('t' as u8), ('.' as u8), ('x' as u8), ('m' as u8),
        ('l' as u8),
    ];
    proof {
        assert(android@ =~= pat_android_manifest());
    }
    if contains(buf, android.as_slice()) {
        return Option::Some("apk");
    }

    let meta_inf: Vec<u8> = vec![
        ('M' as u8), ('E' as u8), ('T' as u8), ('A' as u8), ('-' as u8), ('I' as u8),
        ('N' as u8), ('F' as u8), ('/' as u8),
    ];
    proof {
        assert(meta_inf@ =~= pat_meta_inf());
    }
    if contains(buf, meta_inf.as_slice()) {
        return Option::Some("jar");
    }

    Option::Some("zip")
}

// ---------------------------------------------------------------------------
// JSON-shape check
// ---------------------------------------------------------------------------

/// ASCII whitespace as the byte-level scan treats it: tab, line feed, form
/// feed, carriage return or space.
pub open spec fn is_ws_byte(x: u8) -> bool {
    x == 0x09 || x == 0x0A || x == 0x0C || x == 0x0D || x == 0x20
}

/// One of the punctuation bytes a JSON-shaped prefix must show somewhere:
/// a double quote, a colon or a comma.
pub open spec fn is_json_punct(x: u8) -> bool {
    x == ('"' as u8) || x == (':' as u8) || x == (',' as u8)
}

/// The UTF-8 byte-order-mark.
pub open spec fn pat_bom() -> Seq<u8> {
    seq![0xEFu8, 0xBBu8, 0xBFu8]
}

/// Where the JSON scan starts: right past a UTF-8 byte-order-mark when the
/// prefix carries one, else at the first byte.
pub open spec fn spec_json_start(b: Seq<u8>) -> int {
    if spec_starts_with_at(b, 0, pat_bom()) {
        3
    } else {
        0
    }
}

/// The index of the first byte at or past `i` that is not ASCII whitespace.
pub open spec fn spec_first_non_ws(b: Seq<u8>, i: int) -> Option<int>
    decreases b.len() - i,
{
    if i < 0 || i >= b.len() {
        Option::None
    } else if !is_ws_byte(b[i]) {
        Option::Some(i)
    } else {
        spec_first_non_ws(b, i + 1)
    }
}

/// Somewhere at or past `start` the prefix shows a JSON punctuation byte.
pub open spec fn spec_has_json_punct(b: Seq<u8>, start: int) -> bool {
    exists|k: int| start <= k < b.len() && is_json_punct(b[k])
}

/// JSON-shape detection: skip a UTF-8 byte-order-mark, find the first byte
/// that is not ASCII whitespace; the prefix is JSON-shaped when that byte
/// opens an object or an array and a quote, colon or comma occurs anywhere in
/// the scanned region.
pub open spec fn spec_detect_json(b: Seq<u8>) -> Option<Seq<char>> {
    let start: int = spec_json_start(b);
    match spec_first_non_ws(b, start) {
        Option::None => Option::None,
        Option::Some(i) => if (b[i] == ('{' as u8) || b[i] == ('[' as u8)) && spec_has_json_punct(
            b,
            start,
        ) {
            Option::Some("json"@)
        } else {
            Option::None
        },
    }
}

/// Byte-level ASCII whitespace test.
pub fn is_ws_u8(x: u8) -> (r: bool)
    ensures
        r == is_ws_byte(x),
{
    x == 0x09 || x == 0x0A || x == 0x0C || x == 0x0D || x == 0x20
}

/// Report json when the prefix is JSON-shaped, or nothing.
pub fn detect_json(buf: &[u8]) -> (r: Option<&'static str>)
    ensures
        label_matches(r, spec_detect_json(buf@)),
{
    let n: usize = buf.len();
    let has_bom: bool = n >= 3 && buf[0] == 0xEF && buf[1] == 0xBB && buf[2] == 0xBF;
    proof {
        if buf@.len() >= 3 {
            let s = buf@.subrange(0, 3);
            assert(s[0] == buf@[0]);
            assert(s[1] == buf@[1]);
            assert(s[2] == buf@[2]);
            if has_bom {
                assert(s =~= pat_bom());
            }
        }
        assert(has_bom == spec_starts_with_at(buf@, 0, pat_bom()));
    }
    let start: usize = if has_bom {
        3
    } else {
        0
    };

    let mut i: usize = start;
    while i < n && is_ws_u8(buf[i])
        invariant
            start <= i <= n,
            n == buf@.len(),
            spec_first_non_ws(buf@, start as int) == spec_first_non_ws(buf@, i as int),
        decreases n - i,
    {
        i += 1;
    }
    if i == n {
        return Option::None;
    }
    let first: u8 = buf[i];

    if first == ('{' as u8) || first == ('[' as u8) {
        let mut j: usize = start;
        let mut punct: bool = false;
        while j < n
            invariant
                start <= j <= n,
                n == buf@.len(),
                punct == exists|k: int| start <= k < j && is_json_punct(buf@[k]),
            decreases n - j,
        {
            let x = buf[j];
            if x == ('"' as u8) || x == (':' as u8) || x == (',' as u8) {
                proof {
                    assert(start <= j < j + 1 && is_json_punct(buf@[j as int]));
                }
                punct = true;
            }
            j += 1;
        }
        if punct {
            return Option::Some("json");
        }
    }
    Option::None
}

// ---------------------------------------------------------------------------
// Generic binary/text heuristic
// ---------------------------------------------------------------------------

/// A byte the heuristic counts as text: tab, line feed, carriage return or
/// printable ASCII.
pub open spec fn is_text_byte(x: u8) -> bool {
    x == 0x09 || x == 0x0A || x == 0x0D || (0x20 <= x && x <= 0x7E)
}

/// How many bytes of `b` are outside the text set.
pub open spec fn count_non_text(b: Seq<u8>) -> int
    decreases b.len(),
{
    if b.len() == 0 {
        0
    } else {
        count_non_text(b.drop_last()) + if is_text_byte(b.last()) {
            0int
        } else {
            1int
        }
    }
}

/// Some byte of `b` is zero.
pub open spec fn has_zero_byte(b: Seq<u8>) -> bool {
    exists|k: int| 0 <= k < b.len() && b[k] == 0
}

/// The binary/text heuristic: a prefix holding any zero byte counts as
/// binary, as does one where strictly more than three bytes in ten lie
/// outside tab, line feed, carriage return and printable ASCII; an empty
/// prefix does not.
pub open spec fn spec_looks_binary(b: Seq<u8>) -> bool {
    b.len() > 0 && (has_zero_byte(b) || 10 * count_non_text(b) > 3 * b.len())
}

proof fn lemma_count_non_text_bound(b: Seq<u8>)
    ensures
        0 <= count_non_text(b) <= b.len(),
    decreases b.len(),
{
    if b.len() > 0 {
        lemma_count_non_text_bound(b.drop_last());
    }
}

/// The generic binary/text verdict over the sampled prefix.
pub fn looks_binary(buf: &[u8]) -> (r: bool)
    ensures
        r == spec_looks_binary(buf@),
{
    let n: usize = buf.len();
    if n == 0 {
        return false;
    }
    let mut i: usize = 0;
    let mut zero: bool = false;
    let mut cnt: usize = 0;
    while i < n
        invariant
            i <= n,
            n == buf@.len() <= usize::MAX,
            zero == exists|k: int| 0 <= k < i && buf@[k] == 0,
            cnt == count_non_text(buf@.subrange(0, i as int)),
            cnt <= i,
        decreases n - i,
    {
        let x = buf[i];
        if x == 0 {
            proof {
                assert(0 <= i < i + 1 && buf@[i as int] == 0);
            }
            zero = true;
        }
        proof {
            let s1 = buf@.subrange(0, i + 1);
            assert(s1.drop_last() =~= buf@.subrange(0, i as int));
            assert(s1.last() == buf@[i as int]);
        }
        if !(x == 0x09 || x == 0x0A || x == 0x0D || (0x20 <= x && x <= 0x7E)) {
            cnt += 1;
        }
        i += 1;
    }
    proof {
        assert(buf@.subrange(0, n as int) =~= buf@);
    }
    if zero {
        return true;
    }
    10u128 * (cnt as u128) > 3u128 * (n as u128)
}

// ---------------------------------------------------------------------------
// Fixed signature table
// ---------------------------------------------------------------------------

/// The PNG signature.
pub open spec fn sig_png() -> Seq<u8> {
    seq![0x89u8, ('P' as u8), ('N' as u8), ('G' as u8), 0x0Du8, 0x0Au8, 0x1Au8, 0x0Au8]
}

/// The JPEG signature.
pub open spec fn sig_jpg() -> Seq<u8> {
    seq![0xFFu8, 0xD8u8, 0xFFu8]
}

/// The GIF87a signature.
pub open spec fn sig_gif87() -> Seq<u8> {
    seq![('G' as u8), ('I' as u8), ('F' as u8), ('8' as u8), ('7' as u8), ('a' as u8)]
}

/// The GIF89a signature.
pub open spec fn sig_gif89() -> Seq<u8> {
    seq![('G' as u8), ('I' as u8), ('F' as u8), ('8' as u8), ('9' as u8), ('a' as u8)]
}

/// The BMP signature.
pub open spec fn sig_bmp() -> Seq<u8> {
    seq![('B' as u8), ('M' as u8)]
}

/// The PDF signature.
pub open spec fn sig_pdf() -> Seq<u8> {
    seq![('%' as u8), ('P' as u8), ('D' as u8), ('F' as u8)]
}

/// The PostScript signature "%!PS-Adobe-".
pub open spec fn sig_ps() -> Seq<u8> {
    seq![
        ('%' as u8), ('!' as u8), ('P' as u8), ('S' as u8), ('-' as u8), ('A' as u8),
        ('d' as u8), ('o' as u8), ('b' as u8), ('e' as u8), ('-' as u8),
    ]
}

/// The gzip signature.
pub open spec fn sig_gz() -> Seq<u8> {
    seq![0x1Fu8, 0x8Bu8, 0x08u8]
}

/// The Matroska/EBML signature.
pub open spec fn sig_mkv() -> Seq<u8> {
    seq![0x1Au8, 0x45u8, 0xDFu8, 0xA3u8]
}

/// The WEBP tag, expected at offset 8 of a RIFF file.
pub open spec fn sig_webp() -> Seq<u8> {
    seq![('W' as u8), ('E' as u8), ('B' as u8), ('P' as u8)]
}

/// The ID3 tag of an MP3 file.
pub open spec fn sig_mp3() -> Seq<u8> {
    seq![('I' as u8), ('D' as u8), ('3' as u8)]
}

/// The Ogg signature.
pub open spec fn sig_ogg() -> Seq<u8> {
    seq![('O' as u8), ('g' as u8), ('g' as u8), ('S' as u8)]
}

/// The FLAC signature.
pub open spec fn sig_flac() -> Seq<u8> {
    seq![('f' as u8), ('L' as u8), ('a' as u8), ('C' as u8)]
}

/// The ICO signature.
pub open spec fn sig_ico() -> Seq<u8> {
    seq![0x00u8, 0x00u8, 0x01u8, 0x00u8]
}

/// The little-endian TIFF signature.
pub open spec fn sig_tif_le() -> Seq<u8> {
    seq![('I' as u8), ('I' as u8), ('*' as u8), 0x00u8]
}

/// The big-endian TIFF signature.
pub open spec fn sig_tif_be() -> Seq<u8> {
    seq![('M' as u8), ('M' as u8), 0x00u8, ('*' as u8)]
}

/// The RAR signature.
pub open spec fn sig_rar() -> Seq<u8> {
    seq![('R' as u8), ('a' as u8), ('r' as u8), ('!' as u8), 0x1Au8, 0x07u8, 0x00u8]
}

/// The 7z signature.
pub open spec fn sig_7z() -> Seq<u8> {
    seq![('7' as u8), ('z' as u8), 0xBCu8, 0xAFu8, 0x27u8, 0x1Cu8]
}

/// The fixed signature table, scanned in a fixed priority order with the
/// first match winning. Every signature is a literal byte string at a fixed
/// offset; all sit at offset 0 except WEBP, which sits at offset 8.
pub open spec fn spec_detect_fixed(b: Seq<u8>) -> Option<Seq<char>> {
    if spec_starts_with_at(b, 0, sig_png()) {
        Option::Some("png"@)
    } else if spec_starts_with_at(b, 0, sig_jpg()) {
        Option::Some("jpg"@)
    } else if spec_starts_with_at(b, 0, sig_gif87()) {
        Option::Some("gif"@)
    } else if spec_starts_with_at(b, 0, sig_gif89()) {
        Option::Some("gif"@)
    } else if spec_starts_with_at(b, 0, sig_bmp()) {
        Option::Some("bmp"@)
    } else if spec_starts_with_at(b, 0, sig_pdf()) {
        Option::Some("pdf"@)
    } else if spec_starts_with_at(b, 0, sig_ps()) {
        Option::Some("ps"@)
    } else if spec_starts_with_at(b, 0, pat_zip_magic()) {
        Option::Some("zip"@)
    } else if spec_starts_with_at(b, 0, sig_gz()) {
        Option::Some("gz"@)
    } else if spec_starts_with_at(b, 0, sig_mkv()) {
        Option::Some("mkv"@)
    } else if spec_starts_with_at(b, 8, sig_webp()) {
        Option::Some("webp"@)
    } else if spec_starts_with_at(b, 0, sig_mp3()) {
        Option::Some("mp3"@)
    } else if spec_starts_with_at(b, 0, sig_ogg()) {
        Option::Some("ogg"@)
    } else if spec_starts_with_at(b, 0, sig_flac()) {
        Option::Some("flac"@)
    } else if spec_starts_with_at(b, 0, sig_ico()) {
        Option::Some("ico"@)
    } else if spec_starts_with_at(b, 0, sig_tif_le()) {
        Option::Some("tif"@)
    } else if spec_starts_with_at(b, 0, sig_tif_be()) {
        Option::Some("tif"@)
    } else if spec_starts_with_at(b, 0, sig_rar()) {
        Option::Some("rar"@)
    } else if spec_starts_with_at(b, 0, sig_7z()) {
        Option::Some("7z"@)
    } else {
        Option::None
    }
}

/// Scan the fixed signature table in priority order and report the first
/// matching label.
pub fn detect_fixed(buf: &[u8]) -> (r: Option<&'static str>)
    ensures
        label_matches(r, spec_detect_fixed(buf@)),
{
    let png: Vec<u8> = vec![
        0x89u8, ('P' as u8), ('N' as u8), ('G' as u8), 0x0Du8, 0x0Au8, 0x1Au8, 0x0Au8,
    ];
    proof {
        assert(png@ =~= sig_png());
    }
    if starts_with_at(buf, 0, png.as_slice()) {
        return Option::Some("png");
    }

    let jpg: Vec<u8> = vec![0xFFu8, 0xD8u8, 0xFFu8];
    proof {
        assert(jpg@ =~= sig_jpg());
    }
    if starts_with_at(buf, 0, jpg.as_slice()) {
        return Option::Some("jpg");
    }

    let gif87: Vec<u8> = vec![
        ('G' as u8), ('I' as u8), ('F' as u8), ('8' as u8), ('7' as u8), ('a' as u8),
    ];
    proof {
        assert(gif87@ =~= sig_gif87());
    }
    if starts_with_at(buf, 0, gif87.as_slice()) {
        return Option::Some("gif");
    }

    let gif89: Vec<u8> = vec![
        ('G' as u8), ('I' as u8), ('F' as u8), ('8' as u8), ('9' as u8), ('a' as u8),
    ];
    proof {
        assert(gif89@ =~= sig_gif89());
    }
    if starts_with_at(buf, 0, gif89.as_slice()) {
        return Option::Some("gif");
    }

    let bmp: Vec<u8> = vec![('B' as u8), ('M' as u8)];
    proof {
        assert(bmp@ =~= sig_bmp());
    }
    if starts_with_at(buf, 0, bmp.as_slice()) {
        return Option::Some("bmp");
    }

    if has_tag_at(buf, 0, ('%' as u8), ('P' as u8), ('D' as u8), ('F' as u8)) {
        proof {
            assert(seq![('%' as u8), ('P' as u8), ('D' as u8), ('F' as u8)] =~= sig_pdf());
        }
        return Option::Some("pdf");
    }
    proof {
        assert(seq![('%' as u8), ('P' as u8), ('D' as u8), ('F' as u8)] =~= sig_pdf());
    }

    let ps: Vec<u8> = vec![
        ('%' as u8), ('!' as u8), ('P' as u8), ('S' as u8), ('-' as u8), ('A' as u8),
        ('d' as u8), ('o' as u8), ('b' as u8), ('e' as u8), ('-' as u8),
    ];
    proof {
        assert(ps@ =~= sig_ps());
    }
    if starts_with_at(buf, 0, ps.as_slice()) {
        return Option::Some("ps");
    }

    if has_tag_at(buf, 0, ('P' as u8), ('K' as u8), 0x03, 0x04) {
        proof {
            assert(seq![('P' as u8), ('K' as u8), 0x03u8, 0x04u8] =~= pat_zip_magic());
        }
        return Option::Some("zip");
    }
    proof {
        assert(seq![('P' as u8), ('K' as u8), 0x03u8, 0x04u8] =~= pat_zip_magic());
    }

    let gz: Vec<u8> = vec![0x1Fu8, 0x8Bu8, 0x08u8];
    proof {
        assert(gz@ =~= sig_gz());
    }
    if starts_with_at(buf, 0, gz.as_slice()) {
        return Option::Some("gz");
    }

    if has_tag_at(buf, 0, 0x1A, 0x45, 0xDF, 0xA3) {
        proof {
            assert(seq![0x1Au8, 0x45u8, 0xDFu8, 0xA3u8] =~= sig_mkv());
        }
        return Option::Some("mkv");
    }
    proof {
        assert(seq![0x1Au8, 0x45u8, 0xDFu8, 0xA3u8] =~= sig_mkv());
    }

    if has_tag_at(buf, 8, ('W' as u8), ('E' as u8), ('B' as u8), ('P' as u8)) {
        proof {
            assert(seq![('W' as u8), ('E' as u8), ('B' as u8), ('P' as u8)] =~= sig_webp());
        }
        return Option::Some("webp");
    }
    proof {
        assert(seq![('W' as u8), ('E' as u8), ('B' as u8), ('P' as u8)] =~= sig_webp());
    }

    let mp3: Vec<u8> = vec![('I' as u8), ('D' as u8), ('3' as u8)];
    proof {
        assert(mp3@ =~= sig_mp3());
    }
    if starts_with_at(buf, 0, mp3.as_slice()) {
        return Option::Some("mp3");
    }

    if has_tag_at(buf, 0, ('O' as u8), ('g' as u8), ('g' as u8), ('S' as u8)) {
        proof {
            assert(seq![('O' as u8), ('g' as u8), ('g' as u8), ('S' as u8)] =~= sig_ogg());
        }
        return Option::Some("ogg");
    }
    proof {
        assert(seq![('O' as u8), ('g' as u8), ('g' as u8), ('S' as u8)] =~= sig_ogg());
    }

    if has_tag_at(buf, 0, ('f' as u8), ('L' as u8), ('a' as u8), ('C' as u8)) {
        proof {
            assert(seq![('f' as u8), ('L' as u8), ('a' as u8), ('C' as u8)] =~= sig_flac());
        }
        return Option::Some("flac");
    }
    proof {
        assert(seq![('f' as u8), ('L' as u8), ('a' as u8), ('C' as u8)] =~= sig_flac());
    }

    if has_tag_at(buf, 0, 0x00, 0x00, 0x01, 0x00) {
        proof {
            assert(seq![0x00u8, 0x00u8, 0x01u8, 0x00u8] =~= sig_ico());
        }
        return Option::Some("ico");
    }
    proof {
        assert(seq![0x00u8, 0x00u8, 0x01u8, 0x00u8] =~= sig_ico());
    }

    if has_tag_at(buf, 0, ('I' as u8), ('I' as u8), ('*' as u8), 0x00) {
        proof {
            assert(seq![('I' as u8), ('I' as u8), ('*' as u8), 0x00u8] =~= sig_tif_le());
        }
        return Option::Some("tif");
    }
    proof {
        assert(seq![('I' as u8), ('I' as u8), ('*' as u8), 0x00u8] =~= sig_tif_le());
    }

    if has_tag_at(buf, 0, ('M' as u8), ('M' as u8), 0x00, ('*' as u8)) {
        proof {
            assert(seq![('M' as u8), ('M' as u8), 0x00u8, ('*' as u8)] =~= sig_tif_be());
        }
        return Option::Some("tif");
    }
    proof {
        assert(seq![('M' as u8), ('M' as u8), 0x00u8, ('*' as u8)] =~= sig_tif_be());
    }

    let rar: Vec<u8> = vec![
        ('R' as u8), ('a' as u8), ('r' as u8), ('!' as u8), 0x1Au8, 0x07u8, 0x00u8,
    ];
    proof {
        assert(rar@ =~= sig_rar());
    }
    if starts_with_at(buf, 0, rar.as_slice()) {
        return Option::Some("rar");
    }

    let sevenz: Vec<u8> = vec![('7' as u8), ('z' as u8), 0xBCu8, 0xAFu8, 0x27u8, 0x1Cu8];
    proof {
        assert(sevenz@ =~= sig_7z());
    }
    if starts_with_at(buf, 0, sevenz.as_slice()) {
        return Option::Some("7z");
    }

    Option::None
}

// ---------------------------------------------------------------------------
// Binary-indicating signatures
// ---------------------------------------------------------------------------

/// The DOS/Windows executable signature.
pub open spec fn sig_exe() -> Seq<u8> {
    seq![('M' as u8), ('Z' as u8)]
}

/// The ELF signature.
pub open spec fn sig_elf() -> Seq<u8> {
    seq![0x7Fu8, ('E' as u8), ('L' as u8), ('F' as u8)]
}

/// The four Mach-O signatures.
pub open spec fn sig_macho_1() -> Seq<u8> {
    seq![0xCAu8, 0xFEu8, 0xBAu8, 0xBEu8]
}

/// The four Mach-O signatures.
pub open spec fn sig_macho_2() -> Seq<u8> {
    seq![0xCFu8, 0xFAu8, 0xEDu8, 0xFEu8]
}

/// The four Mach-O signatures.
pub open spec fn sig_macho_3() -> Seq<u8> {
    seq![0xFEu8, 0xEDu8, 0xFAu8, 0xCFu8]
}

/// The four Mach-O signatures.
pub open spec fn sig_macho_4() -> Seq<u8> {
    seq![0xFEu8, 0xEDu8, 0xFAu8, 0xCEu8]
}

/// The WebAssembly signature.
pub open spec fn sig_wasm() -> Seq<u8> {
    seq![0x00u8, ('a' as u8), ('s' as u8), ('m' as u8)]
}

/// The binary-indicating signature set: executable and object formats whose
/// presence implies a non-text file. The set is scanned independently of the
/// fixed table; its labels surface when no other detector claimed the prefix,
/// so an executable hiding under a media extension shows up as a conflict.
pub open spec fn spec_detect_binary_sig(b: Seq<u8>) -> Option<Seq<char>> {
    if spec_starts_with_at(b, 0, sig_exe()) {
        Option::Some("exe"@)
    } else if spec_starts_with_at(b, 0, sig_elf()) {
        Option::Some("elf"@)
    } else if spec_starts_with_at(b, 0, sig_macho_1()) || spec_starts_with_at(b, 0, sig_macho_2())
        || spec_starts_with_at(b, 0, sig_macho_3()) || spec_starts_with_at(b, 0, sig_macho_4()) {
        Option::Some("mach-o"@)
    } else if spec_starts_with_at(b, 0, sig_wasm()) {
        Option::Some("wasm"@)
    } else {
        Option::None
    }
}

/// Scan the binary-indicating signature set and report the label of the
/// first match.
pub fn detect_binary_sig(buf: &[u8]) -> (r: Option<&'static str>)
    ensures
        label_matches(r, spec_detect_binary_sig(buf@)),
{
    let exe: Vec<u8> = vec![('M' as u8), ('Z' as u8)];
    proof {
        assert(exe@ =~= sig_exe());
    }
    if starts_with_at(buf, 0, exe.as_slice()) {
        return Option::Some("exe");
    }

    if has_tag_at(buf, 0, 0x7F, ('E' as u8), ('L' as u8), ('F' as u8)) {
        proof {
            assert(seq![0x7Fu8, ('E' as u8), ('L' as u8), ('F' as u8)] =~= sig_elf());
        }
        return Option::Some("elf");
    }
    proof {
        assert(seq![0x7Fu8, ('E' as u8), ('L' as u8), ('F' as u8)] =~= sig_elf());
    }

    let m1 = has_tag_at(buf, 0, 0xCA, 0xFE, 0xBA, 0xBE);
    let m2 = has_tag_at(buf, 0, 0xCF, 0xFA, 0xED, 0xFE);
    let m3 = has_tag_at(buf, 0, 0xFE, 0xED, 0xFA, 0xCF);
    let m4 = has_tag_at(buf, 0, 0xFE, 0xED, 0xFA, 0xCE);
    proof {
        assert(seq![0xCAu8, 0xFEu8, 0xBAu8, 0xBEu8] =~= sig_macho_1());
        assert(seq![0xCFu8, 0xFAu8, 0xEDu8, 0xFEu8] =~= sig_macho_2());
        assert(seq![0xFEu8, 0xEDu8, 0xFAu8, 0xCFu8] =~= sig_macho_3());
        assert(seq![0xFEu8, 0xEDu8, 0xFAu8, 0xCEu8] =~= sig_macho_4());
    }
    if m1 || m2 || m3 || m4 {
        return Option::Some("mach-o");
    }

    if has_tag_at(buf, 0, 0x00, ('a' as u8), ('s' as u8), ('m' as u8)) {
        proof {
            assert(seq![0x00u8, ('a' as u8), ('s' as u8), ('m' as u8)] =~= sig_wasm());
        }
        return Option::Some("wasm");
    }
    proof {
        assert(seq![0x00u8, ('a' as u8), ('s' as u8), ('m' as u8)] =~= sig_wasm());
    }

    Option::None
}

// ---------------------------------------------------------------------------
// Combined detection
// ---------------------------------------------------------------------------

/// Full signature detection over the sampled prefix, first match winning:
/// the three container disambiguators, then the JSON-shape check, then the
/// fixed table, then the binary-indicating signatures. An empty prefix never
/// matches.
pub open spec fn spec_detect(b: Seq<u8>) -> Option<Seq<char>> {
    if b.len() == 0 {
        Option::None
    } else if spec_detect_mp4_like(b) is Some {
        spec_detect_mp4_like(b)
    } else if spec_detect_riff_typed(b) is Some {
        spec_detect_riff_typed(b)
    } else if spec_detect_zip_like(b) is Some {
        spec_detect_zip_like(b)
    } else if spec_detect_json(b) is Some {
        spec_detect_json(b)
    } else if spec_detect_fixed(b) is Some {
        spec_detect_fixed(b)
    } else {
        spec_detect_binary_sig(b)
    }
}

/// Run all detectors over the sampled prefix and report the first match.
pub fn detect_by_signature_buf(buf: &[u8]) -> (r: Option<&'static str>)
    ensures
        label_matches(r, spec_detect(buf@)),
{
    if buf.len() == 0 {
        return Option::None;
    }
    if let Option::Some(ext) = detect_mp4_like(buf) {
        return Option::Some(ext);
    }
    if let Option::Some(ext) = detect_riff_typed(buf) {
        return Option::Some(ext);
    }
    if let Option::Some(ext) = detect_zip_like(buf) {
        return Option::Some(ext);
    }
    if let Option::Some(ext) = detect_json(buf) {
        return Option::Some(ext);
    }
    if let Option::Some(ext) = detect_fixed(buf) {
        return Option::Some(ext);
    }
    detect_binary_sig(buf)
}

/// The full binary verdict for a prefix: true when a binary-indicating
/// signature matches, or when any container or fixed signature matches (all
/// of those formats are non-text); false when the prefix is JSON-shaped; and
/// otherwise whatever the generic binary/text heuristic says. An empty
/// prefix is never binary.
pub open spec fn spec_is_binary(b: Seq<u8>) -> bool {
    if b.len() == 0 {
        false
    } else if spec_detect_binary_sig(b) is Some {
        true
    } else if spec_detect_mp4_like(b) is Some || spec_detect_riff_typed(b) is Some
        || spec_detect_zip_like(b) is Some || spec_detect_fixed(b) is Some {
        true
    } else if spec_detect_json(b) is Some {
        false
    } else {
        spec_looks_binary(b)
    }
}

/// Decide whether the file whose sampled prefix this is should be treated as
/// a binary file.
pub fn is_binary(prefix: &[u8]) -> (r: bool)
    ensures
        r == spec_is_binary(prefix@),
{
    if prefix.len() == 0 {
        return false;
    }
    if detect_binary_sig(prefix).is_some() {
        return true;
    }
    if detect_mp4_like(prefix).is_some() || detect_riff_typed(prefix).is_some()
        || detect_zip_like(prefix).is_some() || detect_fixed(prefix).is_some() {
        return true;
    }
    if detect_json(prefix).is_some() {
        return false;
    }
    looks_binary(prefix)
}

// ---------------------------------------------------------------------------
// Laws of detection
// ---------------------------------------------------------------------------

/// Law: detection is a pure function of the sampled prefix. Any two results
/// that meet the detection contract for the same unmodified prefix name the
/// same optional label, so running detection twice yields the same detected
/// type.
pub proof fn lemma_detection_deterministic(r1: Option<&str>, r2: Option<&str>, b: Seq<u8>)
    requires
        label_matches(r1, spec_detect(b)),
        label_matches(r2, spec_detect(b)),
    ensures
        r1 is Some <==> r2 is Some,
        r1 matches Option::Some(x) ==> (r2 matches Option::Some(y) && x@ == y@),
{
}

/// Law: a prefix of at least 12 bytes with the ISO-BMFF marker "ftyp" at
/// offset 4 always detects as some MP4-family type — never "no match" — and
/// when the subtype at bytes 8..12 is unrecognized the reported type is mp4.
pub proof fn lemma_bmff_unknown_subtype_defaults_to_mp4(b: Seq<u8>)
    requires
        b.len() >= 12,
        b.subrange(4, 8) == seq![('f' as u8), ('t' as u8), ('y' as u8), ('p' as u8)],
    ensures
        spec_detect_mp4_like(b) is Some,
        spec_detect(b) == spec_detect_mp4_like(b),
        b.subrange(8, 12) != seq![('M' as u8), ('4' as u8), ('V' as u8), (' ' as u8)]
            && b.subrange(8, 12) != seq![('M' as u8), ('4' as u8), ('A' as u8), (' ' as u8)]
            && b.subrange(8, 12) != seq![('M' as u8), ('4' as u8), ('B' as u8), (' ' as u8)]
            && b.subrange(8, 12) != seq![('q' as u8), ('t' as u8), (' ' as u8), (' ' as u8)]
            ==> spec_detect_mp4_like(b) == Option::Some("mp4"@),
{
}

/// Law: a RIFF prefix whose four bytes at offset 8 name none of the known
/// subtypes is no match at all, not a default.
pub proof fn lemma_riff_unknown_fourcc_no_match(b: Seq<u8>)
    requires
        b.len() >= 12,
        b.subrange(8, 12) != seq![('W' as u8), ('E' as u8), ('B' as u8), ('P' as u8)],
        b.subrange(8, 12) != seq![('W' as u8), ('A' as u8), ('V' as u8), ('E' as u8)],
        b.subrange(8, 12) != seq![('A' as u8), ('V' as u8), ('I' as u8), (' ' as u8)],
    ensures
        spec_detect_riff_typed(b) is None,
{
}

/// Law: a ZIP prefix that shows "word/" anywhere in the sampled bytes
/// classifies as docx.
pub proof fn lemma_zip_with_word_marker_is_docx(b: Seq<u8>)
    requires
        spec_starts_with_at(b, 0, pat_zip_magic()),
        spec_contains(b, pat_word()),
    ensures
        spec_detect_zip_like(b) == Option::Some("docx"@),
{
}

/// Law: a ZIP prefix that shows none of the distinguishing substrings
/// classifies as plain zip.
pub proof fn lemma_zip_without_markers_is_plain_zip(b: Seq<u8>)
    requires
        spec_starts_with_at(b, 0, pat_zip_magic()),
        !spec_contains(b, pat_content_types()),
        !spec_contains(b, pat_word()),
        !spec_contains(b, pat_xl()),
        !spec_contains(b, pat_ppt()),
        !spec_contains(b, pat_android_manifest()),
        !spec_contains(b, pat_meta_inf()),
    ensures
        spec_detect_zip_like(b) == Option::Some("zip"@),
{
}

proof fn lemma_first_non_ws_all_ws(b: Seq<u8>, i: int)
    requires
        forall|k: int| 0 <= k < b.len() ==> is_ws_byte(#[trigger] b[k]),
    ensures
        spec_first_non_ws(b, i) is None,
    decreases b.len() - i,
{
    if 0 <= i && i < b.len() {
        lemma_first_non_ws_all_ws(b, i + 1);
    }
}

/// Law: a prefix of nothing but ASCII whitespace is never JSON-shaped.
pub proof fn lemma_all_whitespace_is_not_json(b: Seq<u8>)
    requires
        forall|k: int| 0 <= k < b.len() ==> is_ws_byte(#[trigger] b[k]),
    ensures
        spec_detect_json(b) is None,
{
    lemma_first_non_ws_all_ws(b, spec_json_start(b));
}

/// Law: one zero byte makes a non-empty prefix binary under the generic
/// heuristic, whatever its ratio of text bytes.
pub proof fn lemma_zero_byte_is_binary(b: Seq<u8>)
    requires
        b.len() > 0,
        has_zero_byte(b),
    ensures
        spec_looks_binary(b),
{
}

/// Law: without a zero byte, a prefix at or under the 30 percent boundary of
/// non-text bytes is not binary under the generic heuristic — the threshold
/// comparison is strict.
pub proof fn lemma_ratio_boundary_is_not_binary(b: Seq<u8>)
    requires
        !has_zero_byte(b),
        10 * count_non_text(b) <= 3 * b.len(),
    ensures
        !spec_looks_binary(b),
{
}

} // verus!
