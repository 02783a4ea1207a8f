use sortify::detect::contains;
use sortify::detect::detect_binary_sig;
use sortify::detect::detect_by_signature_buf;
use sortify::detect::detect_fixed;
use sortify::detect::detect_json;
use sortify::detect::detect_mp4_like;
use sortify::detect::detect_riff_typed;
use sortify::detect::detect_zip_like;
use sortify::detect::is_binary;
use sortify::detect::looks_binary;
use sortify::detect::starts_with_at;

fn bmff(subtype: &[u8; 4]) -> Vec<u8> {
    let mut v = vec![0x00, 0x00, 0x00, 0x20];
    v.extend_from_slice(b"ftyp");
    v.extend_from_slice(subtype);
    v.extend_from_slice(&[0x00; 8]);
    v
}

fn riff(fourcc: &[u8; 4]) -> Vec<u8> {
    let mut v = Vec::new();
    v.extend_from_slice(b"RIFF");
    v.extend_from_slice(&[0x24, 0x00, 0x00, 0x00]);
    v.extend_from_slice(fourcc);
    v.extend_from_slice(&[0x00; 4]);
    v
}

fn zip_with(tail: &[u8]) -> Vec<u8> {
    let mut v = vec![0x50, 0x4B, 0x03, 0x04];
    v.extend_from_slice(tail);
    v
}

#[test]
fn starts_with_at_exact_window() {
    let buf = b"abcdef";
    assert!(starts_with_at(buf, 0, b"abc"));
    assert!(starts_with_at(buf, 2, b"cde"));
    assert!(starts_with_at(buf, 3, b"def"));
    assert!(!starts_with_at(buf, 3, b"defg"));
    assert!(!starts_with_at(buf, 1, b"abc"));
    assert!(!starts_with_at(buf, 7, b"a"));
    assert!(starts_with_at(buf, 6, b""));
}

#[test]
fn contains_finds_inner_window() {
    let buf = b"PK\x03\x04 some word/ inside";
    assert!(contains(buf, b"word/"));
    assert!(contains(buf, b"PK"));
    assert!(contains(buf, b"inside"));
    assert!(!contains(buf, b"xl/"));
    assert!(!contains(buf, b""));
    assert!(!contains(b"ab", b"abc"));
}

#[test]
fn mp4_known_subtypes() {
    assert_eq!(detect_mp4_like(&bmff(b"isom")), Some("mp4"));
    assert_eq!(detect_mp4_like(&bmff(b"mp42")), Some("mp4"));
    assert_eq!(detect_mp4_like(&bmff(b"avc1")), Some("mp4"));
    assert_eq!(detect_mp4_like(&bmff(b"M4V ")), Some("m4v"));
    assert_eq!(detect_mp4_like(&bmff(b"M4A ")), Some("m4a"));
    assert_eq!(detect_mp4_like(&bmff(b"M4B ")), Some("m4b"));
    assert_eq!(detect_mp4_like(&bmff(b"qt  ")), Some("mov"));
}

#[test]
fn mp4_unknown_subtype_still_mp4() {
    // An unrecognized subtype must default to mp4, never "no match".
    assert_eq!(detect_mp4_like(&bmff(b"zzzz")), Some("mp4"));
    assert_eq!(detect_by_signature_buf(&bmff(b"zzzz")), Some("mp4"));
}

#[test]
fn mp4_needs_marker_and_length() {
    assert_eq!(detect_mp4_like(b"ftyp"), None);
    assert_eq!(detect_mp4_like(&bmff(b"isom")[..11]), None);
    assert_eq!(detect_mp4_like(b"0000xtypisomrest"), None);
}

#[test]
fn riff_known_fourccs() {
    assert_eq!(detect_riff_typed(&riff(b"WEBP")), Some("webp"));
    assert_eq!(detect_riff_typed(&riff(b"WAVE")), Some("wav"));
    assert_eq!(detect_riff_typed(&riff(b"AVI ")), Some("avi"));
}

#[test]
fn riff_unknown_fourcc_is_no_match() {
    // An unrecognized RIFF fourCC falls through, it is not a default.
    assert_eq!(detect_riff_typed(&riff(b"ACON")), None);
    assert_eq!(detect_by_signature_buf(&riff(b"ACON")), None);
    assert_eq!(detect_riff_typed(&riff(b"WAVE")[..11]), None);
}

#[test]
fn zip_subtypes_by_marker() {
    assert_eq!(detect_zip_like(&zip_with(b"..word/..")), Some("docx"));
    assert_eq!(detect_zip_like(&zip_with(b"[Content_Types].xml")), Some("docx"));
    assert_eq!(detect_zip_like(&zip_with(b"..xl/sheet1")), Some("xlsx"));
    assert_eq!(detect_zip_like(&zip_with(b"..ppt/slides")), Some("pptx"));
    assert_eq!(detect_zip_like(&zip_with(b"AndroidManifest.xml")), Some("apk"));
    assert_eq!(detect_zip_like(&zip_with(b"META-INF/MANIFEST.MF")), Some("jar"));
}

#[test]
fn zip_word_marker_vs_plain() {
    // The same prefix with and without "word/": docx against plain zip.
    assert_eq!(detect_zip_like(&zip_with(b"....word/....")), Some("docx"));
    assert_eq!(detect_zip_like(&zip_with(b"....plain....")), Some("zip"));
    assert_eq!(detect_zip_like(&zip_with(b"")), Some("zip"));
    assert_eq!(detect_zip_like(b"ZZ\x03\x04word/"), None);
}

#[test]
fn zip_priority_order() {
    // "word/" wins over "xl/" when both fall inside the prefix.
    assert_eq!(detect_zip_like(&zip_with(b"xl/ and word/")), Some("docx"));
}

#[test]
fn json_shaped_prefixes() {
    assert_eq!(detect_json(b"{\"a\":1}"), Some("json"));
    assert_eq!(detect_json(b"  [1, 2, 3]"), Some("json"));
    assert_eq!(detect_json(b"\xEF\xBB\xBF{\"k\": true}"), Some("json"));
}

#[test]
fn json_rejects_unshaped_prefixes() {
    // Braces without any quote, colon or comma are not JSON-shaped.
    assert_eq!(detect_json(b"{garbage no punctuation}"), None);
    assert_eq!(detect_json(b"   \t\r\n  "), None);
    assert_eq!(detect_json(b""), None);
    assert_eq!(detect_json(b"hello: world"), None);
}

#[test]
fn fixed_table_signatures() {
    assert_eq!(detect_fixed(b"\x89PNG\r\n\x1A\nrest"), Some("png"));
    assert_eq!(detect_fixed(b"\xFF\xD8\xFF\xE0"), Some("jpg"));
    assert_eq!(detect_fixed(b"GIF87a..."), Some("gif"));
    assert_eq!(detect_fixed(b"GIF89a..."), Some("gif"));
    assert_eq!(detect_fixed(b"BM......"), Some("bmp"));
    assert_eq!(detect_fixed(b"%PDF-1.7"), Some("pdf"));
    assert_eq!(detect_fixed(b"%!PS-Adobe-3.0"), Some("ps"));
    assert_eq!(detect_fixed(b"PK\x03\x04...."), Some("zip"));
    assert_eq!(detect_fixed(b"\x1F\x8B\x08...."), Some("gz"));
    assert_eq!(detect_fixed(b"\x1A\x45\xDF\xA3...."), Some("mkv"));
    assert_eq!(detect_fixed(b"RIFF....WEBPVP8 "), Some("webp"));
    assert_eq!(detect_fixed(b"ID3\x04...."), Some("mp3"));
    assert_eq!(detect_fixed(b"OggS...."), Some("ogg"));
    assert_eq!(detect_fixed(b"fLaC...."), Some("flac"));
    assert_eq!(detect_fixed(b"\x00\x00\x01\x00...."), Some("ico"));
    assert_eq!(detect_fixed(b"II*\x00...."), Some("tif"));
    assert_eq!(detect_fixed(b"MM\x00*...."), Some("tif"));
    assert_eq!(detect_fixed(b"Rar!\x1A\x07\x00...."), Some("rar"));
    assert_eq!(detect_fixed(b"7z\xBC\xAF\x27\x1C...."), Some("7z"));
    assert_eq!(detect_fixed(b"plain text"), None);
}

#[test]
fn binary_indicating_signatures() {
    assert_eq!(detect_binary_sig(b"MZ\x90\x00"), Some("exe"));
    assert_eq!(detect_binary_sig(b"\x7FELF\x02"), Some("elf"));
    assert_eq!(detect_binary_sig(b"\xCA\xFE\xBA\xBE"), Some("mach-o"));
    assert_eq!(detect_binary_sig(b"\xCF\xFA\xED\xFE"), Some("mach-o"));
    assert_eq!(detect_binary_sig(b"\xFE\xED\xFA\xCF"), Some("mach-o"));
    assert_eq!(detect_binary_sig(b"\xFE\xED\xFA\xCE"), Some("mach-o"));
    assert_eq!(detect_binary_sig(b"\x00asm\x01"), Some("wasm"));
    assert_eq!(detect_binary_sig(b"plain"), None);
}

#[test]
fn detection_order_containers_before_fixed() {
    // A ZIP prefix with an Office marker resolves as the container subtype,
    // not as the plain zip entry of the fixed table.
    assert_eq!(detect_by_signature_buf(&zip_with(b"word/doc.xml")), Some("docx"));
    // A RIFF WEBP file resolves through the RIFF disambiguator.
    assert_eq!(detect_by_signature_buf(b"RIFF....WEBPVP8 "), Some("webp"));
    // JSON runs before the fixed table.
    assert_eq!(detect_by_signature_buf(b"{\"a\":1}"), Some("json"));
    // An executable surfaces with its label so a mismatch can be raised.
    assert_eq!(detect_by_signature_buf(b"MZ\x90\x00\x03"), Some("exe"));
    assert_eq!(detect_by_signature_buf(b""), None);
}

#[test]
fn detection_is_idempotent_on_same_prefix() {
    let samples: Vec<Vec<u8>> = vec![
        bmff(b"zzzz"),
        riff(b"ACON"),
        zip_with(b"word/"),
        b"{\"a\":1}".to_vec(),
        b"%PDF-1.7".to_vec(),
        b"plain text".to_vec(),
        b"".to_vec(),
    ];
    for s in &samples {
        assert_eq!(detect_by_signature_buf(s), detect_by_signature_buf(s));
        assert_eq!(is_binary(s), is_binary(s));
    }
}

#[test]
fn zero_byte_means_binary_regardless_of_ratio() {
    let mut buf = vec![b'a'; 63];
    buf.push(0x00);
    assert!(looks_binary(&buf));
    assert!(is_binary(&buf));
}

#[test]
fn ratio_under_boundary_is_not_binary() {
    // 29 of 100 bytes outside the text set, no zero byte: not binary.
    let mut buf = vec![b'a'; 71];
    buf.extend_from_slice(&vec![0x01; 29]);
    assert!(!looks_binary(&buf));
    assert!(!is_binary(&buf));
}

#[test]
fn ratio_exactly_at_boundary_is_not_binary() {
    // Exactly 30 percent non-text: the comparison is strict, so not binary.
    let mut buf = vec![b'a'; 7];
    buf.extend_from_slice(&vec![0x01; 3]);
    assert!(!looks_binary(&buf));
    assert!(!is_binary(&buf));
}

#[test]
fn ratio_over_boundary_is_binary() {
    let mut buf = vec![b'a'; 69];
    buf.extend_from_slice(&vec![0x01; 31]);
    assert!(looks_binary(&buf));
    assert!(is_binary(&buf));
}

#[test]
fn empty_prefix_is_never_binary() {
    assert!(!looks_binary(b""));
    assert!(!is_binary(b""));
}

#[test]
fn is_binary_counts_media_and_archive_signatures() {
    assert!(is_binary(b"%PDF-1.7"));
    assert!(is_binary(b"\x89PNG\r\n\x1A\nrest"));
    assert!(is_binary(&zip_with(b"word/")));
    assert!(is_binary(&bmff(b"isom")));
    assert!(is_binary(&riff(b"WAVE")));
    assert!(is_binary(b"ID3\x04...."));
    assert!(is_binary(b"MZ\x90\x00"));
}

#[test]
fn is_binary_spares_json_and_text() {
    assert!(!is_binary(b"{\"a\":1}"));
    assert!(!is_binary(b"hello, plain text"));
}
