use sortify::classify::Category;

#[test]
fn dir_names_of_all_categories() {
    assert_eq!(Category::Video.dir_name(), "Video");
    assert_eq!(Category::Audio.dir_name(), "Audio");
    assert_eq!(Category::Pictures.dir_name(), "Pictures");
    assert_eq!(Category::Documents.dir_name(), "Documents");
    assert_eq!(Category::Archives.dir_name(), "Archives");
    assert_eq!(Category::Executables.dir_name(), "Executables");
    assert_eq!(Category::Code.dir_name(), "Code");
    assert_eq!(Category::Uncategorized.dir_name(), "Uncategorized");
    assert_eq!(Category::Mismatch.dir_name(), "Check manually");
}

#[test]
fn representative_labels_of_each_group() {
    assert_eq!(Category::from_ext("mp4"), Category::Video);
    assert_eq!(Category::from_ext("mkv"), Category::Video);
    assert_eq!(Category::from_ext("webm"), Category::Video);
    assert_eq!(Category::from_ext("mp3"), Category::Audio);
    assert_eq!(Category::from_ext("flac"), Category::Audio);
    assert_eq!(Category::from_ext("m4a"), Category::Audio);
    assert_eq!(Category::from_ext("png"), Category::Pictures);
    assert_eq!(Category::from_ext("webp"), Category::Pictures);
    assert_eq!(Category::from_ext("heic"), Category::Pictures);
    assert_eq!(Category::from_ext("pdf"), Category::Documents);
    assert_eq!(Category::from_ext("docx"), Category::Documents);
    assert_eq!(Category::from_ext("epub"), Category::Documents);
    assert_eq!(Category::from_ext("zip"), Category::Archives);
    assert_eq!(Category::from_ext("7z"), Category::Archives);
    assert_eq!(Category::from_ext("tgz"), Category::Archives);
    assert_eq!(Category::from_ext("exe"), Category::Executables);
    assert_eq!(Category::from_ext("mach-o"), Category::Executables);
    assert_eq!(Category::from_ext("wasm"), Category::Executables);
    assert_eq!(Category::from_ext("rs"), Category::Code);
    assert_eq!(Category::from_ext("json"), Category::Code);
    assert_eq!(Category::from_ext("dockerfile"), Category::Code);
}

#[test]
fn reserved_and_unknown_labels() {
    assert_eq!(Category::from_ext("mismatch"), Category::Mismatch);
    assert_eq!(Category::from_ext("MISMATCH"), Category::Mismatch);
    assert_eq!(Category::from_ext("xyzzy"), Category::Uncategorized);
    assert_eq!(Category::from_ext(""), Category::Uncategorized);
    assert_eq!(Category::from_ext("unknown"), Category::Uncategorized);
}

#[test]
fn lookup_is_case_insensitive() {
    assert_eq!(Category::from_ext("MP4"), Category::Video);
    assert_eq!(Category::from_ext("Jpg"), Category::Pictures);
    assert_eq!(Category::from_ext("PdF"), Category::Documents);
    assert_eq!(Category::from_ext("EXE"), Category::Executables);
}

#[test]
fn labels_outside_every_group_are_uncategorized() {
    // m4b is a detectable container subtype but belongs to no group table.
    assert_eq!(Category::from_ext("m4b"), Category::Uncategorized);
}
