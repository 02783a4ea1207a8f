//! The category mapper: a pure lookup from a resolved type label to the
//! destination category and from a category to its directory name. Labels
//! are grouped by a static table; matching is ASCII case-insensitive; the
//! reserved label "mismatch" routes to a dedicated manual-check category and
//! unknown labels fall into `Uncategorized`.

use vstd::prelude::*;

use crate::text::chars_eq_fold;
use crate::text::lower;

verus! {

/// The coarse destination grouping a resolved type maps to.
#[derive(Debug, Clone, Copy, PartialEq, Eq, Structural)]
pub enum Category {
    Video,
    Audio,
    Pictures,
    Documents,
    Archives,
    Executables,
    Code,
    Uncategorized,
    Mismatch,
}

/// Lowercase labels of the video group.
pub open spec fn spec_is_video(l: Seq<char>) -> bool {
    ||| l == "mp4"@
    ||| l == "m4v"@
    ||| l == "mov"@
    ||| l == "mkv"@
    ||| l == "avi"@
    ||| l == "webm"@
    ||| l == "flv"@
    ||| l == "wmv"@
    ||| l == "mpg"@
    ||| l == "mpeg"@
    ||| l == "3gp"@
    ||| l == "ogv"@
    ||| l == "ts"@
    ||| l == "vob"@
}

/// Lowercase labels of the audio group.
pub open spec fn spec_is_audio(l: Seq<char>) -> bool {
    ||| l == "mp3"@
    ||| l == "wav"@
    ||| l == "flac"@
    ||| l == "ogg"@
    ||| l == "m4a"@
    ||| l == "aac"@
    ||| l == "opus"@
    ||| l == "wma"@
    ||| l == "ape"@
    ||| l == "alac"@
    ||| l == "aiff"@
    ||| l == "dsf"@
    ||| l == "dsd"@
}

/// Lowercase labels of the pictures group.
pub open spec fn spec_is_pictures(l: Seq<char>) -> bool {
    ||| l == "png"@
    ||| l == "jpg"@
    ||| l == "jpeg"@
    ||| l == "gif"@
    ||| l == "bmp"@
    ||| l == "webp"@
    ||| l == "tiff"@
    ||| l == "tif"@
    ||| l == "svg"@
    ||| l == "ico"@
    ||| l == "heic"@
    ||| l == "heif"@
    ||| l == "raw"@
    ||| l == "cr2"@
    ||| l == "nef"@
    ||| l == "arw"@
    ||| l == "dng"@
    ||| l == "psd"@
    ||| l == "ai"@
    ||| l == "eps"@
}

/// Lowercase labels of the documents group.
pub open spec fn spec_is_documents(l: Seq<char>) -> bool {
    ||| l == "pdf"@
    ||| l == "doc"@
    ||| l == "docx"@
    ||| l == "xls"@
    ||| l == "xlsx"@
    ||| l == "ppt"@
    ||| l == "pptx"@
    ||| l == "txt"@
    ||| l == "md"@
    ||| l == "rtf"@
    ||| l == "odt"@
    ||| l == "ods"@
    ||| l == "odp"@
    ||| l == "csv"@
    ||| l == "epub"@
    ||| l == "mobi"@
    ||| l == "djvu"@
}

/// Lowercase labels of the archives group.
pub open spec fn spec_is_archives(l: Seq<char>) -> bool {
    ||| l == "zip"@
    ||| l == "7z"@
    ||| l == "rar"@
    ||| l == "gz"@
    ||| l == "tar"@
    ||| l == "tgz"@
    ||| l == "bz2"@
    ||| l == "xz"@
    ||| l == "zst"@
    ||| l == "lz4"@
    ||| l == "cab"@
    ||| l == "iso"@
    ||| l == "dmg"@
}

/// Lowercase labels of the executables group.
pub open spec fn spec_is_executables(l: Seq<char>) -> bool {
    ||| l == "exe"@
    ||| l == "msi"@
    ||| l == "elf"@
    ||| l == "app"@
    ||| l == "mach-o"@
    ||| l == "wasm"@
    ||| l == "dll"@
    ||| l == "so"@
    ||| l == "dylib"@
    ||| l == "bin"@
}

/// Lowercase labels of the code-and-config group.
pub open spec fn spec_is_code(l: Seq<char>) -> bool {
    ||| l == "rs"@
    ||| l == "py"@
    ||| l == "js"@
    ||| l == "jsx"@
    ||| l == "tsx"@
    ||| l == "c"@
    ||| l == "cpp"@
    ||| l == "h"@
    ||| l == "hpp"@
    ||| l == "java"@
    ||| l == "go"@
    ||| l == "rb"@
    ||| l == "php"@
    ||| l == "swift"@
    ||| l == "kt"@
    ||| l == "cs"@
    ||| l == "html"@
    ||| l == "css"@
    ||| l == "scss"@
    ||| l == "sass"@
    ||| l == "less"@
    ||| l == "vue"@
    ||| l == "svelte"@
    ||| l == "sh"@
    ||| l == "bash"@
    ||| l == "zsh"@
    ||| l == "fish"@
    ||| l == "ps1"@
    ||| l == "bat"@
    ||| l == "cmd"@
    ||| l == "yaml"@
    ||| l == "yml"@
    ||| l == "json"@
    ||| l == "toml"@
    ||| l == "xml"@
    ||| l == "ini"@
    ||| l == "conf"@
    ||| l == "config"@
    ||| l == "env"@
    ||| l == "gitignore"@
    ||| l == "dockerfile"@
    ||| l == "makefile"@
    ||| l == "cmake"@
    ||| l == "sql"@
}

/// The full mapping from a type label to its category: fold the label to
/// ASCII lowercase, route the reserved label "mismatch" to the manual-check
/// category, look the rest up group by group, and send unknown labels to
/// `Uncategorized`.
pub open spec fn spec_from_ext(e: Seq<char>) -> Category {
    let l = lower(e);
    if l == "mismatch"@ {
        Category::Mismatch
    } else if spec_is_video(l) {
        Category::Video
    } else if spec_is_audio(l) {
        Category::Audio
    } else if spec_is_pictures(l) {
        Category::Pictures
    } else if spec_is_documents(l) {
        Category::Documents
    } else if spec_is_archives(l) {
        Category::Archives
    } else if spec_is_executables(l) {
        Category::Executables
    } else if spec_is_code(l) {
        Category::Code
    } else {
        Category::Uncategorized
    }
}

fn is_video_ext(ext: &str) -> (r: bool)
    ensures
        r == spec_is_video(lower(ext@)),
{
    chars_eq_fold(ext, "mp4") || chars_eq_fold(ext, "m4v") || chars_eq_fold(ext, "mov")
        || chars_eq_fold(ext, "mkv") || chars_eq_fold(ext, "avi") || chars_eq_fold(ext, "webm")
        || chars_eq_fold(ext, "flv") || chars_eq_fold(ext, "wmv") || chars_eq_fold(ext, "mpg")
        || chars_eq_fold(ext, "mpeg") || chars_eq_fold(ext, "3gp") || chars_eq_fold(ext, "ogv")
        || chars_eq_fold(ext, "ts") || chars_eq_fold(ext, "vob")
}

fn is_audio_ext(ext: &str) -> (r: bool)
    ensures
        r == spec_is_audio(lower(ext@)),
{
    chars_eq_fold(ext, "mp3") || chars_eq_fold(ext, "wav") || chars_eq_fold(ext, "flac")
        || chars_eq_fold(ext, "ogg") || chars_eq_fold(ext, "m4a") || chars_eq_fold(ext, "aac")
        || chars_eq_fold(ext, "opus") || chars_eq_fold(ext, "wma") || chars_eq_fold(ext, "ape")
        || chars_eq_fold(ext, "alac") || chars_eq_fold(ext, "aiff") || chars_eq_fold(ext, "dsf")
        || chars_eq_fold(ext, "dsd")
}

fn is_pictures_ext(ext: &str) -> (r: bool)
    ensures
        r == spec_is_pictures(lower(ext@)),
{
    chars_eq_fold(ext, "png") || chars_eq_fold(ext, "jpg") || chars_eq_fold(ext, "jpeg")
        || chars_eq_fold(ext, "gif") || chars_eq_fold(ext, "bmp") || chars_eq_fold(ext, "webp")
        || chars_eq_fold(ext, "tiff") || chars_eq_fold(ext, "tif") || chars_eq_fold(ext, "svg")
        || chars_eq_fold(ext, "ico") || chars_eq_fold(ext, "heic") || chars_eq_fold(ext, "heif")
        || chars_eq_fold(ext, "raw") || chars_eq_fold(ext, "cr2") || chars_eq_fold(ext, "nef")
        || chars_eq_fold(ext, "arw") || chars_eq_fold(ext, "dng") || chars_eq_fold(ext, "psd")
        || chars_eq_fold(ext, "ai") || chars_eq_fold(ext, "eps")
}

fn is_documents_ext(ext: &str) -> (r: bool)
    ensures
        r == spec_is_documents(lower(ext@)),
{
    chars_eq_fold(ext, "pdf") || chars_eq_fold(ext, "doc") || chars_eq_fold(ext, "docx")
        || chars_eq_fold(ext, "xls") || chars_eq_fold(ext, "xlsx") || chars_eq_fold(ext, "ppt")
        || chars_eq_fold(ext, "pptx") || chars_eq_fold(ext, "txt") || chars_eq_fold(ext, "md")
        || chars_eq_fold(ext, "rtf") || chars_eq_fold(ext, "odt") || chars_eq_fold(ext, "ods")
        || chars_eq_fold(ext, "odp") || chars_eq_fold(ext, "csv") || chars_eq_fold(ext, "epub")
        || chars_eq_fold(ext, "mobi") || chars_eq_fold(ext, "djvu")
}

fn is_archives_ext(ext: &str) -> (r: bool)
    ensures
        r == spec_is_archives(lower(ext@)),
{
    chars_eq_fold(ext, "zip") || chars_eq_fold(ext, "7z") || chars_eq_fold(ext, "rar")
        || chars_eq_fold(ext, "gz") || chars_eq_fold(ext, "tar") || chars_eq_fold(ext, "tgz")
        || chars_eq_fold(ext, "bz2") || chars_eq_fold(ext, "xz") || chars_eq_fold(ext, "zst")
        || chars_eq_fold(ext, "lz4") || chars_eq_fold(ext, "cab") || chars_eq_fold(ext, "iso")
        || chars_eq_fold(ext, "dmg")
}

fn is_executables_ext(ext: &str) -> (r: bool)
    ensures
        r == spec_is_executables(lower(ext@)),
{
    chars_eq_fold(ext, "exe") || chars_eq_fold(ext, "msi") || chars_eq_fold(ext, "elf")
        || chars_eq_fold(ext, "app") || chars_eq_fold(ext, "mach-o") || chars_eq_fold(ext, "wasm")
        || chars_eq_fold(ext, "dll") || chars_eq_fold(ext, "so") || chars_eq_fold(ext, "dylib")
        || chars_eq_fold(ext, "bin")
}

fn is_code_ext(ext: &str) -> (r: bool)
    ensures
        r == spec_is_code(lower(ext@)),
{
    chars_eq_fold(ext, "rs") || chars_eq_fold(ext, "py") || chars_eq_fold(ext, "js")
        || chars_eq_fold(ext, "jsx") || chars_eq_fold(ext, "tsx") || chars_eq_fold(ext, "c")
        || chars_eq_fold(ext, "cpp") || chars_eq_fold(ext, "h") || chars_eq_fold(ext, "hpp")
        || chars_eq_fold(ext, "java") || chars_eq_fold(ext, "go") || chars_eq_fold(ext, "rb")
        || chars_eq_fold(ext, "php") || chars_eq_fold(ext, "swift") || chars_eq_fold(ext, "kt")
        || chars_eq_fold(ext, "cs") || chars_eq_fold(ext, "html") || chars_eq_fold(ext, "css")
        || chars_eq_fold(ext, "scss") || chars_eq_fold(ext, "sass") || chars_eq_fold(ext, "less")
        || chars_eq_fold(ext, "vue") || chars_eq_fold(ext, "svelte") || chars_eq_fold(ext, "sh")
        || chars_eq_fold(ext, "bash") || chars_eq_fold(ext, "zsh") || chars_eq_fold(ext, "fish")
        || chars_eq_fold(ext, "ps1") || chars_eq_fold(ext, "bat") || chars_eq_fold(ext, "cmd")
        || chars_eq_fold(ext, "yaml") || chars_eq_fold(ext, "yml") || chars_eq_fold(ext, "json")
        || chars_eq_fold(ext, "toml") || chars_eq_fold(ext, "xml") || chars_eq_fold(ext, "ini")
        || chars_eq_fold(ext, "conf") || chars_eq_fold(ext, "config") || chars_eq_fold(ext, "env")
        || chars_eq_fold(ext, "gitignore") || chars_eq_fold(ext, "dockerfile")
        || chars_eq_fold(ext, "makefile") || chars_eq_fold(ext, "cmake")
        || chars_eq_fold(ext, "sql")
}

impl Category {
    /// The directory name of each category.
    pub open spec fn spec_dir_name(self) -> Seq<char> {
        match self {
            Category::Video => "Video"@,
            Category::Audio => "Audio"@,
            Category::Pictures => "Pictures"@,
            Category::Documents => "Documents"@,
            Category::Archives => "Archives"@,
            Category::Executables => "Executables"@,
            Category::Code => "Code"@,
            Category::Uncategorized => "Uncategorized"@,
            Category::Mismatch => "Check manually"@,
        }
    }

    /// The name of the destination directory this category stands for.
    pub fn dir_name(&self) -> (r: &'static str)
        ensures
            r@ == self.spec_dir_name(),
    {
        match self {
            Category::Video => "Video",
            Category::Audio => "Audio",
            Category::Pictures => "Pictures",
            Category::Documents => "Documents",
            Category::Archives => "Archives",
            Category::Executables => "Executables",
            Category::Code => "Code",
            Category::Uncategorized => "Uncategorized",
            Category::Mismatch => "Check manually",
        }
    }

    /// Map a type label to its category, case-insensitively.
    pub fn from_ext(ext: &str) -> (r: Category)
        ensures
            r == spec_from_ext(ext@),
    {
        if chars_eq_fold(ext, "mismatch") {
            Category::Mismatch
        } else if is_video_ext(ext) {
            Category::Video
        } else if is_audio_ext(ext) {
            Category::Audio
        } else if is_pictures_ext(ext) {
            Category::Pictures
        } else if is_documents_ext(ext) {
            Category::Documents
        } else if is_archives_ext(ext) {
            Category::Archives
        } else if is_executables_ext(ext) {
            Category::Executables
        } else if is_code_ext(ext) {
            Category::Code
        } else {
            Category::Uncategorized
        }
    }
}

} // verus!
