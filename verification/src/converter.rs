use vstd::prelude::*;
use vstd::string::StringExecFns;

use crate::config::ConvertConfig;
use crate::paths::{file_stem, join, parent, path_file_stem, path_join, path_parent, path_strip_prefix, strip_prefix};

verus! {

broadcast use vstd::string::group_string_axioms;

/// The record of one converted (or skipped) file.
#[derive(Debug, Clone, PartialEq, Eq)]
pub struct ConversionResult {
    pub input_path: String,
    pub output_path: String,
    pub original_size_bytes: u64,
    pub converted_size_bytes: u64,
    pub was_skipped: bool,
}

/// The record of one file, with its paths as text.
pub struct ConversionRecord {
    pub input_path: Seq<char>,
    pub output_path: Seq<char>,
    pub original_size_bytes: u64,
    pub converted_size_bytes: u64,
    pub was_skipped: bool,
}

impl View for ConversionResult {
    type V = ConversionRecord;

    open spec fn view(&self) -> ConversionRecord {
        ConversionRecord {
            input_path: self.input_path@,
            output_path: self.output_path@,
            original_size_bytes: self.original_size_bytes,
            converted_size_bytes: self.converted_size_bytes,
            was_skipped: self.was_skipped,
        }
    }
}

/// The value that `x as i64` takes for a `u64` (two's complement).
pub open spec fn as_signed(x: u64) -> int {
    if x <= i64::MAX {
        x as int
    } else {
        x as int - 0x1_0000_0000_0000_0000
    }
}

/// The difference of two byte counts, each read as an `i64`, where it fits in an `i64`.
pub open spec fn signed_difference_fits(original: u64, converted: u64) -> bool {
    i64::MIN <= as_signed(original) - as_signed(converted) <= i64::MAX
}

proof fn lemma_as_signed(x: u64, y: i64)
    requires
        y == x as i64,
    ensures
        y == as_signed(x),
{
    if x <= 0x7fff_ffff_ffff_ffff {
        assert(y == x) by (bit_vector)
            requires
                y == x as i64,
                x <= 0x7fff_ffff_ffff_ffff,
        ;
    } else {
        assert(y == x - 0x1_0000_0000_0000_0000) by (bit_vector)
            requires
                y == x as i64,
                x > 0x7fff_ffff_ffff_ffff,
        ;
    }
}

/// The difference of two byte counts, each read as an `i64`.
pub(crate) fn signed_difference(original: u64, converted: u64) -> (r: i64)
    requires
        signed_difference_fits(original, converted),
    ensures
        r == as_signed(original) - as_signed(converted),
        original <= i64::MAX && converted <= i64::MAX ==> r == original - converted,
{
    let a = #[verifier::truncate] (original as i64);
    let b = #[verifier::truncate] (converted as i64);
    proof {
        lemma_as_signed(original, a);
        lemma_as_signed(converted, b);
    }
    a - b
}

impl ConversionResult {
    /// Bytes saved: the original size minus the converted size (negative
    /// where the WebP file is larger).
    pub fn saved_bytes(&self) -> (r: i64)
        requires
            signed_difference_fits(self.original_size_bytes, self.converted_size_bytes),
        ensures
            r == as_signed(self.original_size_bytes) - as_signed(self.converted_size_bytes),
            self.original_size_bytes <= i64::MAX && self.converted_size_bytes <= i64::MAX ==> r
                == self.original_size_bytes - self.converted_size_bytes,
    {
        signed_difference(self.original_size_bytes, self.converted_size_bytes)
    }
}

/// Why a conversion failed. The texts are the paths involved and, where an
/// operation of the system failed, the reason it gave.
#[derive(Debug, Clone, PartialEq, Eq)]
pub enum ConvertError {
    NotAFile { input: String },
    Metadata { input: String, reason: String },
    InvalidFileName { input: String },
    CreateDir { dir: String, reason: String },
    Decode { input: String, reason: String },
    Encode { reason: String },
    CreateFile { output: String, reason: String },
    Write { output: String, reason: String },
}

/// A failure of a conversion, with its texts as character sequences.
pub enum ConvertFailure {
    NotAFile { input: Seq<char> },
    Metadata { input: Seq<char>, reason: Seq<char> },
    InvalidFileName { input: Seq<char> },
    CreateDir { dir: Seq<char>, reason: Seq<char> },
    Decode { input: Seq<char>, reason: Seq<char> },
    Encode { reason: Seq<char> },
    CreateFile { output: Seq<char>, reason: Seq<char> },
    Write { output: Seq<char>, reason: Seq<char> },
}

impl View for ConvertError {
    type V = ConvertFailure;

    open spec fn view(&self) -> ConvertFailure {
        match self {
            ConvertError::NotAFile { input } => ConvertFailure::NotAFile { input: input@ },
            ConvertError::Metadata { input, reason } => ConvertFailure::Metadata {
                input: input@,
                reason: reason@,
            },
            ConvertError::InvalidFileName { input } => ConvertFailure::InvalidFileName {
                input: input@,
            },
            ConvertError::CreateDir { dir, reason } => ConvertFailure::CreateDir {
                dir: dir@,
                reason: reason@,
            },
            ConvertError::Decode { input, reason } => ConvertFailure::Decode {
                input: input@,
                reason: reason@,
            },
            ConvertError::Encode { reason } => ConvertFailure::Encode { reason: reason@ },
            ConvertError::CreateFile { output, reason } => ConvertFailure::CreateFile {
                output: output@,
                reason: reason@,
            },
            ConvertError::Write { output, reason } => ConvertFailure::Write {
                output: output@,
                reason: reason@,
            },
        }
    }
}

/// The name of the WebP file for a file stem.
pub open spec fn webp_name_spec(stem: Seq<char>) -> Seq<char> {
    stem + ".webp"@
}

/// The parent of a path, the empty path where it has none.
pub open spec fn parent_or_empty(path: Seq<char>) -> Seq<char> {
    match path_parent(path) {
        Some(p) => p,
        None => Seq::<char>::empty(),
    }
}

/// Where the WebP file for `input` goes; `None` where the input has no file name.
///
/// With an output directory the file goes into it; where the structure is
/// kept and the input lies under `root`, it goes into the same
/// subdirectory of the output directory as the input has under `root`.
/// Without an output directory it goes next to the input.
pub open spec fn output_path_spec(
    input: Seq<char>,
    root: Option<Seq<char>>,
    output_dir: Option<Seq<char>>,
    preserve_structure: bool,
) -> Option<Seq<char>> {
    match path_file_stem(input) {
        None => None,
        Some(stem) => {
            let name = webp_name_spec(stem);
            match output_dir {
                Some(dir) => {
                    if preserve_structure && root is Some && path_strip_prefix(
                        input,
                        root->0,
                    ) is Some {
                        let relative = path_strip_prefix(input, root->0)->0;
                        Some(path_join(path_join(dir, parent_or_empty(relative)), name))
                    } else {
                        Some(path_join(dir, name))
                    }
                },
                None => Some(path_join(parent_or_empty(input), name)),
            }
        },
    }
}

/// The view of an optional text.
pub open spec fn opt_view(s: Option<&str>) -> Option<Seq<char>> {
    match s {
        Some(t) => Some(t@),
        None => None,
    }
}

/// The file name of the WebP file for a file stem: the stem followed by `.webp`.
pub fn webp_file_name(stem: &str) -> (r: String)
    ensures
        r@ == webp_name_spec(stem@),
{
    let mut name = stem.to_owned();
    name.append(".webp");
    name
}

fn parent_or_empty_text(path: &str) -> (r: String)
    ensures
        r@ == parent_or_empty(path@),
{
    match parent(path) {
        Some(p) => p,
        None => String::new(),
    }
}

/// Decides the path of the WebP file for `input_path` (see `output_path_spec`);
/// fails where the input path has no file name.
pub fn determine_output_path(
    input_path: &str,
    input_root: Option<&str>,
    output_dir: Option<&str>,
    preserve_structure: bool,
) -> (r: Result<String, ConvertError>)
    ensures
        r matches Ok(p) ==> output_path_spec(
            input_path@,
            opt_view(input_root),
            opt_view(output_dir),
            preserve_structure,
        ) == Some(p@),
        r is Err <==> output_path_spec(
            input_path@,
            opt_view(input_root),
            opt_view(output_dir),
            preserve_structure,
        ) is None,
        r matches Err(e) ==> e@ == (ConvertFailure::InvalidFileName { input: input_path@ }),
        r is Err <==> path_file_stem(input_path@) is None,
        r is Ok && output_dir is None ==> r->Ok_0@ == path_join(
            match path_parent(input_path@) {
                Some(d) => d,
                None => Seq::<char>::empty(),
            },
            path_file_stem(input_path@)->0 + ".webp"@,
        ),
        r is Ok && output_dir is Some && preserve_structure && input_root is Some
            && path_strip_prefix(input_path@, input_root->0@) is Some ==> r->Ok_0@ == path_join(
            path_join(
                output_dir->0@,
                match path_parent(path_strip_prefix(input_path@, input_root->0@)->0) {
                    Some(d) => d,
                    None => Seq::<char>::empty(),
                },
            ),
            path_file_stem(input_path@)->0 + ".webp"@,
        ),
        r is Ok && output_dir is Some && !(preserve_structure && input_root is Some
            && path_strip_prefix(input_path@, input_root->0@) is Some) ==> r->Ok_0@ == path_join(
            output_dir->0@,
            path_file_stem(input_path@)->0 + ".webp"@,
        ),
{
    let stem = match file_stem(input_path) {
        Some(s) => s,
        None => {
            return Err(ConvertError::InvalidFileName { input: input_path.to_owned() });
        },
    };
    let name = webp_file_name(stem.as_str());
    match output_dir {
        Some(out_dir) => {
            if preserve_structure {
                if let Some(root) = input_root {
                    if let Some(relative) = strip_prefix(input_path, root) {
                        let relative_dir = parent_or_empty_text(relative.as_str());
                        let dir = join(out_dir, relative_dir.as_str());
                        return Ok(join(dir.as_str(), name.as_str()));
                    }
                }
            }
            Ok(join(out_dir, name.as_str()))
        },
        None => {
            let dir = parent_or_empty_text(input_path);
            Ok(join(dir.as_str(), name.as_str()))
        },
    }
}

/// How a picture is encoded to WebP.
#[derive(Debug, Clone, Copy, PartialEq, Eq)]
pub enum WebpEncoding {
    Lossless,
    Lossy { quality: u8 },
}

/// The encoding that the settings ask for: lossless, where that is chosen
/// (the quality is then not used), else lossy at the configured quality.
pub open spec fn webp_encoding_spec(config: ConvertConfig) -> WebpEncoding {
    if config.lossless {
        WebpEncoding::Lossless
    } else {
        WebpEncoding::Lossy { quality: config.quality }
    }
}

/// The encoding depends on the lossless setting and the quality alone:
/// lossless where lossless is chosen, whatever else is set; otherwise lossy
/// at the configured quality.
pub proof fn lemma_encoding_follows_lossless(config: ConvertConfig)
    ensures
        config.lossless ==> webp_encoding_spec(config) == WebpEncoding::Lossless,
        !config.lossless ==> webp_encoding_spec(config) == (WebpEncoding::Lossy {
            quality: config.quality,
        }),
{
}

/// Where the WebP file goes, case by case, from the path operations alone:
/// no file stem, no output; without an output directory, the stem with
/// `.webp` next to the input; keeping the structure, with the input under
/// the root, the whole directory of the input below the root reproduced
/// below the output directory; otherwise flat in the output directory.
pub proof fn lemma_output_path_cases(
    input: Seq<char>,
    root: Option<Seq<char>>,
    output_dir: Option<Seq<char>>,
    preserve_structure: bool,
)
    ensures
        output_path_spec(input, root, output_dir, preserve_structure) is None <==> path_file_stem(
            input,
        ) is None,
        path_file_stem(input) is Some && output_dir is None ==> output_path_spec(
            input,
            root,
            output_dir,
            preserve_structure,
        ) == Some(
            path_join(
                match path_parent(input) {
                    Some(d) => d,
                    None => Seq::<char>::empty(),
                },
                path_file_stem(input)->0 + ".webp"@,
            ),
        ),
        path_file_stem(input) is Some && output_dir is Some && preserve_structure && root is Some
            && path_strip_prefix(input, root->0) is Some ==> output_path_spec(
            input,
            root,
            output_dir,
            preserve_structure,
        ) == Some(
            path_join(
                path_join(
                    output_dir->0,
                    match path_parent(path_strip_prefix(input, root->0)->0) {
                        Some(d) => d,
                        None => Seq::<char>::empty(),
                    },
                ),
                path_file_stem(input)->0 + ".webp"@,
            ),
        ),
        path_file_stem(input) is Some && output_dir is Some && !(preserve_structure && root is Some
            && path_strip_prefix(input, root->0) is Some) ==> output_path_spec(
            input,
            root,
            output_dir,
            preserve_structure,
        ) == Some(path_join(output_dir->0, path_file_stem(input)->0 + ".webp"@)),
{
}

/// The encoding that the settings ask for (see `webp_encoding_spec`).
pub fn webp_encoding(config: &ConvertConfig) -> (r: WebpEncoding)
    ensures
        r == webp_encoding_spec(*config),
        config.lossless ==> r == WebpEncoding::Lossless,
        !config.lossless ==> r == (WebpEncoding::Lossy { quality: config.quality }),
{
    if config.lossless {
        WebpEncoding::Lossless
    } else {
        WebpEncoding::Lossy { quality: config.quality }
    }
}

} // verus!
