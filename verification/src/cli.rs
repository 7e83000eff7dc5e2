use vstd::prelude::*;

use crate::config::ConvertConfig;
use crate::text::{comma_separated_items, split_commas_spec, string_views, trim, trim_spec, trimmed_nonempty_spec};

verus! {

/// The command-line options, as plain values.
#[derive(Debug, Clone)]
pub struct CliArgs {
    /// Image files or directories (one or more).
    pub input: Vec<String>,
    /// Output directory; `None` keeps each file next to its source.
    pub output: Option<String>,
    /// WebP quality (default 80).
    pub quality: u8,
    /// Lossless mode.
    pub lossless: bool,
    /// Longest side in pixels; the aspect ratio is kept.
    pub max_dimension: Option<u32>,
    /// Overwrite existing WebP files.
    pub overwrite: bool,
}

impl CliArgs {
    /// The settings that the options describe, field for field.
    pub fn to_config(self) -> (r: ConvertConfig)
        ensures
            r.input_paths == self.input,
            r.output_dir == self.output,
            r.quality == self.quality,
            r.lossless == self.lossless,
            r.max_dimension == self.max_dimension,
            r.overwrite == self.overwrite,
    {
        ConvertConfig {
            input_paths: self.input,
            output_dir: self.output,
            quality: self.quality,
            lossless: self.lossless,
            max_dimension: self.max_dimension,
            overwrite: self.overwrite,
        }
    }
}

/// What the interactive wizard was told, before it is turned into settings.
#[derive(Debug, Clone)]
pub struct WizardAnswers {
    /// The folder, or the comma-separated files, that were typed in.
    pub input_text: String,
    /// The output directory that was typed in (blank for none).
    pub output_text: String,
    /// The answer to the lossless question.
    pub lossless: bool,
    /// The answer to the quality question; it is not asked in lossless mode,
    /// and whatever stands here is then not used.
    pub quality: u8,
    /// The longest side, where resizing was chosen.
    pub max_dimension: Option<u32>,
    /// The answer to the overwrite question.
    pub overwrite: bool,
}

/// The input paths in typed-in text: split at commas, trimmed, blanks dropped.
pub open spec fn input_paths_spec(text: Seq<char>) -> Seq<Seq<char>> {
    trimmed_nonempty_spec(split_commas_spec(text))
}

/// The output directory in typed-in text: the trimmed text, or none when it is blank.
pub open spec fn output_dir_spec(text: Seq<char>) -> Option<Seq<char>> {
    if trim_spec(text).len() == 0 {
        None
    } else {
        Some(trim_spec(text))
    }
}

/// The input paths that a typed-in line names: the comma-separated
/// pieces, trimmed, with blank pieces left out.
pub fn parse_input_paths(text: &str) -> (r: Vec<String>)
    ensures
        string_views(r@) == input_paths_spec(text@),
{
    comma_separated_items(text)
}

/// The output directory that a typed-in line names: `None` for a blank
/// line, else the line without surrounding whitespace.
pub fn parse_output_dir(text: &str) -> (r: Option<String>)
    ensures
        r matches Some(d) ==> output_dir_spec(text@) == Some(d@),
        r is None <==> output_dir_spec(text@) is None,
{
    let t = trim(text);
    if t.as_str().is_empty() {
        None
    } else {
        Some(t)
    }
}

impl WizardAnswers {
    /// The settings that the wizard's answers describe. In lossless mode the
    /// quality is 100.
    pub fn to_config(self) -> (r: ConvertConfig)
        ensures
            string_views(r.input_paths@) == input_paths_spec(self.input_text@),
            r.output_dir matches Some(d) ==> output_dir_spec(self.output_text@) == Some(d@),
            r.output_dir is None <==> output_dir_spec(self.output_text@) is None,
            r.quality == (if self.lossless { 100 } else { self.quality }),
            r.lossless == self.lossless,
            r.max_dimension == self.max_dimension,
            r.overwrite == self.overwrite,
    {
        let input_paths = parse_input_paths(self.input_text.as_str());
        let output_dir = parse_output_dir(self.output_text.as_str());
        let quality: u8 = if self.lossless {
            100
        } else {
            self.quality
        };
        ConvertConfig {
            input_paths,
            output_dir,
            quality,
            lossless: self.lossless,
            max_dimension: self.max_dimension,
            overwrite: self.overwrite,
        }
    }
}

} // verus!
