use vstd::prelude::*;

verus! {

broadcast use vstd::string::group_string_axioms;

/// Settings of one conversion run.
#[derive(Debug, Clone, PartialEq, Eq)]
pub struct ConvertConfig {
    /// Files or directories to convert.
    pub input_paths: Vec<String>,
    /// Directory that receives the WebP files; `None` keeps each file next to its source.
    pub output_dir: Option<String>,
    /// WebP quality, meaningful from 1 to 100.
    pub quality: u8,
    /// Encode losslessly (the quality is then not used).
    pub lossless: bool,
    /// Longest side, in pixels, that a converted image may have; `None` keeps the size.
    pub max_dimension: Option<u32>,
    /// Replace WebP files that already exist.
    pub overwrite: bool,
}

/// Message of the error for a configuration without inputs.
pub open spec fn no_input_message() -> Seq<char> {
    "At least one input file or directory must be specified."@
}

/// Message of the error for a quality outside 1..=100.
pub open spec fn quality_message() -> Seq<char> {
    "Quality must be between 1 and 100."@
}

/// Message of the error for a longest side of zero pixels.
pub open spec fn dimension_message() -> Seq<char> {
    "Max dimension must be greater than 0."@
}

impl ConvertConfig {
    /// The first rule that the settings break, as its message; `None` when they are valid.
    /// The rules are checked in this order: at least one input, a quality
    /// from 1 to 100, a longest side above zero where one is given.
    pub open spec fn first_violation(&self) -> Option<Seq<char>> {
        if self.input_paths@.len() == 0 {
            Some(no_input_message())
        } else if self.quality == 0 || self.quality > 100 {
            Some(quality_message())
        } else if self.max_dimension == Some(0u32) {
            Some(dimension_message())
        } else {
            None
        }
    }

    /// Checks the settings and reports the first rule they break.
    pub fn validate(&self) -> (r: Result<(), String>)
        ensures
            r is Ok <==> self.first_violation() is None,
            r matches Err(msg) ==> self.first_violation() == Some(msg@),
            r is Ok <==> (self.input_paths@.len() > 0 && 1 <= self.quality <= 100
                && self.max_dimension != Some(0u32)),
    {
        if self.input_paths.len() == 0 {
            return Err("At least one input file or directory must be specified.".to_string());
        }
        if self.quality == 0 || self.quality > 100 {
            return Err("Quality must be between 1 and 100.".to_string());
        }
        if let Some(dim) = self.max_dimension {
            if dim == 0 {
                return Err("Max dimension must be greater than 0.".to_string());
            }
        }
        Ok(())
    }
}

/// The settings are accepted exactly when there is an input, the quality
/// is from 1 to 100 and a given longest side is above zero; nothing else
/// (lossless mode, overwriting, the output directory) is looked at.
pub proof fn lemma_valid_settings(config: ConvertConfig)
    ensures
        config.first_violation() is None <==> (config.input_paths@.len() > 0 && 1 <= config.quality
            <= 100 && config.max_dimension != Some(0u32)),
{
}

impl Default for ConvertConfig {
    /// No inputs, quality 80, lossy, no resizing, no overwriting.
    fn default() -> (r: Self)
        ensures
            r.input_paths@.len() == 0,
            r.output_dir is None,
            r.quality == 80,
            !r.lossless,
            r.max_dimension is None,
            !r.overwrite,
    {
        ConvertConfig {
            input_paths: Vec::new(),
            output_dir: None,
            quality: 80,
            lossless: false,
            max_dimension: None,
            overwrite: false,
        }
    }
}

} // verus!
