use vstd::prelude::*;

use crate::config::ConvertConfig;
use crate::converter::{
    determine_output_path, webp_encoding, webp_encoding_spec, opt_view, output_path_spec, ConversionRecord, ConversionResult,
    ConvertError, ConvertFailure, WebpEncoding,
};
use crate::paths::{parent, path_parent};

verus! {

/// What one conversion works on: the input file, where its WebP file goes,
/// and how it is encoded.
pub struct ConvertJob {
    pub input_path: String,
    pub input_root: Option<String>,
    pub output_dir: Option<String>,
    pub preserve_structure: bool,
    pub overwrite: bool,
    pub max_dimension: Option<u32>,
    pub encoding: WebpEncoding,
}

impl ConvertJob {
    /// The conversion of `input_path` with the given settings. A given
    /// `input_root` asks that the input's place under it be kept below the
    /// output directory.
    pub fn new(
        input_path: String,
        input_root: Option<String>,
        output_dir: Option<String>,
        config: &ConvertConfig,
    ) -> (r: ConvertJob)
        ensures
            r.input_path == input_path,
            r.input_root == input_root,
            r.output_dir == output_dir,
            r.preserve_structure == input_root is Some,
            r.overwrite == config.overwrite,
            r.max_dimension == config.max_dimension,
            r.encoding == webp_encoding_spec(*config),
    {
        let preserve_structure = input_root.is_some();
        ConvertJob {
            input_path,
            input_root,
            output_dir,
            preserve_structure,
            overwrite: config.overwrite,
            max_dimension: config.max_dimension,
            encoding: webp_encoding(config),
        }
    }
}

/// A job with its texts as character sequences.
pub struct JobModel {
    pub input_path: Seq<char>,
    pub input_root: Option<Seq<char>>,
    pub output_dir: Option<Seq<char>>,
    pub preserve_structure: bool,
    pub overwrite: bool,
    pub max_dimension: Option<u32>,
    pub encoding: WebpEncoding,
}

/// The view of an optional string.
pub open spec fn opt_string_view(s: Option<String>) -> Option<Seq<char>> {
    match s {
        Some(t) => Some(t@),
        None => None,
    }
}

impl View for ConvertJob {
    type V = JobModel;

    open spec fn view(&self) -> JobModel {
        JobModel {
            input_path: self.input_path@,
            input_root: opt_string_view(self.input_root),
            output_dir: opt_string_view(self.output_dir),
            preserve_structure: self.preserve_structure,
            overwrite: self.overwrite,
            max_dimension: self.max_dimension,
            encoding: self.encoding,
        }
    }
}

/// Where a conversion stands: what it waits to be told.
#[derive(Debug, Clone, Copy, PartialEq, Eq, Structural)]
pub enum Phase {
    Start,
    CheckingInput,
    ReadingSize,
    CheckingOutput,
    ReadingExistingSize,
    CheckingDir,
    CreatingDir,
    Decoding,
    Encoding,
    CreatingFile,
    Writing,
    Done,
}

/// The state of a conversion between two steps.
pub struct JobState {
    pub phase: Phase,
    pub original_size: u64,
    pub output_path: String,
    pub dir: String,
    pub converted_size: u64,
}

/// A state with its texts as character sequences.
pub struct StateModel {
    pub phase: Phase,
    pub original_size: u64,
    pub output_path: Seq<char>,
    pub dir: Seq<char>,
    pub converted_size: u64,
}

impl View for JobState {
    type V = StateModel;

    open spec fn view(&self) -> StateModel {
        StateModel {
            phase: self.phase,
            original_size: self.original_size,
            output_path: self.output_path@,
            dir: self.dir@,
            converted_size: self.converted_size,
        }
    }
}

/// The work that a conversion asks of the system next, or its outcome.
pub enum Request {
    /// Is the path a regular file? (answer: `Flag`)
    CheckIsFile { path: String },
    /// The size of the file in bytes. (answer: `Size`)
    ReadSize { path: String },
    /// Does the path exist? (answer: `Flag`)
    CheckExists { path: String },
    /// The size of the existing output file. (answer: `Size`)
    ReadExistingSize { path: String },
    /// Does the directory exist? (answer: `Flag`)
    CheckDirExists { dir: String },
    /// Create the directory and its parents. (answer: `Done`)
    CreateDir { dir: String },
    /// Open and decode the image. (answer: `Done`)
    Decode { path: String },
    /// Apply the size limit to the decoded image and encode it; the answer
    /// is the length of the encoded data. (answer: `Size`)
    Encode { max_dimension: Option<u32>, encoding: WebpEncoding },
    /// Create (or truncate) the output file. (answer: `Done`)
    CreateFile { path: String },
    /// Write the encoded data to the output file. (answer: `Done`)
    Write { path: String },
    /// The conversion is over.
    Finish { outcome: Result<ConversionResult, ConvertError> },
}

/// A request with its texts as character sequences.
pub enum RequestModel {
    CheckIsFile { path: Seq<char> },
    ReadSize { path: Seq<char> },
    CheckExists { path: Seq<char> },
    ReadExistingSize { path: Seq<char> },
    CheckDirExists { dir: Seq<char> },
    CreateDir { dir: Seq<char> },
    Decode { path: Seq<char> },
    Encode { max_dimension: Option<u32>, encoding: WebpEncoding },
    CreateFile { path: Seq<char> },
    Write { path: Seq<char> },
    Finish { outcome: Result<ConversionRecord, ConvertFailure> },
}

/// The view of the outcome of a conversion.
pub open spec fn outcome_view(o: Result<ConversionResult, ConvertError>) -> Result<
    ConversionRecord,
    ConvertFailure,
> {
    match o {
        Ok(r) => Ok(r@),
        Err(e) => Err(e@),
    }
}

impl View for Request {
    type V = RequestModel;

    open spec fn view(&self) -> RequestModel {
        match self {
            Request::CheckIsFile { path } => RequestModel::CheckIsFile { path: path@ },
            Request::ReadSize { path } => RequestModel::ReadSize { path: path@ },
            Request::CheckExists { path } => RequestModel::CheckExists { path: path@ },
            Request::ReadExistingSize { path } => RequestModel::ReadExistingSize { path: path@ },
            Request::CheckDirExists { dir } => RequestModel::CheckDirExists { dir: dir@ },
            Request::CreateDir { dir } => RequestModel::CreateDir { dir: dir@ },
            Request::Decode { path } => RequestModel::Decode { path: path@ },
            Request::Encode { max_dimension, encoding } => RequestModel::Encode {
                max_dimension: *max_dimension,
                encoding: *encoding,
            },
            Request::CreateFile { path } => RequestModel::CreateFile { path: path@ },
            Request::Write { path } => RequestModel::Write { path: path@ },
            Request::Finish { outcome } => RequestModel::Finish { outcome: outcome_view(*outcome) },
        }
    }
}

/// What the system answers to a request. A failure carries the reason the
/// system gave.
pub enum Answer {
    /// The first step of a conversion, before anything was asked.
    Begin,
    Flag(bool),
    Size(Result<u64, String>),
    Done(Result<(), String>),
}

/// An answer with its texts as character sequences.
pub enum AnswerModel {
    Begin,
    Flag(bool),
    Size(Result<u64, Seq<char>>),
    Done(Result<(), Seq<char>>),
}

impl View for Answer {
    type V = AnswerModel;

    open spec fn view(&self) -> AnswerModel {
        match self {
            Answer::Begin => AnswerModel::Begin,
            Answer::Flag(b) => AnswerModel::Flag(*b),
            Answer::Size(Ok(n)) => AnswerModel::Size(Ok(*n)),
            Answer::Size(Err(e)) => AnswerModel::Size(Err(e@)),
            Answer::Done(Ok(())) => AnswerModel::Done(Ok(())),
            Answer::Done(Err(e)) => AnswerModel::Done(Err(e@)),
        }
    }
}

/// Whether the answer is of the kind that the phase waits for.
pub open spec fn answer_fits(phase: Phase, answer: AnswerModel) -> bool {
    match phase {
        Phase::Start => answer is Begin,
        Phase::CheckingInput | Phase::CheckingOutput | Phase::CheckingDir => answer is Flag,
        Phase::ReadingSize | Phase::ReadingExistingSize | Phase::Encoding => answer is Size,
        Phase::CreatingDir | Phase::Decoding | Phase::CreatingFile | Phase::Writing => answer is Done,
        Phase::Done => false,
    }
}

/// The record of a file.
pub open spec fn record(
    input: Seq<char>,
    output: Seq<char>,
    original: u64,
    converted: u64,
    skipped: bool,
) -> ConversionRecord {
    ConversionRecord {
        input_path: input,
        output_path: output,
        original_size_bytes: original,
        converted_size_bytes: converted,
        was_skipped: skipped,
    }
}

/// The state in a new phase, with the other fields kept.
pub open spec fn enter(s: StateModel, phase: Phase) -> StateModel {
    StateModel { phase, ..s }
}

/// The final state and request of a conversion with the given outcome.
pub open spec fn finish(s: StateModel, outcome: Result<ConversionRecord, ConvertFailure>) -> (
    StateModel,
    RequestModel,
) {
    (enter(s, Phase::Done), RequestModel::Finish { outcome })
}

/// One step of a conversion: from the state and the answer to the last
/// request, the next state and the next request.
///
/// The order is that of the conversion: the input must be a regular file;
/// its size is read; the output path is decided; an existing output file
/// is kept (and its size read, 0 where that fails) unless overwriting is
/// on; the output's directory is created where it is missing; then the
/// image is decoded, resized and encoded, and the file is created and
/// written. The first failure ends the conversion with its error.
/// Answers of another kind than the phase waits for (see `answer_fits`)
/// are not handed to `step`; the last arms of each match only make the
/// function total.
pub open spec fn step_spec(job: JobModel, s: StateModel, answer: AnswerModel) -> (
    StateModel,
    RequestModel,
) {
    match s.phase {
        Phase::Start => (
            enter(s, Phase::CheckingInput),
            RequestModel::CheckIsFile { path: job.input_path },
        ),
        Phase::CheckingInput => {
            if answer == AnswerModel::Flag(true) {
                (enter(s, Phase::ReadingSize), RequestModel::ReadSize { path: job.input_path })
            } else {
                finish(s, Err(ConvertFailure::NotAFile { input: job.input_path }))
            }
        },
        Phase::ReadingSize => match answer {
            AnswerModel::Size(Ok(size)) => match output_path_spec(
                job.input_path,
                job.input_root,
                job.output_dir,
                job.preserve_structure,
            ) {
                Some(out) => (
                    StateModel {
                        phase: Phase::CheckingOutput,
                        original_size: size,
                        output_path: out,
                        ..s
                    },
                    RequestModel::CheckExists { path: out },
                ),
                None => finish(s, Err(ConvertFailure::InvalidFileName { input: job.input_path })),
            },
            AnswerModel::Size(Err(reason)) => finish(
                s,
                Err(ConvertFailure::Metadata { input: job.input_path, reason }),
            ),
            _ => finish(s, Err(ConvertFailure::NotAFile { input: job.input_path })),
        },
        Phase::CheckingOutput => {
            if answer == AnswerModel::Flag(true) && !job.overwrite {
                (
                    enter(s, Phase::ReadingExistingSize),
                    RequestModel::ReadExistingSize { path: s.output_path },
                )
            } else {
                match path_parent(s.output_path) {
                    Some(dir) => (
                        StateModel { phase: Phase::CheckingDir, dir, ..s },
                        RequestModel::CheckDirExists { dir },
                    ),
                    None => (enter(s, Phase::Decoding), RequestModel::Decode { path: job.input_path }),
                }
            }
        },
        Phase::ReadingExistingSize => {
            let existing = match answer {
                AnswerModel::Size(Ok(n)) => n,
                _ => 0u64,
            };
            finish(s, Ok(record(job.input_path, s.output_path, s.original_size, existing, true)))
        },
        Phase::CheckingDir => {
            if answer == AnswerModel::Flag(true) {
                (enter(s, Phase::Decoding), RequestModel::Decode { path: job.input_path })
            } else {
                (enter(s, Phase::CreatingDir), RequestModel::CreateDir { dir: s.dir })
            }
        },
        Phase::CreatingDir => match answer {
            AnswerModel::Done(Err(reason)) => finish(
                s,
                Err(ConvertFailure::CreateDir { dir: s.dir, reason }),
            ),
            _ => (enter(s, Phase::Decoding), RequestModel::Decode { path: job.input_path }),
        },
        Phase::Decoding => match answer {
            AnswerModel::Done(Err(reason)) => finish(
                s,
                Err(ConvertFailure::Decode { input: job.input_path, reason }),
            ),
            _ => (
                enter(s, Phase::Encoding),
                RequestModel::Encode { max_dimension: job.max_dimension, encoding: job.encoding },
            ),
        },
        Phase::Encoding => match answer {
            AnswerModel::Size(Ok(len)) => (
                StateModel { phase: Phase::CreatingFile, converted_size: len, ..s },
                RequestModel::CreateFile { path: s.output_path },
            ),
            AnswerModel::Size(Err(reason)) => finish(s, Err(ConvertFailure::Encode { reason })),
            _ => finish(s, Err(ConvertFailure::Encode { reason: Seq::<char>::empty() })),
        },
        Phase::CreatingFile => match answer {
            AnswerModel::Done(Err(reason)) => finish(
                s,
                Err(ConvertFailure::CreateFile { output: s.output_path, reason }),
            ),
            _ => (enter(s, Phase::Writing), RequestModel::Write { path: s.output_path }),
        },
        Phase::Writing => match answer {
            AnswerModel::Done(Err(reason)) => finish(
                s,
                Err(ConvertFailure::Write { output: s.output_path, reason }),
            ),
            _ => finish(
                s,
                Ok(
                    record(
                        job.input_path,
                        s.output_path,
                        s.original_size,
                        s.converted_size,
                        false,
                    ),
                ),
            ),
        },
        Phase::Done => finish(s, Err(ConvertFailure::NotAFile { input: job.input_path })),
    }
}

/// What the system and the codecs answer during one conversion.
pub struct SystemFacts {
    pub input_is_file: bool,
    pub input_size: Result<u64, Seq<char>>,
    pub output_exists: bool,
    pub existing_size: Result<u64, Seq<char>>,
    pub dir_exists: bool,
    pub create_dir: Result<(), Seq<char>>,
    pub decode: Result<(), Seq<char>>,
    pub encode: Result<u64, Seq<char>>,
    pub create_file: Result<(), Seq<char>>,
    pub write: Result<(), Seq<char>>,
}

/// The outcome of converting one file, given what the system answers,
/// written as one decision: a missing or irregular input, an unreadable
/// size and an input without a file name fail; an existing output is kept
/// without overwriting (its size read, 0 where that fails); otherwise the
/// output's directory is created where missing, and the image is decoded,
/// encoded and written, the first failure being the error.
pub open spec fn conversion_outcome(job: JobModel, facts: SystemFacts) -> Result<
    ConversionRecord,
    ConvertFailure,
> {
    let input = job.input_path;
    if !facts.input_is_file {
        Err(ConvertFailure::NotAFile { input })
    } else {
        match facts.input_size {
            Err(reason) => Err(ConvertFailure::Metadata { input, reason }),
            Ok(size) => match output_path_spec(
                input,
                job.input_root,
                job.output_dir,
                job.preserve_structure,
            ) {
                None => Err(ConvertFailure::InvalidFileName { input }),
                Some(out) => {
                    if facts.output_exists && !job.overwrite {
                        let existing = match facts.existing_size {
                            Ok(n) => n,
                            Err(_) => 0u64,
                        };
                        Ok(record(input, out, size, existing, true))
                    } else {
                        let dir_failure = match path_parent(out) {
                            Some(dir) => !facts.dir_exists && facts.create_dir is Err,
                            None => false,
                        };
                        if dir_failure {
                            Err(
                                ConvertFailure::CreateDir {
                                    dir: path_parent(out)->0,
                                    reason: facts.create_dir->Err_0,
                                },
                            )
                        } else if facts.decode is Err {
                            Err(ConvertFailure::Decode { input, reason: facts.decode->Err_0 })
                        } else if facts.encode is Err {
                            Err(ConvertFailure::Encode { reason: facts.encode->Err_0 })
                        } else if facts.create_file is Err {
                            Err(
                                ConvertFailure::CreateFile {
                                    output: out,
                                    reason: facts.create_file->Err_0,
                                },
                            )
                        } else if facts.write is Err {
                            Err(ConvertFailure::Write { output: out, reason: facts.write->Err_0 })
                        } else {
                            Ok(record(input, out, size, facts.encode->Ok_0, false))
                        }
                    }
                },
            },
        }
    }
}

/// The answer that the system gives to a request.
pub open spec fn answer_for(request: RequestModel, facts: SystemFacts) -> AnswerModel {
    match request {
        RequestModel::CheckIsFile { .. } => AnswerModel::Flag(facts.input_is_file),
        RequestModel::ReadSize { .. } => AnswerModel::Size(facts.input_size),
        RequestModel::CheckExists { .. } => AnswerModel::Flag(facts.output_exists),
        RequestModel::ReadExistingSize { .. } => AnswerModel::Size(facts.existing_size),
        RequestModel::CheckDirExists { .. } => AnswerModel::Flag(facts.dir_exists),
        RequestModel::CreateDir { .. } => AnswerModel::Done(facts.create_dir),
        RequestModel::Decode { .. } => AnswerModel::Done(facts.decode),
        RequestModel::Encode { .. } => AnswerModel::Size(facts.encode),
        RequestModel::CreateFile { .. } => AnswerModel::Done(facts.create_file),
        RequestModel::Write { .. } => AnswerModel::Done(facts.write),
        RequestModel::Finish { .. } => AnswerModel::Begin,
    }
}

/// The requests that a conversion makes, in order, when each is answered
/// from `facts`, for at most `fuel` more steps; it ends with `Finish` where
/// the conversion ends within them.
pub open spec fn run(
    job: JobModel,
    s: StateModel,
    answer: AnswerModel,
    facts: SystemFacts,
    fuel: nat,
) -> Seq<RequestModel>
    decreases fuel,
{
    let (next, request) = step_spec(job, s, answer);
    if request is Finish || fuel == 0 {
        seq![request]
    } else {
        seq![request] + run(job, next, answer_for(request, facts), facts, (fuel - 1) as nat)
    }
}

/// Each request that a step makes is one whose answer the next phase
/// waits for, so answering each request in kind keeps `step` callable.
pub proof fn lemma_answers_fit(job: JobModel, s: StateModel, answer: AnswerModel, facts: SystemFacts)
    requires
        answer_fits(s.phase, answer),
    ensures
        ({
            let (next, request) = step_spec(job, s, answer);
            request is Finish <==> next.phase == Phase::Done
        }),
        ({
            let (next, request) = step_spec(job, s, answer);
            !(request is Finish) ==> answer_fits(next.phase, answer_for(request, facts))
        }),
{
}

/// With overwriting on, no file is skipped: a conversion that succeeds
/// has written its output.
pub proof fn lemma_overwrite_never_skips(job: JobModel, facts: SystemFacts)
    requires
        job.overwrite,
    ensures
        conversion_outcome(job, facts) matches Ok(rec) ==> !rec.was_skipped,
{
}

/// Each request of a step names the file it is about: the input checks,
/// size reading and decoding name the job's input; the existence check,
/// made just after the input size is read, names the output path then
/// decided, and the existing-size, create and write requests name that same
/// output path, which no later step changes; the directory requests name
/// the output's parent directory; the encode request carries the job's size
/// limit and encoding unchanged; and a finished record names the job's
/// input, the decided output and the size read.
pub proof fn lemma_requests_name_their_files(job: JobModel, s: StateModel, answer: AnswerModel)
    ensures
        ({
            let (next, request) = step_spec(job, s, answer);
            &&& request is CheckIsFile ==> request->CheckIsFile_path == job.input_path
            &&& request is ReadSize ==> request->ReadSize_path == job.input_path
            &&& request is Decode ==> request->Decode_path == job.input_path
            &&& request is CheckExists ==> {
                &&& s.phase == Phase::ReadingSize
                &&& request->CheckExists_path == next.output_path
                &&& output_path_spec(
                    job.input_path,
                    job.input_root,
                    job.output_dir,
                    job.preserve_structure,
                ) == Some(next.output_path)
            }
            &&& !(request is CheckExists) ==> next.output_path == s.output_path
            &&& request is ReadExistingSize ==> request->ReadExistingSize_path == next.output_path
            &&& request is CreateFile ==> request->CreateFile_path == next.output_path
            &&& request is Write ==> request->Write_path == next.output_path
            &&& request is CheckDirExists ==> path_parent(next.output_path) == Some(
                request->CheckDirExists_dir,
            )
            &&& request is CreateDir ==> request->CreateDir_dir == next.dir
            &&& request is Encode ==> request->Encode_max_dimension == job.max_dimension
                && request->Encode_encoding == job.encoding
            &&& request is Finish && request->Finish_outcome is Ok ==> {
                let rec = request->Finish_outcome->Ok_0;
                &&& rec.input_path == job.input_path
                &&& rec.output_path == next.output_path
                &&& rec.original_size_bytes == s.original_size
            }
        }),
{
}

/// The state of a conversion that has not begun.
pub open spec fn start_model() -> StateModel {
    StateModel {
        phase: Phase::Start,
        original_size: 0,
        output_path: Seq::<char>::empty(),
        dir: Seq::<char>::empty(),
        converted_size: 0,
    }
}

/// Whether a request changes the file system or reads the image.
pub open spec fn touches_output(request: RequestModel) -> bool {
    ||| request is CreateDir
    ||| request is Decode
    ||| request is Encode
    ||| request is CreateFile
    ||| request is Write
}

/// A conversion driven step by step ends, within ten steps, with the
/// outcome that `conversion_outcome` gives for the same answers of the
/// system.
pub proof fn lemma_steps_reach_outcome(job: JobModel, facts: SystemFacts)
    ensures
        run(job, start_model(), AnswerModel::Begin, facts, 10).last() == (RequestModel::Finish {
            outcome: conversion_outcome(job, facts),
        }),
{
    reveal_with_fuel(run, 11);
}

/// An existing WebP file is never replaced when overwriting is off: the
/// conversion then makes no request that creates, decodes, encodes or
/// writes, and it ends with a skipped record.
pub proof fn lemma_existing_output_kept(job: JobModel, facts: SystemFacts)
    requires
        facts.input_is_file,
        facts.input_size is Ok,
        output_path_spec(job.input_path, job.input_root, job.output_dir, job.preserve_structure)
            is Some,
        facts.output_exists,
        !job.overwrite,
    ensures
        forall|i: int|
            0 <= i < run(job, start_model(), AnswerModel::Begin, facts, 10).len() ==> !touches_output(
                #[trigger] run(job, start_model(), AnswerModel::Begin, facts, 10)[i],
            ),
        conversion_outcome(job, facts) matches Ok(rec) && rec.was_skipped,
{
    reveal_with_fuel(run, 11);
}

impl JobState {
    /// The state of a conversion that has not begun.
    pub fn start() -> (r: JobState)
        ensures
            r@ == start_model(),
    {
        JobState {
            phase: Phase::Start,
            original_size: 0,
            output_path: String::new(),
            dir: String::new(),
            converted_size: 0,
        }
    }
}

/// One step of a conversion (see `step_spec`): the next state and the next
/// request, from the state and the answer to the last request.
pub fn step(job: &ConvertJob, state: JobState, answer: Answer) -> (r: (JobState, Request))
    requires
        answer_fits(state.phase, answer@),
    ensures
        (r.0@, r.1@) == step_spec(job@, state@, answer@),
{
    let JobState { phase, original_size, output_path, dir, converted_size } = state;
    match phase {
        Phase::Start => (
            JobState { phase: Phase::CheckingInput, original_size, output_path, dir, converted_size },
            Request::CheckIsFile { path: job.input_path.clone() },
        ),
        Phase::CheckingInput => {
            if let Answer::Flag(true) = answer {
                (
                    JobState {
                        phase: Phase::ReadingSize,
                        original_size,
                        output_path,
                        dir,
                        converted_size,
                    },
                    Request::ReadSize { path: job.input_path.clone() },
                )
            } else {
                (
                    JobState { phase: Phase::Done, original_size, output_path, dir, converted_size },
                    Request::Finish {
                        outcome: Err(ConvertError::NotAFile { input: job.input_path.clone() }),
                    },
                )
            }
        },
        Phase::ReadingSize => {
            match answer {
                Answer::Size(Ok(size)) => {
                    let root = match &job.input_root {
                        Some(r) => Some(r.as_str()),
                        None => None,
                    };
                    let out_dir = match &job.output_dir {
                        Some(d) => Some(d.as_str()),
                        None => None,
                    };
                    match determine_output_path(
                        job.input_path.as_str(),
                        root,
                        out_dir,
                        job.preserve_structure,
                    ) {
                        Ok(out) => {
                            let request = Request::CheckExists { path: out.clone() };
                            (
                                JobState {
                                    phase: Phase::CheckingOutput,
                                    original_size: size,
                                    output_path: out,
                                    dir,
                                    converted_size,
                                },
                                request,
                            )
                        },
                        Err(e) => (
                            JobState {
                                phase: Phase::Done,
                                original_size,
                                output_path,
                                dir,
                                converted_size,
                            },
                            Request::Finish { outcome: Err(e) },
                        ),
                    }
                },
                Answer::Size(Err(reason)) => (
                    JobState { phase: Phase::Done, original_size, output_path, dir, converted_size },
                    Request::Finish {
                        outcome: Err(
                            ConvertError::Metadata { input: job.input_path.clone(), reason },
                        ),
                    },
                ),
                _ => (
                    JobState { phase: Phase::Done, original_size, output_path, dir, converted_size },
                    Request::Finish {
                        outcome: Err(ConvertError::NotAFile { input: job.input_path.clone() }),
                    },
                ),
            }
        },
        Phase::CheckingOutput => {
            let exists = match answer {
                Answer::Flag(b) => b,
                _ => false,
            };
            if exists && !job.overwrite {
                let request = Request::ReadExistingSize { path: output_path.clone() };
                (
                    JobState {
                        phase: Phase::ReadingExistingSize,
                        original_size,
                        output_path,
                        dir,
                        converted_size,
                    },
                    request,
                )
            } else {
                match parent(output_path.as_str()) {
                    Some(d) => {
                        let request = Request::CheckDirExists { dir: d.clone() };
                        (
                            JobState {
                                phase: Phase::CheckingDir,
                                original_size,
                                output_path,
                                dir: d,
                                converted_size,
                            },
                            request,
                        )
                    },
                    None => (
                        JobState {
                            phase: Phase::Decoding,
                            original_size,
                            output_path,
                            dir,
                            converted_size,
                        },
                        Request::Decode { path: job.input_path.clone() },
                    ),
                }
            }
        },
        Phase::ReadingExistingSize => {
            let existing: u64 = match answer {
                Answer::Size(Ok(n)) => n,
                _ => 0,
            };
            let result = ConversionResult {
                input_path: job.input_path.clone(),
                output_path: output_path.clone(),
                original_size_bytes: original_size,
                converted_size_bytes: existing,
                was_skipped: true,
            };
            (
                JobState { phase: Phase::Done, original_size, output_path, dir, converted_size },
                Request::Finish { outcome: Ok(result) },
            )
        },
        Phase::CheckingDir => {
            if let Answer::Flag(true) = answer {
                (
                    JobState { phase: Phase::Decoding, original_size, output_path, dir, converted_size },
                    Request::Decode { path: job.input_path.clone() },
                )
            } else {
                let request = Request::CreateDir { dir: dir.clone() };
                (
                    JobState {
                        phase: Phase::CreatingDir,
                        original_size,
                        output_path,
                        dir,
                        converted_size,
                    },
                    request,
                )
            }
        },
        Phase::CreatingDir => {
            if let Answer::Done(Err(reason)) = answer {
                let error = ConvertError::CreateDir { dir: dir.clone(), reason };
                (
                    JobState { phase: Phase::Done, original_size, output_path, dir, converted_size },
                    Request::Finish { outcome: Err(error) },
                )
            } else {
                (
                    JobState { phase: Phase::Decoding, original_size, output_path, dir, converted_size },
                    Request::Decode { path: job.input_path.clone() },
                )
            }
        },
        Phase::Decoding => {
            if let Answer::Done(Err(reason)) = answer {
                (
                    JobState { phase: Phase::Done, original_size, output_path, dir, converted_size },
                    Request::Finish {
                        outcome: Err(ConvertError::Decode { input: job.input_path.clone(), reason }),
                    },
                )
            } else {
                (
                    JobState { phase: Phase::Encoding, original_size, output_path, dir, converted_size },
                    Request::Encode { max_dimension: job.max_dimension, encoding: job.encoding },
                )
            }
        },
        Phase::Encoding => {
            match answer {
                Answer::Size(Ok(len)) => {
                    let request = Request::CreateFile { path: output_path.clone() };
                    (
                        JobState {
                            phase: Phase::CreatingFile,
                            original_size,
                            output_path,
                            dir,
                            converted_size: len,
                        },
                        request,
                    )
                },
                Answer::Size(Err(reason)) => (
                    JobState { phase: Phase::Done, original_size, output_path, dir, converted_size },
                    Request::Finish { outcome: Err(ConvertError::Encode { reason }) },
                ),
                _ => (
                    JobState { phase: Phase::Done, original_size, output_path, dir, converted_size },
                    Request::Finish { outcome: Err(ConvertError::Encode { reason: String::new() }) },
                ),
            }
        },
        Phase::CreatingFile => {
            if let Answer::Done(Err(reason)) = answer {
                let error = ConvertError::CreateFile { output: output_path.clone(), reason };
                (
                    JobState { phase: Phase::Done, original_size, output_path, dir, converted_size },
                    Request::Finish { outcome: Err(error) },
                )
            } else {
                let request = Request::Write { path: output_path.clone() };
                (
                    JobState { phase: Phase::Writing, original_size, output_path, dir, converted_size },
                    request,
                )
            }
        },
        Phase::Writing => {
            if let Answer::Done(Err(reason)) = answer {
                let error = ConvertError::Write { output: output_path.clone(), reason };
                (
                    JobState { phase: Phase::Done, original_size, output_path, dir, converted_size },
                    Request::Finish { outcome: Err(error) },
                )
            } else {
                let result = ConversionResult {
                    input_path: job.input_path.clone(),
                    output_path: output_path.clone(),
                    original_size_bytes: original_size,
                    converted_size_bytes: converted_size,
                    was_skipped: false,
                };
                (
                    JobState { phase: Phase::Done, original_size, output_path, dir, converted_size },
                    Request::Finish { outcome: Ok(result) },
                )
            }
        },
        Phase::Done => (
            JobState { phase: Phase::Done, original_size, output_path, dir, converted_size },
            Request::Finish {
                outcome: Err(ConvertError::NotAFile { input: job.input_path.clone() }),
            },
        ),
    }
}

} // verus!
