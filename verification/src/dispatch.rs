//! Routing: from the request of a job to the work of its executor.
//!
//! Audio and video operations become a plan of commands for the external
//! tool; image operations become a task that is performed in memory.
//!
//! Defaults of the optional parameters: the fit mode is `stretch`, the
//! quality is 85, and an image format that is unset or unknown is JPEG. An
//! audio format and a video codec have no default: unset, they are rejected
//! as an unknown one is. A resize without width or height, and a thumbnail
//! without width, have no valid dimensions.

use vstd::prelude::*;
use crate::command::{command_of, wide32, wide8, CommandModel, ToolRequest, ToolRequestModel};
use crate::error::{ErrorModel, MediaError};
use crate::executor::{Plan, StageModel};
use crate::geometry::FitMode;
use crate::job::{ExecutorKind, Job, JobParams, Operation, ParamsModel};
use crate::raster::{
    can_resize, decode, effective_quality, encode, encoding_of, image_of, quality_of, resize,
    ImageFormat, RasterModel,
};
use crate::services::{
    normalize_plan, plan_for, resize_allowed, resize_outcome, single, AudioService,
};
use crate::text::lowercase_of;

verus! {

/// The box and mode of a resize.
#[derive(Clone, Copy, Debug, PartialEq, Eq, Structural)]
pub struct ResizeTo {
    pub width: u32,
    pub height: u32,
    pub mode: FitMode,
}

/// The work of an image operation: an optional resize, then the file format
/// to write and the quality to write it with.
#[derive(Clone, Copy, Debug, PartialEq, Eq, Structural)]
pub struct ImageTask {
    pub resize: Option<ResizeTo>,
    pub format: ImageFormat,
    pub quality: u8,
}

/// The work of a job.
#[derive(Clone, Debug, PartialEq, Eq)]
pub enum Work {
    /// Commands for the external tool.
    Tool(Plan),
    /// An image task, performed in memory.
    Image(ImageTask),
}

/// The work of a job as plain values.
pub enum WorkModel {
    Tool(Seq<StageModel>),
    Image(ImageTask),
}

impl View for Work {
    type V = WorkModel;

    open spec fn view(&self) -> WorkModel {
        match *self {
            Work::Tool(plan) => WorkModel::Tool(plan@),
            Work::Image(task) => WorkModel::Image(task),
        }
    }
}

/// The image format that a request names: JPEG where it names none.
pub open spec fn image_format_of(name: Option<Seq<char>>) -> ImageFormat {
    match name {
        Some(n) => ImageFormat::of(lowercase_of(n)),
        None => ImageFormat::Jpeg,
    }
}

/// The fit mode that a request names: `Stretch` where it names none.
pub open spec fn fit_mode_of(name: Option<Seq<char>>) -> FitMode {
    match name {
        Some(n) => FitMode::of(n),
        None => FitMode::Stretch,
    }
}

/// The plan of one command, or the error in its place.
pub open spec fn tool_work(command: Result<CommandModel, ErrorModel>) -> Result<
    WorkModel,
    ErrorModel,
> {
    match command {
        Ok(c) => Ok(WorkModel::Tool(single(c))),
        Err(e) => Err(e),
    }
}

/// The work that a request stands for.
pub open spec fn routed(
    operation: Operation,
    input: Seq<char>,
    output: Seq<char>,
    params: ParamsModel,
) -> Result<WorkModel, ErrorModel> {
    let format = image_format_of(params.format);
    let quality = quality_of(params.quality);
    match operation {
        Operation::TranscodeAudio => match params.format {
            Some(name) => tool_work(
                command_of(
                    ToolRequestModel::TranscodeAudio {
                        input,
                        output,
                        format: name,
                        bitrate: params.bitrate,
                        sample_rate: wide32(params.sample_rate),
                        channels: wide8(params.channels),
                    },
                ),
            ),
            None => Err(ErrorModel::UnsupportedFormat),
        },
        Operation::TranscodeVideo => match params.codec {
            Some(name) => tool_work(
                command_of(
                    ToolRequestModel::TranscodeVideo {
                        input,
                        output,
                        codec: name,
                        bitrate: params.bitrate,
                    },
                ),
            ),
            None => Err(ErrorModel::UnsupportedFormat),
        },
        Operation::ExtractAudio => tool_work(
            command_of(ToolRequestModel::ExtractAudio { input, output }),
        ),
        Operation::NormalizeAudio => Ok(WorkModel::Tool(normalize_plan(input, output))),
        Operation::ProbeAudio => tool_work(command_of(ToolRequestModel::ProbeAudio { input })),
        Operation::TranscodeImage => Ok(
            WorkModel::Image(ImageTask { resize: None, format, quality }),
        ),
        Operation::Resize => match (params.width, params.height) {
            (Some(width), Some(height)) => Ok(
                WorkModel::Image(
                    ImageTask {
                        resize: Some(ResizeTo { width, height, mode: fit_mode_of(params.fit_mode) }),
                        format,
                        quality,
                    },
                ),
            ),
            _ => Err(ErrorModel::InvalidDimensions),
        },
        Operation::Thumbnail => match params.width {
            Some(size) => Ok(
                WorkModel::Image(
                    ImageTask {
                        resize: Some(ResizeTo { width: size, height: size, mode: FitMode::Stretch }),
                        format,
                        quality,
                    },
                ),
            ),
            None => Err(ErrorModel::InvalidDimensions),
        },
    }
}

/// Whether a result is the work expected, or the error expected.
pub open spec fn routes(
    result: Result<Work, MediaError>,
    expected: Result<WorkModel, ErrorModel>,
) -> bool {
    match expected {
        Ok(work) => result matches Ok(w) && w@ == work,
        Err(error) => result matches Err(e) && e@ == error,
    }
}

/// The work of a plan, or the error in its place.
fn tool(plan: Result<Plan, MediaError>) -> (work: Result<Work, MediaError>)
    ensures
        match plan {
            Ok(p) => work matches Ok(w) && w@ == WorkModel::Tool(p@),
            Err(e) => work matches Err(x) && x@ == e@,
        },
{
    match plan {
        Ok(p) => Ok(Work::Tool(p)),
        Err(e) => Err(e),
    }
}

/// Routes a request to its executor and says what the executor has to do.
///
/// Fails with `UnsupportedFormat` exactly when an audio format or a video
/// codec is unset or in no table, and with `InvalidDimensions` exactly when
/// a resize lacks a side or a thumbnail lacks its width.
pub fn route(operation: Operation, input_path: &str, output_path: &str, params: &JobParams) -> (result:
    Result<Work, MediaError>)
    ensures
        routes(result, routed(operation, input_path@, output_path@, params@)),
        result matches Ok(work) ==> (work is Image <==> operation.executor_of()
            == ExecutorKind::Image),
{
    let format = match &params.format {
        Some(name) => ImageFormat::for_name(name.as_str()),
        None => ImageFormat::Jpeg,
    };
    let quality = effective_quality(params.quality);
    match operation {
        Operation::TranscodeAudio => match &params.format {
            Some(name) => {
                let bitrate = match &params.bitrate {
                    Some(b) => Some(b.as_str()),
                    None => None,
                };
                tool(
                    AudioService::new().transcode_audio(
                        input_path,
                        output_path,
                        name.as_str(),
                        bitrate,
                        params.sample_rate,
                        params.channels,
                    ),
                )
            },
            None => Err(MediaError::UnsupportedFormat),
        },
        Operation::TranscodeVideo => match &params.codec {
            Some(name) => {
                let request = ToolRequest::TranscodeVideo {
                    input: input_path.to_owned(),
                    output: output_path.to_owned(),
                    codec: name.clone(),
                    bitrate: match &params.bitrate {
                        Some(b) => Some(b.clone()),
                        None => None,
                    },
                };
                tool(plan_for(&request))
            },
            None => Err(MediaError::UnsupportedFormat),
        },
        Operation::ExtractAudio => tool(
            AudioService::new().extract_audio_from_video(input_path, output_path),
        ),
        Operation::NormalizeAudio => Ok(
            Work::Tool(AudioService::new().normalize_audio(input_path, output_path)),
        ),
        Operation::ProbeAudio => tool(AudioService::new().analyze_audio(input_path)),
        Operation::TranscodeImage => Ok(Work::Image(ImageTask { resize: None, format, quality })),
        Operation::Resize => match (params.width, params.height) {
            (Some(width), Some(height)) => {
                let mode = match &params.fit_mode {
                    Some(name) => FitMode::parse(name.as_str()),
                    None => FitMode::Stretch,
                };
                Ok(
                    Work::Image(
                        ImageTask { resize: Some(ResizeTo { width, height, mode }), format, quality },
                    ),
                )
            },
            _ => Err(MediaError::InvalidDimensions),
        },
        Operation::Thumbnail => match params.width {
            Some(size) => Ok(
                Work::Image(
                    ImageTask {
                        resize: Some(ResizeTo { width: size, height: size, mode: FitMode::Stretch }),
                        format,
                        quality,
                    },
                ),
            ),
            None => Err(MediaError::InvalidDimensions),
        },
    }
}

/// The work of a job, routed by its operation, paths and parameters.
pub fn route_job(job: &Job) -> (result: Result<Work, MediaError>)
    ensures
        routes(
            result,
            routed(job@.operation, job@.input_path, job@.output_path, job@.params),
        ),
        result matches Ok(work) ==> (work is Image <==> job@.operation.executor_of()
            == ExecutorKind::Image),
{
    route(job.operation, job.input_path.as_str(), job.output_path.as_str(), &job.params)
}

/// The file that an image task makes of a source file: the source decoded,
/// resized where the task says so, and written in the task's format; or the
/// error of the first step that fails. A result too large for the machine to
/// hold cannot be written.
pub open spec fn performed(task: ImageTask, source: Seq<u8>) -> Result<Seq<u8>, MediaError> {
    match image_of(source) {
        None => Err(MediaError::DecodeError),
        Some(image) => {
            let shaped: Result<RasterModel, MediaError> = match task.resize {
                Some(to) => if resize_allowed(
                    image,
                    to.width as nat,
                    to.height as nat,
                    to.mode,
                ) {
                    resize_outcome(image, to.width as nat, to.height as nat, to.mode)
                } else {
                    Err(MediaError::EncodeError)
                },
                None => Ok(image),
            };
            match shaped {
                Ok(result) => match encoding_of(result, task.format, task.quality) {
                    Some(file) => Ok(file),
                    None => Err(MediaError::EncodeError),
                },
                Err(e) => Err(e),
            }
        },
    }
}

/// Performs an image task on the bytes of a source file, in memory.
///
/// Fails with `DecodeError` exactly when the source is no image; else with
/// `InvalidDimensions` exactly when the task resizes and a side of the source
/// or of the box is zero; else with `EncodeError` exactly when the buffers of
/// the resize cannot be allocated or the result has no file in the format.
pub fn perform(task: &ImageTask, source: &[u8]) -> (result: Result<Vec<u8>, MediaError>)
    ensures
        match performed(*task, source@) {
            Ok(file) => result matches Ok(bytes) && bytes@ == file,
            Err(error) => result matches Err(e) && e == error,
        },
{
    let image = match decode(source) {
        Ok(image) => image,
        Err(e) => {
            return Err(e);
        },
    };
    match task.resize {
        Some(to) => {
            if image.width() == 0 || image.height() == 0 || to.width == 0 || to.height == 0 {
                return Err(MediaError::InvalidDimensions);
            }
            if !can_resize(image.width(), image.height(), to.width, to.height, to.mode) {
                return Err(MediaError::EncodeError);
            }
            match resize(&image, to.width, to.height, to.mode) {
                Ok(shaped) => encode(&shaped, task.format, task.quality),
                Err(e) => Err(e),
            }
        },
        None => encode(&image, task.format, task.quality),
    }
}

} // verus!
