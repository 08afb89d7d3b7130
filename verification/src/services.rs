//! The media operation executors: what each operation asks of the external
//! tool, and what its results mean.

use vstd::prelude::*;
pub use crate::probe::AudioMetadata;
use crate::command::{
    build, command_of, measure_loudness_args, measure_loudness_command, normalize_args,
    normalize_command, wide32, wide8, CommandModel, ToolRequest, ToolRequestModel,
};
use crate::error::{ErrorModel, MediaError};
use crate::executor::{decision_of, DecisionModel, Plan, Stage, StageModel};
use crate::geometry::{valid_dimensions, FitMode};
use crate::probe::{document_of, metadata_of, parse};
use crate::process::{OutcomeModel, ProcessOutcome};
use crate::raster::{
    decode, effective_quality, encode, encoding_of, image_of, quality_of, resize, resize_fits,
    resized, ImageFormat, Raster, RasterModel,
};
use crate::text::lowercase_of;

verus! {

/// The plan of one required command.
pub open spec fn single(command: CommandModel) -> Seq<StageModel> {
    seq![StageModel { command, required: true }]
}

/// Whether a result is the plan of the one command expected, or the error
/// expected in its place.
pub open spec fn plans(
    result: Result<Plan, MediaError>,
    expected: Result<CommandModel, ErrorModel>,
) -> bool {
    match expected {
        Ok(command) => result matches Ok(plan) && plan@ == single(command),
        Err(error) => result matches Err(e) && e@ == error,
    }
}

/// The plan that runs the command of one request, or the error of the
/// command builder.
pub fn plan_for(request: &ToolRequest) -> (result: Result<Plan, MediaError>)
    ensures
        plans(result, command_of(request@)),
{
    match build(request) {
        Ok(command) => {
            let mut stages: Vec<Stage> = Vec::new();
            stages.push(Stage { command, required: true });
            let plan = Plan { stages };
            assert(plan@ =~= single(command@));
            Ok(plan)
        },
        Err(e) => Err(e),
    }
}

/// An owned copy of an optional text.
fn owned(text: Option<&str>) -> (copy: Option<String>)
    ensures
        match text {
            Some(t) => copy matches Some(c) && c@ == t@,
            None => copy is None,
        },
{
    match text {
        Some(t) => Some(t.to_owned()),
        None => None,
    }
}

/// The executor of image operations. It works in process and never calls the
/// external tool.
#[derive(Clone, Copy, Debug, PartialEq, Eq)]
pub struct TranscodeService;

/// The file of an image converted to a format: the source decoded and
/// written again, or the error of the step that fails.
pub open spec fn transcoded(source: Seq<u8>, format: ImageFormat, quality: u8) -> Result<
    Seq<u8>,
    MediaError,
> {
    match image_of(source) {
        Some(image) => match encoding_of(image, format, quality) {
            Some(file) => Ok(file),
            None => Err(MediaError::EncodeError),
        },
        None => Err(MediaError::DecodeError),
    }
}

/// The image of a resize, or `InvalidDimensions` where a side of the source
/// or of the box is zero.
pub open spec fn resize_outcome(source: RasterModel, width: nat, height: nat, mode: FitMode) -> Result<
    RasterModel,
    MediaError,
> {
    if valid_dimensions(source.width as int, source.height as int, width as int, height as int) {
        Ok(resized(source, width, height, mode))
    } else {
        Err(MediaError::InvalidDimensions)
    }
}

/// Whether the buffers of a resize of `source` can be allocated. A resize
/// with a zero side allocates nothing.
pub open spec fn resize_allowed(source: RasterModel, width: nat, height: nat, mode: FitMode) -> bool {
    valid_dimensions(source.width as int, source.height as int, width as int, height as int)
        ==> resize_fits(
        source.width as int,
        source.height as int,
        width as int,
        height as int,
        mode,
    )
}

/// Whether a result is the image expected, or the error expected.
pub open spec fn yields(
    result: Result<Raster, MediaError>,
    expected: Result<RasterModel, MediaError>,
) -> bool {
    match expected {
        Ok(image) => result matches Ok(raster) && raster@ == image && raster.well_formed(),
        Err(error) => result matches Err(e) && e == error,
    }
}

impl TranscodeService {
    /// An image executor.
    pub fn new() -> (service: Self)
        ensures
            service == TranscodeService,
    {
        TranscodeService
    }

    /// Converts an image to the format named, whatever the case of the name;
    /// a name in no table stands for JPEG. The quality, 85 where none is
    /// given, is that of the JPEG encoder.
    ///
    /// Fails with `DecodeError` exactly when the source is no image, and with
    /// `EncodeError` exactly when the image has no file in the format.
    pub fn transcode_image(&self, source: &[u8], format: &str, quality: Option<u8>) -> (result:
        Result<Vec<u8>, MediaError>)
        ensures
            match transcoded(source@, ImageFormat::of(lowercase_of(format@)), quality_of(quality)) {
                Ok(file) => result matches Ok(bytes) && bytes@ == file,
                Err(error) => result matches Err(e) && e == error,
            },
    {
        let image = match decode(source) {
            Ok(image) => image,
            Err(e) => {
                return Err(e);
            },
        };
        encode(&image, ImageFormat::for_name(format), effective_quality(quality))
    }

    /// Resizes an image to a box under the mode named; a name that is neither
    /// `fit` nor `crop` stands for `Stretch`. Both sides of the result are
    /// positive.
    ///
    /// Fails with `InvalidDimensions` exactly when a side of the source or of
    /// the box is zero. The sizes that `requires` leaves out are those whose
    /// buffers the machine cannot allocate; `can_resize` tests for them.
    pub fn resize_image(&self, source: &Raster, width: u32, height: u32, mode: &str) -> (result:
        Result<Raster, MediaError>)
        requires
            source.well_formed(),
            resize_allowed(source@, width as nat, height as nat, FitMode::of(mode@)),
        ensures
            yields(
                result,
                resize_outcome(source@, width as nat, height as nat, FitMode::of(mode@)),
            ),
            result matches Ok(raster) ==> raster@.width >= 1 && raster@.height >= 1,
    {
        resize(source, width, height, FitMode::parse(mode))
    }

    /// Makes a square thumbnail: the image stretched to `size` by `size`.
    ///
    /// Fails with `InvalidDimensions` exactly when a side of the source or
    /// `size` is zero. The sizes that `requires` leaves out are those whose
    /// buffers the machine cannot allocate; `can_resize` tests for them.
    pub fn generate_thumbnail(&self, source: &Raster, size: u32) -> (result: Result<
        Raster,
        MediaError,
    >)
        requires
            source.well_formed(),
            resize_allowed(source@, size as nat, size as nat, FitMode::Stretch),
        ensures
            yields(result, resize_outcome(source@, size as nat, size as nat, FitMode::Stretch)),
            result matches Ok(raster) ==> raster@.width == size && raster@.height == size,
    {
        resize(source, size, size, FitMode::Stretch)
    }
}

/// The executor of video operations.
#[derive(Clone, Copy, Debug, PartialEq, Eq)]
pub struct FFmpegService;

impl FFmpegService {
    /// A video executor. Nothing has to be set up, so this always succeeds.
    pub fn new() -> (service: Result<Self, MediaError>)
        ensures
            service == Ok::<FFmpegService, MediaError>(FFmpegService),
    {
        Ok(FFmpegService)
    }

    /// The plan of a video transcode: one command, with the encoder named
    /// `codec` and the bitrate given.
    ///
    /// Fails with `UnsupportedFormat` exactly when `codec`, in lower case, is
    /// no encoder of the table.
    pub fn transcode_video(&self, input_path: &str, output_path: &str, codec: &str, bitrate: &str) -> (result:
        Result<Plan, MediaError>)
        ensures
            plans(
                result,
                command_of(
                    ToolRequestModel::TranscodeVideo {
                        input: input_path@,
                        output: output_path@,
                        codec: codec@,
                        bitrate: Some(bitrate@),
                    },
                ),
            ),
    {
        let request = ToolRequest::TranscodeVideo {
            input: input_path.to_owned(),
            output: output_path.to_owned(),
            codec: codec.to_owned(),
            bitrate: Some(bitrate.to_owned()),
        };
        plan_for(&request)
    }
}

/// The executor of audio operations.
#[derive(Clone, Copy, Debug, PartialEq, Eq)]
pub struct AudioService;

/// The two passes of a loudness normalization: the measurement, whose
/// failure does not count, then the filter, whose failure does.
pub open spec fn normalize_plan(input: Seq<char>, output: Seq<char>) -> Seq<StageModel> {
    seq![
        StageModel {
            command: CommandModel { tool: "ffmpeg"@, args: measure_loudness_args(input) },
            required: false,
        },
        StageModel {
            command: CommandModel { tool: "ffmpeg"@, args: normalize_args(input, output) },
            required: true,
        },
    ]
}

impl AudioService {
    /// An audio executor.
    pub fn new() -> (service: Self)
        ensures
            service == AudioService,
    {
        AudioService
    }

    /// The plan of an audio transcode: one command, with the encoder of
    /// `format` and each optional parameter that is set.
    ///
    /// Fails with `UnsupportedFormat` exactly when `format`, in lower case,
    /// is in no table.
    pub fn transcode_audio(
        &self,
        input_path: &str,
        output_path: &str,
        format: &str,
        bitrate: Option<&str>,
        sample_rate: Option<u32>,
        channels: Option<u8>,
    ) -> (result: Result<Plan, MediaError>)
        ensures
            plans(
                result,
                command_of(
                    ToolRequestModel::TranscodeAudio {
                        input: input_path@,
                        output: output_path@,
                        format: format@,
                        bitrate: match bitrate {
                            Some(b) => Some(b@),
                            None => None,
                        },
                        sample_rate: wide32(sample_rate),
                        channels: wide8(channels),
                    },
                ),
            ),
    {
        let request = ToolRequest::TranscodeAudio {
            input: input_path.to_owned(),
            output: output_path.to_owned(),
            format: format.to_owned(),
            bitrate: owned(bitrate),
            sample_rate,
            channels,
        };
        plan_for(&request)
    }

    /// The plan that copies the audio stream out of a video: one command.
    pub fn extract_audio_from_video(&self, video_path: &str, audio_path: &str) -> (result: Result<
        Plan,
        MediaError,
    >)
        ensures
            plans(
                result,
                command_of(
                    ToolRequestModel::ExtractAudio { input: video_path@, output: audio_path@ },
                ),
            ),
            result is Ok,
    {
        let request = ToolRequest::ExtractAudio {
            input: video_path.to_owned(),
            output: audio_path.to_owned(),
        };
        plan_for(&request)
    }

    /// The plan of a probe: one command, whose standard output
    /// `read_analysis` turns into a metadata record.
    pub fn analyze_audio(&self, audio_path: &str) -> (result: Result<Plan, MediaError>)
        ensures
            plans(result, command_of(ToolRequestModel::ProbeAudio { input: audio_path@ })),
            result is Ok,
    {
        let request = ToolRequest::ProbeAudio { input: audio_path.to_owned() };
        plan_for(&request)
    }

    /// The metadata record in the outcome of a probe.
    ///
    /// Fails with `MalformedProbeOutput` exactly when the standard output of
    /// the probe is no document.
    pub fn read_analysis(&self, outcome: &ProcessOutcome) -> (result: Result<
        AudioMetadata,
        MediaError,
    >)
        ensures
            match document_of(outcome.stdout@) {
                Some(model) => result matches Ok(record) && record@ == metadata_of(model),
                None => result matches Err(e) && e == MediaError::MalformedProbeOutput,
            },
    {
        parse(outcome.stdout.as_slice())
    }

    /// The plan of a loudness normalization: the measuring pass, which may
    /// fail without consequence, then the pass that writes the output.
    pub fn normalize_audio(&self, input_path: &str, output_path: &str) -> (plan: Plan)
        ensures
            plan@ == normalize_plan(input_path@, output_path@),
    {
        let mut stages: Vec<Stage> = Vec::new();
        stages.push(Stage { command: measure_loudness_command(input_path), required: false });
        stages.push(Stage { command: normalize_command(input_path, output_path), required: true });
        let plan = Plan { stages };
        assert(plan@ =~= normalize_plan(input_path@, output_path@));
        plan
    }
}

/// A normalization always runs both passes, whatever came of the first, and
/// it ends as its second pass ends.
pub proof fn law_normalize_two_pass(
    input: Seq<char>,
    output: Seq<char>,
    first: Result<OutcomeModel, ErrorModel>,
    second: Result<OutcomeModel, ErrorModel>,
)
    ensures
        decision_of(normalize_plan(input, output), seq![]) == DecisionModel::Run(0),
        decision_of(normalize_plan(input, output), seq![first]) == DecisionModel::Run(1),
        decision_of(normalize_plan(input, output), seq![first, second]) == match second {
            Ok(_) => DecisionModel::Succeeded,
            Err(e) => DecisionModel::Failed(e),
        },
{
    reveal_with_fuel(crate::executor::first_fatal, 3);
}

/// A plan of one command runs it once and ends as it ends: its failure is the
/// failure of the operation.
pub proof fn law_single_stage(command: CommandModel, only: Result<OutcomeModel, ErrorModel>)
    ensures
        decision_of(single(command), seq![]) == DecisionModel::Run(0),
        decision_of(single(command), seq![only]) == match only {
            Ok(_) => DecisionModel::Succeeded,
            Err(e) => DecisionModel::Failed(e),
        },
{
    reveal_with_fuel(crate::executor::first_fatal, 2);
}

} // verus!
