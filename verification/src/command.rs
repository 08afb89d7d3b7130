//! The command builder: from a request to the ordered argument list of the
//! external media tool.
//!
//! The builder is pure. Arguments come in a fixed order: input path, codec,
//! bitrate, sample rate, channel count, overwrite flag, output path. An
//! optional parameter that is unset leaves no trace in the list.

use vstd::prelude::*;
use crate::error::{ErrorModel, MediaError};
use crate::text::{decimal, decimal_string, lowercase, lowercase_of, push_text, same_text, texts};

verus! {

/// The external tool to run and its arguments, in order.
#[derive(Clone, Debug, PartialEq, Eq)]
pub struct CommandSpec {
    pub tool: String,
    pub args: Vec<String>,
}

/// A command as plain text.
pub struct CommandModel {
    pub tool: Seq<char>,
    pub args: Seq<Seq<char>>,
}

impl View for CommandSpec {
    type V = CommandModel;

    open spec fn view(&self) -> CommandModel {
        CommandModel { tool: self.tool@, args: texts(self.args@) }
    }
}

/// The audio encoders that the builder knows.
#[derive(Clone, Copy, Debug, PartialEq, Eq, Structural)]
pub enum AudioCodec {
    Mp3Lame,
    Aac,
    Vorbis,
    Flac,
    PcmS16Le,
}

impl AudioCodec {
    /// The table from a lower-case format name to its encoder. A name that is
    /// not in the table has no encoder.
    pub open spec fn of(format: Seq<char>) -> Option<AudioCodec> {
        if format == "mp3"@ {
            Some(AudioCodec::Mp3Lame)
        } else if format == "aac"@ {
            Some(AudioCodec::Aac)
        } else if format == "ogg"@ {
            Some(AudioCodec::Vorbis)
        } else if format == "flac"@ {
            Some(AudioCodec::Flac)
        } else if format == "wav"@ {
            Some(AudioCodec::PcmS16Le)
        } else {
            None
        }
    }

    /// The name by which the tool knows the encoder.
    pub open spec fn encoder(self) -> Seq<char> {
        match self {
            AudioCodec::Mp3Lame => "libmp3lame"@,
            AudioCodec::Aac => "aac"@,
            AudioCodec::Vorbis => "libvorbis"@,
            AudioCodec::Flac => "flac"@,
            AudioCodec::PcmS16Le => "pcm_s16le"@,
        }
    }

    /// Looks a lower-case format name up in the table.
    pub fn lookup(format: &str) -> (codec: Option<AudioCodec>)
        ensures
            codec == AudioCodec::of(format@),
    {
        if same_text(format, "mp3") {
            Some(AudioCodec::Mp3Lame)
        } else if same_text(format, "aac") {
            Some(AudioCodec::Aac)
        } else if same_text(format, "ogg") {
            Some(AudioCodec::Vorbis)
        } else if same_text(format, "flac") {
            Some(AudioCodec::Flac)
        } else if same_text(format, "wav") {
            Some(AudioCodec::PcmS16Le)
        } else {
            None
        }
    }

    /// The encoder of a format name, whatever its case.
    pub fn for_format(format: &str) -> (codec: Option<AudioCodec>)
        ensures
            codec == AudioCodec::of(lowercase_of(format@)),
    {
        let lowered = lowercase(format);
        AudioCodec::lookup(lowered.as_str())
    }

    /// The name by which the tool knows the encoder.
    pub fn name(&self) -> (name: &'static str)
        ensures
            name@ == self.encoder(),
    {
        match self {
            AudioCodec::Mp3Lame => "libmp3lame",
            AudioCodec::Aac => "aac",
            AudioCodec::Vorbis => "libvorbis",
            AudioCodec::Flac => "flac",
            AudioCodec::PcmS16Le => "pcm_s16le",
        }
    }
}

/// The video encoders that the builder knows.
#[derive(Clone, Copy, Debug, PartialEq, Eq, Structural)]
pub enum VideoCodec {
    H264,
    H265,
    Vp8,
    Vp9,
    Av1,
    Mpeg4,
}

impl VideoCodec {
    /// The table of lower-case encoder names. A name that is not in the table
    /// is no encoder.
    pub open spec fn of(codec: Seq<char>) -> Option<VideoCodec> {
        if codec == "libx264"@ {
            Some(VideoCodec::H264)
        } else if codec == "libx265"@ {
            Some(VideoCodec::H265)
        } else if codec == "libvpx"@ {
            Some(VideoCodec::Vp8)
        } else if codec == "libvpx-vp9"@ {
            Some(VideoCodec::Vp9)
        } else if codec == "libaom-av1"@ {
            Some(VideoCodec::Av1)
        } else if codec == "mpeg4"@ {
            Some(VideoCodec::Mpeg4)
        } else {
            None
        }
    }

    /// The name by which the tool knows the encoder.
    pub open spec fn encoder(self) -> Seq<char> {
        match self {
            VideoCodec::H264 => "libx264"@,
            VideoCodec::H265 => "libx265"@,
            VideoCodec::Vp8 => "libvpx"@,
            VideoCodec::Vp9 => "libvpx-vp9"@,
            VideoCodec::Av1 => "libaom-av1"@,
            VideoCodec::Mpeg4 => "mpeg4"@,
        }
    }

    /// Looks a lower-case encoder name up in the table.
    pub fn lookup(codec: &str) -> (found: Option<VideoCodec>)
        ensures
            found == VideoCodec::of(codec@),
    {
        if same_text(codec, "libx264") {
            Some(VideoCodec::H264)
        } else if same_text(codec, "libx265") {
            Some(VideoCodec::H265)
        } else if same_text(codec, "libvpx") {
            Some(VideoCodec::Vp8)
        } else if same_text(codec, "libvpx-vp9") {
            Some(VideoCodec::Vp9)
        } else if same_text(codec, "libaom-av1") {
            Some(VideoCodec::Av1)
        } else if same_text(codec, "mpeg4") {
            Some(VideoCodec::Mpeg4)
        } else {
            None
        }
    }

    /// The encoder of a name, whatever its case.
    pub fn for_name(codec: &str) -> (found: Option<VideoCodec>)
        ensures
            found == VideoCodec::of(lowercase_of(codec@)),
    {
        let lowered = lowercase(codec);
        VideoCodec::lookup(lowered.as_str())
    }

    /// The name by which the tool knows the encoder.
    pub fn name(&self) -> (name: &'static str)
        ensures
            name@ == self.encoder(),
    {
        match self {
            VideoCodec::H264 => "libx264",
            VideoCodec::H265 => "libx265",
            VideoCodec::Vp8 => "libvpx",
            VideoCodec::Vp9 => "libvpx-vp9",
            VideoCodec::Av1 => "libaom-av1",
            VideoCodec::Mpeg4 => "mpeg4",
        }
    }
}

/// A flag followed by its value, or nothing where the value is unset.
pub open spec fn flag_with(flag: Seq<char>, value: Option<Seq<char>>) -> Seq<Seq<char>> {
    match value {
        Some(v) => seq![flag, v],
        None => seq![],
    }
}

/// The text of an optional string.
pub open spec fn optional_text(value: Option<String>) -> Option<Seq<char>> {
    match value {
        Some(v) => Some(v@),
        None => None,
    }
}

/// An optional number written in decimal.
pub open spec fn optional_decimal(value: Option<nat>) -> Option<Seq<char>> {
    match value {
        Some(n) => Some(decimal(n)),
        None => None,
    }
}

/// A 32-bit optional number as a natural number.
pub open spec fn wide32(value: Option<u32>) -> Option<nat> {
    match value {
        Some(n) => Some(n as nat),
        None => None,
    }
}

/// An 8-bit optional number as a natural number.
pub open spec fn wide8(value: Option<u8>) -> Option<nat> {
    match value {
        Some(n) => Some(n as nat),
        None => None,
    }
}

/// The arguments of an audio transcode.
pub open spec fn audio_transcode_args(
    input: Seq<char>,
    output: Seq<char>,
    codec: AudioCodec,
    bitrate: Option<Seq<char>>,
    sample_rate: Option<nat>,
    channels: Option<nat>,
) -> Seq<Seq<char>> {
    seq!["-i"@, input, "-c:a"@, codec.encoder()] + flag_with("-b:a"@, bitrate) + flag_with(
        "-ar"@,
        optional_decimal(sample_rate),
    ) + flag_with("-ac"@, optional_decimal(channels)) + seq!["-y"@, output]
}

/// The arguments of a video transcode.
pub open spec fn video_transcode_args(
    input: Seq<char>,
    output: Seq<char>,
    codec: VideoCodec,
    bitrate: Option<Seq<char>>,
) -> Seq<Seq<char>> {
    seq!["-i"@, input, "-c:v"@, codec.encoder()] + flag_with("-b:v"@, bitrate) + seq![
        "-y"@,
        output,
    ]
}

/// The arguments that copy the audio stream out of a video.
pub open spec fn extract_audio_args(input: Seq<char>, output: Seq<char>) -> Seq<Seq<char>> {
    seq!["-i"@, input, "-vn"@, "-acodec"@, "copy"@, "-y"@, output]
}

/// The arguments of the pass that measures loudness and writes nothing.
pub open spec fn measure_loudness_args(input: Seq<char>) -> Seq<Seq<char>> {
    seq![
        "-i"@,
        input,
        "-af"@,
        "loudnorm=I=-16:TP=-1.5:LRA=11:print_format=summary"@,
        "-f"@,
        "null"@,
        "-"@,
    ]
}

/// The arguments of the pass that applies the loudness filter.
pub open spec fn normalize_args(input: Seq<char>, output: Seq<char>) -> Seq<Seq<char>> {
    seq!["-i"@, input, "-af"@, "loudnorm=I=-16:TP=-1.5:LRA=11"@, "-y"@, output]
}

/// The arguments of a probe that prints format and streams as a document.
pub open spec fn probe_args(input: Seq<char>) -> Seq<Seq<char>> {
    seq![
        "-v"@,
        "quiet"@,
        "-print_format"@,
        "json"@,
        "-show_format"@,
        "-show_streams"@,
        input,
    ]
}

/// Appends `flag` and `value` where the value is set.
fn push_flag(args: &mut Vec<String>, flag: &str, value: &Option<String>)
    ensures
        texts(final(args)@) == texts(old(args)@) + flag_with(flag@, optional_text(*value)),
{
    match value {
        Some(v) => {
            push_text(args, flag);
            push_text(args, v.as_str());
            assert(texts(args@) =~= texts(old(args)@) + seq![flag@, v@]);
        },
        None => {
            assert(texts(args@) =~= texts(old(args)@) + Seq::<Seq<char>>::empty());
        },
    }
}

/// The decimal text of an optional number.
fn number_text(value: Option<u64>) -> (text: Option<String>)
    ensures
        optional_text(text) == optional_decimal(
            match value {
                Some(n) => Some(n as nat),
                None => None,
            },
        ),
{
    match value {
        Some(n) => Some(decimal_string(n)),
        None => None,
    }
}

/// The command of an audio transcode with a known encoder.
pub fn audio_transcode_command(
    input: &str,
    output: &str,
    codec: AudioCodec,
    bitrate: &Option<String>,
    sample_rate: Option<u32>,
    channels: Option<u8>,
) -> (command: CommandSpec)
    ensures
        command@ == (CommandModel {
            tool: "ffmpeg"@,
            args: audio_transcode_args(
                input@,
                output@,
                codec,
                optional_text(*bitrate),
                wide32(sample_rate),
                wide8(channels),
            ),
        }),
{
    let mut args: Vec<String> = Vec::new();
    push_text(&mut args, "-i");
    push_text(&mut args, input);
    push_text(&mut args, "-c:a");
    push_text(&mut args, codec.name());
    assert(texts(args@) =~= seq!["-i"@, input@, "-c:a"@, codec.encoder()]);
    push_flag(&mut args, "-b:a", bitrate);
    let rate = number_text(
        match sample_rate {
            Some(n) => Some(n as u64),
            None => None,
        },
    );
    push_flag(&mut args, "-ar", &rate);
    let count = number_text(
        match channels {
            Some(n) => Some(n as u64),
            None => None,
        },
    );
    push_flag(&mut args, "-ac", &count);
    let ghost before = texts(args@);
    push_text(&mut args, "-y");
    push_text(&mut args, output);
    assert(texts(args@) =~= before + seq!["-y"@, output@]);
    CommandSpec { tool: "ffmpeg".to_owned(), args }
}

/// The command of a video transcode with a known encoder.
pub fn video_transcode_command(
    input: &str,
    output: &str,
    codec: VideoCodec,
    bitrate: &Option<String>,
) -> (command: CommandSpec)
    ensures
        command@ == (CommandModel {
            tool: "ffmpeg"@,
            args: video_transcode_args(input@, output@, codec, optional_text(*bitrate)),
        }),
{
    let mut args: Vec<String> = Vec::new();
    push_text(&mut args, "-i");
    push_text(&mut args, input);
    push_text(&mut args, "-c:v");
    push_text(&mut args, codec.name());
    assert(texts(args@) =~= seq!["-i"@, input@, "-c:v"@, codec.encoder()]);
    push_flag(&mut args, "-b:v", bitrate);
    let ghost before = texts(args@);
    push_text(&mut args, "-y");
    push_text(&mut args, output);
    assert(texts(args@) =~= before + seq!["-y"@, output@]);
    CommandSpec { tool: "ffmpeg".to_owned(), args }
}

/// The command with fixed arguments around one or two paths.
fn fixed_command(tool: &str, args: Vec<String>) -> (command: CommandSpec)
    ensures
        command@ == (CommandModel { tool: tool@, args: texts(args@) }),
{
    CommandSpec { tool: tool.to_owned(), args }
}

/// The command that copies the audio stream out of a video.
pub fn extract_audio_command(input: &str, output: &str) -> (command: CommandSpec)
    ensures
        command@ == (CommandModel { tool: "ffmpeg"@, args: extract_audio_args(input@, output@) }),
{
    let mut args: Vec<String> = Vec::new();
    push_text(&mut args, "-i");
    push_text(&mut args, input);
    push_text(&mut args, "-vn");
    push_text(&mut args, "-acodec");
    push_text(&mut args, "copy");
    push_text(&mut args, "-y");
    push_text(&mut args, output);
    assert(texts(args@) =~= extract_audio_args(input@, output@));
    fixed_command("ffmpeg", args)
}

/// The command of the pass that measures loudness and writes nothing.
pub fn measure_loudness_command(input: &str) -> (command: CommandSpec)
    ensures
        command@ == (CommandModel { tool: "ffmpeg"@, args: measure_loudness_args(input@) }),
{
    let mut args: Vec<String> = Vec::new();
    push_text(&mut args, "-i");
    push_text(&mut args, input);
    push_text(&mut args, "-af");
    push_text(&mut args, "loudnorm=I=-16:TP=-1.5:LRA=11:print_format=summary");
    push_text(&mut args, "-f");
    push_text(&mut args, "null");
    push_text(&mut args, "-");
    assert(texts(args@) =~= measure_loudness_args(input@));
    fixed_command("ffmpeg", args)
}

/// The command of the pass that applies the loudness filter.
pub fn normalize_command(input: &str, output: &str) -> (command: CommandSpec)
    ensures
        command@ == (CommandModel { tool: "ffmpeg"@, args: normalize_args(input@, output@) }),
{
    let mut args: Vec<String> = Vec::new();
    push_text(&mut args, "-i");
    push_text(&mut args, input);
    push_text(&mut args, "-af");
    push_text(&mut args, "loudnorm=I=-16:TP=-1.5:LRA=11");
    push_text(&mut args, "-y");
    push_text(&mut args, output);
    assert(texts(args@) =~= normalize_args(input@, output@));
    fixed_command("ffmpeg", args)
}

/// The command of a probe that prints format and streams as a document.
pub fn probe_command(input: &str) -> (command: CommandSpec)
    ensures
        command@ == (CommandModel { tool: "ffprobe"@, args: probe_args(input@) }),
{
    let mut args: Vec<String> = Vec::new();
    push_text(&mut args, "-v");
    push_text(&mut args, "quiet");
    push_text(&mut args, "-print_format");
    push_text(&mut args, "json");
    push_text(&mut args, "-show_format");
    push_text(&mut args, "-show_streams");
    push_text(&mut args, input);
    assert(texts(args@) =~= probe_args(input@));
    fixed_command("ffprobe", args)
}

/// One invocation of the external tool, asked for by its purpose.
#[derive(Clone, Debug, PartialEq, Eq)]
pub enum ToolRequest {
    /// Re-encode audio to the encoder of `format`.
    TranscodeAudio {
        input: String,
        output: String,
        format: String,
        bitrate: Option<String>,
        sample_rate: Option<u32>,
        channels: Option<u8>,
    },
    /// Re-encode video with the encoder named `codec`.
    TranscodeVideo { input: String, output: String, codec: String, bitrate: Option<String> },
    /// Copy the audio stream out of a video.
    ExtractAudio { input: String, output: String },
    /// Measure loudness; nothing is written.
    MeasureLoudness { input: String },
    /// Apply the loudness filter.
    NormalizeAudio { input: String, output: String },
    /// Print container and stream metadata as a document.
    ProbeAudio { input: String },
}

/// A tool request as plain text and numbers.
pub enum ToolRequestModel {
    TranscodeAudio {
        input: Seq<char>,
        output: Seq<char>,
        format: Seq<char>,
        bitrate: Option<Seq<char>>,
        sample_rate: Option<nat>,
        channels: Option<nat>,
    },
    TranscodeVideo {
        input: Seq<char>,
        output: Seq<char>,
        codec: Seq<char>,
        bitrate: Option<Seq<char>>,
    },
    ExtractAudio { input: Seq<char>, output: Seq<char> },
    MeasureLoudness { input: Seq<char> },
    NormalizeAudio { input: Seq<char>, output: Seq<char> },
    ProbeAudio { input: Seq<char> },
}

impl View for ToolRequest {
    type V = ToolRequestModel;

    open spec fn view(&self) -> ToolRequestModel {
        match *self {
            ToolRequest::TranscodeAudio { input, output, format, bitrate, sample_rate, channels } => {
                ToolRequestModel::TranscodeAudio {
                    input: input@,
                    output: output@,
                    format: format@,
                    bitrate: optional_text(bitrate),
                    sample_rate: wide32(sample_rate),
                    channels: wide8(channels),
                }
            },
            ToolRequest::TranscodeVideo { input, output, codec, bitrate } => {
                ToolRequestModel::TranscodeVideo {
                    input: input@,
                    output: output@,
                    codec: codec@,
                    bitrate: optional_text(bitrate),
                }
            },
            ToolRequest::ExtractAudio { input, output } => ToolRequestModel::ExtractAudio {
                input: input@,
                output: output@,
            },
            ToolRequest::MeasureLoudness { input } => ToolRequestModel::MeasureLoudness {
                input: input@,
            },
            ToolRequest::NormalizeAudio { input, output } => ToolRequestModel::NormalizeAudio {
                input: input@,
                output: output@,
            },
            ToolRequest::ProbeAudio { input } => ToolRequestModel::ProbeAudio { input: input@ },
        }
    }
}

/// The command that a request stands for, or `UnsupportedFormat` where its
/// format or codec, in lower case, is in no table.
pub open spec fn command_of(request: ToolRequestModel) -> Result<CommandModel, ErrorModel> {
    match request {
        ToolRequestModel::TranscodeAudio { input, output, format, bitrate, sample_rate, channels } => {
            match AudioCodec::of(lowercase_of(format)) {
                Some(codec) => Ok(
                    CommandModel {
                        tool: "ffmpeg"@,
                        args: audio_transcode_args(
                            input,
                            output,
                            codec,
                            bitrate,
                            sample_rate,
                            channels,
                        ),
                    },
                ),
                None => Err(ErrorModel::UnsupportedFormat),
            }
        },
        ToolRequestModel::TranscodeVideo { input, output, codec, bitrate } => {
            match VideoCodec::of(lowercase_of(codec)) {
                Some(found) => Ok(
                    CommandModel {
                        tool: "ffmpeg"@,
                        args: video_transcode_args(input, output, found, bitrate),
                    },
                ),
                None => Err(ErrorModel::UnsupportedFormat),
            }
        },
        ToolRequestModel::ExtractAudio { input, output } => Ok(
            CommandModel { tool: "ffmpeg"@, args: extract_audio_args(input, output) },
        ),
        ToolRequestModel::MeasureLoudness { input } => Ok(
            CommandModel { tool: "ffmpeg"@, args: measure_loudness_args(input) },
        ),
        ToolRequestModel::NormalizeAudio { input, output } => Ok(
            CommandModel { tool: "ffmpeg"@, args: normalize_args(input, output) },
        ),
        ToolRequestModel::ProbeAudio { input } => Ok(
            CommandModel { tool: "ffprobe"@, args: probe_args(input) },
        ),
    }
}

/// Whether a result of the builder is the expected one: the same command as
/// text, or the same error.
pub open spec fn builds(
    result: Result<CommandSpec, MediaError>,
    expected: Result<CommandModel, ErrorModel>,
) -> bool {
    match expected {
        Ok(model) => result matches Ok(command) && command@ == model,
        Err(error) => result matches Err(e) && e@ == error,
    }
}

/// Builds the command of a request.
///
/// Fails with `UnsupportedFormat` exactly when the request is a transcode
/// whose format or codec is in no table; no default stands in for it.
pub fn build(request: &ToolRequest) -> (result: Result<CommandSpec, MediaError>)
    ensures
        builds(result, command_of(request@)),
{
    match request {
        ToolRequest::TranscodeAudio { input, output, format, bitrate, sample_rate, channels } => {
            match AudioCodec::for_format(format.as_str()) {
                Some(codec) => Ok(
                    audio_transcode_command(
                        input.as_str(),
                        output.as_str(),
                        codec,
                        bitrate,
                        *sample_rate,
                        *channels,
                    ),
                ),
                None => Err(MediaError::UnsupportedFormat),
            }
        },
        ToolRequest::TranscodeVideo { input, output, codec, bitrate } => {
            match VideoCodec::for_name(codec.as_str()) {
                Some(found) => Ok(
                    video_transcode_command(input.as_str(), output.as_str(), found, bitrate),
                ),
                None => Err(MediaError::UnsupportedFormat),
            }
        },
        ToolRequest::ExtractAudio { input, output } => Ok(
            extract_audio_command(input.as_str(), output.as_str()),
        ),
        ToolRequest::MeasureLoudness { input } => Ok(measure_loudness_command(input.as_str())),
        ToolRequest::NormalizeAudio { input, output } => Ok(
            normalize_command(input.as_str(), output.as_str()),
        ),
        ToolRequest::ProbeAudio { input } => Ok(probe_command(input.as_str())),
    }
}

/// The builder is deterministic: two results of `build` on requests that are
/// the same as text are the same command, argument by argument, or the same
/// error.
pub proof fn law_build_deterministic(
    first: ToolRequest,
    second: ToolRequest,
    a: Result<CommandSpec, MediaError>,
    b: Result<CommandSpec, MediaError>,
)
    requires
        first@ == second@,
        builds(a, command_of(first@)),
        builds(b, command_of(second@)),
    ensures
        a is Ok <==> b is Ok,
        a is Ok ==> a->Ok_0@ == b->Ok_0@,
        a is Err ==> a->Err_0@ == b->Err_0@,
{
}

/// A transcode whose format or codec is in no table is rejected with
/// `UnsupportedFormat`, and one that is accepted names the encoder of its
/// own table entry as the fourth argument: no default is substituted.
pub proof fn law_unknown_codec_rejected(request: ToolRequestModel)
    ensures
        request matches ToolRequestModel::TranscodeAudio { format, .. } ==> match AudioCodec::of(
            lowercase_of(format),
        ) {
            Some(codec) => command_of(request) is Ok && command_of(request)->Ok_0.args[3]
                == codec.encoder(),
            None => command_of(request) == Err::<CommandModel, ErrorModel>(
                ErrorModel::UnsupportedFormat,
            ),
        },
        request matches ToolRequestModel::TranscodeVideo { codec, .. } ==> match VideoCodec::of(
            lowercase_of(codec),
        ) {
            Some(found) => command_of(request) is Ok && command_of(request)->Ok_0.args[3]
                == found.encoder(),
            None => command_of(request) == Err::<CommandModel, ErrorModel>(
                ErrorModel::UnsupportedFormat,
            ),
        },
        !(request is TranscodeAudio || request is TranscodeVideo) ==> command_of(request) is Ok,
{
}

/// An optional parameter that is unset contributes no argument: with nothing
/// set, an audio transcode has exactly six arguments, in the order input,
/// codec, overwrite flag, output.
pub proof fn law_unset_parameters_omitted(input: Seq<char>, output: Seq<char>, codec: AudioCodec)
    ensures
        audio_transcode_args(input, output, codec, None, None, None) == seq![
            "-i"@,
            input,
            "-c:a"@,
            codec.encoder(),
            "-y"@,
            output,
        ],
{
    assert(audio_transcode_args(input, output, codec, None, None, None) =~= seq![
        "-i"@,
        input,
        "-c:a"@,
        codec.encoder(),
        "-y"@,
        output,
    ]);
}

} // verus!
