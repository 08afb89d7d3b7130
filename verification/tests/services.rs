use transcode::command::{
    extract_audio_command, measure_loudness_command, normalize_command, probe_command,
};
use transcode::error::MediaError;
use transcode::executor::{decide, Decision, Plan, Stage};
use transcode::process::{classify, ProcessOutcome, ToolRun};
use transcode::services::{AudioService, FFmpegService, TranscodeService};

fn strings(items: &[&str]) -> Vec<String> {
    items.iter().map(|s| s.to_string()).collect()
}

#[test]
fn services_can_be_made() {
    assert_eq!(TranscodeService::new(), TranscodeService);
    assert_eq!(FFmpegService::new(), Ok(FFmpegService));
    assert_eq!(AudioService::new(), AudioService);
}

#[test]
fn audio_transcode_to_mp3_without_bitrate() {
    let plan = AudioService::new()
        .transcode_audio("in.wav", "out.mp3", "mp3", None, None, None)
        .unwrap();
    assert_eq!(plan.stages.len(), 1);
    assert!(plan.stages[0].required);
    assert_eq!(plan.stages[0].command.tool, "ffmpeg");
    assert_eq!(
        plan.stages[0].command.args,
        strings(&["-i", "in.wav", "-c:a", "libmp3lame", "-y", "out.mp3"])
    );
}

#[test]
fn audio_transcode_to_unknown_format_fails_before_any_run() {
    let result = AudioService::new().transcode_audio("in.wav", "out.xyz", "xyz", None, None, None);
    assert_eq!(result, Err(MediaError::UnsupportedFormat));
}

#[test]
fn audio_transcode_with_every_parameter() {
    let plan = AudioService::new()
        .transcode_audio("in.wav", "out.aac", "AAC", Some("128k"), Some(48000), Some(2))
        .unwrap();
    assert_eq!(
        plan.stages[0].command.args,
        strings(&[
            "-i", "in.wav", "-c:a", "aac", "-b:a", "128k", "-ar", "48000", "-ac", "2", "-y",
            "out.aac",
        ])
    );
}

#[test]
fn video_transcode() {
    let service = FFmpegService::new().unwrap();
    let plan = service.transcode_video("a.mov", "b.mp4", "libx265", "1500k").unwrap();
    assert_eq!(plan.stages.len(), 1);
    assert!(plan.stages[0].required);
    assert_eq!(
        plan.stages[0].command.args,
        strings(&["-i", "a.mov", "-c:v", "libx265", "-b:v", "1500k", "-y", "b.mp4"])
    );
    assert_eq!(
        service.transcode_video("a.mov", "b.mp4", "divx", "1500k"),
        Err(MediaError::UnsupportedFormat)
    );
}

#[test]
fn extraction_and_probe_plans() {
    let audio = AudioService::new();
    assert_eq!(
        audio.extract_audio_from_video("v.mp4", "a.aac"),
        Ok(Plan {
            stages: vec![Stage { command: extract_audio_command("v.mp4", "a.aac"), required: true }],
        })
    );
    assert_eq!(
        audio.analyze_audio("a.flac"),
        Ok(Plan { stages: vec![Stage { command: probe_command("a.flac"), required: true }] })
    );
}

#[test]
fn normalization_has_two_passes() {
    let plan = AudioService::new().normalize_audio("in.wav", "out.wav");
    assert_eq!(
        plan,
        Plan {
            stages: vec![
                Stage { command: measure_loudness_command("in.wav"), required: false },
                Stage { command: normalize_command("in.wav", "out.wav"), required: true },
            ],
        }
    );
}

#[test]
fn normalization_survives_a_failed_measurement() {
    let plan = AudioService::new().normalize_audio("in.wav", "out.wav");
    let broken = classify(ToolRun::Exited {
        code: Some(1),
        stdout: Vec::new(),
        stderr: "measure failed".to_string(),
    });
    let fine = classify(ToolRun::Exited { code: Some(0), stdout: Vec::new(), stderr: String::new() });
    let mut results = Vec::new();
    assert_eq!(decide(&plan, &results), Decision::Run(0));
    results.push(broken.clone());
    assert_eq!(decide(&plan, &results), Decision::Run(1));
    results.push(fine.clone());
    assert_eq!(decide(&plan, &results), Decision::Succeeded);

    let results = vec![fine, broken.clone()];
    assert_eq!(decide(&plan, &results), Decision::Failed(broken.unwrap_err()));
}

#[test]
fn analysis_reads_the_probe_output() {
    let audio = AudioService::new();
    let outcome = ProcessOutcome {
        success: true,
        stdout: br#"{"streams":[{"codec_type":"audio","codec_name":"opus","sample_rate":"48000","channels":2}],
                     "format":{"duration":"61.0","bit_rate":"96000"}}"#
            .to_vec(),
        stderr: String::new(),
    };
    let record = audio.read_analysis(&outcome).unwrap();
    assert_eq!(record.codec, "opus");
    assert_eq!(record.sample_rate, 48000);
    assert_eq!(record.channels, 2);
    assert_eq!(record.bitrate, 96000);
    assert_eq!(record.duration, Some("61.0".to_string()));
    let empty = ProcessOutcome { success: true, stdout: Vec::new(), stderr: String::new() };
    assert_eq!(audio.read_analysis(&empty), Err(MediaError::MalformedProbeOutput));
}
