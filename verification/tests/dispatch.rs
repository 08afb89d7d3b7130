use transcode::command::{extract_audio_command, probe_command};
use transcode::dispatch::{perform, route, route_job, ImageTask, ResizeTo, Work};
use transcode::error::MediaError;
use transcode::executor::{Plan, Stage};
use transcode::geometry::FitMode;
use transcode::job::{JobId, JobParams, Operation, Orchestrator};
use transcode::raster::{decode, encode, ImageFormat, Raster};
use transcode::services::AudioService;

fn params() -> JobParams {
    JobParams {
        format: None,
        codec: None,
        bitrate: None,
        sample_rate: None,
        channels: None,
        width: None,
        height: None,
        fit_mode: None,
        quality: None,
    }
}

fn png(width: u32, height: u32) -> Vec<u8> {
    let mut pixels = Vec::new();
    for y in 0..height {
        for x in 0..width {
            pixels.extend_from_slice(&[x as u8, y as u8, 9, 255]);
        }
    }
    let raster = Raster::from_rgba(width, height, pixels).unwrap();
    encode(&raster, ImageFormat::Png, 85).unwrap()
}

#[test]
fn audio_transcode_is_routed_to_the_tool() {
    let request = JobParams { format: Some("mp3".to_string()), ..params() };
    let work = route(Operation::TranscodeAudio, "in.wav", "out.mp3", &request).unwrap();
    let expected = AudioService::new()
        .transcode_audio("in.wav", "out.mp3", "mp3", None, None, None)
        .unwrap();
    assert_eq!(work, Work::Tool(expected));
}

#[test]
fn audio_transcode_needs_a_known_format() {
    assert_eq!(
        route(Operation::TranscodeAudio, "in.wav", "out", &params()),
        Err(MediaError::UnsupportedFormat)
    );
    let request = JobParams { format: Some("xyz".to_string()), ..params() };
    assert_eq!(
        route(Operation::TranscodeAudio, "in.wav", "out", &request),
        Err(MediaError::UnsupportedFormat)
    );
}

#[test]
fn video_transcode_routes_with_optional_bitrate() {
    let request = JobParams { codec: Some("libx264".to_string()), ..params() };
    match route(Operation::TranscodeVideo, "a.mov", "b.mp4", &request).unwrap() {
        Work::Tool(plan) => {
            assert_eq!(plan.stages.len(), 1);
            assert_eq!(
                plan.stages[0].command.args,
                vec!["-i", "a.mov", "-c:v", "libx264", "-y", "b.mp4"]
            );
        }
        Work::Image(_) => panic!("video is no image work"),
    }
    let request = JobParams {
        codec: Some("mpeg4".to_string()),
        bitrate: Some("900k".to_string()),
        ..params()
    };
    match route(Operation::TranscodeVideo, "a.mov", "b.avi", &request).unwrap() {
        Work::Tool(plan) => assert_eq!(
            plan.stages[0].command.args,
            vec!["-i", "a.mov", "-c:v", "mpeg4", "-b:v", "900k", "-y", "b.avi"]
        ),
        Work::Image(_) => panic!("video is no image work"),
    }
    assert_eq!(
        route(Operation::TranscodeVideo, "a.mov", "b.mp4", &params()),
        Err(MediaError::UnsupportedFormat)
    );
}

#[test]
fn fixed_audio_operations() {
    assert_eq!(
        route(Operation::ExtractAudio, "v.mp4", "a.aac", &params()),
        Ok(Work::Tool(Plan {
            stages: vec![Stage { command: extract_audio_command("v.mp4", "a.aac"), required: true }],
        }))
    );
    assert_eq!(
        route(Operation::ProbeAudio, "a.flac", "", &params()),
        Ok(Work::Tool(Plan {
            stages: vec![Stage { command: probe_command("a.flac"), required: true }],
        }))
    );
    assert_eq!(
        route(Operation::NormalizeAudio, "in.wav", "out.wav", &params()),
        Ok(Work::Tool(AudioService::new().normalize_audio("in.wav", "out.wav")))
    );
}

#[test]
fn image_operations_and_their_defaults() {
    assert_eq!(
        route(Operation::TranscodeImage, "a.png", "a.jpg", &params()),
        Ok(Work::Image(ImageTask { resize: None, format: ImageFormat::Jpeg, quality: 85 }))
    );
    let request = JobParams {
        format: Some("PNG".to_string()),
        quality: Some(30),
        width: Some(400),
        height: Some(300),
        ..params()
    };
    assert_eq!(
        route(Operation::Resize, "a.png", "b.png", &request),
        Ok(Work::Image(ImageTask {
            resize: Some(ResizeTo { width: 400, height: 300, mode: FitMode::Stretch }),
            format: ImageFormat::Png,
            quality: 30,
        }))
    );
    let request = JobParams { fit_mode: Some("crop".to_string()), ..request };
    assert_eq!(
        route(Operation::Resize, "a.png", "b.png", &request),
        Ok(Work::Image(ImageTask {
            resize: Some(ResizeTo { width: 400, height: 300, mode: FitMode::Crop }),
            format: ImageFormat::Png,
            quality: 30,
        }))
    );
    assert_eq!(
        route(Operation::Thumbnail, "a.png", "t.png", &request),
        Ok(Work::Image(ImageTask {
            resize: Some(ResizeTo { width: 400, height: 400, mode: FitMode::Stretch }),
            format: ImageFormat::Png,
            quality: 30,
        }))
    );
}

#[test]
fn resize_needs_both_sides() {
    let only_width = JobParams { width: Some(10), ..params() };
    let only_height = JobParams { height: Some(10), ..params() };
    assert_eq!(
        route(Operation::Resize, "a", "b", &only_width),
        Err(MediaError::InvalidDimensions)
    );
    assert_eq!(
        route(Operation::Resize, "a", "b", &only_height),
        Err(MediaError::InvalidDimensions)
    );
    assert_eq!(route(Operation::Resize, "a", "b", &params()), Err(MediaError::InvalidDimensions));
    assert_eq!(
        route(Operation::Thumbnail, "a", "b", &only_height),
        Err(MediaError::InvalidDimensions)
    );
}

#[test]
fn a_job_is_routed_by_its_record() {
    let mut store = Orchestrator::new();
    let request = JobParams { format: Some("flac".to_string()), ..params() };
    let id = store.submit(
        Operation::TranscodeAudio,
        "in.wav".to_string(),
        "out.flac".to_string(),
        request.clone(),
    );
    let job = store.job(id).unwrap();
    assert_eq!(job.id, id);
    assert_eq!(job.created_at, job.updated_at);
    assert!(job.created_at > 0);
    assert_eq!(
        route_job(job),
        route(Operation::TranscodeAudio, "in.wav", "out.flac", &request)
    );
    assert!(store.job(JobId(id.0 ^ 1)).is_none());
}

#[test]
fn image_task_fits_80x60_into_40x40() {
    let task = ImageTask {
        resize: Some(ResizeTo { width: 40, height: 40, mode: FitMode::Fit }),
        format: ImageFormat::Png,
        quality: 85,
    };
    let file = perform(&task, &png(80, 60)).unwrap();
    let result = decode(&file).unwrap();
    assert_eq!((result.width(), result.height()), (40, 30));
}

#[test]
fn image_task_crops_80x60_to_40x40() {
    let task = ImageTask {
        resize: Some(ResizeTo { width: 40, height: 40, mode: FitMode::Crop }),
        format: ImageFormat::Bmp,
        quality: 85,
    };
    let file = perform(&task, &png(80, 60)).unwrap();
    let result = decode(&file).unwrap();
    assert_eq!((result.width(), result.height()), (40, 40));
}

#[test]
fn image_task_failures() {
    let plain = ImageTask { resize: None, format: ImageFormat::Png, quality: 85 };
    assert_eq!(perform(&plain, b"no image"), Err(MediaError::DecodeError));
    let source = png(8, 6);
    assert_eq!(perform(&plain, &source), Ok(source.clone()).and_then(|s| {
        let raster = decode(&s).unwrap();
        encode(&raster, ImageFormat::Png, 85)
    }));
    let zero = ImageTask {
        resize: Some(ResizeTo { width: 0, height: 4, mode: FitMode::Fit }),
        ..plain
    };
    assert_eq!(perform(&zero, &source), Err(MediaError::InvalidDimensions));
    let huge = ImageTask {
        resize: Some(ResizeTo { width: u32::MAX, height: u32::MAX, mode: FitMode::Stretch }),
        ..plain
    };
    assert_eq!(perform(&huge, &source), Err(MediaError::EncodeError));
    let sliver = ImageTask {
        resize: Some(ResizeTo { width: 2, height: 2, mode: FitMode::Fit }),
        ..plain
    };
    let kept = decode(&perform(&sliver, &png(100, 1)).unwrap()).unwrap();
    assert_eq!((kept.width(), kept.height()), (2, 1));
}
