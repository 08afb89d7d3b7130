use transcode::error::MediaError;
use transcode::job::{
    ExecutorKind, JobId, JobParams, JobStatus, JobView, Operation, Orchestrator,
};

fn no_params() -> JobParams {
    JobParams {
        format: None,
        codec: None,
        bitrate: None,
        sample_rate: None,
        channels: None,
        width: None,
        height: None,
        fit_mode: None,
        quality: None,
    }
}

fn submit(store: &mut Orchestrator, operation: Operation) -> JobId {
    store.submit(operation, "in".to_string(), "out".to_string(), no_params())
}

#[test]
fn submit_returns_a_pending_job() {
    let mut store = Orchestrator::new();
    let id = submit(&mut store, Operation::Resize);
    assert_eq!(
        store.get_status(id),
        Ok(JobView {
            id,
            status: JobStatus::Pending,
            progress: 0,
            output_path: None,
            error_message: None,
        })
    );
}

#[test]
fn unknown_job_is_not_found() {
    let mut store = Orchestrator::new();
    assert_eq!(store.get_status(JobId(7)), Err(MediaError::JobNotFound));
    let id = submit(&mut store, Operation::ProbeAudio);
    assert_eq!(store.get_status(JobId(id.0 ^ 1)), Err(MediaError::JobNotFound));
    assert_eq!(store.dispatch(JobId(id.0 ^ 1)), Err(MediaError::JobNotFound));
    assert_eq!(store.complete(JobId(id.0 ^ 1), Ok(())), Err(MediaError::JobNotFound));
    assert_eq!(store.get_status(id).unwrap().status, JobStatus::Pending);
}

#[test]
fn successful_lifecycle() {
    let mut store = Orchestrator::new();
    let id = submit(&mut store, Operation::TranscodeAudio);
    assert_eq!(store.dispatch_at(id, 10), Ok(true));
    let view = store.get_status(id).unwrap();
    assert_eq!((view.status, view.progress), (JobStatus::Processing, 0));
    assert_eq!(view.output_path, None);
    assert_eq!(store.complete_at(id, Ok(()), 20), Ok(true));
    assert_eq!(
        store.get_status(id),
        Ok(JobView {
            id,
            status: JobStatus::Completed,
            progress: 100,
            output_path: Some("out".to_string()),
            error_message: None,
        })
    );
}

#[test]
fn failed_lifecycle_records_the_message() {
    let mut store = Orchestrator::new();
    let id = submit(&mut store, Operation::TranscodeVideo);
    assert_eq!(store.dispatch(id), Ok(true));
    let error = MediaError::ToolExecutionFailed {
        exit_code: Some(1),
        stderr: "Unknown encoder".to_string(),
    };
    assert_eq!(store.complete(id, Err(error)), Ok(true));
    assert_eq!(
        store.get_status(id),
        Ok(JobView {
            id,
            status: JobStatus::Failed,
            progress: 100,
            output_path: None,
            error_message: Some("external tool failed: Unknown encoder".to_string()),
        })
    );
}

#[test]
fn nothing_moves_backward_or_skips() {
    let mut store = Orchestrator::new();
    let id = submit(&mut store, Operation::Thumbnail);
    assert_eq!(store.complete_at(id, Ok(()), 1), Ok(false));
    assert_eq!(store.get_status(id).unwrap().status, JobStatus::Pending);
    assert_eq!(store.dispatch_at(id, 2), Ok(true));
    assert_eq!(store.dispatch_at(id, 3), Ok(false));
    assert_eq!(store.get_status(id).unwrap().status, JobStatus::Processing);
    assert_eq!(store.complete_at(id, Err(MediaError::DecodeError), 4), Ok(true));
    let ended = store.get_status(id).unwrap();
    assert_eq!(ended.status, JobStatus::Failed);
    assert_eq!(store.dispatch_at(id, 5), Ok(false));
    assert_eq!(store.complete_at(id, Ok(()), 6), Ok(false));
    assert_eq!(store.get_status(id), Ok(ended));
}

#[test]
fn jobs_do_not_touch_each_other() {
    let mut store = Orchestrator::new();
    let a = submit(&mut store, Operation::Resize);
    let b = submit(&mut store, Operation::ExtractAudio);
    assert_ne!(a, b);
    assert_eq!(store.dispatch(a), Ok(true));
    assert_eq!(store.complete(a, Ok(())), Ok(true));
    assert_eq!(store.get_status(b).unwrap().status, JobStatus::Pending);
    assert_eq!(store.get_status(a).unwrap().status, JobStatus::Completed);
}

#[test]
fn enrolling_under_a_given_identifier() {
    let mut store = Orchestrator::new();
    let wanted = JobId(0x550e8400_e29b_41d4_a716_446655440000);
    let id = store.enroll(wanted, 5, Operation::Resize, "a".to_string(), "b".to_string(), no_params());
    assert_eq!(id, wanted);
    assert_eq!(store.dispatch_at(id, 6), Ok(true));
    let again = store.enroll(wanted, 7, Operation::Resize, "c".to_string(), "d".to_string(), no_params());
    assert_eq!(again, JobId(0));
    assert_eq!(store.get_status(wanted).unwrap().status, JobStatus::Processing);
    assert_eq!(store.get_status(again).unwrap().status, JobStatus::Pending);
    let third = store.enroll(JobId(0), 8, Operation::Resize, "e".to_string(), "f".to_string(), no_params());
    assert_eq!(third, JobId(1));
    let fourth = store.enroll(JobId(1), 9, Operation::Resize, "g".to_string(), "h".to_string(), no_params());
    assert_eq!(fourth, JobId(2));
}

#[test]
fn status_by_written_identifier() {
    let mut store = Orchestrator::new();
    let wanted = JobId(0x550e8400_e29b_41d4_a716_446655440000);
    store.enroll(wanted, 5, Operation::Resize, "a".to_string(), "b".to_string(), no_params());
    let view = store.find_status("550e8400-e29b-41d4-a716-446655440000").unwrap();
    assert_eq!(view.id, wanted);
    assert_eq!(view.status, JobStatus::Pending);
    assert_eq!(
        store.find_status("550e8400e29b41d4a716446655440000").map(|v| v.id),
        Ok(wanted)
    );
    assert_eq!(
        store.find_status("550e8400-e29b-41d4-a716-446655440001"),
        Err(MediaError::JobNotFound)
    );
    assert_eq!(store.find_status("not-an-identifier"), Err(MediaError::JobNotFound));
    assert_eq!(store.find_status(""), Err(MediaError::JobNotFound));
}

#[test]
fn reading_identifiers() {
    assert_eq!(
        JobId::parse("00000000-0000-0000-0000-000000000001"),
        Some(JobId(1))
    );
    assert_eq!(
        JobId::parse("ffffffff-ffff-ffff-ffff-ffffffffffff"),
        Some(JobId(u128::MAX))
    );
    assert_eq!(JobId::parse("1"), None);
    assert_eq!(JobId::parse("zzzzzzzz-zzzz-zzzz-zzzz-zzzzzzzzzzzz"), None);
}

#[test]
fn fresh_identifiers_are_random_uuids() {
    let mut store = Orchestrator::new();
    for _ in 0..50 {
        let id = submit(&mut store, Operation::Resize);
        assert_eq!(id.0 & 0xF000_C000_0000_0000_0000, 0x4000_8000_0000_0000_0000);
    }
}

#[test]
fn executors_of_operations() {
    assert_eq!(Operation::TranscodeImage.executor(), ExecutorKind::Image);
    assert_eq!(Operation::Resize.executor(), ExecutorKind::Image);
    assert_eq!(Operation::Thumbnail.executor(), ExecutorKind::Image);
    assert_eq!(Operation::TranscodeVideo.executor(), ExecutorKind::Video);
    assert_eq!(Operation::TranscodeAudio.executor(), ExecutorKind::Audio);
    assert_eq!(Operation::ExtractAudio.executor(), ExecutorKind::Audio);
    assert_eq!(Operation::NormalizeAudio.executor(), ExecutorKind::Audio);
    assert_eq!(Operation::ProbeAudio.executor(), ExecutorKind::Audio);
}

#[test]
fn terminal_statuses() {
    assert!(!JobStatus::Pending.is_terminal());
    assert!(!JobStatus::Processing.is_terminal());
    assert!(JobStatus::Completed.is_terminal());
    assert!(JobStatus::Failed.is_terminal());
}

fn rank(status: JobStatus) -> u8 {
    match status {
        JobStatus::Pending => 0,
        JobStatus::Processing => 1,
        JobStatus::Completed | JobStatus::Failed => 2,
    }
}

#[test]
fn observed_statuses_never_go_backward() {
    let mut store = Orchestrator::new();
    let mut ids = Vec::new();
    let mut seen: Vec<JobStatus> = Vec::new();
    let mut seed: u64 = 0x2545_f491_4f6c_dd1d;
    for step in 0..2000i64 {
        seed ^= seed << 13;
        seed ^= seed >> 7;
        seed ^= seed << 17;
        let choice = seed % 4;
        if choice == 0 || ids.is_empty() {
            let id = submit(&mut store, Operation::Resize);
            assert_eq!(store.get_status(id).unwrap().status, JobStatus::Pending);
            ids.push(id);
            seen.push(JobStatus::Pending);
        } else {
            let at = ((seed >> 8) as usize) % ids.len();
            let id = ids[at];
            let moved = match choice {
                1 => store.dispatch_at(id, step),
                2 => store.complete_at(id, Ok(()), step),
                _ => store.complete_at(id, Err(MediaError::IOFailure), step),
            };
            assert!(moved.is_ok());
        }
        for (at, id) in ids.iter().enumerate() {
            let now = store.get_status(*id).unwrap();
            let before = seen[at];
            assert!(now.status == before || rank(now.status) == rank(before) + 1);
            assert_eq!(now.progress, if rank(now.status) == 2 { 100 } else { 0 });
            assert_eq!(now.error_message.is_some(), now.status == JobStatus::Failed);
            assert_eq!(now.output_path.is_some(), now.status == JobStatus::Completed);
            seen[at] = now.status;
        }
    }
}
