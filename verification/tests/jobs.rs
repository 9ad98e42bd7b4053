use riffra::jobs::JobRegistry;
use serde_json::Value;

fn output_path() -> Value {
    let mut object = serde_json::Map::new();
    object.insert("path".to_string(), Value::String("output.wav".to_string()));
    Value::Object(object)
}

#[test]
fn cancellation_prevents_completion_from_promoting_a_result() {
    let mut registry: JobRegistry<Value> = JobRegistry::default();
    let (id, status) = registry.start("render");
    assert_eq!(status.state, "queued");
    registry.set_running(&id, "running".to_string());
    registry.cancel(&id).expect("job should exist");
    registry.complete(&id, output_path(), "done".to_string());
    let status = registry.status(&id).unwrap();
    assert_eq!(status.state, "cancelled");
    assert!(status.result.is_none());
}

#[test]
fn started_jobs_get_sequential_ids_and_a_queued_message() {
    let mut registry: JobRegistry<Value> = JobRegistry::default();
    let (first, status) = registry.start("render");
    let (second, _) = registry.start("analysis");
    assert_eq!(first, "job:render:0");
    assert_eq!(second, "job:analysis:1");
    assert_eq!(status.message, "render job queued.");
    assert!(!status.progress_complete);
    assert!(status.result.is_none());
}

#[test]
fn completion_promotes_the_result_and_fills_progress() {
    let mut registry: JobRegistry<Value> = JobRegistry::default();
    let (id, _) = registry.start("render");
    registry.set_running(&id, "Rendering".to_string());
    assert_eq!(registry.status(&id).unwrap().state, "running");
    registry.complete(&id, output_path(), "Rendered".to_string());
    let status = registry.status(&id).unwrap();
    assert_eq!(status.state, "completed");
    assert_eq!(status.message, "Rendered");
    assert!(status.progress_complete);
    assert_eq!(status.result, Some(output_path()));
}

#[test]
fn failure_of_a_cancelled_job_reports_cancellation() {
    let mut registry: JobRegistry<Value> = JobRegistry::default();
    let (id, _) = registry.start("separation");
    let cancelling = registry.cancel(&id).unwrap();
    assert_eq!(cancelling.state, "cancelling");
    assert_eq!(
        cancelling.message,
        "Cancellation requested; the worker is finishing its current block."
    );
    assert!(registry.is_cancelled(&id));
    registry.fail(&id, "Decoder failed".to_string());
    let status = registry.status(&id).unwrap();
    assert_eq!(status.state, "cancelled");
    assert_eq!(status.message, "Job cancelled; no partial result was promoted.");
}

#[test]
fn finished_jobs_cannot_be_cancelled_and_unknown_ids_are_absent() {
    let mut registry: JobRegistry<Value> = JobRegistry::default();
    let (id, _) = registry.start("scan");
    registry.fail(&id, "Scanner crashed".to_string());
    let status = registry.cancel(&id).unwrap();
    assert_eq!(status.state, "failed");
    assert_eq!(status.message, "Scanner crashed");
    assert!(!registry.is_cancelled(&id));
    assert!(registry.cancel("job:scan:99").is_none());
    assert!(registry.status("job:scan:99").is_none());
    assert!(!registry.is_cancelled("job:scan:99"));
}

#[test]
fn marking_cancelled_drops_any_result() {
    let mut registry: JobRegistry<Value> = JobRegistry::default();
    let (id, _) = registry.start("render");
    registry.complete(&id, output_path(), "Rendered".to_string());
    registry.mark_cancelled(&id);
    let status = registry.status(&id).unwrap();
    assert_eq!(status.state, "cancelled");
    assert!(status.result.is_none());
}
