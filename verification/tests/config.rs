use slave_recorder::config::{
    effective_log_dir, log_file_path, stream_dir, stream_names_unique, ContainerFormat,
    StoragePolicy, StreamSpec,
};

fn policy(log_dir: Option<String>) -> StoragePolicy {
    StoragePolicy {
        root_dir: "/srv/rec".to_string(),
        max_disk_bytes: 1000,
        segment_time_sec: 60,
        segment_target_bytes: None,
        keep_free_bytes: Some(5),
        format: ContainerFormat::Ts,
        log_dir,
    }
}

fn named(name: &str) -> StreamSpec {
    StreamSpec {
        name: name.to_string(),
        url: "rtsp://example/s".to_string(),
        headers: Vec::new(),
        bearer_token: None,
        transcode: None,
    }
}

#[test]
fn extension_strings() {
    assert_eq!(ContainerFormat::Ts.extension(), "ts");
    assert_eq!(ContainerFormat::Mp4.extension(), "mp4");
}

#[test]
fn log_dir_defaults_under_root() {
    assert_eq!(effective_log_dir(&policy(None)), "/srv/rec/logs");
}

#[test]
fn log_dir_explicit_wins() {
    assert_eq!(
        effective_log_dir(&policy(Some("/var/log/rec".to_string()))),
        "/var/log/rec"
    );
}

#[test]
fn stream_paths() {
    let pol = policy(None);
    assert_eq!(stream_dir(&pol, &"cam1".to_string()), "/srv/rec/cam1");
    let ld = effective_log_dir(&pol);
    assert_eq!(log_file_path(&ld, &"cam1".to_string()), "/srv/rec/logs/cam1.log");
}

#[test]
fn unique_names_accepted() {
    let streams = vec![named("a"), named("b"), named("c")];
    assert!(stream_names_unique(&streams));
}

#[test]
fn duplicate_names_rejected() {
    let streams = vec![named("a"), named("b"), named("a")];
    assert!(!stream_names_unique(&streams));
}

#[test]
fn empty_stream_set_is_unique() {
    let streams: Vec<StreamSpec> = Vec::new();
    assert!(stream_names_unique(&streams));
}
