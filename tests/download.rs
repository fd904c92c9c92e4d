use casaos_installer::download::{failed_tasks, probe_size, DownloadError, DownloadTask};

/// Feeds `body` to the task in chunks of `step` bytes, appending each accepted
/// chunk to `file`, as the transfer loop does.
fn transfer(t: &mut DownloadTask, file: &mut Vec<u8>, body: &[u8], step: usize) {
    for chunk in body.chunks(step) {
        let chunk = chunk.to_vec();
        if t.accept_chunk(&chunk).is_ok() {
            file.extend_from_slice(&chunk);
        } else {
            break;
        }
    }
}

fn artifact(len: usize, seed: u8) -> Vec<u8> {
    (0..len).map(|i| (i as u8).wrapping_mul(31).wrapping_add(seed)).collect()
}

#[test]
fn three_fresh_artifacts_arrive_whole() {
    let sizes = [100usize, 200, 300];
    let mut tasks = Vec::new();
    let mut files = Vec::new();
    for (k, size) in sizes.iter().enumerate() {
        let url = format!("https://example.org/pkg/artifact-{}.tar.gz", k);
        let mut t = DownloadTask::new(&url, None, Some(*size as u64));
        assert!(t.needs_request());
        assert_eq!(t.range_header(), None);
        let mut file = Vec::new();
        transfer(&mut t, &mut file, &artifact(*size, k as u8), 64);
        tasks.push(t);
        files.push(file);
    }
    for (k, size) in sizes.iter().enumerate() {
        assert_eq!(files[k].len(), *size);
        assert_eq!(files[k], artifact(*size, k as u8));
        assert_eq!(tasks[k].outcome(), Ok(*size as u64));
    }
    assert_eq!(failed_tasks(&tasks), Vec::<usize>::new());
}

#[test]
fn resume_requests_from_existing_length() {
    let body = artifact(150, 7);
    let mut file = body[..50].to_vec();
    let mut t = DownloadTask::new("https://example.org/a.tar.gz", Some(50), Some(150));
    assert_eq!(t.offset, 50);
    assert!(t.needs_request());
    assert_eq!(t.range_header(), Some("bytes=50-".to_string()));
    transfer(&mut t, &mut file, &body[50..], 32);
    assert_eq!(file.len(), 150);
    assert_eq!(file, body);
    assert_eq!(t.outcome(), Ok(150));
}

#[test]
fn resume_keeps_existing_prefix() {
    let pre = vec![9u8; 40];
    let remote = artifact(100, 3);
    let mut file = pre.clone();
    let mut t = DownloadTask::new("https://example.org/b.tar.gz", Some(40), Some(100));
    transfer(&mut t, &mut file, &remote[40..], 7);
    assert_eq!(file.len(), 100);
    assert_eq!(&file[..40], &pre[..]);
    assert_eq!(t.outcome(), Ok(100));
}

#[test]
fn task_takes_file_name_from_url() {
    let t = DownloadTask::new(
        "https://github.com/IceWhaleTech/CasaOS/releases/download/v0.4.3-1/linux-amd64-casaos-v0.4.3-1.tar.gz",
        None,
        None,
    );
    assert_eq!(t.file_name, "linux-amd64-casaos-v0.4.3-1.tar.gz");
}

#[test]
fn range_header_for_large_offset() {
    let t = DownloadTask::new("https://example.org/c", Some(1234567890123), None);
    assert_eq!(t.range_header(), Some("bytes=1234567890123-".to_string()));
}

#[test]
fn complete_file_needs_no_request() {
    let t = DownloadTask::new("https://example.org/d", Some(150), Some(150));
    assert!(!t.needs_request());
    assert_eq!(t.outcome(), Ok(150));
}

#[test]
fn oversized_file_fails() {
    let t = DownloadTask::new("https://example.org/e", Some(151), Some(150));
    assert!(!t.needs_request());
    assert_eq!(t.outcome(), Err(DownloadError::Oversized));
}

#[test]
fn overrun_chunk_is_refused() {
    let mut t = DownloadTask::new("https://example.org/f", None, Some(10));
    assert_eq!(t.accept_chunk(&vec![1u8; 8]), Ok(()));
    assert_eq!(t.accept_chunk(&vec![1u8; 3]), Err(DownloadError::Overrun));
    assert_eq!(t.received, 8);
    assert_eq!(t.accept_chunk(&vec![1u8; 2]), Err(DownloadError::Overrun));
    assert_eq!(t.outcome(), Err(DownloadError::Overrun));
}

#[test]
fn short_transfer_is_incomplete() {
    let mut t = DownloadTask::new("https://example.org/g", None, Some(10));
    assert_eq!(t.accept_chunk(&vec![1u8; 4]), Ok(()));
    assert_eq!(t.outcome(), Err(DownloadError::Incomplete));
}

#[test]
fn first_failure_is_kept() {
    let mut t = DownloadTask::new("https://example.org/h", None, None);
    t.fail(DownloadError::Network);
    t.fail(DownloadError::Filesystem);
    assert_eq!(t.outcome(), Err(DownloadError::Network));
    assert_eq!(t.accept_chunk(&vec![0u8; 1]), Err(DownloadError::Network));
}

#[test]
fn unknown_size_accepts_any_length() {
    let mut t = DownloadTask::new("https://example.org/i", None, None);
    assert!(t.needs_request());
    assert_eq!(t.accept_chunk(&vec![0u8; 500]), Ok(()));
    assert_eq!(t.outcome(), Ok(500));
}

#[test]
fn failed_tasks_lists_failures_in_order() {
    let ok = DownloadTask::new("https://example.org/1", Some(5), Some(5));
    let mut bad = DownloadTask::new("https://example.org/2", None, Some(5));
    bad.fail(DownloadError::Network);
    let short = DownloadTask::new("https://example.org/3", None, Some(5));
    assert_eq!(failed_tasks(&vec![ok, bad, short]), vec![1, 2]);
}

#[test]
fn probe_size_reads_content_length() {
    assert_eq!(probe_size(true, Some("12345")), Some(12345));
    assert_eq!(probe_size(true, Some("+7")), Some(7));
    assert_eq!(probe_size(true, Some("0")), Some(0));
    assert_eq!(probe_size(true, Some("18446744073709551615")), Some(u64::MAX));
    assert_eq!(probe_size(true, Some("18446744073709551616")), None);
    assert_eq!(probe_size(true, Some("")), None);
    assert_eq!(probe_size(true, Some("+")), None);
    assert_eq!(probe_size(true, Some("-1")), None);
    assert_eq!(probe_size(true, Some("12a")), None);
    assert_eq!(probe_size(true, None), None);
    assert_eq!(probe_size(false, Some("12345")), None);
}

#[test]
fn write_failure_fails_the_task() {
    let mut t = DownloadTask::new("https://example.org/j", Some(3), Some(10));
    assert_eq!(t.range_header(), Some("bytes=3-".to_string()));
    assert_eq!(t.accept_chunk(&vec![0u8; 2]), Ok(()));
    t.fail(DownloadError::Filesystem);
    assert_eq!(t.outcome(), Err(DownloadError::Filesystem));
    assert_eq!(t.received, 2);
}
