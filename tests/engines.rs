use betterhesi::download::{download_all_result, download_error, is_success_status, package_list};
use betterhesi::extract::{archive_list, extract_all_result, extraction_error, DEFAULT_EXTRACT_CEILING};
use betterhesi::progress::{compose_progress_message, progress_message, Progress};
use betterhesi::scheduler::{BatchStatus, JobFailure};

#[test]
fn success_statuses_are_2xx() {
    assert!(is_success_status(200));
    assert!(is_success_status(204));
    assert!(is_success_status(299));
    assert!(!is_success_status(199));
    assert!(!is_success_status(300));
    assert!(!is_success_status(404));
    assert!(!is_success_status(500));
}

#[test]
fn package_list_places_files_in_staging() {
    let urls = vec!["http://host/a.zip".to_string(), "http://host/b.zip".to_string()];
    let names = vec!["a.zip".to_string(), "b.zip".to_string(), "extra.zip".to_string()];
    let run = package_list(&urls, &names, "/tmp/stage", 1);
    let jobs = run.jobs();
    assert_eq!(jobs.len(), 2);
    assert_eq!(jobs[0].url, "http://host/a.zip");
    assert_eq!(jobs[0].file_name, "a.zip");
    assert_eq!(jobs[0].path, "/tmp/stage/a.zip");
    assert_eq!(jobs[1].path, "/tmp/stage/b.zip");
}

#[test]
fn failed_download_names_its_job() {
    let urls = vec!["http://host/a.zip".to_string(), "http://host/b.zip".to_string()];
    let names = vec!["a.zip".to_string(), "b.zip".to_string()];
    let run = package_list(&urls, &names, "/s", 1);
    let jobs = run.jobs();
    let failed = BatchStatus::Failed(JobFailure { job: 1, message: "status 404".to_string() });
    assert_eq!(
        download_all_result(jobs, &failed),
        Err("Error downloading b.zip: status 404".to_string())
    );
    assert_eq!(download_all_result(jobs, &BatchStatus::Succeeded), Ok(()));
    assert_eq!(download_error("x", "y"), "Error downloading x: y");
}

#[test]
fn archive_list_trims_destinations() {
    let archives = vec!["/s/a.zip".to_string(), "/s/b.zip".to_string()];
    let dests = vec!["/game/content/tracks/".to_string(), "/desk".to_string()];
    let run = archive_list(&archives, &dests, 3);
    let jobs = run.jobs();
    assert_eq!(jobs.len(), 2);
    assert_eq!(jobs[0].archive, "/s/a.zip");
    assert_eq!(jobs[0].destination, "/game/content/tracks");
    assert_eq!(jobs[1].destination, "/desk");
    assert_eq!(archive_list(&archives, &Vec::new(), 3).jobs().len(), 0);
}

#[test]
fn failed_extraction_names_its_archive() {
    let run = archive_list(&vec!["/s/a.zip".to_string()], &vec!["/d".to_string()], 3);
    let jobs = run.jobs();
    let failed = BatchStatus::Failed(JobFailure { job: 0, message: "truncated".to_string() });
    assert_eq!(
        extract_all_result(jobs, &failed),
        Err("Error extracting /s/a.zip: truncated".to_string())
    );
    assert_eq!(extract_all_result(jobs, &BatchStatus::Succeeded), Ok(()));
    assert_eq!(extraction_error("a", "b"), "Error extracting a: b");
    assert_eq!(DEFAULT_EXTRACT_CEILING, 3);
}

#[test]
fn progress_counts_bytes_and_defaults_total() {
    let mut p = Progress::new("a.zip", None);
    assert_eq!(p.bytes_total, 0);
    let s = p.record_chunk(100);
    assert_eq!(s.bytes_done, 100);
    let s = p.record_chunk(50);
    assert_eq!(s.bytes_done, 150);
    assert_eq!(s.bytes_total, 0);
    assert_eq!(s.label, "a.zip");
    let q = Progress::new("b", Some(2048));
    assert_eq!(q.bytes_total, 2048);
    assert_eq!(q.bytes_done, 0);
}

#[test]
fn progress_line_layout() {
    assert_eq!(compose_progress_message("a.zip", "1 B", "2 B"), "(a.zip) 1 B/2 B");
}

#[test]
fn progress_line_uses_human_sizes() {
    let mut p = Progress::new("a.zip", Some(1_500_000));
    let s = p.record_chunk(500);
    assert_eq!(progress_message(&s), "(a.zip) 500 B/1.50 MB");
    let mut q = Progress::new("b.zip", None);
    let s = q.record_chunk(0);
    assert_eq!(progress_message(&s), "(b.zip) 0 B/0 B");
}

fn three_downloads(ceiling: usize) -> betterhesi::download::DownloadRun {
    let urls = vec!["http://h/a.zip".to_string(), "http://h/b.zip".to_string(), "http://h/c.zip".to_string()];
    let names = vec!["a.zip".to_string(), "b.zip".to_string(), "c.zip".to_string()];
    package_list(&urls, &names, "/s", ceiling)
}

#[test]
fn serial_downloads_never_overlap() {
    let mut run = three_downloads(1);
    assert_eq!(run.start_next(), Some(0));
    assert_eq!(run.start_next(), None);
    assert!(run.result().is_none());
    run.finish(0, Ok(()));
    assert_eq!(run.start_next(), Some(1));
    assert_eq!(run.start_next(), None);
    run.finish(1, Ok(()));
    assert_eq!(run.start_next(), Some(2));
    run.finish(2, Ok(()));
    assert_eq!(run.result(), Some(Ok(())));
}

#[test]
fn downloads_respect_a_ceiling_of_two() {
    let mut run = three_downloads(2);
    assert_eq!(run.start_next(), Some(0));
    assert_eq!(run.start_next(), Some(1));
    assert_eq!(run.start_next(), None);
    assert!(run.is_running(0) && run.is_running(1) && !run.is_running(2));
    run.finish(0, Ok(()));
    assert_eq!(run.start_next(), Some(2));
    assert_eq!(run.start_next(), None);
}

#[test]
fn failed_status_names_the_download() {
    let mut run = three_downloads(2);
    run.start_next();
    run.start_next();
    run.finish(0, Ok(()));
    run.finish(1, Err("Failed to download file: 404 Not Found".to_string()));
    assert_eq!(run.start_next(), None);
    assert_eq!(
        run.result(),
        Some(Err("Error downloading b.zip: Failed to download file: 404 Not Found".to_string()))
    );
}

#[test]
fn corrupt_archive_names_the_extraction() {
    let archives = vec!["/s/a.zip".to_string(), "/s/b.zip".to_string()];
    let dests = vec!["/d1".to_string(), "/d2".to_string()];
    let mut run = archive_list(&archives, &dests, 3);
    assert_eq!(run.start_next(), Some(0));
    assert_eq!(run.start_next(), Some(1));
    run.finish(1, Ok(()));
    assert!(run.result().is_none());
    run.finish(0, Err("Extraction error: truncated".to_string()));
    assert_eq!(
        run.result(),
        Some(Err("Error extracting /s/a.zip: Extraction error: truncated".to_string()))
    );
}
