use betterhesi::pipeline::{
    destination_path, plan_jobs, staging_directory, Action, Destination, PackageJob, PackageSpec,
    Pipeline, PipelineError, ResolvedRoots, Stage, StepOutcome,
};

fn roots() -> ResolvedRoots {
    ResolvedRoots { game_root: "/g".to_string(), desktop_root: "/home/u/Desktop".to_string() }
}

fn one_job() -> Vec<PackageJob> {
    vec![PackageJob {
        url: "http://host/a.zip".to_string(),
        file_name: "a.zip".to_string(),
        staging_path: "/tmp/stage/a.zip".to_string(),
        destination: "/dest".to_string(),
    }]
}

#[test]
fn destinations_by_role() {
    let r = roots();
    assert_eq!(destination_path(&Destination::Desktop, &r), "/home/u/Desktop");
    assert_eq!(destination_path(&Destination::GameRoot, &r), "/g");
    assert_eq!(
        destination_path(&Destination::GameSubdirectory("content/cars".to_string()), &r),
        "/g/content/cars"
    );
    assert_eq!(staging_directory("/tmp", "betterhesi"), "/tmp/betterhesi");
}

#[test]
fn plan_jobs_builds_urls_and_paths() {
    let packages = vec![
        PackageSpec { file_name: "CSP.zip".to_string(), destination: Destination::Desktop },
        PackageSpec {
            file_name: "SRP.zip".to_string(),
            destination: Destination::GameSubdirectory("content/tracks".to_string()),
        },
    ];
    let jobs = plan_jobs("http://cdn", &packages, &roots(), "/tmp/stage");
    assert_eq!(jobs.len(), 2);
    assert_eq!(jobs[0].url, "http://cdn/CSP.zip");
    assert_eq!(jobs[0].staging_path, "/tmp/stage/CSP.zip");
    assert_eq!(jobs[0].destination, "/home/u/Desktop");
    assert_eq!(jobs[1].file_name, "SRP.zip");
    assert_eq!(jobs[1].destination, "/g/content/tracks");
}

#[test]
fn end_to_end_single_package() {
    let mut p = Pipeline::new("/tmp/stage".to_string(), one_job());
    assert!(matches!(p.begin(), Action::CreateStagingDir(ref d) if d == "/tmp/stage"));
    assert!(matches!(p.advance(StepOutcome::Succeeded), Action::DownloadAll));
    let run = p.downloads(1);
    let downloads = run.jobs();
    assert_eq!(downloads.len(), 1);
    assert_eq!(downloads[0].url, "http://host/a.zip");
    assert_eq!(downloads[0].path, "/tmp/stage/a.zip");
    assert!(matches!(p.advance(StepOutcome::Succeeded), Action::ExtractAll));
    let erun = p.extractions(3);
    let extractions = erun.jobs();
    assert_eq!(extractions[0].archive, "/tmp/stage/a.zip");
    assert_eq!(extractions[0].destination, "/dest");
    assert!(matches!(p.advance(StepOutcome::Succeeded), Action::RemoveStagedFile(ref f) if f == "/tmp/stage/a.zip"));
    assert!(matches!(p.advance(StepOutcome::Succeeded), Action::RemoveStagingDir(ref d) if d == "/tmp/stage"));
    assert!(matches!(p.advance(StepOutcome::Succeeded), Action::Finished(Ok(()))));
    assert_eq!(p.stage(), Stage::Done);
}

#[test]
fn leftover_staging_is_a_conflict() {
    let mut p = Pipeline::new("/tmp/stage".to_string(), one_job());
    match p.advance(StepOutcome::AlreadyExists("File exists".to_string())) {
        Action::Finished(Err(e)) => {
            assert!(matches!(e, PipelineError::Conflict(_)));
            assert_eq!(e.message(), "Could not create temp directory: File exists");
        }
        other => panic!("unexpected {:?}", other),
    }
    assert_eq!(p.stage(), Stage::Aborted);
}

#[test]
fn staging_creation_failure() {
    let mut p = Pipeline::new("/tmp/stage".to_string(), one_job());
    match p.advance(StepOutcome::Failed("denied".to_string())) {
        Action::Finished(Err(e)) => assert_eq!(e.message(), "Could not create temp directory: denied"),
        other => panic!("unexpected {:?}", other),
    }
}

#[test]
fn failed_download_skips_cleanup() {
    let mut p = Pipeline::new("/tmp/stage".to_string(), one_job());
    p.advance(StepOutcome::Succeeded);
    match p.advance(StepOutcome::Failed("Error downloading a.zip: 404".to_string())) {
        Action::Finished(Err(e)) => {
            assert!(matches!(e, PipelineError::Download(_)));
            assert_eq!(e.message(), "Download Failed: Error downloading a.zip: 404");
        }
        other => panic!("unexpected {:?}", other),
    }
    assert_eq!(p.stage(), Stage::Aborted);
}

#[test]
fn failed_extraction_and_cleanup_errors() {
    let mut p = Pipeline::new("/s".to_string(), one_job());
    p.advance(StepOutcome::Succeeded);
    p.advance(StepOutcome::Succeeded);
    match p.advance(StepOutcome::Failed("bad".to_string())) {
        Action::Finished(Err(e)) => assert_eq!(e.message(), "Extraction failed: bad"),
        other => panic!("unexpected {:?}", other),
    }
    let mut q = Pipeline::new("/s".to_string(), one_job());
    q.advance(StepOutcome::Succeeded);
    q.advance(StepOutcome::Succeeded);
    q.advance(StepOutcome::Succeeded);
    match q.advance(StepOutcome::Failed("busy".to_string())) {
        Action::Finished(Err(e)) => assert_eq!(e.message(), "IO Error: Error deleting file: busy"),
        other => panic!("unexpected {:?}", other),
    }
    let mut r = Pipeline::new("/s".to_string(), one_job());
    for _ in 0..4 {
        r.advance(StepOutcome::Succeeded);
    }
    match r.advance(StepOutcome::Failed("not empty".to_string())) {
        Action::Finished(Err(e)) => {
            assert!(matches!(e, PipelineError::StagingRemoval(_)));
            assert_eq!(e.message(), "Could not delete old temp directory: not empty");
        }
        other => panic!("unexpected {:?}", other),
    }
}

#[test]
fn group_without_packages_only_handles_staging() {
    let mut p = Pipeline::new("/s".to_string(), Vec::new());
    assert!(matches!(p.advance(StepOutcome::Succeeded), Action::DownloadAll));
    assert!(matches!(p.advance(StepOutcome::Succeeded), Action::ExtractAll));
    assert!(matches!(p.advance(StepOutcome::Succeeded), Action::RemoveStagingDir(_)));
    assert!(matches!(p.advance(StepOutcome::Succeeded), Action::Finished(Ok(()))));
}
