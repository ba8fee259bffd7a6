use hashall::classify::ArchiveType;
use hashall::pipeline::{plan_job, resolve_workers, worker_step, Flags, Job, WorkerAction};

fn flags(all: bool, recursive: bool, archive: bool) -> Flags {
    Flags { all, recursive, archive }
}

#[test]
fn archive_mode_plans_archive_jobs() {
    let j = plan_job(String::from("a.zip"), flags(false, false, true));
    assert_eq!(j, Job::Archive(String::from("a.zip"), ArchiveType::Zip));
    let j = plan_job(String::from("a.tar.zst"), flags(false, false, true));
    assert_eq!(j, Job::Archive(String::from("a.tar.zst"), ArchiveType::TarZstd));
}

#[test]
fn unrecognized_names_plan_file_jobs() {
    let j = plan_job(String::from("a.txt"), flags(false, false, true));
    assert_eq!(j, Job::File(String::from("a.txt")));
}

#[test]
fn without_archive_mode_everything_is_a_file_job() {
    let j = plan_job(String::from("a.zip"), flags(false, false, false));
    assert_eq!(j, Job::File(String::from("a.zip")));
}

#[test]
fn worker_processes_each_received_job() {
    let a = worker_step(Some(Job::File(String::from("f"))));
    assert_eq!(a, WorkerAction::HashFile(String::from("f")));
    let a = worker_step(Some(Job::Archive(String::from("a.tar"), ArchiveType::Tar)));
    assert_eq!(a, WorkerAction::ExpandArchive(String::from("a.tar"), ArchiveType::Tar));
}

#[test]
fn worker_shuts_down_on_channel_close() {
    assert_eq!(worker_step(None), WorkerAction::Shutdown);
}

#[test]
fn worker_count_resolution() {
    assert_eq!(resolve_workers(3, 8), Some(3));
    assert_eq!(resolve_workers(0, 8), Some(8));
    assert_eq!(resolve_workers(0, 0), None);
    assert_eq!(resolve_workers(1, 0), Some(1));
}
