use backup_wrapper::duplicity;
use backup_wrapper::duplicity::DuplicityMode;
use backup_wrapper::restic;
use backup_wrapper::restic::ResticMode;

fn paths(p: &[&str]) -> Vec<String> {
    p.iter().map(|s| s.to_string()).collect()
}

#[test]
fn duplicity_full_args_exact() {
    let sel = paths(&["/data/a", "/data/a/x"]);
    let args = duplicity::args(
        DuplicityMode::Full,
        "CAFEBABE",
        "/data",
        "file:///backup",
        &sel,
    );
    assert_eq!(
        args,
        paths(&[
            "full",
            "-v4",
            "--archive-dir",
            "/var/backups/duplicity",
            "--use-agent",
            "--encrypt-sign-key",
            "CAFEBABE",
            "--include",
            "/data/a",
            "--include",
            "/data/a/x",
            "--exclude",
            "**",
            "/data",
            "file:///backup",
        ])
    );
}

#[test]
fn duplicity_incremental_args_exact() {
    let sel = paths(&["/data/a"]);
    let args = duplicity::args(
        DuplicityMode::Incremental,
        "KEY",
        "/data",
        "sftp://host/backup",
        &sel,
    );
    assert_eq!(
        args,
        paths(&[
            "incremental",
            "-v4",
            "--archive-dir",
            "/var/backups/duplicity",
            "--use-agent",
            "--encrypt-sign-key",
            "KEY",
            "--include",
            "/data/a",
            "--exclude",
            "**",
            "/data",
            "sftp://host/backup",
        ])
    );
}

#[test]
fn duplicity_include_pairs_count_and_order() {
    let sel = paths(&["/a", "/b", "/c", "/d"]);
    let args = duplicity::args(DuplicityMode::Full, "K", "/", "t", &sel);
    let flags = args.iter().filter(|a| a.as_str() == "--include").count();
    assert_eq!(flags, sel.len());
    for (i, p) in sel.iter().enumerate() {
        assert_eq!(args[7 + 2 * i], "--include");
        assert_eq!(&args[7 + 2 * i + 1], p);
    }
    assert_eq!(args.len(), 11 + 2 * sel.len());
}

#[test]
fn duplicity_backup_with_no_paths_has_no_include_tokens() {
    let sel: Vec<String> = Vec::new();
    let args = duplicity::args(DuplicityMode::Full, "K", "/data", "t", &sel);
    assert_eq!(
        args,
        paths(&[
            "full",
            "-v4",
            "--archive-dir",
            "/var/backups/duplicity",
            "--use-agent",
            "--encrypt-sign-key",
            "K",
            "--exclude",
            "**",
            "/data",
            "t",
        ])
    );
}

#[test]
fn duplicity_clean_args_exact_and_ignore_paths() {
    let sel = paths(&["/data/a", "/data/b"]);
    let args = duplicity::args(
        DuplicityMode::Clean,
        "KEY",
        "/data",
        "file:///backup",
        &sel,
    );
    assert_eq!(args, paths(&["remove-all-but-n-full", "2", "file:///backup"]));
    assert!(!args.iter().any(|a| a == "/data/a" || a == "/data/b"));
}

#[test]
fn restic_backup_args_exact() {
    let sel = paths(&["/data/a", "/data/a/x"]);
    let args = restic::args(ResticMode::Backup, "/etc/restic/pw", &sel);
    assert_eq!(
        args,
        paths(&["-p", "/etc/restic/pw", "backup", "/data/a", "/data/a/x"])
    );
}

#[test]
fn restic_backup_positional_paths_in_order() {
    let sel = paths(&["/x", "/y", "/z"]);
    let args = restic::args(ResticMode::Backup, "pw", &sel);
    assert_eq!(args.len(), 3 + sel.len());
    for (i, p) in sel.iter().enumerate() {
        assert_eq!(&args[3 + i], p);
    }
}

#[test]
fn restic_clean_args_exact_and_ignore_paths() {
    let sel = paths(&["/data/a"]);
    let args = restic::args(ResticMode::Clean, "/etc/restic/pw", &sel);
    assert_eq!(
        args,
        paths(&[
            "-p",
            "/etc/restic/pw",
            "forget",
            "--keep-daily",
            "7",
            "--keep-weekly",
            "2",
            "--prune",
        ])
    );
}
