use gmutils::auto_renew::{
    build_entry, candidate_executables, check_install, disabled_mark, is_absolute,
    is_identity_enabled, join_path, read_crontab, scheduled_executable, shell_quote,
    updated_crontab, CrontabOutput, HomeScope, MarkLookup,
};

fn scheduled(
    current: &str,
    invoked_as: Option<&str>,
    search_path: &[&str],
    current_dir: Option<&str>,
    links: &[&str],
) -> String {
    let search_path: Vec<String> = search_path.iter().map(|entry| entry.to_string()).collect();
    let candidates = candidate_executables(invoked_as, &search_path, current_dir);
    let leads: Vec<bool> =
        candidates.iter().map(|candidate| links.contains(&candidate.as_str())).collect();
    scheduled_executable(current, &candidates, &leads)
}

#[test]
fn preserves_a_stable_symlink_from_the_invocation_path() {
    let versioned_executable = "/t/Cellar/gmutils/0.5.0/bin/genmeta";
    let stable_executable = "/t/bin/genmeta";

    let resolved = scheduled(
        versioned_executable,
        Some("genmeta"),
        &["/t/bin"],
        None,
        &[stable_executable],
    );

    assert_eq!(resolved, stable_executable);
}

#[test]
fn absolutizes_a_stable_symlink_found_through_a_relative_path_entry() {
    let versioned_executable = "/t/Cellar/gmutils/0.5.0/bin/genmeta";
    let stable_executable = "/t/bin/genmeta";

    let resolved = scheduled(
        versioned_executable,
        Some("genmeta"),
        &["bin"],
        Some("/t"),
        &[stable_executable],
    );

    assert_eq!(resolved, stable_executable);
    assert!(is_absolute(&resolved));
}

#[test]
fn the_running_executable_is_scheduled_where_no_other_leads_to_it() {
    assert_eq!(scheduled("/t/genmeta", None, &["/t/bin"], None, &[]), "/t/genmeta");
    assert_eq!(scheduled("/t/genmeta", Some("genmeta"), &["/t/bin"], None, &[]), "/t/genmeta");
    assert_eq!(
        scheduled("/t/genmeta", Some("./link"), &["/t/bin"], Some("/t"), &["/t/./link"]),
        "/t/./link"
    );
    assert_eq!(join_path("/t/", "bin"), "/t/bin");
    assert_eq!(join_path("/t", "/bin"), "/bin");
}

#[test]
fn builds_scope_aware_commands_for_launcher_and_standalone_binaries() {
    let (user_entry, _) = build_entry("/opt/Genmeta Tools/genmeta", HomeScope::User);
    let (global_entry, _) = build_entry("/usr/local/bin/genmeta-identity", HomeScope::Global);

    assert_eq!(
        user_entry,
        "0 3 * * * '/opt/Genmeta Tools/genmeta' 'identity' 'renew' '--all' >/dev/null 2>&1 # genmeta-auto-renew:user"
    );
    assert_eq!(
        global_entry,
        "0 3 * * * '/usr/local/bin/genmeta-identity' '--global' 'renew' '--all' >/dev/null 2>&1 # genmeta-auto-renew:global"
    );
}

#[test]
fn quotes_and_percent_signs_are_kept_from_shell_and_cron() {
    assert_eq!(shell_quote("plain"), "'plain'");
    assert_eq!(shell_quote("it's 5%"), "'it'\"'\"'s 5\\%'");
    assert_eq!(shell_quote(""), "''");
}

#[test]
fn repeated_registration_does_not_rewrite_or_duplicate_the_entry() {
    let (entry, marker) = build_entry("/usr/bin/genmeta", HomeScope::User);
    let existing = format!("MAILTO=ops@example.test\n{entry}\n");

    assert_eq!(updated_crontab(&existing, &entry, &marker), None);
}

#[test]
fn stale_and_duplicate_aggregate_entries_collapse_to_one() {
    let (entry, marker) = build_entry("/usr/bin/genmeta", HomeScope::User);
    let existing = format!(
        "15 1 * * * /usr/bin/backup\n0 2 * * * /old/genmeta identity renew --all {marker}\n{entry}\n{entry}\n"
    );

    let updated = updated_crontab(&existing, &entry, &marker).unwrap();
    assert_eq!(updated.matches(&marker).count(), 1);
    assert_eq!(updated.matches(&entry).count(), 1);
    assert!(updated.contains("15 1 * * * /usr/bin/backup"));
}

#[test]
fn other_scope_and_unmanaged_entries_are_preserved() {
    let (entry, marker) = build_entry("/usr/bin/genmeta", HomeScope::User);
    let unmanaged = "0 3 * * * /usr/bin/backup";
    let global =
        "0 3 * * * /usr/bin/genmeta identity --global renew --all # genmeta-auto-renew:global";
    let existing = format!("{unmanaged}\n{global}\n");

    let updated = updated_crontab(&existing, &entry, &marker).unwrap();
    assert!(updated.contains(unmanaged));
    assert!(updated.contains(global));
    assert_eq!(updated.matches("genmeta-auto-renew").count(), 2);
}

#[test]
fn command_round_trip_installs_idempotently_through_crontab_interface() {
    let mut state: Option<String> = None;
    let mut updates = 0;
    for _ in 0..2 {
        let (entry, marker) = build_entry("/usr/bin/genmeta", HomeScope::User);
        let listed = match &state {
            Some(text) => CrontabOutput {
                success: true,
                status: "exit status: 0".to_owned(),
                stdout: text.clone().into_bytes(),
                text: Some(text.clone()),
                stderr: String::new(),
            },
            None => CrontabOutput {
                success: false,
                status: "exit status: 1".to_owned(),
                stdout: Vec::new(),
                text: Some(String::new()),
                stderr: "no crontab for test\n".to_owned(),
            },
        };
        let existing = read_crontab(listed).unwrap();
        if let Some(updated) = updated_crontab(&existing, &entry, &marker) {
            check_install(true, "exit status: 0".to_owned(), "").unwrap();
            state = Some(updated);
            updates += 1;
        }
    }

    assert_eq!(state.unwrap().matches("genmeta-auto-renew").count(), 1);
    assert_eq!(updates, 1);
}

#[test]
fn failures_of_crontab_are_told() {
    let failed = |stdout: &[u8], text: Option<&str>, success: bool, stderr: &str| CrontabOutput {
        success,
        status: "exit status: 1".to_owned(),
        stdout: stdout.to_vec(),
        text: text.map(str::to_owned),
        stderr: stderr.to_owned(),
    };
    let error = read_crontab(failed(b"", Some(""), false, "permission denied\n")).unwrap_err();
    assert!(error.to_text().contains("permission denied"), "{}", error.to_text());
    assert!(read_crontab(failed(b"\xff", None, true, "")).is_err());
    let error = check_install(false, "exit status: 1".to_owned(), "no space\n").unwrap_err();
    assert!(error.to_text().contains("no space"), "{}", error.to_text());
}

#[test]
fn identity_disable_state_round_trips_with_the_terminal_reason() {
    assert_eq!(is_identity_enabled(MarkLookup::NotFound), Ok(true));
    assert_eq!(disabled_mark("domain_expired"), "domain_expired\n");
    assert_eq!(is_identity_enabled(MarkLookup::Found), Ok(false));
    let failed = MarkLookup::Failed { message: "permission denied".to_owned() };
    assert_eq!(is_identity_enabled(failed).unwrap_err().to_text(), "permission denied");
}
