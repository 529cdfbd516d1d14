use peer_watcher::watch_loop::{loop_should_terminate, select_backend};
use peer_watcher::watcher::peer_addr_for_line;
use peer_watcher::{BackendKind, Error, Member, PeerWatcher, Resolution, WatchEvent};

fn member(address: &str, port: u16) -> Member {
    Member {
        id: String::new(),
        address: address.to_string(),
        swim_port: port,
        gossip_port: port,
    }
}

#[test]
fn no_file() {
    let watcher = PeerWatcher::run("no_such_file".to_string()).unwrap();

    assert!(!watcher.has_fs_events());
    assert_eq!(watcher.members_for_missing_file(), vec![]);
}

#[test]
fn empty_file() {
    let watcher = PeerWatcher::run("empty_file".to_string()).unwrap();

    assert_eq!(watcher.conclude_members(vec![]).unwrap(), vec![]);
}

#[test]
fn with_file() {
    let watcher = PeerWatcher::run("some_file".to_string()).unwrap();
    assert_eq!(
        peer_addr_for_line("1.2.3.4:5"),
        Some("1.2.3.4:5".to_string())
    );
    assert_eq!(peer_addr_for_line("4.3.2.1"), Some("4.3.2.1:9638".to_string()));

    let resolutions = vec![
        Resolution::Resolved("1.2.3.4".to_string(), 5),
        Resolution::Resolved("4.3.2.1".to_string(), 9638),
    ];
    let expected_members = vec![member("1.2.3.4", 5), member("4.3.2.1", 9638)];
    let members = watcher.conclude_members(resolutions).unwrap();
    assert_eq!(expected_members, members);
}

#[test]
fn with_file_using_poll_watcher() {
    let kind = select_backend(Some("aarch64-darwin".to_string()));
    assert_eq!(kind, BackendKind::Polling);

    let watcher = PeerWatcher::run("some_other_file".to_string()).unwrap();
    assert_eq!(
        peer_addr_for_line("1.2.3.5:5"),
        Some("1.2.3.5:5".to_string())
    );
    assert_eq!(peer_addr_for_line("5.4.3.2"), Some("5.4.3.2:9638".to_string()));

    let resolutions = vec![
        Resolution::Resolved("1.2.3.5".to_string(), 5),
        Resolution::Resolved("5.4.3.2".to_string(), 9638),
    ];
    let expected_members = vec![member("1.2.3.5", 5), member("5.4.3.2", 9638)];
    let members = watcher.conclude_members(resolutions).unwrap();
    assert_eq!(expected_members, members);
}

#[test]
fn blank_lines_are_skipped() {
    assert_eq!(peer_addr_for_line(""), None);
}

#[test]
fn default_port_appended_to_bare_host() {
    assert_eq!(
        peer_addr_for_line("example.com"),
        Some("example.com:9638".to_string())
    );
    assert_eq!(peer_watcher::DEFAULT_GOSSIP_PORT, 9638);
}

#[test]
fn line_with_colon_kept_verbatim() {
    assert_eq!(
        peer_addr_for_line("[2001:db8::1]:7"),
        Some("[2001:db8::1]:7".to_string())
    );
    assert_eq!(
        peer_addr_for_line("example.com:80"),
        Some("example.com:80".to_string())
    );
}

#[test]
fn name_lookup_failure_discards_earlier_members() {
    let watcher = PeerWatcher::run("peers".to_string()).unwrap();
    let resolutions = vec![
        Resolution::Resolved("1.2.3.4".to_string(), 5),
        Resolution::Failed("no such host".to_string()),
        Resolution::Resolved("4.3.2.1".to_string(), 9638),
    ];
    let err = watcher.conclude_members(resolutions).unwrap_err();
    assert_eq!(err, Error::NameLookup("no such host".to_string()));
}

#[test]
fn first_failure_reported() {
    let watcher = PeerWatcher::run("peers".to_string()).unwrap();
    let resolutions = vec![
        Resolution::Failed("first".to_string()),
        Resolution::Failed("second".to_string()),
    ];
    let err = watcher.conclude_members(resolutions).unwrap_err();
    assert_eq!(err, Error::NameLookup("first".to_string()));
}

#[test]
fn repeated_extraction_is_deterministic() {
    let watcher = PeerWatcher::run("peers".to_string()).unwrap();
    let resolutions = vec![
        Resolution::Resolved("1.2.3.4".to_string(), 5),
        Resolution::Resolved("4.3.2.1".to_string(), 9638),
    ];
    let first = watcher.conclude_members(resolutions.clone()).unwrap();
    let second = watcher.conclude_members(resolutions).unwrap();
    assert_eq!(first, second);
}

#[test]
fn change_signal_clears_on_successful_extraction() {
    let watcher = PeerWatcher::run("peers".to_string()).unwrap();
    let mut callbacks = watcher.callbacks();
    callbacks.file_modified("peers");
    assert!(watcher.has_fs_events());

    watcher
        .conclude_members(vec![Resolution::Resolved("1.2.3.4".to_string(), 5)])
        .unwrap();
    assert!(!watcher.has_fs_events());
}

#[test]
fn change_signal_clears_on_failed_extraction() {
    let watcher = PeerWatcher::run("peers".to_string()).unwrap();
    let mut callbacks = watcher.callbacks();
    callbacks.file_appeared("peers");
    assert!(watcher.has_fs_events());

    let result = watcher.conclude_members(vec![Resolution::Failed("bad".to_string())]);
    assert!(result.is_err());
    assert!(!watcher.has_fs_events());
}

#[test]
fn change_signal_clears_on_open_failure() {
    let watcher = PeerWatcher::run("peers".to_string()).unwrap();
    let mut callbacks = watcher.callbacks();
    callbacks.file_modified("peers");
    assert!(watcher.has_fs_events());

    let err = watcher.io_failure("permission denied".to_string());
    assert_eq!(err, Error::Io("permission denied".to_string()));
    assert!(!watcher.has_fs_events());
}

#[test]
fn missing_file_clears_change_signal() {
    let watcher = PeerWatcher::run("gone".to_string()).unwrap();
    let mut callbacks = watcher.callbacks();
    callbacks.file_disappeared("gone");
    assert!(watcher.has_fs_events());

    assert_eq!(watcher.members_for_missing_file(), vec![]);
    assert!(!watcher.has_fs_events());
}

#[test]
fn backend_selection() {
    assert_eq!(select_backend(None), BackendKind::EventDriven);
    assert_eq!(
        select_backend(Some(String::new())),
        BackendKind::EventDriven
    );
    assert_eq!(
        select_backend(Some("x86_64-linux".to_string())),
        BackendKind::EventDriven
    );
    assert_eq!(
        select_backend(Some("aarch64-darwin".to_string())),
        BackendKind::Polling
    );
}

#[test]
fn only_fatal_setup_failures_terminate_the_loop() {
    let transient = WatchEvent::SetupFailed(Error::NotifyError("dir missing".to_string()));
    assert!(!loop_should_terminate(&transient));

    let fatal = WatchEvent::SetupFailed(Error::Other("bad configuration".to_string()));
    assert!(loop_should_terminate(&fatal));

    let fatal_io = WatchEvent::SetupFailed(Error::Io("permission denied".to_string()));
    assert!(loop_should_terminate(&fatal_io));

    let run_error = WatchEvent::RunEnded(Some(Error::Other("watch dropped".to_string())));
    assert!(!loop_should_terminate(&run_error));

    let clean_return = WatchEvent::RunEnded(None);
    assert!(!loop_should_terminate(&clean_return));
}

#[test]
fn handle_stays_responsive() {
    let watcher = PeerWatcher::run("busy".to_string()).unwrap();
    for round in 0u16..1000 {
        let _ = watcher.has_fs_events();
        let members = watcher
            .conclude_members(vec![Resolution::Resolved("1.2.3.4".to_string(), round)])
            .unwrap();
        assert_eq!(members.len(), 1);
    }
    assert_eq!(watcher.path(), "busy");
}
