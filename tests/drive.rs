use dropbox_drive::{
    create_file, decode_listing, find_files, get_volume_information, is_reserved_path,
    is_root_path, remote_list_path, step, Action, Config, Event, FoundFile, ListedEntry,
    MountState, Phase, RemoteError, Status,
};

fn wide(s: &str) -> Vec<u16> {
    s.encode_utf16().collect()
}

fn entry(name: &str, size: u64) -> ListedEntry {
    ListedEntry { name: Some(name.to_string()), size: Some(size) }
}

fn names_and_sizes(files: &[FoundFile]) -> Vec<(String, u64)> {
    files.iter().map(|f| (f.name.clone(), f.size)).collect()
}

#[test]
fn reserved_directories_do_not_exist() {
    for p in [
        "\\System Volume Information",
        "\\System Volume Information\\IndexerVolumeGuid",
        "\\$RECYCLE.BIN",
        "\\$RECYCLE.BIN\\S-1-5-18",
        "/$RECYCLE.BIN/",
    ] {
        let mut is_dir = false;
        assert_eq!(create_file(&wide(p), &mut is_dir), Status::NoSuchFile, "{p}");
        assert!(!is_dir);
        assert!(is_reserved_path(&wide(p)));
    }
}

#[test]
fn names_that_only_begin_like_reserved_directories_exist() {
    for p in ["\\System Volume Informationx", "\\$RECYCLE.BINS", "\\docs\\$RECYCLE.BIN", "System Volume Information"] {
        let mut is_dir = false;
        assert_eq!(create_file(&wide(p), &mut is_dir), Status::Success, "{p}");
        assert!(!is_dir);
    }
}

#[test]
fn root_is_a_directory() {
    let mut is_dir = false;
    assert_eq!(create_file(&wide("\\"), &mut is_dir), Status::Success);
    assert!(is_dir);
    assert!(is_root_path(&wide("/")));
    assert!(!is_root_path(&wide("\\a")));
    assert!(!is_root_path(&wide("")));
}

#[test]
fn other_paths_keep_the_flag() {
    let mut is_dir = true;
    assert_eq!(create_file(&wide("\\notes.txt"), &mut is_dir), Status::Success);
    assert!(is_dir);
    let mut is_dir = false;
    assert_eq!(create_file(&wide("\\notes.txt"), &mut is_dir), Status::Success);
    assert!(!is_dir);
}

#[test]
fn volume_information_is_fixed() {
    let (s1, a) = get_volume_information();
    let (s2, b) = get_volume_information();
    assert_eq!(s1, Status::Success);
    assert_eq!(s2, Status::Success);
    assert_eq!(a.volume_name, "DropboxFileSystem");
    assert_eq!(a.file_system_name, "NTFS");
    assert_eq!(a.maximum_component_length, 255);
    assert_eq!(a.volume_name, b.volume_name);
    assert_eq!(a.file_system_name, b.file_system_name);
    assert_eq!(a.maximum_component_length, b.maximum_component_length);
}

#[test]
fn remote_path_of_root_is_empty() {
    assert_eq!(remote_list_path(&wide("\\")), Some(String::new()));
}

#[test]
fn remote_path_uses_forward_slashes() {
    assert_eq!(remote_list_path(&wide("\\Photos\\2020")), Some("/Photos/2020".to_string()));
    assert_eq!(remote_list_path(&wide("\\Grüße\\日本")), Some("/Grüße/日本".to_string()));
    assert_eq!(remote_list_path(&wide("/")), Some("/".to_string()));
}

#[test]
fn remote_path_rejects_broken_utf16() {
    assert_eq!(remote_list_path(&[0x5C, 0xD800]), None);
    assert_eq!(remote_list_path(&[0x5C, 0xDC00, 0x61]), None);
    assert_eq!(remote_list_path(&[0x5C, 0xD83D, 0xDE00]), Some("/\u{1F600}".to_string()));
}

#[test]
fn listing_reaches_the_sink_in_order() {
    let listing = Ok(vec![entry("b.txt", 3), entry("a.txt", 10), entry("empty", 0)]);
    let mut sink = vec![FoundFile { name: "earlier".to_string(), size: 1 }];
    assert_eq!(find_files(&listing, &mut sink), Status::Success);
    assert_eq!(
        names_and_sizes(&sink),
        vec![
            ("earlier".to_string(), 1),
            ("b.txt".to_string(), 3),
            ("a.txt".to_string(), 10),
            ("empty".to_string(), 0),
        ]
    );
}

#[test]
fn empty_listing_pushes_nothing() {
    let mut sink = Vec::new();
    assert_eq!(find_files(&Ok(Vec::new()), &mut sink), Status::Success);
    assert!(sink.is_empty());
}

#[test]
fn failed_listing_pushes_nothing() {
    let listing = Err(RemoteError { message: "connection reset".to_string() });
    let mut sink = Vec::new();
    assert_eq!(find_files(&listing, &mut sink), Status::InternalError);
    assert!(sink.is_empty());
}

#[test]
fn entry_without_size_fails_the_whole_listing() {
    let listing = Ok(vec![entry("a.txt", 10), ListedEntry { name: Some("folder".to_string()), size: None }]);
    let mut sink = Vec::new();
    assert_eq!(find_files(&listing, &mut sink), Status::InternalError);
    assert!(sink.is_empty());
}

#[test]
fn entry_without_name_fails_the_whole_listing() {
    let entries = vec![ListedEntry { name: None, size: Some(4) }, entry("a.txt", 10)];
    assert!(decode_listing(&entries).is_none());
    let mut sink = Vec::new();
    assert_eq!(find_files(&Ok(entries), &mut sink), Status::InternalError);
    assert!(sink.is_empty());
}

#[test]
fn largest_size_is_kept() {
    let found = decode_listing(&vec![entry("big", u64::MAX)]).unwrap();
    assert_eq!(names_and_sizes(&found), vec![("big".to_string(), u64::MAX)]);
}

#[test]
fn mount_state_follows_the_callbacks() {
    let mut state = MountState::new();
    assert_eq!(state.get_clone(), None);
    assert_eq!(state.mounted(&wide("D:\\drop")), Status::Success);
    assert_eq!(state.get_clone(), Some(wide("D:\\drop")));
    assert_eq!(state.get_clone(), Some(wide("D:\\drop")));
    let (status, previous) = state.unmounted();
    assert_eq!(status, Status::Success);
    assert_eq!(previous, Some(wide("D:\\drop")));
    assert_eq!(state.get_clone(), None);
}

#[test]
fn unmount_without_mount_still_succeeds() {
    let mut state = MountState::new();
    assert_eq!(state.unmounted(), (Status::Success, None));
    state.set(&wide("E:\\"));
    assert_eq!(state.take(), Some(wide("E:\\")));
    assert_eq!(state.take(), None);
}

fn drive(events: Vec<Event>) -> (Phase, Vec<Action>) {
    let mut phase = Phase::Idle;
    let mut actions = Vec::new();
    for e in events {
        let (next, action) = step(phase, e);
        phase = next;
        actions.push(action);
    }
    (phase, actions)
}

#[test]
fn interrupt_first_unmounts_then_waits() {
    let (phase, actions) = drive(vec![
        Event::Start,
        Event::Mounted,
        Event::Interrupt { mount_point: Some(wide("M:\\")) },
        Event::UnmountDone { removed: true },
        Event::DriverReturned { ok: true },
    ]);
    assert_eq!(phase, Phase::Stopped);
    assert_eq!(
        actions,
        vec![
            Action::RunDriver,
            Action::Nothing,
            Action::RemoveMountPoint { mount_point: wide("M:\\") },
            Action::AwaitDriver,
            Action::Shutdown { cancel_listener: false },
        ]
    );
}

#[test]
fn driver_first_cancels_the_listener() {
    let (phase, actions) = drive(vec![Event::Start, Event::Mounted, Event::DriverReturned { ok: true }]);
    assert_eq!(phase, Phase::Stopped);
    assert_eq!(actions[2], Action::Shutdown { cancel_listener: true });
    let (phase, _) = drive(vec![Event::Start, Event::DriverReturned { ok: false }]);
    assert_eq!(phase, Phase::Errored);
}

#[test]
fn interrupt_without_mount_point_is_an_error() {
    let (phase, actions) = drive(vec![Event::Start, Event::Interrupt { mount_point: None }]);
    assert_eq!(phase, Phase::Errored);
    assert_eq!(actions[1], Action::Shutdown { cancel_listener: false });
}

#[test]
fn failed_detach_is_an_error() {
    let (phase, actions) = drive(vec![
        Event::Start,
        Event::Interrupt { mount_point: Some(wide("M:\\")) },
        Event::UnmountDone { removed: false },
    ]);
    assert_eq!(phase, Phase::Errored);
    assert_eq!(actions[2], Action::Shutdown { cancel_listener: false });
}

#[test]
fn failed_listener_is_an_error() {
    let (phase, _) = drive(vec![Event::Start, Event::InterruptFailed]);
    assert_eq!(phase, Phase::Errored);
}

#[test]
fn ended_session_ignores_later_events() {
    let (phase, actions) = drive(vec![
        Event::Start,
        Event::DriverReturned { ok: true },
        Event::Interrupt { mount_point: Some(wide("M:\\")) },
        Event::DriverReturned { ok: false },
    ]);
    assert_eq!(phase, Phase::Stopped);
    assert_eq!(actions[2], Action::Nothing);
    assert_eq!(actions[3], Action::Nothing);
}

#[test]
fn interrupt_during_slow_listing() {
    let mut state = MountState::new();
    let (phase, first) = step(Phase::Idle, Event::Start);
    assert_eq!(first, Action::RunDriver);
    state.mounted(&wide("D:\\drop"));
    // A listing is under way while the interrupt comes.
    let (phase, action) = step(phase, Event::Interrupt { mount_point: state.get_clone() });
    assert_eq!(action, Action::RemoveMountPoint { mount_point: wide("D:\\drop") });
    // The slow listing then returns and is answered in full.
    let mut sink = Vec::new();
    assert_eq!(find_files(&Ok(vec![entry("late.bin", 7)]), &mut sink), Status::Success);
    assert_eq!(names_and_sizes(&sink), vec![("late.bin".to_string(), 7)]);
    let (phase, action) = step(phase, Event::UnmountDone { removed: true });
    assert_eq!(action, Action::AwaitDriver);
    assert_eq!(state.unmounted().0, Status::Success);
    let (phase, action) = step(phase, Event::DriverReturned { ok: true });
    assert_eq!(action, Action::Shutdown { cancel_listener: false });
    assert_eq!(phase, Phase::Stopped);
}

#[test]
fn end_to_end_mount_list_interrupt() {
    let config = Config { mount_point: "D:\\drop".to_string(), debug_driver: false, dropbox_token: "abc".to_string() };
    let mut state = MountState::new();
    let (phase, action) = step(Phase::Idle, Event::Start);
    assert_eq!(action, Action::RunDriver);
    assert_eq!(state.mounted(&wide(&config.mount_point)), Status::Success);

    assert_eq!(remote_list_path(&wide("\\")), Some(String::new()));
    let mut sink = Vec::new();
    assert_eq!(find_files(&Ok(vec![entry("a.txt", 10)]), &mut sink), Status::Success);
    assert_eq!(names_and_sizes(&sink), vec![("a.txt".to_string(), 10)]);

    let mut actions = Vec::new();
    let mut phase = phase;
    for e in [
        Event::Interrupt { mount_point: state.get_clone() },
        Event::UnmountDone { removed: true },
        Event::DriverReturned { ok: true },
    ] {
        let (next, a) = step(phase, e);
        phase = next;
        actions.push(a);
    }
    let requests: Vec<&Action> = actions.iter().filter(|a| matches!(a, Action::RemoveMountPoint { .. })).collect();
    assert_eq!(requests, vec![&Action::RemoveMountPoint { mount_point: wide("D:\\drop") }]);
    assert_eq!(actions.iter().filter(|a| matches!(a, Action::Shutdown { .. })).count(), 1);
    assert_eq!(phase, Phase::Stopped);
}
