use peeksy::launchd::launchd::{LaunchD, ServiceDescriptor};
use peeksy::manager::ai::{CaptionError, OpenAI};
use peeksy::manager::image::{
    visible_part, FileTimes, RenameError, RenameStage, SSManager, Span,
};

fn manager() -> SSManager {
    SSManager::new(OpenAI::new("k".to_string(), "p".to_string(), "m".to_string()))
}

#[test]
fn candidate_gathers_what_an_event_says() {
    let m = manager();
    let times = Some(FileTimes { created: Some(Span { secs: 100, nanos: 0 }), modified: None });
    let c = m.classify("/d/.Screenshot 1.png", times, Span { secs: 102, nanos: 0 });
    assert_eq!(c.path, "/d/.Screenshot 1.png");
    assert!(c.is_candidate);
    assert!(c.is_fresh);
    assert_eq!(c.public_path, "/d/Screenshot 1.png");

    let c = m.classify("/d/report.pdf", times, Span { secs: 160, nanos: 0 });
    assert!(!c.is_candidate);
    assert!(!c.is_fresh);
    assert_eq!(c.public_path, "/d/report.pdf");

    let c = m.classify("/d/.Screenshot 1.png", None, Span { secs: 102, nanos: 0 });
    assert!(c.is_candidate);
    assert!(!c.is_fresh);
}

#[test]
fn visible_part_drops_one_marker() {
    let s = |v: Vec<char>| v.into_iter().collect::<String>();
    assert_eq!(s(visible_part(".a")), "a");
    assert_eq!(s(visible_part("..a")), ".a");
    assert_eq!(s(visible_part("a.")), "a.");
    assert_eq!(s(visible_part(".")), "");
    assert_eq!(s(visible_part("")), "");
}

#[test]
fn outcome_is_there_once_the_rename_has_ended() {
    let done = RenameStage::Renamed { path: "/d/a-red-bicycle.png".to_string() };
    assert!(matches!(done.outcome(), Some(Ok(path)) if path == "/d/a-red-bicycle.png"));
    let failed = RenameStage::Failed(RenameError::CopyFailed {
        source: "/d/a.png".to_string(),
        destination: "/d/b.png".to_string(),
    });
    assert!(matches!(failed.outcome(), Some(Err(RenameError::CopyFailed { source, destination }))
        if source == "/d/a.png" && destination == "/d/b.png"));
    let failed = RenameStage::Failed(RenameError::Caption(CaptionError::Status { status: 500 }));
    assert!(matches!(
        failed.outcome(),
        Some(Err(RenameError::Caption(CaptionError::Status { status: 500 })))
    ));
    let failed = RenameStage::Failed(RenameError::DeleteFailed { orphan: "/d/a.png".to_string() });
    assert!(matches!(failed.outcome(), Some(Err(RenameError::DeleteFailed { orphan }))
        if orphan == "/d/a.png"));
    for open in [
        RenameStage::AwaitingTimes { path: "a".to_string() },
        RenameStage::AwaitingCaption { path: "a".to_string() },
        RenameStage::Copying { source: "a".to_string(), destination: "b".to_string() },
        RenameStage::Deleting { source: "a".to_string(), destination: "b".to_string() },
    ] {
        assert!(open.outcome().is_none());
    }
}

#[test]
fn descriptor_names_the_daemon() {
    let d = LaunchD::new("/Users/me").descriptor();
    assert_eq!(d.label, "com.anubhavitis.peeksy");
    assert_eq!(d.program, "/opt/homebrew/bin/peeksy");
    assert_eq!(d.argument, "daemon");
    assert!(d.run_at_load);
    assert!(!d.keep_alive);
    assert_eq!(d.standard_out, "/tmp/peeksy.out");
    assert_eq!(d.standard_error, "/tmp/peeksy.err");
    assert_eq!(d.plist(), LaunchD::new("/Users/me").write_plist());
}

#[test]
fn descriptor_is_written_with_its_flags() {
    let d = ServiceDescriptor {
        label: "l".to_string(),
        program: "/bin/p".to_string(),
        argument: "a".to_string(),
        run_at_load: false,
        keep_alive: true,
        standard_out: "/o".to_string(),
        standard_error: "/e".to_string(),
    };
    let text = d.plist();
    assert!(text.contains("<key>Label</key>\n            <string>l</string>"));
    assert!(text.contains("<string>/bin/p</string>\n                <string>a</string>"));
    assert!(text.contains("<key>RunAtLoad</key>\n            <false/>"));
    assert!(text.contains("<key>KeepAlive</key>\n            <true/>"));
    assert!(text.contains("<key>StandardOutPath</key>\n            <string>/o</string>"));
    assert!(text.contains("<key>StandardErrorPath</key>\n            <string>/e</string>"));
    assert!(text.ends_with("</dict>\n        </plist>"));
}
