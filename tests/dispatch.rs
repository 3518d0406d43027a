use watchexec_sse::dispatch::{
    classify, needs_rearm, next_step, DispatchOutcome, FatalError, LoopStep, RawNotice,
};

fn s(x: &str) -> String {
    String::from(x)
}

#[test]
fn notices_and_rescans_are_ignored() {
    for n in [RawNotice::NoticeWrite(s("a")), RawNotice::NoticeRemove(s("a")), RawNotice::Rescan] {
        let o = classify(&n, false);
        assert!(matches!(o, DispatchOutcome::Ignored));
        assert_eq!(next_step(&o), LoopStep::Continue);
        assert!(!needs_rearm(&n));
    }
}

#[test]
fn writes_are_actionable() {
    for n in [RawNotice::Create(s("a")), RawNotice::Write(s("a")), RawNotice::Chmod(s("a"))] {
        let o = classify(&n, false);
        assert!(matches!(o, DispatchOutcome::Actionable));
        assert_eq!(next_step(&o), LoopStep::Update);
    }
}

#[test]
fn remove_with_rearm_is_actionable() {
    let n = RawNotice::Remove(s("src/a.rs"));
    assert!(needs_rearm(&n));
    let o = classify(&n, true);
    assert!(matches!(o, DispatchOutcome::Actionable));
    assert_eq!(next_step(&o), LoopStep::Update);
}

#[test]
fn remove_without_rearm_is_fatal() {
    let o = classify(&RawNotice::Remove(s("src/a.rs")), false);
    assert_eq!(next_step(&o), LoopStep::Halt);
    match o {
        DispatchOutcome::FatalError(e) => {
            assert!(matches!(&e, FatalError::FileDeleted(p) if p == "src/a.rs"));
            assert_eq!(e.message("watch"), "[watch] src/a.rs: File was deleted");
        }
        _ => panic!("expected a fatal outcome"),
    }
}

#[test]
fn rename_is_always_fatal() {
    for rearmed in [false, true] {
        for to in ["b.rs", "a.rs", ""] {
            let o = classify(&RawNotice::Rename(s("a.rs"), s(to)), rearmed);
            assert_eq!(next_step(&o), LoopStep::Halt);
            match o {
                DispatchOutcome::FatalError(e) => {
                    assert_eq!(e.message("watch"), "[watch] a.rs: File was renamed")
                }
                _ => panic!("expected a fatal outcome"),
            }
        }
    }
}

#[test]
fn notifier_error_is_fatal_verbatim() {
    let o = classify(&RawNotice::Error(s("io failure"), Some(s("dir"))), false);
    match o {
        DispatchOutcome::FatalError(e) => assert_eq!(e.message("w"), "[w] dir: io failure"),
        _ => panic!("expected a fatal outcome"),
    }
    let o = classify(&RawNotice::Error(s("io failure"), None), false);
    match o {
        DispatchOutcome::FatalError(e) => assert_eq!(e.message("w"), "[w] io failure"),
        _ => panic!("expected a fatal outcome"),
    }
}

#[test]
fn startup_error_messages() {
    assert_eq!(FatalError::WatchNotFound(s("x")).message("w"), "w: x: file not found");
    assert_eq!(FatalError::WatchFailed(s("x")).message("w"), "w: x: file error");
    assert_eq!(FatalError::BindFailure.message("w"), "w: error starting the server");
    assert_eq!(FatalError::LaunchFailure.message("w"), "[w] Failed to run command");
}

#[test]
fn loop_over_a_notice_sequence() {
    let notices = vec![
        RawNotice::NoticeWrite(s("a")),
        RawNotice::Write(s("a")),
        RawNotice::Rescan,
        RawNotice::Remove(s("b")),
        RawNotice::Chmod(s("a")),
        RawNotice::Remove(s("c")),
        RawNotice::Write(s("a")),
    ];
    let rearm = [false, false, false, true, false, false, false];
    let mut updates = Vec::new();
    for (i, n) in notices.iter().enumerate() {
        match next_step(&classify(n, rearm[i])) {
            LoopStep::Continue => {}
            LoopStep::Update => updates.push(i),
            LoopStep::Halt => break,
        }
    }
    assert_eq!(updates, vec![1, 3, 4]);
}
