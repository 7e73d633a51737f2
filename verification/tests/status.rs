use blackforge::status::{Event, StatusBar};

#[test]
fn the_bar_follows_one_operation() {
    let mut bar = StatusBar::new();
    assert_eq!(bar.text, "ready");
    let id = bar.begin("installing");
    assert_eq!(id, 1);
    assert_eq!(bar.text, "installing");
    bar.event(id, Event::IndexChunk { done: 3, total: 10 });
    assert_eq!(bar.text, "package list 3 of 10");
    assert_eq!(bar.progress, Some((3, 10)));
    bar.event(id, Event::DownloadStarted { package: "A-a-1.0.0".to_owned(), total_bytes: Some(100) });
    assert_eq!(bar.text, "downloading A-a-1.0.0");
    assert_eq!(bar.progress, Some((0, 100)));
    bar.event(id, Event::DownloadStarted { package: "B-b-1.0.0".to_owned(), total_bytes: None });
    bar.event(id, Event::DownloadProgress { package: "A-a-1.0.0".to_owned(), bytes: 40 });
    assert_eq!(bar.progress, Some((40, 100)));
    bar.event(id, Event::DownloadFinished { package: "A-a-1.0.0".to_owned() });
    assert_eq!(bar.progress, Some((100, 100)));
    bar.event(id, Event::Installed { package: "A-a-1.0.0".to_owned() });
    assert_eq!(bar.text, "installed A-a-1.0.0");
    bar.event(id, Event::Removed { package: "C-c-1.0.0".to_owned() });
    assert_eq!(bar.text, "removed C-c-1.0.0");
    assert_eq!(bar.downloads.len(), 2);
    bar.end(id);
    assert_eq!(bar.text, "ready");
    assert!(bar.progress.is_none());
    assert!(bar.downloads.is_empty());
}

#[test]
fn late_events_change_nothing() {
    let mut bar = StatusBar::new();
    let first = bar.begin("first");
    let second = bar.begin("second");
    bar.end(first);
    assert_eq!(bar.text, "second");
    bar.event(first, Event::Installed { package: "X".to_owned() });
    assert_eq!(bar.text, "second");
    bar.event(second, Event::DownloadProgress { package: "unknown".to_owned(), bytes: 7 });
    assert!(bar.progress.is_none());
    bar.end(second);
    assert_eq!(bar.text, "ready");
    assert!(bar.running.is_empty());
}

#[test]
fn without_a_bar_nothing_happens() {
    let mut none: Option<StatusBar> = None;
    assert_eq!(blackforge::status::begin(&mut none, "work"), 0);
    blackforge::status::event(&mut none, 0, Event::Installed { package: "a".to_owned() });
    blackforge::status::end(&mut none, 0);
    assert!(none.is_none());
    let mut some = Some(StatusBar::new());
    let id = blackforge::status::begin(&mut some, "work");
    assert_eq!(id, 1);
    assert_eq!(some.as_ref().unwrap().text, "work");
    blackforge::status::event(&mut some, id, Event::Installed { package: "a-B-1.0.0".to_owned() });
    assert_eq!(some.as_ref().unwrap().text, "installed a-B-1.0.0");
    blackforge::status::end(&mut some, id);
    assert_eq!(some.as_ref().unwrap().text, "ready");
    assert!(some.as_ref().unwrap().running.is_empty());
}

#[test]
fn ending_an_unknown_operation_changes_nothing() {
    let mut bar = StatusBar::new();
    bar.end(7);
    assert_eq!(bar.text, "ready");
    assert!(bar.running.is_empty());
    assert!(bar.downloads.is_empty());
    assert!(bar.progress.is_none());
    let id = bar.begin("syncing");
    bar.event(id, Event::IndexChunk { done: 1, total: 4 });
    bar.end(id + 5);
    assert_eq!(bar.running, vec![id]);
    assert_eq!(bar.text, "package list 1 of 4");
    assert_eq!(bar.progress, Some((1, 4)));
}
