use revere::notification::{fingerprint, image_path_of, DedupGate, Notification};

fn record(title: Option<&str>, image: Option<&str>, summary: Option<&str>) -> Notification {
    Notification {
        path: String::from("/org/mpris/MediaPlayer2"),
        title: title.map(String::from),
        summary: summary.map(String::from),
        image: image.map(String::from),
    }
}

fn shown(records: &[Notification]) -> usize {
    let mut dedup = DedupGate::new();
    records.iter().filter(|r| dedup.accept(r)).count()
}

#[test]
fn fingerprint_ignores_summary_and_path() {
    let a = record(Some("Song"), Some("/tmp/a.png"), Some("one"));
    let mut b = record(Some("Song"), Some("/tmp/a.png"), Some("two"));
    b.path = String::from("/other");
    assert_eq!(a.hash(), b.hash());
    assert!(a.hash().is_some());
}

#[test]
fn fingerprint_depends_on_title_and_image() {
    let a = fingerprint("Song", &Some(String::from("/tmp/a.png")));
    assert_ne!(a, fingerprint("Other", &Some(String::from("/tmp/a.png"))));
    assert_ne!(a, fingerprint("Song", &Some(String::from("/tmp/b.png"))));
    assert_ne!(a, fingerprint("Song", &None));
    assert_ne!(fingerprint("ab", &Some(String::from("c"))), fingerprint("a", &Some(String::from("bc"))));
    assert_eq!(a, fingerprint("Song", &Some(String::from("/tmp/a.png"))));
}

#[test]
fn untitled_has_no_fingerprint() {
    assert_eq!(record(None, Some("/tmp/a.png"), None).hash(), None);
}

#[test]
fn repeated_record_shown_once() {
    let a = record(Some("A"), None, None);
    assert_eq!(shown(&[record(Some("A"), None, None), a, record(Some("A"), None, Some("x"))]), 1);
}

#[test]
fn alternating_records_all_shown() {
    let recs = [record(Some("A"), None, None), record(Some("B"), None, None), record(Some("A"), None, None)];
    assert_eq!(shown(&recs), 3);
}

#[test]
fn untitled_record_does_not_reset_filter() {
    let recs = [record(Some("A"), None, None), record(None, None, None), record(Some("A"), None, None)];
    assert_eq!(shown(&recs), 1);
}

#[test]
fn untitled_record_leaves_state() {
    let mut dedup = DedupGate::new();
    assert!(dedup.accept(&record(Some("A"), None, None)));
    let before = dedup;
    assert!(!dedup.accept(&record(None, Some("/x.png"), None)));
    assert_eq!(dedup, before);
}

#[test]
fn accept_fingerprint_updates_baseline() {
    let mut dedup = DedupGate::new();
    assert!(!dedup.accept_fingerprint(0));
    assert!(dedup.accept_fingerprint(7));
    assert_eq!(dedup.last_fingerprint, 7);
    assert!(!dedup.accept_fingerprint(7));
    assert!(dedup.accept_fingerprint(9));
    assert_eq!(dedup.last_fingerprint, 9);
}

#[test]
fn art_url_scheme_removed() {
    assert_eq!(image_path_of("file:///home/u/cover.png"), "/home/u/cover.png");
    assert_eq!(image_path_of("/plain/path.png"), "/plain/path.png");
    assert_eq!(image_path_of("file://a/file://b"), "a/b");
    assert_eq!(image_path_of(""), "");
    assert_eq!(image_path_of("file:/"), "file:/");
}

#[test]
fn from_metadata_builds_record() {
    let n = Notification::from_metadata(
        String::from("/p"),
        Some(String::from("Title")),
        Some(String::from("file:///tmp/art.png")),
    );
    assert_eq!(n.path, "/p");
    assert_eq!(n.title.as_deref(), Some("Title"));
    assert_eq!(n.summary, None);
    assert_eq!(n.image.as_deref(), Some("/tmp/art.png"));
}
