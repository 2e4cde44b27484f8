use subtitle_bridge::seconds::Seconds;
use subtitle_bridge::store::SubtitleStore;
use subtitle_bridge::subtitle::Subtitle;

fn subtitle(id: u64, text: &str) -> Subtitle {
    Subtitle {
        id,
        text: text.to_string(),
        sub_start: Seconds::from_millis(1_000 * id as i64),
        sub_end: Seconds::from_millis(1_000 * id as i64 + 500),
        media_path: "/movies/a.mkv".to_string(),
        aid: 1,
    }
}

#[test]
fn new_store_is_empty() {
    let store = SubtitleStore::new();
    assert_eq!(store.len(), 0);
    assert!(store.get(1).is_none());
}

#[test]
fn stored_subtitles_are_found_by_id() {
    let mut store = SubtitleStore::new();
    store.insert(subtitle(1, "one"));
    store.insert(subtitle(2, "two"));
    assert_eq!(store.len(), 2);
    assert_eq!(store.get(1), Some(&subtitle(1, "one")));
    assert_eq!(store.get(2), Some(&subtitle(2, "two")));
    assert!(store.get(3).is_none());
    assert!(store.get(0).is_none());
}

#[test]
fn insert_overwrites_the_same_id() {
    let mut store = SubtitleStore::new();
    store.insert(subtitle(7, "old"));
    store.insert(subtitle(7, "new"));
    assert_eq!(store.len(), 1);
    assert_eq!(store.get(7).map(|s| s.text.as_str()), Some("new"));
}

#[test]
fn duplicate_copies_every_field() {
    let first = subtitle(3, "three");
    let copy = first.duplicate();
    assert_eq!(copy, first);
    assert_eq!(copy, first.clone());
}
