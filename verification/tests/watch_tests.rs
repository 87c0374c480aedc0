use winpaste::fingerprint::fingerprint_bytes;
use winpaste::sample::{sample_image, sample_text, ClipKind};
use winpaste::store::Store;
use winpaste::watch::{stop_clipboard_monitor, ImageCapture, Outcome, Reading, Watcher};

fn text_reading(t: &str) -> Reading {
    Reading { image: None, text: Some(String::from(t)) }
}

#[test]
fn scenario_insert_skip_insert_touch() {
    let mut w = Watcher::new();
    let mut store = Store::new();
    let h1 = fingerprint_bytes(b"hello");

    // Tick 1: clipboard holds "hello": a row is inserted.
    let r1 = w.tick(&mut store, text_reading("hello"), 1);
    match r1 {
        Outcome::Inserted(n) => {
            assert_eq!(n.preview, "hello");
            assert_eq!(n.kind, ClipKind::Text);
            assert!(!n.is_pinned);
            assert_eq!(n.created_at, 1);
        },
        _ => panic!("first observation of hello must insert"),
    }
    assert_eq!(store.len(), 1);
    assert_eq!(store.entry(0).content_hash, h1);
    assert_eq!(store.entry(0).preview, "hello");

    // Tick 2: clipboard unchanged: no mutation.
    let r2 = w.tick(&mut store, text_reading("hello"), 2);
    assert!(matches!(r2, Outcome::SkippedUnchanged));
    assert_eq!(store.len(), 1);
    assert_eq!(store.entry(0).created_at, 1);

    // Tick 3: clipboard now "world": a second row.
    let r3 = w.tick(&mut store, text_reading("world"), 3);
    assert!(matches!(r3, Outcome::Inserted(_)));
    assert_eq!(store.len(), 2);

    // Tick 4: clipboard reverts to "hello": the existing row is touched,
    // no new row, total count stays 2.
    let r4 = w.tick(&mut store, text_reading("hello"), 4);
    match r4 {
        Outcome::Touched(n) => {
            assert_eq!(n.id, store.entry(0).id);
            assert_eq!(n.created_at, 4);
        },
        _ => panic!("re-observing hello must touch, not insert"),
    }
    assert_eq!(store.len(), 2);
    assert_eq!(store.entry(0).created_at, 4);
    assert!(!store.entry(0).is_deleted);
}

#[test]
fn idempotent_observation_keeps_one_row() {
    let mut w = Watcher::new();
    let mut store = Store::new();
    for tick in 0..5u64 {
        w.tick(&mut store, text_reading("same thing"), tick);
    }
    assert_eq!(store.len(), 1);
    // Only the first of the run committed; the rest were short-circuited.
    assert_eq!(store.entry(0).created_at, 0);
}

#[test]
fn resurrection_clears_soft_delete_in_place() {
    let mut w = Watcher::new();
    let mut store = Store::new();
    let r1 = w.tick(&mut store, text_reading("keep me"), 1);
    let id = match r1 {
        Outcome::Inserted(n) => n.id,
        _ => panic!("expected insert"),
    };

    assert!(store.soft_delete(id));
    assert!(store.entry(0).is_deleted);

    // Something else lands on the clipboard in between.
    w.tick(&mut store, text_reading("other"), 2);

    // The deleted content is observed again: same row, flag cleared.
    let r3 = w.tick(&mut store, text_reading("keep me"), 3);
    match r3 {
        Outcome::Touched(n) => assert_eq!(n.id, id),
        _ => panic!("re-observing soft-deleted content must touch"),
    }
    assert_eq!(store.len(), 2);
    assert!(!store.entry(0).is_deleted);
    assert_eq!(store.entry(0).created_at, 3);
}

#[test]
fn soft_delete_of_unknown_id_changes_nothing() {
    let mut store = Store::new();
    assert!(!store.soft_delete(42));
    assert_eq!(store.len(), 0);
}

#[test]
fn echo_suppression_skips_exactly_once() {
    let mut w = Watcher::new();
    let mut store = Store::new();
    let h = fingerprint_bytes(b"pasted text");

    w.set_ignore(h);

    // First observation after the announcement: no store mutation.
    let r1 = w.tick(&mut store, text_reading("pasted text"), 1);
    assert!(matches!(r1, Outcome::SkippedEcho));
    assert_eq!(store.len(), 0);

    // Second observation: the announcement is consumed, a normal insert.
    let r2 = w.tick(&mut store, text_reading("pasted text"), 2);
    assert!(matches!(r2, Outcome::Inserted(_)));
    assert_eq!(store.len(), 1);
}

#[test]
fn prepare_paste_announces_and_touches() {
    let mut w = Watcher::new();
    let mut store = Store::new();
    let r1 = w.tick(&mut store, text_reading("to paste"), 1);
    let id = match r1 {
        Outcome::Inserted(n) => n.id,
        _ => panic!("expected insert"),
    };

    let p = w.prepare_paste(&mut store, id, 7).expect("entry exists");
    assert_eq!(p.0, ClipKind::Text);
    assert_eq!(p.1, b"to paste".to_vec());
    assert_eq!(store.entry(0).created_at, 7);

    // The watcher sees its own write back: suppressed, nothing stored twice.
    // The raw capture must differ from the previous one for the echo check
    // to be reached, as after an intervening clipboard change.
    w.tick(&mut store, text_reading("something else"), 8);
    let r2 = w.tick(&mut store, text_reading("to paste"), 9);
    assert!(matches!(r2, Outcome::SkippedEcho));
    assert_eq!(store.len(), 2);
}

#[test]
fn prepare_paste_of_unknown_id_is_none() {
    let mut w = Watcher::new();
    let mut store = Store::new();
    assert!(w.prepare_paste(&mut store, 99, 1).is_none());
}

#[test]
fn image_takes_priority_over_text() {
    let mut w = Watcher::new();
    let mut store = Store::new();
    let reading = Reading {
        image: Some(ImageCapture { width: 1, height: 1, rgba: vec![255, 0, 0, 255] }),
        text: Some(String::from("stale text")),
    };
    let r = w.tick(&mut store, reading, 1);
    match r {
        Outcome::Inserted(n) => {
            assert_eq!(n.kind, ClipKind::Image);
            assert_eq!(n.preview, "[Image]");
        },
        _ => panic!("the image must be the one inserted"),
    }
    assert_eq!(store.len(), 1);
    assert_eq!(store.entry(0).kind, ClipKind::Image);
}

#[test]
fn failed_image_falls_through_to_text() {
    let mut w = Watcher::new();
    let mut store = Store::new();
    // Two bytes cannot be a 1x1 RGBA image: the canonical encoding fails
    // and the tick treats the reading as text-only.
    let reading = Reading {
        image: Some(ImageCapture { width: 1, height: 1, rgba: vec![255, 0] }),
        text: Some(String::from("fallback")),
    };
    let r = w.tick(&mut store, reading, 1);
    match r {
        Outcome::Inserted(n) => assert_eq!(n.kind, ClipKind::Text),
        _ => panic!("expected the text to be inserted"),
    }
    assert_eq!(store.len(), 1);
}

#[test]
fn image_dedup_is_stable_across_captures() {
    // The same logical pixels canonicalize and fingerprint identically.
    let a = sample_image(1, 1, vec![10, 20, 30, 40]).expect("encodable");
    let b = sample_image(1, 1, vec![10, 20, 30, 40]).expect("encodable");
    assert_eq!(a.content_hash, b.content_hash);
    assert_eq!(a.content_hash.len(), 64);
    assert_eq!(a.preview, "[Image]");
    let meta = a.metadata.expect("image sample carries metadata");
    assert_eq!(meta.width, 1);
    assert_eq!(meta.height, 1);
    assert_eq!(meta.size_bytes, a.content.len());
    // The canonical content is a PNG rendering, not the raw capture.
    assert_ne!(a.content, vec![10, 20, 30, 40]);
    assert_eq!(&a.content[..8], &[0x89, b'P', b'N', b'G', 0x0d, 0x0a, 0x1a, 0x0a]);
}

#[test]
fn text_sample_hashes_utf8_bytes() {
    let s = sample_text("caf\u{00e9}");
    assert_eq!(s.kind, ClipKind::Text);
    assert_eq!(s.content, "caf\u{00e9}".as_bytes().to_vec());
    assert_eq!(s.content_hash, fingerprint_bytes("caf\u{00e9}".as_bytes()));
    assert_eq!(s.preview, "caf\u{00e9}");
    assert!(s.metadata.is_none());
}

#[test]
fn empty_or_absent_reading_is_no_content() {
    let mut w = Watcher::new();
    let mut store = Store::new();
    let r1 = w.tick(&mut store, Reading { image: None, text: None }, 1);
    assert!(matches!(r1, Outcome::NoContent));
    let r2 = w.tick(&mut store, text_reading(""), 2);
    assert!(matches!(r2, Outcome::NoContent));
    assert_eq!(store.len(), 0);
}

#[test]
fn marking_observed_prevents_hot_retry() {
    // When a tick is abandoned on a storage error, the raw capture is still
    // recorded, so the next tick short-circuits instead of hammering the
    // failing store with the same content.
    let mut w = Watcher::new();
    let mut store = Store::new();
    w.mark_observed(winpaste::watch::RawContent {
        kind: ClipKind::Text,
        bytes: b"flaky".to_vec(),
    });
    let r = w.tick(&mut store, text_reading("flaky"), 1);
    assert!(matches!(r, Outcome::SkippedUnchanged));
    assert_eq!(store.len(), 0);
}

#[test]
fn stop_signal_halts_the_loop_flag() {
    let mut w = Watcher::new();
    assert!(w.is_running());
    stop_clipboard_monitor(&mut w);
    assert!(!w.is_running());
}

#[test]
fn active_len_excludes_soft_deleted() {
    let mut w = Watcher::new();
    let mut store = Store::new();
    let id = match w.tick(&mut store, text_reading("one"), 1) {
        Outcome::Inserted(n) => n.id,
        _ => panic!("expected insert"),
    };
    w.tick(&mut store, text_reading("two"), 2);
    assert_eq!(store.active_len(), 2);
    store.soft_delete(id);
    assert_eq!(store.active_len(), 1);
    assert_eq!(store.len(), 2);
}

#[test]
fn clear_removes_everything() {
    let mut w = Watcher::new();
    let mut store = Store::new();
    w.tick(&mut store, text_reading("a"), 1);
    w.tick(&mut store, text_reading("b"), 2);
    store.clear();
    assert_eq!(store.len(), 0);
    assert_eq!(store.active_len(), 0);
}

#[test]
fn find_by_hash_sees_deleted_rows() {
    let mut w = Watcher::new();
    let mut store = Store::new();
    let id = match w.tick(&mut store, text_reading("ghost"), 1) {
        Outcome::Inserted(n) => n.id,
        _ => panic!("expected insert"),
    };
    store.soft_delete(id);
    let h = fingerprint_bytes(b"ghost");
    assert!(store.find_by_hash(&h).is_some());
    assert!(store.find_by_hash(&String::from("no such hash")).is_none());
}
