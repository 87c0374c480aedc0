//! The watch-loop core: echo suppression and the per-tick dedup/upsert
//! decision.
//!
//! Each tick the loop is handed one clipboard reading. The reading is
//! short-circuited when it repeats the previous raw capture, skipped once
//! when its fingerprint was announced by the application's own paste, and
//! otherwise committed to the store: a fresh entry when the fingerprint is
//! new, a resurface of the existing row when it is known.

use vstd::prelude::*;
use vstd::slice::slice_to_vec;
use vstd::string::StrSliceExecFns;
use vstd::utf8::encode_utf8;

use crate::sample::{
    sample_image, sample_text, spec_image_sample, spec_text_sample, ClipKind, Sample, SpecSample,
};
use crate::store::{spec_new_entry, spec_touched, SpecStore, Store};

verus! {

/// Mathematical model of the echo suppressor: the one fingerprint to be
/// skipped, if any.
pub type SpecIgnore = Option<Seq<char>>;

/// The echo suppressor: a single "ignore" slot, written by the paste path
/// right before it touches the OS clipboard, consumed by the watch loop.
/// A second announcement before the first is consumed replaces it.
pub struct EchoSuppressor {
    ignored: Option<String>,
}

impl View for EchoSuppressor {
    type V = SpecIgnore;

    closed spec fn view(&self) -> SpecIgnore {
        match self.ignored {
            Some(ref h) => Some(h@),
            None => None,
        }
    }
}

impl EchoSuppressor {
    /// A suppressor with nothing to ignore.
    pub fn new() -> (e: EchoSuppressor)
        ensures
            e@ is None,
    {
        EchoSuppressor { ignored: None }
    }

    /// Announces a fingerprint the application itself is about to write to
    /// the clipboard, overwriting any earlier announcement.
    pub fn set_ignore(&mut self, hash: String)
        ensures
            final(self)@ == Some(hash@),
    {
        self.ignored = Some(hash);
    }

    /// Reports whether the observed fingerprint is the announced one and, if
    /// so, clears the slot, so a genuinely new identical copy later is not
    /// suppressed again.
    pub fn check_and_clear(&mut self, hash: &String) -> (hit: bool)
        ensures
            hit == (old(self)@ == Some(hash@)),
            hit ==> final(self)@ is None,
            !hit ==> final(self)@ == old(self)@,
    {
        let hit = match &self.ignored {
            Some(h) => *h == *hash,
            None => false,
        };
        if hit {
            self.ignored = None;
        }
        hit
    }
}

/// Mathematical model of one raw capture, before canonicalization.
#[verifier::ext_equal]
pub ghost struct SpecRaw {
    pub kind: ClipKind,
    pub bytes: Seq<u8>,
}

/// One raw capture as read from the OS clipboard: the text's UTF-8 bytes,
/// or an image's raw pixel bytes. Compared against the previous tick before
/// any canonicalization or hashing is spent on it.
pub struct RawContent {
    pub kind: ClipKind,
    pub bytes: Vec<u8>,
}

impl View for RawContent {
    type V = SpecRaw;

    open spec fn view(&self) -> SpecRaw {
        SpecRaw { kind: self.kind, bytes: self.bytes@ }
    }
}

/// Mathematical model of the watcher state.
#[verifier::ext_equal]
pub ghost struct SpecWatcher {
    pub running: bool,
    pub prev: Option<SpecRaw>,
    pub ignored: SpecIgnore,
}

/// The watch loop's own state: its stop flag, the raw value observed by the
/// last committed or failed tick, and the echo suppressor.
pub struct Watcher {
    running: bool,
    prev: Option<RawContent>,
    echo: EchoSuppressor,
}

impl View for Watcher {
    type V = SpecWatcher;

    closed spec fn view(&self) -> SpecWatcher {
        SpecWatcher {
            running: self.running,
            prev: match self.prev {
                Some(ref p) => Some(p@),
                None => None,
            },
            ignored: self.echo@,
        }
    }
}

/// The event published to the GUI layer after a successful insert or touch.
pub struct Notification {
    pub id: u64,
    pub preview: String,
    pub kind: ClipKind,
    pub is_pinned: bool,
    pub created_at: u64,
}

/// Mathematical model of a notification.
#[verifier::ext_equal]
pub ghost struct SpecNotification {
    pub id: u64,
    pub preview: Seq<char>,
    pub kind: ClipKind,
    pub is_pinned: bool,
    pub created_at: u64,
}

impl View for Notification {
    type V = SpecNotification;

    open spec fn view(&self) -> SpecNotification {
        SpecNotification {
            id: self.id,
            preview: self.preview@,
            kind: self.kind,
            is_pinned: self.is_pinned,
            created_at: self.created_at,
        }
    }
}

/// What one tick decided.
pub enum Outcome {
    /// Nothing usable on the clipboard this tick.
    NoContent,
    /// The raw capture repeats the previous one; nothing was hashed or
    /// stored.
    SkippedUnchanged,
    /// The fingerprint was announced by the application's own paste; the
    /// announcement is consumed and the store untouched.
    SkippedEcho,
    /// A known fingerprint was re-observed: its row was resurfaced.
    Touched(Notification),
    /// A new fingerprint was observed: a fresh row was inserted.
    Inserted(Notification),
}

/// Mathematical model of an outcome.
#[verifier::ext_equal]
pub ghost enum SpecOutcome {
    NoContent,
    SkippedUnchanged,
    SkippedEcho,
    Touched(SpecNotification),
    Inserted(SpecNotification),
}

impl View for Outcome {
    type V = SpecOutcome;

    open spec fn view(&self) -> SpecOutcome {
        match self {
            Outcome::NoContent => SpecOutcome::NoContent,
            Outcome::SkippedUnchanged => SpecOutcome::SkippedUnchanged,
            Outcome::SkippedEcho => SpecOutcome::SkippedEcho,
            Outcome::Touched(n) => SpecOutcome::Touched(n@),
            Outcome::Inserted(n) => SpecOutcome::Inserted(n@),
        }
    }
}

/// The three pieces a tick leaves behind: the watcher state, the store, and
/// what was decided.
#[verifier::ext_equal]
pub ghost struct SpecStep {
    pub watcher: SpecWatcher,
    pub store: SpecStore,
    pub outcome: SpecOutcome,
}

/// The dedup/upsert resolution of one canonicalized sample, as spec.
/// An announced echo is consumed without any store mutation and without
/// moving the previous-capture marker; otherwise the marker is moved and
/// the sample is committed: a touch of the unique row carrying its
/// fingerprint, or a fresh insertion.
pub open spec fn spec_observe(
    w: SpecWatcher,
    st: SpecStore,
    raw: SpecRaw,
    s: SpecSample,
    now: u64,
) -> SpecStep {
    if w.ignored == Some(s.content_hash) {
        SpecStep {
            watcher: SpecWatcher { ignored: None, ..w },
            store: st,
            outcome: SpecOutcome::SkippedEcho,
        }
    } else {
        let w2 = SpecWatcher { prev: Some(raw), ..w };
        if st.contains_hash(s.content_hash) {
            let i = st.index_of_hash(s.content_hash);
            let e = st.entries[i];
            SpecStep {
                watcher: w2,
                store: SpecStore { entries: st.entries.update(i, spec_touched(e, now)), ..st },
                outcome: SpecOutcome::Touched(
                    SpecNotification {
                        id: e.id,
                        preview: s.preview,
                        kind: s.kind,
                        is_pinned: e.is_pinned,
                        created_at: now,
                    },
                ),
            }
        } else {
            SpecStep {
                watcher: w2,
                store: SpecStore {
                    entries: st.entries.push(spec_new_entry(st.next_id, s, now)),
                    next_id: (st.next_id + 1) as u64,
                },
                outcome: SpecOutcome::Inserted(
                    SpecNotification {
                        id: st.next_id,
                        preview: s.preview,
                        kind: s.kind,
                        is_pinned: false,
                        created_at: now,
                    },
                ),
            }
        }
    }
}

impl Watcher {
    /// A watcher in its initial state: running, no previous capture, nothing
    /// to ignore.
    pub fn new() -> (w: Watcher)
        ensures
            w@ == (SpecWatcher { running: true, prev: None, ignored: None }),
    {
        Watcher { running: true, prev: None, echo: EchoSuppressor::new() }
    }

    /// Whether the loop should keep polling.
    pub fn is_running(&self) -> (r: bool)
        ensures
            r == self@.running,
    {
        self.running
    }

    /// Announces a fingerprint the paste path is about to write back to the
    /// clipboard, so the next observation of it is suppressed.
    pub fn set_ignore(&mut self, hash: String)
        ensures
            final(self)@ == (SpecWatcher { ignored: Some(hash@), ..old(self)@ }),
    {
        self.echo.set_ignore(hash);
    }

    /// Whether the previous committed capture had this kind and these bytes.
    fn prev_matches(&self, kind: ClipKind, bytes: &Vec<u8>) -> (r: bool)
        ensures
            r == (self@.prev == Some((SpecRaw { kind: kind, bytes: bytes@ }))),
    {
        match &self.prev {
            Some(p) => {
                let same = p.kind == kind && p.bytes == *bytes;
                proof {
                    if same {
                        assert(p.bytes@ =~= bytes@);
                    }
                }
                same
            },
            None => false,
        }
    }

    /// Records that a tick got as far as the store, whether or not the store
    /// cooperated: the raw capture becomes the previous one, so a failing
    /// store is not hammered with retries of the same content.
    pub fn mark_observed(&mut self, raw: RawContent)
        ensures
            final(self)@ == (SpecWatcher { prev: Some(raw@), ..old(self)@ }),
    {
        self.prev = Some(raw);
    }

    /// Resolves one canonicalized sample against the store, exactly as
    /// `spec_observe` describes.
    pub fn observe(
        &mut self,
        store: &mut Store,
        raw: RawContent,
        sample: Sample,
        now: u64,
    ) -> (r: Outcome)
        requires
            old(store)@.wf(),
            old(store)@.next_id < u64::MAX,
        ensures
            ({
                let step = spec_observe(old(self)@, old(store)@, raw@, sample@, now);
                &&& final(self)@ == step.watcher
                &&& final(store)@ == step.store
                &&& r@ == step.outcome
                &&& final(store)@.wf()
            }),
    {
        let ghost w0 = self@;
        let ghost st0 = store@;
        let ghost h = sample@.content_hash;
        if self.echo.check_and_clear(&sample.content_hash) {
            proof {
                assert(self@ =~= spec_observe(w0, st0, raw@, sample@, now).watcher);
            }
            return Outcome::SkippedEcho;
        }
        self.prev = Some(raw);
        proof {
            assert(self@ =~= SpecWatcher { prev: Some(raw@), ..w0 });
        }
        match store.find_by_hash(&sample.content_hash) {
            Some(i) => {
                proof {
                    let j = st0.index_of_hash(h);
                    assert(0 <= j < st0.entries.len() && st0.entries[j].content_hash == h);
                    assert(j == i as int);
                }
                store.touch(i, now);
                let e = store.entry(i);
                let r = Outcome::Touched(
                    Notification {
                        id: e.id,
                        preview: sample.preview,
                        kind: sample.kind,
                        is_pinned: e.is_pinned,
                        created_at: now,
                    },
                );
                proof {
                    assert(store@ =~= spec_observe(w0, st0, raw@, sample@, now).store);
                    assert(r@ =~= spec_observe(w0, st0, raw@, sample@, now).outcome);
                }
                r
            },
            None => {
                let preview = sample.preview.clone();
                let kind = sample.kind;
                let id = store.insert(sample, now);
                let r = Outcome::Inserted(
                    Notification { id, preview, kind, is_pinned: false, created_at: now },
                );
                proof {
                    assert(store@ =~= spec_observe(w0, st0, raw@, sample@, now).store);
                    assert(r@ =~= spec_observe(w0, st0, raw@, sample@, now).outcome);
                }
                r
            },
        }
    }
}

impl Watcher {
    /// The paste path's half of echo suppression: looks the entry up by
    /// identifier, announces its fingerprint so the watch loop skips the
    /// write it is about to see, stamps the entry as surfaced now, and hands
    /// back the kind and content bytes to put on the OS clipboard.
    pub fn prepare_paste(&mut self, store: &mut Store, id: u64, now: u64) -> (r: Option<
        (ClipKind, Vec<u8>),
    >)
        requires
            old(store)@.wf(),
        ensures
            r is Some <==> old(store)@.contains_id(id),
            r is None ==> final(self)@ == old(self)@ && final(store)@ == old(store)@,
            r matches Some(p) ==> ({
                let i = old(store)@.index_of_id(id);
                let e = old(store)@.entries[i];
                &&& p.0 == e.kind
                &&& p.1@ == e.content
                &&& final(self)@ == (SpecWatcher { ignored: Some(e.content_hash), ..old(self)@ })
                &&& final(store)@.entries == old(store)@.entries.update(
                    i,
                    spec_touched(e, now),
                )
                &&& final(store)@.next_id == old(store)@.next_id
                &&& final(store)@.wf()
            }),
    {
        match store.find_by_id(id) {
            Some(i) => {
                proof {
                    let j = old(store)@.index_of_id(id);
                    assert(0 <= j < old(store)@.entries.len() && old(store)@.entries[j].id
                        == id);
                    assert(j == i as int);
                }
                let e = store.entry(i);
                let kind = e.kind;
                let content = slice_to_vec(e.content.as_slice());
                let hash = e.content_hash.clone();
                self.echo.set_ignore(hash);
                store.touch(i, now);
                Some((kind, content))
            },
            None => None,
        }
    }
}

/// Signals the watch loop to stop: it exits at the head of its next
/// iteration, within one polling interval, never mid-tick.
pub fn stop_clipboard_monitor(w: &mut Watcher)
    ensures
        final(w)@ == (SpecWatcher { running: false, ..old(w)@ }),
{
    w.running = false;
}

/// Mathematical model of a raw image capture.
#[verifier::ext_equal]
pub ghost struct SpecCapture {
    pub width: u32,
    pub height: u32,
    pub rgba: Seq<u8>,
}

/// A raw image capture: dimensions and the RGBA pixel bytes as the OS
/// handed them out.
pub struct ImageCapture {
    pub width: u32,
    pub height: u32,
    pub rgba: Vec<u8>,
}

impl View for ImageCapture {
    type V = SpecCapture;

    open spec fn view(&self) -> SpecCapture {
        SpecCapture { width: self.width, height: self.height, rgba: self.rgba@ }
    }
}

/// Mathematical model of one clipboard reading.
#[verifier::ext_equal]
pub ghost struct SpecReading {
    pub image: Option<SpecCapture>,
    pub text: Option<Seq<char>>,
}

/// Everything one poll of the OS clipboard turned up. Both kinds may be
/// present at once; the tick gives the image priority.
pub struct Reading {
    pub image: Option<ImageCapture>,
    pub text: Option<String>,
}

impl View for Reading {
    type V = SpecReading;

    open spec fn view(&self) -> SpecReading {
        SpecReading {
            image: match self.image {
                Some(ref c) => Some(c@),
                None => None,
            },
            text: match self.text {
                Some(ref t) => Some(t@),
                None => None,
            },
        }
    }
}

/// The text half of a tick: empty or absent text is no content; text whose
/// UTF-8 bytes repeat the previous capture is short-circuited before any
/// hashing; anything else is canonicalized and resolved.
pub open spec fn spec_tick_text(
    w: SpecWatcher,
    st: SpecStore,
    text: Option<Seq<char>>,
    now: u64,
) -> SpecStep {
    match text {
        Some(t) => {
            if t.len() == 0 {
                SpecStep { watcher: w, store: st, outcome: SpecOutcome::NoContent }
            } else if w.prev == Some(SpecRaw { kind: ClipKind::Text, bytes: encode_utf8(t) }) {
                SpecStep { watcher: w, store: st, outcome: SpecOutcome::SkippedUnchanged }
            } else {
                spec_observe(
                    w,
                    st,
                    SpecRaw { kind: ClipKind::Text, bytes: encode_utf8(t) },
                    spec_text_sample(t),
                    now,
                )
            }
        },
        None => SpecStep { watcher: w, store: st, outcome: SpecOutcome::NoContent },
    }
}

/// One full tick, as spec. An image present in the reading takes priority:
/// the text is not consulted unless the image is absent or its canonical
/// re-encoding fails, which counts as "no image present".
pub open spec fn spec_tick(w: SpecWatcher, st: SpecStore, r: SpecReading, now: u64) -> SpecStep {
    match r.image {
        Some(cap) => {
            if w.prev == Some(SpecRaw { kind: ClipKind::Image, bytes: cap.rgba }) {
                SpecStep { watcher: w, store: st, outcome: SpecOutcome::SkippedUnchanged }
            } else {
                match spec_image_sample(cap.width, cap.height, cap.rgba) {
                    Some(s) => spec_observe(
                        w,
                        st,
                        SpecRaw { kind: ClipKind::Image, bytes: cap.rgba },
                        s,
                        now,
                    ),
                    None => spec_tick_text(w, st, r.text, now),
                }
            }
        },
        None => spec_tick_text(w, st, r.text, now),
    }
}

impl Watcher {
    /// Runs one tick of the watch loop on a clipboard reading, exactly as
    /// `spec_tick` describes: image first, cheap short-circuit on a repeated
    /// raw capture, echo suppression, then dedup/upsert against the store.
    pub fn tick(&mut self, store: &mut Store, reading: Reading, now: u64) -> (r: Outcome)
        requires
            old(store)@.wf(),
            old(store)@.next_id < u64::MAX,
        ensures
            ({
                let step = spec_tick(old(self)@, old(store)@, reading@, now);
                &&& final(self)@ == step.watcher
                &&& final(store)@ == step.store
                &&& r@ == step.outcome
                &&& final(store)@.wf()
            }),
    {
        let Reading { image, text } = reading;
        if let Some(cap) = image {
            if self.prev_matches(ClipKind::Image, &cap.rgba) {
                return Outcome::SkippedUnchanged;
            }
            let ImageCapture { width, height, rgba } = cap;
            let raw_bytes = slice_to_vec(rgba.as_slice());
            match sample_image(width, height, rgba) {
                Some(s) => {
                    return self.observe(
                        store,
                        RawContent { kind: ClipKind::Image, bytes: raw_bytes },
                        s,
                        now,
                    );
                },
                None => {},
            }
        }
        if let Some(t) = text {
            let ts = t.as_str();
            if ts.unicode_len() == 0 {
                return Outcome::NoContent;
            }
            let bytes = ts.as_bytes_vec();
            if self.prev_matches(ClipKind::Text, &bytes) {
                return Outcome::SkippedUnchanged;
            }
            let s = sample_text(ts);
            return self.observe(store, RawContent { kind: ClipKind::Text, bytes }, s, now);
        }
        Outcome::NoContent
    }
}

} // verus!
