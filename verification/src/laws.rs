//! The laws the detection/dedup core obeys, proved over the spec-level
//! transition that `Watcher::tick` and `Watcher::observe` are verified
//! against.

use vstd::prelude::*;
use vstd::utf8::encode_utf8;

use crate::sample::{spec_image_sample, spec_text_sample, ClipKind, SpecSample};
use crate::store::{spec_soft_deleted, SpecStore};
use crate::watch::{
    spec_observe, spec_tick, spec_tick_text, SpecCapture, SpecOutcome, SpecRaw, SpecReading,
    SpecStep, SpecWatcher,
};

verus! {

/// Resolving a sample keeps the store well formed: in particular, at most
/// one row per fingerprint survives every commit, re-observation updating
/// the existing row rather than duplicating it.
pub proof fn lemma_observe_preserves_wf(
    w: SpecWatcher,
    st: SpecStore,
    raw: SpecRaw,
    s: SpecSample,
    now: u64,
)
    requires
        st.wf(),
        st.next_id < u64::MAX,
    ensures
        spec_observe(w, st, raw, s, now).store.wf(),
{
    let step = spec_observe(w, st, raw, s, now);
    if w.ignored == Some(s.content_hash) {
    } else if st.contains_hash(s.content_hash) {
        let i = st.index_of_hash(s.content_hash);
        assert(0 <= i < st.entries.len() && st.entries[i].content_hash == s.content_hash);
        assert forall|k: int| 0 <= k < step.store.entries.len() implies #[trigger] step.store.entries[k].content_hash
            == st.entries[k].content_hash && step.store.entries[k].id == st.entries[k].id by {}
    } else {
        let n = st.entries.len() as int;
        assert forall|k: int| 0 <= k < n implies #[trigger] step.store.entries[k].content_hash
            != step.store.entries[n].content_hash by {
            if st.entries[k].content_hash == s.content_hash {
                assert(st.contains_hash(s.content_hash));
            }
        }
    }
}

/// One full tick keeps the store well formed.
pub proof fn lemma_tick_preserves_wf(w: SpecWatcher, st: SpecStore, r: SpecReading, now: u64)
    requires
        st.wf(),
        st.next_id < u64::MAX,
    ensures
        spec_tick(w, st, r, now).store.wf(),
{
    match r.image {
        Some(cap) => {
            if w.prev == Some(SpecRaw { kind: ClipKind::Image, bytes: cap.rgba }) {
            } else {
                match spec_image_sample(cap.width, cap.height, cap.rgba) {
                    Some(s) => {
                        lemma_observe_preserves_wf(
                            w,
                            st,
                            SpecRaw { kind: ClipKind::Image, bytes: cap.rgba },
                            s,
                            now,
                        );
                    },
                    None => {
                        lemma_tick_text_preserves_wf(w, st, r.text, now);
                    },
                }
            }
        },
        None => {
            lemma_tick_text_preserves_wf(w, st, r.text, now);
        },
    }
}

/// The text half of a tick keeps the store well formed.
pub proof fn lemma_tick_text_preserves_wf(
    w: SpecWatcher,
    st: SpecStore,
    text: Option<Seq<char>>,
    now: u64,
)
    requires
        st.wf(),
        st.next_id < u64::MAX,
    ensures
        spec_tick_text(w, st, text, now).store.wf(),
{
    match text {
        Some(t) => {
            if t.len() == 0 {
            } else if w.prev == Some(SpecRaw { kind: ClipKind::Text, bytes: encode_utf8(t) }) {
            } else {
                lemma_observe_preserves_wf(
                    w,
                    st,
                    SpecRaw { kind: ClipKind::Text, bytes: encode_utf8(t) },
                    spec_text_sample(t),
                    now,
                );
            }
        },
        None => {},
    }
}

/// Observing the same text twice in a row persists exactly one entry
/// carrying its fingerprint, stamped by the tick that committed it; the
/// repeat tick is short-circuited before any hashing and mutates nothing.
pub proof fn lemma_idempotent_observation(
    w: SpecWatcher,
    st: SpecStore,
    t: Seq<char>,
    now1: u64,
    now2: u64,
)
    requires
        st.wf(),
        st.next_id < u64::MAX,
        t.len() > 0,
        w.ignored != Some(spec_text_sample(t).content_hash),
        w.prev != Some((SpecRaw { kind: ClipKind::Text, bytes: encode_utf8(t) })),
    ensures
        ({
            let r = SpecReading { image: None, text: Some(t) };
            let h = spec_text_sample(t).content_hash;
            let step1 = spec_tick(w, st, r, now1);
            let step2 = spec_tick(step1.watcher, step1.store, r, now2);
            &&& step1.store.contains_hash(h)
            &&& (forall|i: int, j: int|
                #![auto]
                (0 <= i < step1.store.entries.len() && 0 <= j < step1.store.entries.len()
                    && step1.store.entries[i].content_hash == h
                    && step1.store.entries[j].content_hash == h) ==> i == j)
            &&& step1.store.entries[step1.store.index_of_hash(h)].created_at == now1
            &&& !step1.store.entries[step1.store.index_of_hash(h)].is_deleted
            &&& step2.outcome is SkippedUnchanged
            &&& step2.store == step1.store
            &&& step2.watcher == step1.watcher
        }),
{
    let r = SpecReading { image: None, text: Some(t) };
    let h = spec_text_sample(t).content_hash;
    let raw = SpecRaw { kind: ClipKind::Text, bytes: encode_utf8(t) };
    let step1 = spec_tick(w, st, r, now1);
    lemma_tick_preserves_wf(w, st, r, now1);
    if st.contains_hash(h) {
        let i = st.index_of_hash(h);
        assert(0 <= i < st.entries.len() && st.entries[i].content_hash == h);
        assert(step1.store.entries[i].content_hash == h);
        assert(step1.store.contains_hash(h));
        let k = step1.store.index_of_hash(h);
        assert(0 <= k < step1.store.entries.len() && step1.store.entries[k].content_hash == h);
        assert(k == i);
    } else {
        let n = st.entries.len() as int;
        assert(step1.store.entries[n].content_hash == h);
        assert(step1.store.contains_hash(h));
        let k = step1.store.index_of_hash(h);
        assert(0 <= k < step1.store.entries.len() && step1.store.entries[k].content_hash == h);
        assert(k == n);
    }
    assert(step1.watcher.prev == Some(raw));
}

/// The state left by a row of consecutive ticks on one unchanging reading,
/// one tick per listed time.
pub open spec fn spec_tick_run(
    w: SpecWatcher,
    st: SpecStore,
    r: SpecReading,
    times: Seq<u64>,
) -> SpecStep
    recommends
        times.len() >= 1,
    decreases times.len(),
{
    if times.len() <= 1 {
        spec_tick(w, st, r, times[0])
    } else {
        let s = spec_tick_run(w, st, r, times.drop_last());
        spec_tick(s.watcher, s.store, r, times.last())
    }
}

/// Observing the same text any number of times in a row leaves exactly the
/// state of the first tick: every later tick is short-circuited on the raw
/// capture and mutates nothing, so one entry persists, stamped by the tick
/// that committed it.
pub proof fn lemma_idempotent_run(w: SpecWatcher, st: SpecStore, t: Seq<char>, times: Seq<u64>)
    requires
        st.wf(),
        st.next_id < u64::MAX,
        t.len() > 0,
        times.len() >= 1,
        w.ignored != Some(spec_text_sample(t).content_hash),
        w.prev != Some((SpecRaw { kind: ClipKind::Text, bytes: encode_utf8(t) })),
    ensures
        ({
            let r = SpecReading { image: None, text: Some(t) };
            let first = spec_tick(w, st, r, times[0]);
            let run = spec_tick_run(w, st, r, times);
            &&& run.watcher == first.watcher
            &&& run.store == first.store
            &&& times.len() > 1 ==> run.outcome is SkippedUnchanged
        }),
    decreases times.len(),
{
    let r = SpecReading { image: None, text: Some(t) };
    let raw = SpecRaw { kind: ClipKind::Text, bytes: encode_utf8(t) };
    let first = spec_tick(w, st, r, times[0]);
    assert(first.watcher.prev == Some(raw));
    if times.len() > 1 {
        lemma_idempotent_run(w, st, t, times.drop_last());
        assert(times.drop_last()[0] == times[0]);
    }
}

/// Re-observing known content that did not just sit on the clipboard
/// resurfaces its row: `created_at` becomes the time of this, most recent,
/// observation, the row keeps its identifier, and no new row appears.
pub proof fn lemma_reobservation_updates_recency(
    w: SpecWatcher,
    st: SpecStore,
    t: Seq<char>,
    now: u64,
)
    requires
        st.wf(),
        t.len() > 0,
        st.contains_hash(spec_text_sample(t).content_hash),
        w.ignored != Some(spec_text_sample(t).content_hash),
        w.prev != Some((SpecRaw { kind: ClipKind::Text, bytes: encode_utf8(t) })),
    ensures
        ({
            let h = spec_text_sample(t).content_hash;
            let i = st.index_of_hash(h);
            let step = spec_tick(w, st, SpecReading { image: None, text: Some(t) }, now);
            &&& step.outcome matches SpecOutcome::Touched(n) && n.id == st.entries[i].id
                && n.created_at == now
            &&& step.store.entries.len() == st.entries.len()
            &&& step.store.entries[i].id == st.entries[i].id
            &&& step.store.entries[i].created_at == now
            &&& !step.store.entries[i].is_deleted
        }),
{
    let h = spec_text_sample(t).content_hash;
    let i = st.index_of_hash(h);
    assert(0 <= i < st.entries.len() && st.entries[i].content_hash == h);
}

/// Soft-deleting an entry and then re-observing content with the same
/// fingerprint resurrects the same row — `is_deleted` is cleared in place —
/// rather than creating a new one.
pub proof fn lemma_resurrection(
    w: SpecWatcher,
    st: SpecStore,
    raw: SpecRaw,
    s: SpecSample,
    id: u64,
    now: u64,
)
    requires
        st.wf(),
        st.contains_id(id),
        st.entries[st.index_of_id(id)].content_hash == s.content_hash,
        w.ignored != Some(s.content_hash),
    ensures
        ({
            let i = st.index_of_id(id);
            let st1 = SpecStore {
                entries: st.entries.update(i, spec_soft_deleted(st.entries[i])),
                ..st
            };
            let step = spec_observe(w, st1, raw, s, now);
            &&& step.outcome matches SpecOutcome::Touched(n) && n.id == id
            &&& step.store.entries.len() == st.entries.len()
            &&& step.store.entries[i].id == id
            &&& !step.store.entries[i].is_deleted
        }),
{
    let i = st.index_of_id(id);
    assert(0 <= i < st.entries.len() && st.entries[i].id == id);
    let st1 = SpecStore { entries: st.entries.update(i, spec_soft_deleted(st.entries[i])), ..st };
    assert(st1.entries[i].content_hash == s.content_hash);
    assert(st1.contains_hash(s.content_hash));
    let k = st1.index_of_hash(s.content_hash);
    assert(0 <= k < st1.entries.len() && st1.entries[k].content_hash == s.content_hash);
    assert forall|a: int, b: int|
        0 <= a < b < st1.entries.len() implies #[trigger] st1.entries[a].content_hash
        != #[trigger] st1.entries[b].content_hash by {
        assert(st1.entries[a].content_hash == st.entries[a].content_hash);
        assert(st1.entries[b].content_hash == st.entries[b].content_hash);
    }
    assert(k == i);
}

/// Announcing a fingerprint suppresses exactly one observation of it: the
/// suppressed tick mutates nothing, moves no previous-capture marker, and
/// consumes the announcement; the next observation of the same content
/// commits normally — a touch when the fingerprint is stored, an insertion
/// when it is not.
pub proof fn lemma_echo_suppression(
    w: SpecWatcher,
    st: SpecStore,
    t: Seq<char>,
    now1: u64,
    now2: u64,
)
    requires
        st.wf(),
        t.len() > 0,
        w.prev != Some((SpecRaw { kind: ClipKind::Text, bytes: encode_utf8(t) })),
    ensures
        ({
            let r = SpecReading { image: None, text: Some(t) };
            let h = spec_text_sample(t).content_hash;
            let w1 = SpecWatcher { ignored: Some(h), ..w };
            let step1 = spec_tick(w1, st, r, now1);
            let step2 = spec_tick(step1.watcher, step1.store, r, now2);
            &&& step1.store == st
            &&& step1.outcome is SkippedEcho
            &&& step1.watcher.ignored is None
            &&& step1.watcher.prev == w.prev
            &&& (st.contains_hash(h) ==> step2.outcome is Touched)
            &&& (!st.contains_hash(h) ==> step2.outcome is Inserted)
        }),
{
}

/// When both an image and non-empty text arrive in the same reading and the
/// image canonicalizes, the tick resolves exactly as if the text were
/// absent: only the image branch can reach the store.
pub proof fn lemma_image_priority(
    w: SpecWatcher,
    st: SpecStore,
    cap: SpecCapture,
    t: Seq<char>,
    now: u64,
)
    requires
        spec_image_sample(cap.width, cap.height, cap.rgba) is Some,
    ensures
        spec_tick(w, st, SpecReading { image: Some(cap), text: Some(t) }, now) == spec_tick(
            w,
            st,
            SpecReading { image: Some(cap), text: None },
            now,
        ),
{
}

} // verus!
