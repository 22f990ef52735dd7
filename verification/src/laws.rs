//! What holds of every manifest, every download and every run.

use crate::backends::{cloud_reply, is_success, ActionView, EventView, FetchError, Stage};
use crate::digest::blake3_hash;
use crate::index::{scanned, ExistingFile};
use crate::installer::{
    initial, run, stem_of, step_spec, DirectiveView, InstallerView, PhaseView,
};
use crate::manifest::{
    fault_at, is_allowed_extension, relative_extension, repeats_earlier, valid_entries, EntryView,
    PluginView,
};
use vstd::prelude::*;

verus! {

/// The state a run is in after the first `k` of `events`.
pub open spec fn state_after(s: InstallerView, events: Seq<EventView>, k: int) -> InstallerView {
    run(s, events.subrange(0, k)).0
}

/// A manifest that holds a local plugin whose path has no extension, or
/// one outside the allowed set, is not valid: it is refused when it is
/// read, and no installer is ever made of it.
pub proof fn law_bad_extension_is_refused(entries: Seq<EntryView>, i: int)
    requires
        0 <= i < entries.len(),
        entries[i].plugin matches PluginView::Local(path) && match relative_extension(path) {
            Some(e) => !is_allowed_extension(e),
            None => true,
        },
    ensures
        !valid_entries(entries),
{
    assert(fault_at(entries, i) is Some);
}

/// In a valid manifest no key occurs twice, and the path of every local
/// plugin has an extension of the allowed set.
pub proof fn law_valid_manifest(entries: Seq<EntryView>, i: int)
    requires
        valid_entries(entries),
        0 <= i < entries.len(),
    ensures
        forall|j: int| 0 <= j < i ==> (#[trigger] entries[j]).key != entries[i].key,
        entries[i].plugin matches PluginView::Local(path) ==> {
            &&& relative_extension(path) matches Some(e)
            &&& is_allowed_extension(e)
        },
{
    assert(fault_at(entries, i) is None);
    assert(!repeats_earlier(entries, i));
}

/// The stem of a plugin depends on the plugin, its key and the name of the
/// working directory, and on nothing else: the same three give the same
/// stem, in this run and in any other.
pub proof fn law_stem_is_deterministic(
    plugin: PluginView,
    key: Seq<char>,
    cwd: Seq<char>,
    other_plugin: PluginView,
    other_key: Seq<char>,
    other_cwd: Seq<char>,
)
    requires
        plugin == other_plugin,
        key == other_key,
        cwd == other_cwd,
    ensures
        stem_of(plugin, key, cwd) == stem_of(other_plugin, other_key, other_cwd),
{
}

/// A cloud download that is answered with a status outside the 2xx class,
/// by the metadata request or by the request for the bytes, is given up
/// with that status.
pub proof fn law_cloud_refuses_bad_status(
    cookie: Option<Seq<char>>,
    id: u64,
    stage: Stage,
    status: u16,
)
    requires
        stage == Stage::Metadata || stage == Stage::File,
        !is_success(status),
    ensures
        cloud_reply(cookie, PluginView::Cloud(id), stage, EventView::Status(status)).action
            == (ActionView::Abort {
            error: if stage == Stage::Metadata {
                FetchError::RequestStatus(status)
            } else {
                FetchError::DownloadStatus(status)
            },
        }),
{
}

/// When a cloud download is answered with a status outside the 2xx class,
/// the run is given up: the step asks for no write, the index stays as it
/// was, and no later step asks for a write either.
pub proof fn law_bad_status_writes_nothing(
    s: InstallerView,
    status: u16,
    later: Seq<EventView>,
    i: int,
)
    requires
        s.cursor < s.entries.len(),
        s.entries[s.cursor as int].plugin is Cloud,
        s.phase is Fetching,
        s.phase->stage == Stage::Metadata || s.phase->stage == Stage::File,
        !is_success(status),
        0 <= i < later.len(),
    ensures
        step_spec(s, EventView::Status(status)).1 is Abort,
        step_spec(s, EventView::Status(status)).0.phase is Aborted,
        step_spec(s, EventView::Status(status)).0.index == s.index,
        !(run(step_spec(s, EventView::Status(status)).0, later).1[i] is Write),
{
    let t = step_spec(s, EventView::Status(status)).0;
    lemma_aborted_stays(t, later, i);
}

/// What a single step does to the index and the phase.
pub proof fn lemma_step(s: InstallerView, event: EventView)
    ensures
        ({
            let t = step_spec(s, event).0;
            let d = step_spec(s, event).1;
            &&& s.phase is Aborted ==> t.phase is Aborted && d is Abort
            &&& d matches DirectiveView::Write { path, data, .. } ==> {
                &&& s.phase is Fetching
                &&& event == EventView::Contents(data)
                &&& !s.index.contains_key(blake3_hash(data))
                &&& t.phase == (PhaseView::Writing { digest: blake3_hash(data), path })
                &&& t.index == s.index
            }
            &&& d is Skip ==> {
                &&& event matches EventView::Contents(data)
                &&& s.index.contains_key(blake3_hash(data))
                &&& d->existing == s.index[blake3_hash(data)]
                &&& t.index == s.index
            }
            &&& t.phase is Writing ==> d is Write
            &&& (t.index == s.index || (s.phase is Writing && event is Written && t.index
                == s.index.insert(s.phase->digest, s.phase->path)))
        }),
{
}

/// The directive of step `k` of a run is the one that follows from the
/// state after the first `k` events.
pub proof fn lemma_run_at(s: InstallerView, events: Seq<EventView>, k: int)
    requires
        0 <= k < events.len(),
    ensures
        run(s, events).1.len() == events.len(),
        run(s, events).1[k] == step_spec(state_after(s, events, k), events[k]).1,
        state_after(s, events, k + 1) == step_spec(state_after(s, events, k), events[k]).0,
    decreases events.len(),
{
    lemma_run_len(s, events);
    let front = events.drop_last();
    assert(events.subrange(0, k + 1).drop_last() =~= events.subrange(0, k));
    assert(events.subrange(0, k + 1).last() == events[k]);
    if k == events.len() - 1 {
        assert(front =~= events.subrange(0, k));
    } else {
        lemma_run_at(s, front, k);
        assert(front.subrange(0, k) =~= events.subrange(0, k));
    }
}

/// A run gives one directive for each event.
pub proof fn lemma_run_len(s: InstallerView, events: Seq<EventView>)
    ensures
        run(s, events).1.len() == events.len(),
    decreases events.len(),
{
    if events.len() > 0 {
        lemma_run_len(s, events.drop_last());
    }
}

/// The index never loses a digest: what it holds after `k` events it holds
/// after all of them.
pub proof fn lemma_index_grows(s: InstallerView, events: Seq<EventView>, k: int, digest: Seq<u8>)
    requires
        0 <= k <= events.len(),
        state_after(s, events, k).index.contains_key(digest),
    ensures
        run(s, events).0.index.contains_key(digest),
    decreases events.len() - k,
{
    if k == events.len() {
        assert(events.subrange(0, k) =~= events);
    } else {
        lemma_run_at(s, events, k);
        lemma_step(state_after(s, events, k), events[k]);
        lemma_index_grows(s, events, k + 1, digest);
    }
}

/// Once a run is given up, every directive is `Abort`.
pub proof fn lemma_aborted_stays(s: InstallerView, events: Seq<EventView>, i: int)
    requires
        s.phase is Aborted,
        0 <= i < events.len(),
    ensures
        run(s, events).0.phase is Aborted,
        run(s, events).1[i] is Abort,
    decreases events.len(),
{
    lemma_run_len(s, events);
    let front = events.drop_last();
    if front.len() > 0 {
        lemma_aborted_stays(s, front, 0);
    }
    lemma_step(run(s, front).0, events.last());
    if i < front.len() {
        lemma_aborted_stays(s, front, i);
    }
}

/// What has become of the content that directive `i` of a run sent to be
/// written: the index holds it, or the run waits for that very write, or
/// the run has been given up.
pub proof fn lemma_written_is_known(s: InstallerView, events: Seq<EventView>, i: int)
    requires
        0 <= i < events.len(),
        run(s, events).1[i] is Write,
    ensures
        ({
            let end = run(s, events).0;
            let digest = blake3_hash(run(s, events).1[i]->data);
            ||| end.index.contains_key(digest)
            ||| end.phase is Aborted
            ||| (i == events.len() - 1 && end.phase is Writing && end.phase->digest == digest)
        }),
    decreases events.len(),
{
    lemma_run_len(s, events);
    let front = events.drop_last();
    let mid = run(s, front).0;
    lemma_step(mid, events.last());
    if i < front.len() {
        lemma_written_is_known(s, front, i);
        lemma_run_len(s, front);
        if i == front.len() - 1 {
            lemma_run_at(s, front, i);
            lemma_step(state_after(s, front, i), front[i]);
            assert(front.subrange(0, i + 1) =~= front);
        }
    }
}

/// No two writes of a run carry the same content: of all the plugins that
/// fetch identical bytes, at most one is sent to be written, whichever
/// paths the others were meant for.
pub proof fn law_one_write_per_content(s: InstallerView, events: Seq<EventView>, i: int, j: int)
    requires
        0 <= i < j < events.len(),
        run(s, events).1[i] is Write,
        run(s, events).1[j] is Write,
    ensures
        blake3_hash(run(s, events).1[i]->data) != blake3_hash(run(s, events).1[j]->data),
        run(s, events).1[i]->data != run(s, events).1[j]->data,
{
    let before = events.subrange(0, j);
    lemma_run_at(s, events, j);
    lemma_run_at(s, events, i);
    lemma_run_at(s, before, i);
    assert(before.subrange(0, i) =~= events.subrange(0, i));
    lemma_step(state_after(s, events, j), events[j]);
    lemma_written_is_known(s, before, i);
}

/// Content is written exactly when it is new: the step that takes the
/// fetched bytes sends them to be written if the index does not hold their
/// digest, and skips them, naming the path that holds them, if it does.
pub proof fn law_new_content_is_written(s: InstallerView, data: Seq<u8>)
    requires
        s.phase is Fetching,
        step_spec(s, EventView::Contents(data)).1 is Write || step_spec(
            s,
            EventView::Contents(data),
        ).1 is Skip,
    ensures
        step_spec(s, EventView::Contents(data)).1 is Write <==> !s.index.contains_key(
            blake3_hash(data),
        ),
        step_spec(s, EventView::Contents(data)).1 matches DirectiveView::Skip { existing, .. }
            ==> existing == s.index[blake3_hash(data)],
{
    lemma_step(s, EventView::Contents(data));
}

/// A run that is neither given up nor waiting for a write has recorded
/// every content it placed: what it sent to be written, and what it
/// skipped.
pub proof fn law_run_records_content(s: InstallerView, events: Seq<EventView>, i: int)
    requires
        0 <= i < events.len(),
        !(run(s, events).0.phase is Aborted),
        !(run(s, events).0.phase is Writing),
        run(s, events).1[i] is Write || run(s, events).1[i] is Skip,
    ensures
        events[i] matches EventView::Contents(data) && run(s, events).0.index.contains_key(
            blake3_hash(data),
        ),
{
    lemma_run_at(s, events, i);
    lemma_step(state_after(s, events, i), events[i]);
    if run(s, events).1[i] is Write {
        lemma_written_is_known(s, events, i);
    } else {
        let data = events[i]->Contents_0;
        lemma_index_grows(s, events, i, blake3_hash(data));
    }
}

/// A run that starts from an index that holds all the content it is going
/// to fetch writes nothing.
pub proof fn law_known_content_is_not_written(s: InstallerView, events: Seq<EventView>, i: int)
    requires
        0 <= i < events.len(),
        forall|k: int|
            0 <= k < events.len() ==> (#[trigger] events[k] matches EventView::Contents(data)
                ==> s.index.contains_key(blake3_hash(data))),
    ensures
        !(run(s, events).1[i] is Write),
{
    lemma_run_at(s, events, i);
    lemma_step(state_after(s, events, i), events[i]);
    if run(s, events).1[i] is Write {
        let data = run(s, events).1[i]->data;
        assert(events[i] == EventView::Contents(data));
        let front = events.subrange(0, i);
        assert(front.subrange(0, 0) =~= Seq::<EventView>::empty());
        lemma_index_grows(s, front, 0, blake3_hash(data));
    }
}

/// The index of a scan holds the digest of every file the scan found.
pub proof fn law_scan_holds_every_file(files: Seq<ExistingFile>, i: int)
    requires
        0 <= i < files.len(),
    ensures
        scanned(files).contains_key(blake3_hash(files[i].data@)),
    decreases files.len(),
{
    if i < files.len() - 1 {
        law_scan_holds_every_file(files.drop_last(), i);
    }
}

/// Content that a file of the destination directory holds is never
/// written again, under whatever name that file goes.
pub proof fn law_present_content_is_not_written(
    entries: Seq<EntryView>,
    cwd: Seq<char>,
    destination: Seq<char>,
    files: Seq<ExistingFile>,
    events: Seq<EventView>,
    i: int,
    k: int,
)
    requires
        0 <= k < files.len(),
        0 <= i < events.len(),
        run(initial(entries, cwd, destination, scanned(files)), events).1[i] is Write,
    ensures
        run(initial(entries, cwd, destination, scanned(files)), events).1[i]->data
            != files[k].data@,
{
    let s = initial(entries, cwd, destination, scanned(files));
    let digest = blake3_hash(files[k].data@);
    law_scan_holds_every_file(files, k);
    lemma_run_at(s, events, i);
    lemma_step(state_after(s, events, i), events[i]);
    let front = events.subrange(0, i);
    assert(front.subrange(0, 0) =~= Seq::<EventView>::empty());
    lemma_index_grows(s, front, 0, digest);
}

/// A second run writes nothing: if the first run came to rest, the index
/// the second run starts from holds what the first run's index held, and
/// the second run fetches only content that the first run placed, then no
/// step of the second run asks for a write.
pub proof fn law_second_run_writes_nothing(
    first: InstallerView,
    first_events: Seq<EventView>,
    second: InstallerView,
    second_events: Seq<EventView>,
    i: int,
)
    requires
        !(run(first, first_events).0.phase is Aborted),
        !(run(first, first_events).0.phase is Writing),
        forall|digest: Seq<u8>|
            run(first, first_events).0.index.contains_key(digest) ==> second.index.contains_key(
                digest,
            ),
        forall|k: int|
            0 <= k < second_events.len() && (#[trigger] second_events[k]) is Contents
                ==> exists|j: int|
                0 <= j < first_events.len() && #[trigger] first_events[j] == second_events[k] && (
                run(first, first_events).1[j] is Write || run(first, first_events).1[j] is Skip),
        0 <= i < second_events.len(),
    ensures
        !(run(second, second_events).1[i] is Write),
{
    assert forall|k: int| 0 <= k < second_events.len() implies (
    #[trigger] second_events[k] matches EventView::Contents(data) ==> second.index.contains_key(
        blake3_hash(data),
    )) by {
        if second_events[k] is Contents {
            let j = choose|j: int|
                0 <= j < first_events.len() && #[trigger] first_events[j] == second_events[k] && (
                run(first, first_events).1[j] is Write || run(first, first_events).1[j] is Skip);
            law_run_records_content(first, first_events, j);
        }
    }
    law_known_content_is_not_written(second, second_events, i);
}

} // verus!
