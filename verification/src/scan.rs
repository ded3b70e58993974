use vstd::prelude::*;

use crate::views::lemma_string_views_push;
use crate::views::string_views;

verus! {

/// The deepest level, counted from the walk's root at level zero, that the
/// scan reads: grandchildren of the root and nothing below them.
pub const MAX_DEPTH: usize = 2;

/// One step of a directory walk, held as plain values: an entry that could
/// be read, or the failure that took its place.
#[derive(Debug, Clone, PartialEq, Eq)]
pub enum WalkEvent {
    /// An entry whose metadata could be read: its path, its depth below the
    /// walk's root, whether it is a directory, and the marker attribute's
    /// value where one could be read off the entry.
    Entry { path: String, depth: usize, is_dir: bool, attr: Option<Vec<u8>> },
    /// An entry whose metadata could not be read.
    MetaFailed { path: String, detail: String },
    /// A step of the walk itself that failed, the root among them.
    WalkFailed { detail: String },
}

/// A diagnostic produced by the scan; the walk goes on past it.
#[derive(Debug, Clone, PartialEq, Eq)]
pub enum ScanNote {
    /// An entry whose metadata could not be read.
    MetaFailed { path: String, detail: String },
    /// A step of the walk itself that failed.
    WalkFailed { detail: String },
}

/// The mathematical value of a `ScanNote`.
pub enum NoteView {
    MetaFailed { path: Seq<char>, detail: Seq<char> },
    WalkFailed { detail: Seq<char> },
}

impl View for ScanNote {
    type V = NoteView;

    open spec fn view(&self) -> NoteView {
        match self {
            ScanNote::MetaFailed { path, detail } => NoteView::MetaFailed {
                path: path@,
                detail: detail@,
            },
            ScanNote::WalkFailed { detail } => NoteView::WalkFailed { detail: detail@ },
        }
    }
}

/// The mathematical values behind a sequence of notes, in order.
pub open spec fn note_views(s: Seq<ScanNote>) -> Seq<NoteView> {
    s.map_values(|n: ScanNote| n@)
}

/// Appending one more note appends its view.
pub proof fn lemma_note_views_push(s: Seq<ScanNote>, x: ScanNote)
    ensures
        note_views(s.push(x)) == note_views(s).push(x@),
{
    assert(note_views(s.push(x)) =~= note_views(s).push(x@));
}

/// Whether one walk event names a directory that the scan selects for the
/// given tag: its metadata was read, it is a directory no deeper than
/// `MAX_DEPTH`, and its marker attribute value equals the tag's bytes
/// exactly.
pub open spec fn event_selected(e: WalkEvent, tag: Seq<u8>) -> bool {
    match e {
        WalkEvent::Entry { path, depth, is_dir, attr } => {
            &&& is_dir
            &&& depth <= MAX_DEPTH
            &&& match attr {
                Option::Some(a) => a@ == tag,
                Option::None => false,
            }
        },
        _ => false,
    }
}

/// The path a walk event names.
pub open spec fn event_path(e: WalkEvent) -> Seq<char> {
    match e {
        WalkEvent::Entry { path, depth, is_dir, attr } => path@,
        WalkEvent::MetaFailed { path, detail } => path@,
        WalkEvent::WalkFailed { detail } => Seq::empty(),
    }
}

/// The paths of the selected events, in walk order.
pub open spec fn selected_of(events: Seq<WalkEvent>, tag: Seq<u8>) -> Seq<Seq<char>>
    decreases events.len(),
{
    if events.len() == 0 {
        Seq::empty()
    } else if event_selected(events.last(), tag) {
        selected_of(events.drop_last(), tag).push(event_path(events.last()))
    } else {
        selected_of(events.drop_last(), tag)
    }
}

/// The diagnostics the events produce, in walk order.
pub open spec fn notes_of(events: Seq<WalkEvent>) -> Seq<NoteView>
    decreases events.len(),
{
    if events.len() == 0 {
        Seq::empty()
    } else {
        let rest = notes_of(events.drop_last());
        match events.last() {
            WalkEvent::Entry { path, depth, is_dir, attr } => rest,
            WalkEvent::MetaFailed { path, detail } => rest.push(
                NoteView::MetaFailed { path: path@, detail: detail@ },
            ),
            WalkEvent::WalkFailed { detail } => rest.push(NoteView::WalkFailed { detail: detail@ }),
        }
    }
}

/// What one scan pass yields: the selected paths and the diagnostics, each
/// in walk order.
#[derive(Debug, Clone, PartialEq, Eq)]
pub struct ScanOutcome {
    pub selected: Vec<String>,
    pub notes: Vec<ScanNote>,
}

/// Whether an outcome is exactly what the selection policy makes of the
/// given walk events and tag.
pub open spec fn outcome_matches(r: ScanOutcome, events: Seq<WalkEvent>, tag: Seq<u8>) -> bool {
    &&& string_views(r.selected@) == selected_of(events, tag)
    &&& note_views(r.notes@) == notes_of(events)
}

/// Exact byte-for-byte equality of two attribute values.
pub fn bytes_eq(a: &Vec<u8>, b: &Vec<u8>) -> (r: bool)
    ensures
        r == (a@ == b@),
{
    if a.len() != b.len() {
        return false;
    }
    let mut i: usize = 0;
    while i < a.len()
        invariant
            i <= a.len(),
            a@.len() == b@.len(),
            forall|j: int| 0 <= j < i ==> a@[j] == b@[j],
        decreases a.len() - i,
    {
        if a[i] != b[i] {
            return false;
        }
        i += 1;
    }
    proof {
        assert(a@ =~= b@);
    }
    true
}

/// Apply the selection policy to recorded walk events: select the path of
/// every directory no deeper than `MAX_DEPTH` whose marker attribute value
/// equals `tag`, and keep one diagnostic for every failed step, both in
/// walk order.
pub fn scan_events(events: &Vec<WalkEvent>, tag: &Vec<u8>) -> (r: ScanOutcome)
    ensures
        outcome_matches(r, events@, tag@),
{
    let mut selected: Vec<String> = Vec::new();
    let mut notes: Vec<ScanNote> = Vec::new();
    let mut i: usize = 0;
    while i < events.len()
        invariant
            i <= events.len(),
            string_views(selected@) == selected_of(events@.take(i as int), tag@),
            note_views(notes@) == notes_of(events@.take(i as int)),
        decreases events.len() - i,
    {
        let ghost ipre = i as int;
        match &events[i] {
            WalkEvent::Entry { path, depth, is_dir, attr } => {
                if *is_dir && *depth <= MAX_DEPTH {
                    match attr {
                        Option::Some(a) => {
                            if bytes_eq(a, tag) {
                                let ghost s0 = selected@;
                                let p: String = path.clone();
                                selected.push(p);
                                proof {
                                    lemma_string_views_push(s0, p);
                                }
                            }
                        },
                        Option::None => {},
                    }
                }
            },
            WalkEvent::MetaFailed { path, detail } => {
                let ghost n0 = notes@;
                let n = ScanNote::MetaFailed { path: path.clone(), detail: detail.clone() };
                notes.push(n);
                proof {
                    lemma_note_views_push(n0, n);
                }
            },
            WalkEvent::WalkFailed { detail } => {
                let ghost n0 = notes@;
                let n = ScanNote::WalkFailed { detail: detail.clone() };
                notes.push(n);
                proof {
                    lemma_note_views_push(n0, n);
                }
            },
        }
        i += 1;
        proof {
            assert(events@.take(i as int).drop_last() =~= events@.take(ipre));
            assert(events@.take(i as int).last() == events@[ipre]);
        }
    }
    proof {
        assert(events@.take(events@.len() as int) =~= events@);
    }
    ScanOutcome { selected, notes }
}

/// Walk the tree rooted at `root` down to at most `MAX_DEPTH` levels,
/// reading the marker attribute of every directory the walk yields, and
/// apply the selection policy to what came back. Which entries the walk
/// yields depends on the filesystem; whatever it yields, the result is
/// exactly the selection policy applied to those events, diagnostics
/// included.
pub fn find_paths(root: &str, tag: &Vec<u8>) -> (r: ScanOutcome)
    ensures
        exists|events: Seq<WalkEvent>| outcome_matches(r, events, tag@),
{
    let mut events: Vec<WalkEvent> = Vec::new();
    let mut it = crate::walk::walk_into_iter(
        crate::walk::walk_max_depth(crate::walk::walk_new(root), MAX_DEPTH),
    );
    let mut fuel: usize = usize::MAX;
    while fuel > 0
        decreases fuel,
    {
        fuel -= 1;
        match crate::walk::walk_next(&mut it) {
            Option::None => {
                break ;
            },
            Option::Some(Result::Ok(e)) => {
                let path = crate::walk::entry_path(&e);
                let depth = crate::walk::entry_depth(&e);
                match crate::walk::entry_is_dir(&e) {
                    Result::Ok(is_dir) => {
                        let attr = if is_dir {
                            crate::walk::attr_get(path.as_str(), "user.backup")
                        } else {
                            Option::None
                        };
                        events.push(WalkEvent::Entry { path, depth, is_dir, attr });
                    },
                    Result::Err(detail) => {
                        events.push(WalkEvent::MetaFailed { path, detail });
                    },
                }
            },
            Option::Some(Result::Err(detail)) => {
                events.push(WalkEvent::WalkFailed { detail });
            },
        }
    }
    let r = scan_events(&events, tag);
    proof {
        assert(outcome_matches(r, events@, tag@));
    }
    r
}

/// Scanning an unchanged snapshot twice yields the same selection and the
/// same diagnostics: the outcome is a function of the walk events and the
/// tag alone.
pub proof fn lemma_scan_deterministic(
    events1: Seq<WalkEvent>,
    events2: Seq<WalkEvent>,
    tag: Seq<u8>,
)
    requires
        events1 == events2,
    ensures
        selected_of(events1, tag) == selected_of(events2, tag),
        notes_of(events1) == notes_of(events2),
{
}

/// An entry deeper than `MAX_DEPTH` is never selected, whatever its
/// attribute value.
pub proof fn lemma_deep_event_not_selected(e: WalkEvent, tag: Seq<u8>)
    requires
        e matches WalkEvent::Entry { depth, .. } && depth > MAX_DEPTH,
    ensures
        !event_selected(e, tag),
{
}

/// A path stands in the selection exactly when some walk event names it and
/// is selected: a directory no deeper than `MAX_DEPTH` whose marker
/// attribute value equals the tag.
pub proof fn lemma_selected_characterization(events: Seq<WalkEvent>, tag: Seq<u8>)
    ensures
        forall|p: Seq<char>|
            #[trigger] selected_of(events, tag).contains(p) <==> exists|j: int|
                0 <= j < events.len() && #[trigger] event_selected(events[j], tag) && event_path(
                    events[j],
                ) == p,
    decreases events.len(),
{
    if events.len() > 0 {
        lemma_selected_characterization(events.drop_last(), tag);
        let rest = selected_of(events.drop_last(), tag);
        let e = events.last();
        let n = events.len() - 1;
        assert forall|p: Seq<char>|
            #[trigger] selected_of(events, tag).contains(p) <==> exists|j: int|
                0 <= j < events.len() && #[trigger] event_selected(events[j], tag) && event_path(
                    events[j],
                ) == p by {
            if selected_of(events, tag).contains(p) {
                if event_selected(e, tag) && p == event_path(e) {
                    assert(events[n] == e);
                    assert(0 <= n < events.len() && event_selected(events[n], tag) && event_path(
                        events[n],
                    ) == p);
                } else {
                    let k = choose|k: int|
                        0 <= k < selected_of(events, tag).len() && selected_of(events, tag)[k]
                            == p;
                    if event_selected(e, tag) {
                        assert(selected_of(events, tag) == rest.push(event_path(e)));
                        assert(k < rest.len());
                        assert(rest[k] == p);
                    } else {
                        assert(rest[k] == p);
                    }
                    assert(rest.contains(p));
                    let j = choose|j: int|
                        0 <= j < events.drop_last().len() && #[trigger] event_selected(
                            events.drop_last()[j],
                            tag,
                        ) && event_path(events.drop_last()[j]) == p;
                    assert(events.drop_last()[j] == events[j]);
                    assert(0 <= j < events.len() && event_selected(events[j], tag) && event_path(
                        events[j],
                    ) == p);
                }
            }
            if exists|j: int|
                0 <= j < events.len() && #[trigger] event_selected(events[j], tag) && event_path(
                    events[j],
                ) == p {
                let j = choose|j: int|
                    0 <= j < events.len() && #[trigger] event_selected(events[j], tag)
                        && event_path(events[j]) == p;
                if j == n {
                    assert(events[j] == e);
                    assert(selected_of(events, tag) == rest.push(p));
                    assert(selected_of(events, tag)[rest.len() as int] == p);
                    assert(selected_of(events, tag).contains(p));
                } else {
                    assert(events.drop_last()[j] == events[j]);
                    assert(event_selected(events.drop_last()[j], tag) && event_path(
                        events.drop_last()[j],
                    ) == p);
                    assert(rest.contains(p));
                    let k = choose|k: int| 0 <= k < rest.len() && rest[k] == p;
                    if event_selected(e, tag) {
                        assert(selected_of(events, tag) == rest.push(event_path(e)));
                        assert(selected_of(events, tag)[k] == p);
                    } else {
                        assert(selected_of(events, tag)[k] == p);
                    }
                    assert(selected_of(events, tag).contains(p));
                }
            }
        }
    }
}

}
