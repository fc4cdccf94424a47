//! Reading session logs: the line parser, the session scanner, and the bookkeeping of
//! the multi-session watcher.
pub mod parser;
pub mod scanner;

use vstd::prelude::*;
use crate::events::{EventSource, EventSourceView, EventView, SessionEvent, TaggedEvent, TaggedView};
use crate::session::{format_hms, hms_of_secs};
use crate::text::{copy_str, strings_view};
use scanner::SessionInfo;

verus! {

/// "HH:MM:SS" (UTC) of a time given as whole seconds since the Unix epoch; "00:00:00"
/// for a time before the epoch (`None`).
pub open spec fn time_hms(secs: Option<u64>) -> Seq<char> {
    match secs {
        Some(s) => hms_of_secs(s as nat),
        None => "00:00:00"@,
    }
}

/// Formats a time, given as whole seconds since the Unix epoch (`None` before it), as
/// "HH:MM:SS" in UTC.
pub fn format_time_hms(secs: Option<u64>) -> (r: String)
    ensures
        r@ == time_hms(secs),
{
    match secs {
        Some(s) => format_hms(s),
        None => copy_str("00:00:00"),
    }
}

/// The event that announces a watched session: a `SessionStart` from its main log.
pub open spec fn start_event_of(session_id: Seq<char>, project: Seq<char>, timestamp: Seq<char>) -> TaggedView {
    TaggedView {
        session_id,
        event: EventView::SessionStart { session_id, project, timestamp },
        source: EventSourceView::Main,
    }
}

/// The event that announces the session `info`, stamped `timestamp`.
pub fn session_start_event(info: &SessionInfo, timestamp: String) -> (r: TaggedEvent)
    ensures
        r@ == start_event_of(info.session_id@, info.project_slug@, timestamp@),
{
    TaggedEvent {
        session_id: info.session_id.clone(),
        event: SessionEvent::SessionStart {
            session_id: info.session_id.clone(),
            project: info.project_slug.clone(),
            timestamp,
        },
        source: EventSource::Main,
    }
}

/// The session ids the watcher already follows; none occurs twice.
/// A `Vec` searched in order holds them: vstd specifies `HashSet`, but keyed by
/// `String` its operations prove nothing here.
pub struct KnownSessions {
    ids: Vec<String>,
}

impl View for KnownSessions {
    type V = Seq<Seq<char>>;

    closed spec fn view(&self) -> Seq<Seq<char>> {
        strings_view(self.ids@)
    }
}

impl KnownSessions {
    /// No session followed yet.
    pub fn new() -> (r: Self)
        ensures
            r@ == Seq::<Seq<char>>::empty(),
            r@.no_duplicates(),
    {
        let r = KnownSessions { ids: Vec::new() };
        assert(r@ =~= Seq::<Seq<char>>::empty());
        r
    }

    /// The session `id` is followed.
    pub fn contains(&self, id: &String) -> (r: bool)
        ensures
            r == self@.contains(id@),
    {
        let mut i: usize = 0;
        while i < self.ids.len()
            invariant
                0 <= i <= self.ids@.len(),
                forall|j: int| 0 <= j < i ==> self@[j] != id@,
            decreases self.ids.len() - i,
        {
            if self.ids[i] == *id {
                assert(self@[i as int] == id@);
                return true;
            }
            i += 1;
        }
        false
    }

    /// Starts following `id`; says whether it was new.
    pub fn insert(&mut self, id: &String) -> (added: bool)
        requires
            old(self)@.no_duplicates(),
        ensures
            added == !old(self)@.contains(id@),
            final(self)@ == if added {
                old(self)@.push(id@)
            } else {
                old(self)@
            },
            final(self)@.no_duplicates(),
    {
        if self.contains(id) {
            return false;
        }
        let ghost before = self@;
        self.ids.push(id.clone());
        assert(self@ =~= before.push(id@));
        true
    }
}

/// The watcher looks for new sessions every this many polls.
pub const RESCAN_INTERVAL_POLLS: u32 = 10;

/// Whether the watcher looks for new sessions at poll number `poll_count`.
pub fn rescan_due(poll_count: u32) -> (r: bool)
    ensures
        r == (poll_count % RESCAN_INTERVAL_POLLS == 0),
{
    poll_count % RESCAN_INTERVAL_POLLS == 0
}

} // verus!
