//! Following one session: its main log and the logs of its subagents, read line by line
//! from where the last read stopped.
//!
//! The files themselves are read by the caller; the scanner keeps where each file was
//! read up to, which subagent logs it follows, and feeds each line read to its parser.
use vstd::prelude::*;
use crate::events::{events_view, opt_view, EventSource, EventSourceView, EventView, SessionEvent};
use crate::shell::config::{join_path, joined};
use crate::text::{chars_of, copy_str, string_of_range, strings_view, trim, trim_string, append_str};
use crate::watcher::parser::{line_ok, line_step, Parser, ParserView};

verus! {

/// Sessions modified within this many seconds are considered active.
pub const ACTIVE_THRESHOLD_SECS: u64 = 1800;

/// Errors that can occur during scanning.
#[derive(Debug)]
pub enum ScannerError {
    Io(String),
    NoSessions(String),
}

/// The message of an error.
pub open spec fn error_message(e: ScannerError) -> Seq<char> {
    match e {
        ScannerError::Io(m) => "I/O error: "@ + m@,
        ScannerError::NoSessions(m) => "No sessions found: "@ + m@,
    }
}

impl ScannerError {
    /// The error as a sentence.
    pub fn message(&self) -> (r: String)
        ensures
            r@ == error_message(*self),
    {
        match self {
            ScannerError::Io(m) => {
                let mut r = copy_str("I/O error: ");
                append_str(&mut r, m.as_str());
                r
            },
            ScannerError::NoSessions(m) => {
                let mut r = copy_str("No sessions found: ");
                append_str(&mut r, m.as_str());
                r
            },
        }
    }
}

/// Metadata about a discovered session.
#[derive(Debug)]
pub struct SessionInfo {
    pub path: String,
    pub session_id: String,
    pub project_slug: String,
    /// When its log was last modified, in nanoseconds since the Unix epoch.
    pub modified: i128,
}

/// A session's metadata as plain values.
pub struct InfoView {
    pub path: Seq<char>,
    pub session_id: Seq<char>,
    pub project_slug: Seq<char>,
    pub modified: i128,
}

impl View for SessionInfo {
    type V = InfoView;

    open spec fn view(&self) -> InfoView {
        InfoView {
            path: self.path@,
            session_id: self.session_id@,
            project_slug: self.project_slug@,
            modified: self.modified,
        }
    }
}

/// The views of a list of sessions.
pub open spec fn infos_view(v: Seq<SessionInfo>) -> Seq<InfoView> {
    v.map_values(|i: SessionInfo| i@)
}

/// A copy of a session's metadata.
pub fn copy_info(info: &SessionInfo) -> (r: SessionInfo)
    ensures
        r@ == info@,
{
    SessionInfo {
        path: info.path.clone(),
        session_id: info.session_id.clone(),
        project_slug: info.project_slug.clone(),
        modified: info.modified,
    }
}

/// A file followed from a byte offset.
pub struct TrackedFile {
    pub path: String,
    /// How many bytes of the file were read.
    pub offset: u64,
}

/// What `Path::parent` returns for the path `p`: the path without its last component.
pub uninterp spec fn parent_of(p: Seq<char>) -> Option<Seq<char>>;

/// `Path::parent`: the path without its last component, or `None` for a root or empty
/// path.
#[verifier::external_body]
fn parent_path(p: &str) -> (r: Option<String>)
    ensures
        opt_view(r) == parent_of(p@),
{
    std::path::Path::new(p).parent().and_then(|q| q.to_str()).map(String::from)
}

/// Where the subagent logs of the session whose log is `path` live: `<id>/subagents`
/// beside that log (beside `.` when the path has no parent).
pub open spec fn subagents_dir_in(parent: Option<Seq<char>>, session_id: Seq<char>) -> Seq<char> {
    let base = match parent {
        Some(p) => p,
        None => "."@,
    };
    joined(joined(base, session_id), "subagents"@)
}

/// The subagents directory for a session log `path` and its id.
pub fn subagents_dir_of(path: &str, session_id: &str) -> (r: String)
    ensures
        r@ == subagents_dir_in(parent_of(path@), session_id@),
{
    let base = match parent_path(path) {
        Some(p) => p,
        None => copy_str("."),
    };
    let d = join_path(base.as_str(), session_id);
    join_path(d.as_str(), "subagents")
}

/// The position of the last `.` in `s`.
pub open spec fn last_dot(s: Seq<char>) -> Option<int>
    decreases s.len(),
{
    if s.len() == 0 {
        None
    } else if s.last() == '.' {
        Some(s.len() - 1)
    } else {
        last_dot(s.drop_last())
    }
}

/// The stem of a file name whose extension is `jsonl` (what `Path::file_stem` gives for
/// it), or `None` when the extension is another or there is none. As for `Path`, a
/// name has an extension when it has a `.` that is not its first character, and the
/// extension is what follows the last `.`.
pub open spec fn jsonl_stem_of(name: Seq<char>) -> Option<Seq<char>> {
    match last_dot(name) {
        Some(k) => if k > 0 && name.skip(k + 1) == "jsonl"@ {
            Some(name.take(k))
        } else {
            None
        },
        None => None,
    }
}

/// The stem of a file name whose extension is `jsonl` (see `jsonl_stem_of`).
pub fn jsonl_stem(name: &str) -> (r: Option<String>)
    ensures
        opt_view(r) == jsonl_stem_of(name@),
{
    let v = chars_of(name);
    let mut i: usize = v.len();
    assert(v@.take(v@.len() as int) =~= v@);
    while i > 0 && v[i - 1] != '.'
        invariant
            0 <= i <= v@.len(),
            last_dot(v@) == last_dot(v@.take(i as int)),
        decreases i,
    {
        assert(v@.take(i as int).drop_last() =~= v@.take(i - 1));
        i -= 1;
    }
    if i <= 1 {
        proof {
            if i == 0 {
                assert(v@.take(0).len() == 0);
            } else {
                assert(v@.take(1).last() == '.');
            }
        }
        return None;
    }
    let k: usize = i - 1;
    assert(v@.take(i as int).last() == '.');
    assert(last_dot(v@) == Some(k as int));
    let ext = string_of_range(&v, i, v.len());
    let jsonl = chars_of("jsonl");
    let e = chars_of(ext.as_str());
    assert(v@.skip(k + 1) =~= v@.subrange(i as int, v@.len() as int));
    if crate::text::chars_eq(&e, &jsonl) {
        let stem = string_of_range(&v, 0, k);
        assert(v@.take(k as int) =~= v@.subrange(0, k as int));
        Some(stem)
    } else {
        None
    }
}

/// A file modified at `modified_secs` is recent at `now_secs`: at most
/// `ACTIVE_THRESHOLD_SECS` seconds old (a file from the future is not old).
pub open spec fn recent(now_secs: u64, modified_secs: u64) -> bool {
    !(now_secs >= modified_secs && now_secs - modified_secs > ACTIVE_THRESHOLD_SECS)
}

/// Whether a file modified at `modified_secs` counts as active at `now_secs`.
pub fn is_recent(now_secs: u64, modified_secs: u64) -> (r: bool)
    ensures
        r == recent(now_secs, modified_secs),
{
    let age: u64 = if now_secs >= modified_secs {
        now_secs - modified_secs
    } else {
        0
    };
    !(age > ACTIVE_THRESHOLD_SECS)
}

/// Sessions ordered most recently modified first.
pub open spec fn newest_first_ordered(s: Seq<InfoView>) -> bool {
    forall|i: int, j: int| 0 <= i < j < s.len() ==> s[i].modified >= s[j].modified
}

/// The sessions of `s` modified at `t`, in order.
pub open spec fn modified_at(s: Seq<InfoView>, t: i128) -> Seq<InfoView>
    decreases s.len(),
{
    if s.len() == 0 {
        Seq::empty()
    } else if s.last().modified == t {
        modified_at(s.drop_last(), t).push(s.last())
    } else {
        modified_at(s.drop_last(), t)
    }
}

/// Inserting `x` before the first element older than it puts `x` after every element
/// of its time and changes the order of no other time.
proof fn lemma_insert_keeps_times(s: Seq<InfoView>, p: int, x: InfoView, t: i128)
    requires
        0 <= p <= s.len(),
        forall|j: int| p <= j < s.len() ==> s[j].modified < x.modified,
    ensures
        modified_at(s.insert(p, x), t) == if x.modified == t {
            modified_at(s, t).push(x)
        } else {
            modified_at(s, t)
        },
    decreases s.len(),
{
    if p == s.len() {
        assert(s.insert(p, x) =~= s.push(x));
        assert(s.push(x).drop_last() =~= s);
    } else {
        lemma_insert_keeps_times(s.drop_last(), p, x, t);
        assert(s.insert(p, x).drop_last() =~= s.drop_last().insert(p, x));
        assert(s.insert(p, x).last() == s.last());
    }
}

/// Orders sessions by modification time, most recent first; sessions modified at the
/// same time keep their order.
pub fn sort_newest_first(sessions: Vec<SessionInfo>) -> (r: Vec<SessionInfo>)
    ensures
        newest_first_ordered(infos_view(r@)),
        forall|t: i128| modified_at(infos_view(r@), t) == modified_at(infos_view(sessions@), t),
        infos_view(r@).to_multiset() == infos_view(sessions@).to_multiset(),
{
    let mut r: Vec<SessionInfo> = Vec::new();
    let mut i: usize = 0;
    assert(infos_view(sessions@).take(0) =~= Seq::<InfoView>::empty());
    assert(infos_view(r@) =~= Seq::<InfoView>::empty());
    assert forall|t: i128| modified_at(infos_view(r@), t) == modified_at(infos_view(sessions@).take(0), t) by {}
    while i < sessions.len()
        invariant
            0 <= i <= sessions@.len(),
            newest_first_ordered(infos_view(r@)),
            forall|t: i128|
                modified_at(infos_view(r@), t) == modified_at(infos_view(sessions@).take(i as int), t),
            infos_view(r@).to_multiset() == infos_view(sessions@).take(i as int).to_multiset(),
        decreases sessions.len() - i,
    {
        let x = copy_info(&sessions[i]);
        // The first position whose session is older than `x`.
        let mut k: usize = 0;
        while k < r.len() && r[k].modified >= x.modified
            invariant
                0 <= k <= r@.len(),
                forall|j: int| 0 <= j < k ==> r@[j].modified >= x.modified,
            decreases r.len() - k,
        {
            k += 1;
        }
        let ghost before = infos_view(r@);
        proof {
            assert forall|j: int| k <= j < before.len() implies before[j].modified < x.modified by {
                assert(before[k as int].modified < x.modified);
                assert(before[k as int].modified >= before[j].modified || j == k);
            }
        }
        r.insert(k, x);
        assert(infos_view(r@) =~= before.insert(k as int, x@));
        proof {
            vstd::seq_lib::to_multiset_insert(before, k as int, x@);
            vstd::seq_lib::to_multiset_build(infos_view(sessions@).take(i as int), sessions@[i as int]@);
        }
        assert(infos_view(sessions@).take(i + 1) =~= infos_view(sessions@).take(i as int).push(
            sessions@[i as int]@,
        ));
        assert forall|t: i128| modified_at(infos_view(r@), t) == modified_at(
            infos_view(sessions@).take(i + 1),
            t,
        ) by {
            lemma_insert_keeps_times(before, k as int, sessions@[i as int]@, t);
            assert(infos_view(sessions@).take(i + 1).drop_last() =~= infos_view(sessions@).take(
                i as int,
            ));
        }
        i += 1;
    }
    assert(infos_view(sessions@).take(sessions@.len() as int) =~= infos_view(sessions@));
    r
}

/// A candidate session log with the second (since the epoch) it was last modified.
pub open spec fn candidates_view(v: Seq<(SessionInfo, u64)>) -> Seq<(InfoView, u64)> {
    v.map_values(|c: (SessionInfo, u64)| (c.0@, c.1))
}

/// The candidates modified recently enough at `now_secs`, in order.
pub open spec fn active_of(now_secs: u64, c: Seq<(InfoView, u64)>) -> Seq<InfoView>
    decreases c.len(),
{
    if c.len() == 0 {
        Seq::empty()
    } else if recent(now_secs, c.last().1) {
        active_of(now_secs, c.drop_last()).push(c.last().0)
    } else {
        active_of(now_secs, c.drop_last())
    }
}

/// The active sessions among `candidates` at `now_secs`, most recently modified first:
/// those modified within the threshold, sorted newest first, ties in their order.
pub fn select_active(now_secs: u64, candidates: &Vec<(SessionInfo, u64)>) -> (r: Vec<SessionInfo>)
    ensures
        newest_first_ordered(infos_view(r@)),
        forall|t: i128|
            modified_at(infos_view(r@), t) == modified_at(
                active_of(now_secs, candidates_view(candidates@)),
                t,
            ),
        infos_view(r@).to_multiset() == active_of(now_secs, candidates_view(candidates@)).to_multiset(),
{
    let ghost cv = candidates_view(candidates@);
    let mut kept: Vec<SessionInfo> = Vec::new();
    let mut i: usize = 0;
    assert(cv.take(0) =~= Seq::<(InfoView, u64)>::empty());
    assert(infos_view(kept@) =~= Seq::<InfoView>::empty());
    while i < candidates.len()
        invariant
            0 <= i <= candidates@.len(),
            cv == candidates_view(candidates@),
            infos_view(kept@) == active_of(now_secs, cv.take(i as int)),
        decreases candidates.len() - i,
    {
        assert(cv.take(i + 1).drop_last() =~= cv.take(i as int));
        assert(cv.take(i + 1).last() == (candidates@[i as int].0@, candidates@[i as int].1));
        let ghost before = infos_view(kept@);
        if is_recent(now_secs, candidates[i].1) {
            kept.push(copy_info(&candidates[i].0));
            assert(infos_view(kept@) =~= before.push(candidates@[i as int].0@));
        }
        i += 1;
    }
    assert(cv.take(candidates@.len() as int) =~= cv);
    sort_newest_first(kept)
}

/// The scanner's state as plain values.
pub struct ScannerView {
    pub parser: ParserView,
    pub main_file: Option<(Seq<char>, u64)>,
    /// The followed subagent logs: file name, path and offset, in the order found.
    pub subagent_files: Seq<(Seq<char>, Seq<char>, u64)>,
    pub subagents_dir: Option<Seq<char>>,
    pub session_id: Seq<char>,
    pub project_slug: Seq<char>,
}

/// Follows one session's logs.
pub struct Scanner {
    parser: Parser,
    /// Main session file.
    main_file: Option<TrackedFile>,
    /// Subagent files with their file names, in the order found. A `Vec` searched by
    /// name stands for a map keyed by `String`, of which vstd's specs prove nothing.
    subagent_files: Vec<(String, TrackedFile)>,
    /// Path to the subagents directory (if any).
    subagents_dir: Option<String>,
    /// Session ID being watched.
    session_id: String,
    /// Project slug being watched.
    project_slug: String,
}

/// The view of a followed subagent log.
pub open spec fn sub_file_view(f: (String, TrackedFile)) -> (Seq<char>, Seq<char>, u64) {
    (f.0@, f.1.path@, f.1.offset)
}

impl View for Scanner {
    type V = ScannerView;

    closed spec fn view(&self) -> ScannerView {
        ScannerView {
            parser: self.parser@,
            main_file: match self.main_file {
                Some(f) => Some((f.path@, f.offset)),
                None => None,
            },
            subagent_files: self.subagent_files@.map_values(|f: (String, TrackedFile)| sub_file_view(f)),
            subagents_dir: opt_view(self.subagents_dir),
            session_id: self.session_id@,
            project_slug: self.project_slug@,
        }
    }
}

/// No two followed subagent logs share a file name.
pub open spec fn scanner_wf(s: ScannerView) -> bool {
    forall|i: int, j: int|
        0 <= i < j < s.subagent_files.len() ==> s.subagent_files[i].0 != s.subagent_files[j].0
}

/// Which file a line was read from.
#[derive(Debug, Clone, Copy, PartialEq, Eq, Structural)]
pub enum FileRef {
    Main,
    /// The subagent log at this position among the followed ones.
    SubAgent(usize),
}

/// The offset of a followed file.
pub open spec fn offset_of(s: ScannerView, f: FileRef) -> Option<u64> {
    match f {
        FileRef::Main => match s.main_file {
            Some((_, o)) => Some(o),
            None => None,
        },
        FileRef::SubAgent(k) => if k < s.subagent_files.len() {
            Some(s.subagent_files[k as int].2)
        } else {
            None
        },
    }
}

/// `s` with the offset of `f` moved forward by `bytes`.
pub open spec fn advanced(s: ScannerView, f: FileRef, bytes: u64) -> ScannerView {
    match f {
        FileRef::Main => match s.main_file {
            Some((p, o)) => ScannerView { main_file: Some((p, (o + bytes) as u64)), ..s },
            None => s,
        },
        FileRef::SubAgent(k) => if k < s.subagent_files.len() {
            let (n, p, o) = s.subagent_files[k as int];
            ScannerView { subagent_files: s.subagent_files.update(k as int, (n, p, (o + bytes) as u64)), ..s }
        } else {
            s
        },
    }
}

/// Where the events of a followed file come from (see `Scanner::source_of`).
pub open spec fn source_view_of(s: ScannerView, f: FileRef) -> EventSourceView {
    match f {
        FileRef::Main => EventSourceView::Main,
        FileRef::SubAgent(k) => if k < s.subagent_files.len() {
            let name = s.subagent_files[k as int].0;
            EventSourceView::SubAgent {
                agent_id: match jsonl_stem_of(name) {
                    Some(stem) => stem,
                    None => name,
                },
            }
        } else {
            EventSourceView::Main
        },
    }
}

impl Scanner {
    /// Starts following the session `info` from the beginning of its log, with its
    /// subagents directory when `subagents_dir_exists` (see `subagents_dir_of`).
    pub fn from_session_info(info: &SessionInfo, subagents_dir_exists: bool) -> (r: Result<Self, ScannerError>)
        ensures
            r matches Ok(s) && s@.main_file == Some((info.path@, 0u64)) && s@.subagent_files.len()
                == 0 && s@.session_id == info.session_id@ && s@.project_slug == info.project_slug@
                && s@.parser.message_ids.len() == 0 && s@.parser.tool_use_ids.len() == 0
                && s@.subagents_dir == (if subagents_dir_exists {
                Some(subagents_dir_in(parent_of(info.path@), info.session_id@))
            } else {
                None
            }) && scanner_wf(s@),
    {
        let dir = if subagents_dir_exists {
            Some(subagents_dir_of(info.path.as_str(), info.session_id.as_str()))
        } else {
            None
        };
        let s = Scanner {
            parser: Parser::new(),
            main_file: Some(TrackedFile { path: info.path.clone(), offset: 0 }),
            subagent_files: Vec::new(),
            subagents_dir: dir,
            session_id: info.session_id.clone(),
            project_slug: info.project_slug.clone(),
        };
        assert(s@.subagent_files.len() == 0);
        Ok(s)
    }

    /// The session being followed.
    pub fn session_id(&self) -> (r: &str)
        ensures
            r@ == self@.session_id,
    {
        self.session_id.as_str()
    }

    /// The project of the session being followed.
    pub fn project_slug(&self) -> (r: &str)
        ensures
            r@ == self@.project_slug,
    {
        self.project_slug.as_str()
    }

    /// The main log, and how far it was read.
    pub fn main_file(&self) -> (r: Option<(String, u64)>)
        ensures
            match r {
                Some((p, o)) => self@.main_file == Some((p@, o)),
                None => self@.main_file is None,
            },
    {
        match &self.main_file {
            Some(f) => Some((f.path.clone(), f.offset)),
            None => None,
        }
    }

    /// How many subagent logs are followed.
    pub fn subagent_count(&self) -> (r: usize)
        ensures
            r == self@.subagent_files.len(),
    {
        self.subagent_files.len()
    }

    /// The path of the `k`th followed subagent log, and how far it was read.
    pub fn subagent_file(&self, k: usize) -> (r: (String, u64))
        requires
            k < self@.subagent_files.len(),
        ensures
            (r.0@, r.1) == (self@.subagent_files[k as int].1, self@.subagent_files[k as int].2),
    {
        (self.subagent_files[k].1.path.clone(), self.subagent_files[k].1.offset)
    }

    /// The subagents directory, once known.
    pub fn subagents_dir(&self) -> (r: Option<String>)
        ensures
            opt_view(r) == self@.subagents_dir,
    {
        match &self.subagents_dir {
            Some(d) => Some(d.clone()),
            None => None,
        }
    }

    /// Where the subagents directory would be, when it is not known yet.
    pub fn subagents_dir_candidate(&self) -> (r: Option<String>)
        ensures
            match r {
                Some(d) => self@.subagents_dir is None && (self@.main_file matches Some((p, _))
                    && d@ == subagents_dir_in(parent_of(p), self@.session_id)),
                None => self@.subagents_dir is Some || self@.main_file is None,
            },
    {
        if self.subagents_dir.is_some() {
            return None;
        }
        match &self.main_file {
            Some(f) => Some(subagents_dir_of(f.path.as_str(), self.session_id.as_str())),
            None => None,
        }
    }

    /// The subagents directory was found at `dir`.
    pub fn set_subagents_dir(&mut self, dir: String)
        ensures
            final(self)@ == (ScannerView { subagents_dir: Some(dir@), ..old(self)@ }),
    {
        self.subagents_dir = Some(dir);
    }

    /// Starts following the subagent log `name` at `path` from its beginning, unless a
    /// log of that name is followed already; says whether it was new.
    pub fn track_subagent_file(&mut self, name: String, path: String) -> (added: bool)
        requires
            scanner_wf(old(self)@),
        ensures
            scanner_wf(final(self)@),
            added == forall|i: int| 0 <= i < old(self)@.subagent_files.len() ==> old(self)@.subagent_files[i].0 != name@,
            final(self)@ == if added {
                ScannerView {
                    subagent_files: old(self)@.subagent_files.push((name@, path@, 0u64)),
                    ..old(self)@
                }
            } else {
                old(self)@
            },
    {
        let ghost files = self@.subagent_files;
        let mut i: usize = 0;
        while i < self.subagent_files.len()
            invariant
                0 <= i <= self.subagent_files@.len(),
                self@ == old(self)@,
                scanner_wf(old(self)@),
                files == self@.subagent_files,
                files.len() == self.subagent_files@.len(),
                forall|j: int| 0 <= j < i ==> files[j].0 != name@,
            decreases self.subagent_files.len() - i,
        {
            assert(files[i as int] == sub_file_view(self.subagent_files@[i as int]));
            if self.subagent_files[i].0 == name {
                return false;
            }
            i += 1;
        }
        let ghost nm = name@;
        let ghost pt = path@;
        self.subagent_files.push((name, TrackedFile { path, offset: 0 }));
        assert(self@.subagent_files =~= files.push((nm, pt, 0u64)));
        true
    }

    /// Where the events read from `f` come from: the main log, or the subagent whose log
    /// it is, named by the log's file name without its `.jsonl`.
    pub fn source_of(&self, f: FileRef) -> (r: EventSource)
        ensures
            r@ == source_view_of(self@, f),
    {
        match f {
            FileRef::Main => EventSource::Main,
            FileRef::SubAgent(k) => if k < self.subagent_files.len() {
                let name = &self.subagent_files[k].0;
                let agent_id = match jsonl_stem(name.as_str()) {
                    Some(stem) => stem,
                    None => name.clone(),
                };
                EventSource::SubAgent { agent_id }
            } else {
                EventSource::Main
            },
        }
    }

    /// How far the file `f` was read, if it is followed.
    pub fn offset(&self, f: FileRef) -> (r: Option<u64>)
        ensures
            r == offset_of(self@, f),
    {
        match f {
            FileRef::Main => match &self.main_file {
                Some(t) => Some(t.offset),
                None => None,
            },
            FileRef::SubAgent(k) => if k < self.subagent_files.len() {
                Some(self.subagent_files[k].1.offset)
            } else {
                None
            },
        }
    }

    /// Takes one line (of `bytes` bytes, its end of line included) read from the file
    /// `f`: moves the file's offset past it and parses it, trimmed, unless it is blank.
    /// `None` (with the parser unchanged) when the line holds a teammate message that
    /// the parser cannot cut (see `line_ok`).
    pub fn take_line(&mut self, f: FileRef, bytes: u64, line: &str) -> (r: Option<Vec<SessionEvent>>)
        requires
            offset_of(old(self)@, f) matches Some(o) ==> o + bytes <= u64::MAX,
        ensures
            ({
                let s1 = advanced(old(self)@, f, bytes);
                let t = trim(line@);
                if t.len() == 0 {
                    r matches Some(ev) && ev@.len() == 0 && final(self)@ == s1
                } else if line_ok(t) {
                    r matches Some(ev) && (events_view(ev@), final(self)@.parser) == line_step(
                        s1.parser,
                        t,
                    ) && final(self)@ == (ScannerView { parser: final(self)@.parser, ..s1 })
                } else {
                    r is None && final(self)@ == s1
                }
            }),
    {
        match f {
            FileRef::Main => match &mut self.main_file {
                Some(t) => {
                    t.offset = t.offset + bytes;
                },
                None => {},
            },
            FileRef::SubAgent(k) => if k < self.subagent_files.len() {
                let ghost files = self@.subagent_files;
                let o = self.subagent_files[k].1.offset;
                self.subagent_files[k].1.offset = o + bytes;
                assert(self@.subagent_files =~= files.update(
                    k as int,
                    (files[k as int].0, files[k as int].1, (o + bytes) as u64),
                ));
            },
        }
        let ghost s1 = self@;
        let trimmed = trim_string(line);
        let tv = chars_of(trimmed.as_str());
        if tv.len() == 0 {
            return Some(Vec::new());
        }
        let r = self.parser.parse_line_checked(trimmed.as_str());
        assert(self@ == (ScannerView { parser: self@.parser, ..s1 }));
        r
    }
}

} // verus!
