//! The session display state machine: which sessions and subagents exist, what each
//! is doing, and the activity log of each session.
use vstd::prelude::*;
use crate::events::{
    EventSourceView, EventView, SessionEvent, TaggedEvent, TaggedView, ToolCategory, EventSource,
};
use crate::loader::{braille_spec, frame_at, frames_view, LoaderStyle};
use crate::text::{append_str, copy_str, push_char};
use crate::util::{truncate_str, truncated};

verus! {

/// At most this many sessions are shown at once.
pub const MAX_VISIBLE_SESSIONS: usize = 6;

/// Seconds an exited session stays on screen before it is archived.
pub const ARCHIVE_GRACE_SECS: u64 = 300;

/// Seconds without events after which a running tool asks for attention.
pub const ATTENTION_THRESHOLD_SECS: u64 = 12;

/// Seconds after which an idle subagent is dropped.
pub const SUBAGENT_CLEANUP_SECS: u64 = 60;

/// Nanoseconds in a second.
pub const NANOS_PER_SEC: u64 = 1_000_000_000;

/// A reading of the clocks: `mono_ns` on a monotonic clock (nanoseconds since a fixed
/// start), `wall_ns` nanoseconds since the Unix epoch (negative before it).
#[derive(Debug, Clone, Copy)]
pub struct Clock {
    pub mono_ns: u64,
    pub wall_ns: i128,
}

/// What a session shows as its icon.
#[derive(Debug, Clone, Copy, PartialEq, Eq, Structural)]
pub enum SessionKind {
    Terminal,
    Code,
    Markdown,
}

/// The icon of a session kind.
pub open spec fn icon_of(kind: SessionKind, focused: bool) -> Seq<char> {
    match kind {
        SessionKind::Terminal => "\u{f489}"@,
        SessionKind::Code => if focused {
            "\u{f0844}"@
        } else {
            "\u{f121}"@
        },
        SessionKind::Markdown => "\u{f0226}"@,
    }
}

impl SessionKind {
    /// The icon of this kind (the code icon changes when focused).
    pub fn icon(self, focused: bool) -> (r: &'static str)
        ensures
            r@ == icon_of(self, focused),
    {
        match self {
            SessionKind::Terminal => "\u{f489}",
            SessionKind::Code => {
                if focused {
                    "\u{f0844}"
                } else {
                    "\u{f121}"
                }
            },
            SessionKind::Markdown => "\u{f0226}",
        }
    }
}

/// A tool that is running.
pub struct ActiveTool {
    pub tool_name: String,
    pub tool_use_id: String,
    pub category: ToolCategory,
    pub description: String,
}

/// The mathematical form of an `ActiveTool`.
pub struct ToolView {
    pub tool_name: Seq<char>,
    pub tool_use_id: Seq<char>,
    pub category: ToolCategory,
    pub description: Seq<char>,
}

impl View for ActiveTool {
    type V = ToolView;

    open spec fn view(&self) -> ToolView {
        ToolView {
            tool_name: self.tool_name@,
            tool_use_id: self.tool_use_id@,
            category: self.category,
            description: self.description@,
        }
    }
}

/// The view of an optional tool.
pub open spec fn tool_opt_view(t: Option<ActiveTool>) -> Option<ToolView> {
    match t {
        Some(t) => Some(t@),
        None => None,
    }
}

/// A subagent of a session.
pub struct SubAgent {
    pub agent_id: String,
    pub description: String,
    pub active: bool,
    pub current_tool: Option<ActiveTool>,
    pub activity: String,
    pub last_event_time: Option<u64>,
    pub needs_attention: bool,
}

/// The mathematical form of a `SubAgent`.
pub struct SubAgentView {
    pub agent_id: Seq<char>,
    pub description: Seq<char>,
    pub active: bool,
    pub current_tool: Option<ToolView>,
    pub activity: Seq<char>,
    pub last_event_time: Option<u64>,
    pub needs_attention: bool,
}

impl View for SubAgent {
    type V = SubAgentView;

    open spec fn view(&self) -> SubAgentView {
        SubAgentView {
            agent_id: self.agent_id@,
            description: self.description@,
            active: self.active,
            current_tool: tool_opt_view(self.current_tool),
            activity: self.activity@,
            last_event_time: self.last_event_time,
            needs_attention: self.needs_attention,
        }
    }
}

/// The views of a list of subagents.
pub open spec fn subs_view(v: Seq<SubAgent>) -> Seq<SubAgentView> {
    v.map_values(|s: SubAgent| s@)
}

/// A watched session.
pub struct Session {
    pub session_id: String,
    pub project_slug: String,
    pub active: bool,
    pub kind: SessionKind,
    pub current_tool: Option<ActiveTool>,
    pub activity: String,
    pub exited_at: Option<i128>,
    pub archived: bool,
    pub last_event_time: Option<u64>,
    pub needs_attention: bool,
    pub subagents: Vec<SubAgent>,
}

/// The mathematical form of a `Session`.
pub struct SessionView {
    pub session_id: Seq<char>,
    pub project_slug: Seq<char>,
    pub active: bool,
    pub kind: SessionKind,
    pub current_tool: Option<ToolView>,
    pub activity: Seq<char>,
    pub exited_at: Option<i128>,
    pub archived: bool,
    pub last_event_time: Option<u64>,
    pub needs_attention: bool,
    pub subagents: Seq<SubAgentView>,
}

impl View for Session {
    type V = SessionView;

    open spec fn view(&self) -> SessionView {
        SessionView {
            session_id: self.session_id@,
            project_slug: self.project_slug@,
            active: self.active,
            kind: self.kind,
            current_tool: tool_opt_view(self.current_tool),
            activity: self.activity@,
            exited_at: self.exited_at,
            archived: self.archived,
            last_event_time: self.last_event_time,
            needs_attention: self.needs_attention,
            subagents: subs_view(self.subagents@),
        }
    }
}

/// The views of a list of sessions.
pub open spec fn sessions_view(v: Seq<Session>) -> Seq<SessionView> {
    v.map_values(|s: Session| s@)
}

/// One line of a session's activity log.
pub struct ActivityEntry {
    pub timestamp: String,
    pub tool: String,
    pub summary: String,
    pub detail: String,
    pub is_error: bool,
    pub category: ToolCategory,
}

/// The mathematical form of an `ActivityEntry`.
pub struct EntryView {
    pub timestamp: Seq<char>,
    pub tool: Seq<char>,
    pub summary: Seq<char>,
    pub detail: Seq<char>,
    pub is_error: bool,
    pub category: ToolCategory,
}

impl View for ActivityEntry {
    type V = EntryView;

    open spec fn view(&self) -> EntryView {
        EntryView {
            timestamp: self.timestamp@,
            tool: self.tool@,
            summary: self.summary@,
            detail: self.detail@,
            is_error: self.is_error,
            category: self.category,
        }
    }
}

/// The views of an activity log.
pub open spec fn log_view(v: Seq<ActivityEntry>) -> Seq<EntryView> {
    v.map_values(|e: ActivityEntry| e@)
}

/// The views of all activity logs.
pub open spec fn logs_view(v: Seq<Vec<ActivityEntry>>) -> Seq<Seq<EntryView>> {
    v.map_values(|l: Vec<ActivityEntry>| log_view(l@))
}

/// All sessions, one activity log per session, and the spinner's frame counter.
pub struct ClaudeWidget {
    pub sessions: Vec<Session>,
    pub activity_logs: Vec<Vec<ActivityEntry>>,
    pub spinner_frame: usize,
}

/// The mathematical form of a `ClaudeWidget`.
pub struct WidgetView {
    pub sessions: Seq<SessionView>,
    pub logs: Seq<Seq<EntryView>>,
    pub spinner_frame: usize,
}

impl View for ClaudeWidget {
    type V = WidgetView;

    open spec fn view(&self) -> WidgetView {
        WidgetView {
            sessions: sessions_view(self.sessions@),
            logs: logs_view(self.activity_logs@),
            spinner_frame: self.spinner_frame,
        }
    }
}

/// There is one activity log per session.
pub open spec fn widget_wf(w: WidgetView) -> bool {
    w.logs.len() == w.sessions.len()
}

// ---------------------------------------------------------------------------
// Time
// ---------------------------------------------------------------------------

/// The digits of `n`, for `n < 100`, padded to two.
pub open spec fn two_digits(n: nat) -> Seq<char> {
    seq![digit_char(n / 10), digit_char(n % 10)]
}

/// The decimal digit `d`.
pub open spec fn digit_char(d: nat) -> char {
    seq!['0', '1', '2', '3', '4', '5', '6', '7', '8', '9'][d as int]
}

/// "HH:MM:SS" of the time of day `secs` seconds after midnight of the epoch day (UTC).
pub open spec fn hms_of_secs(secs: nat) -> Seq<char> {
    two_digits((secs / 3600) % 24) + seq![':'] + two_digits((secs / 60) % 60) + seq![':']
        + two_digits(secs % 60)
}

/// "HH:MM:SS" (UTC) of a wall-clock reading (its seconds into the day); "00:00:00"
/// before the epoch.
pub open spec fn hms_of_wall(wall_ns: i128) -> Seq<char> {
    if wall_ns >= 0 {
        hms_of_secs(((wall_ns as int / NANOS_PER_SEC as int) % 86400) as nat)
    } else {
        seq!['0', '0', ':', '0', '0', ':', '0', '0']
    }
}

/// At least `secs` seconds passed on the monotonic clock from `then` to `now`
/// (an earlier `now` counts as no time passed).
pub open spec fn mono_elapsed_at_least(now: u64, then: u64, secs: u64) -> bool {
    now >= then && now - then >= secs * NANOS_PER_SEC
}

// ---------------------------------------------------------------------------
// The event step
// ---------------------------------------------------------------------------

/// The index of the first session with the given id.
#[verifier::opaque]
pub open spec fn first_session(s: Seq<SessionView>, id: Seq<char>) -> Option<int> {
    if exists|i: int| 0 <= i < s.len() && #[trigger] s[i].session_id == id {
        Some(
            choose|i: int|
                0 <= i < s.len() && #[trigger] s[i].session_id == id && forall|j: int|
                    0 <= j < i ==> s[j].session_id != id,
        )
    } else {
        None
    }
}

/// The index of the first subagent with the given id.
#[verifier::opaque]
pub open spec fn first_subagent(s: Seq<SubAgentView>, id: Seq<char>) -> Option<int> {
    if exists|i: int| 0 <= i < s.len() && #[trigger] s[i].agent_id == id {
        Some(
            choose|i: int|
                0 <= i < s.len() && #[trigger] s[i].agent_id == id && forall|j: int|
                    0 <= j < i ==> s[j].agent_id != id,
        )
    } else {
        None
    }
}

/// `w` with session `i` replaced by `s`.
pub open spec fn set_session(w: WidgetView, i: int, s: SessionView) -> WidgetView {
    WidgetView { sessions: w.sessions.update(i, s), ..w }
}

/// `w` with `e` appended to the activity log of session `i`.
pub open spec fn push_log(w: WidgetView, i: int, e: EntryView) -> WidgetView {
    WidgetView { logs: w.logs.update(i, w.logs[i].push(e)), ..w }
}

/// A log entry written at `now`.
pub open spec fn entry_at(
    now: Clock,
    tool: Seq<char>,
    summary: Seq<char>,
    detail: Seq<char>,
    is_error: bool,
    category: ToolCategory,
) -> EntryView {
    EntryView { timestamp: hms_of_wall(now.wall_ns), tool, summary, detail, is_error, category }
}

/// The tool shown while the model is thinking.
pub open spec fn thinking_tool() -> ToolView {
    ToolView {
        tool_name: "thinking"@,
        tool_use_id: seq![],
        category: ToolCategory::Thinking,
        description: "thinking..."@,
    }
}

/// How a running tool is described: "name(description)".
pub open spec fn tool_activity(name: Seq<char>, desc: Seq<char>) -> Seq<char> {
    name + seq!['('] + desc + seq![')']
}

/// The subagents of `s` that `keep` holds of, in order.
pub open spec fn keep_subs(s: Seq<SubAgentView>, keep: spec_fn(SubAgentView) -> bool) -> Seq<
    SubAgentView,
>
    decreases s.len(),
{
    if s.len() == 0 {
        seq![]
    } else if keep(s.last()) {
        keep_subs(s.drop_last(), keep).push(s.last())
    } else {
        keep_subs(s.drop_last(), keep)
    }
}

/// A subagent that is still running or waiting for the user.
pub open spec fn sub_busy(s: SubAgentView) -> bool {
    s.active || s.needs_attention
}

/// A main-source event refreshes its (live) session's timestamp and clears its
/// attention flag.
pub open spec fn touch(w: WidgetView, id: Seq<char>, now: Clock) -> WidgetView {
    match first_session(w.sessions, id) {
        Some(i) => if w.sessions[i].exited_at is None {
            set_session(
                w,
                i,
                SessionView {
                    last_event_time: Some(now.mono_ns),
                    needs_attention: false,
                    ..w.sessions[i]
                },
            )
        } else {
            w
        },
        None => w,
    }
}

/// A freshly seen session.
pub open spec fn new_session(id: Seq<char>, project: Seq<char>, now: Clock) -> SessionView {
    SessionView {
        session_id: id,
        project_slug: project,
        active: true,
        kind: SessionKind::Code,
        current_tool: None,
        activity: "starting..."@,
        exited_at: None,
        archived: false,
        last_event_time: Some(now.mono_ns),
        needs_attention: false,
        subagents: seq![],
    }
}

/// A prompt of the user in live session `i`.
#[verifier::opaque]
pub open spec fn user_prompt_effect(w: WidgetView, i: int, text: Seq<char>, now: Clock) -> WidgetView {
    push_log(
        set_session(
            w,
            i,
            SessionView { active: true, activity: truncated(text, 200), ..w.sessions[i] },
        ),
        i,
        entry_at(now, "User"@, truncated(text, 80), text, false, ToolCategory::Unknown),
    )
}

/// A tool started in live session `i`.
#[verifier::opaque]
pub open spec fn tool_start_effect(
    w: WidgetView,
    i: int,
    tool_name: Seq<char>,
    tool_use_id: Seq<char>,
    category: ToolCategory,
    description: Seq<char>,
    now: Clock,
) -> WidgetView {
    let s = w.sessions[i];
    push_log(
        set_session(
            w,
            i,
            SessionView {
                active: true,
                activity: tool_activity(tool_name, description),
                current_tool: Some(ToolView { tool_name, tool_use_id, category, description }),
                needs_attention: if category == ToolCategory::Awaiting {
                    true
                } else {
                    s.needs_attention
                },
                ..s
            },
        ),
        i,
        entry_at(now, tool_name, truncated(description, 80), description, false, category),
    )
}

/// A tool ended in session `i`: it is no longer the current tool, and an error marks
/// the latest log entry (with the error text, when there is one).
#[verifier::opaque]
pub open spec fn tool_end_effect(
    w: WidgetView,
    i: int,
    tool_use_id: Seq<char>,
    is_error: bool,
    error_message: Option<Seq<char>>,
) -> WidgetView {
    let s = w.sessions[i];
    let w1 = if s.current_tool matches Some(t) && t.tool_use_id == tool_use_id {
        set_session(w, i, SessionView { current_tool: None, ..s })
    } else {
        w
    };
    if is_error && w1.logs[i].len() > 0 {
        let last = w1.logs[i].last();
        let marked = EntryView {
            is_error: true,
            detail: match error_message {
                Some(m) => m,
                None => last.detail,
            },
            ..last
        };
        WidgetView { logs: w1.logs.update(i, w1.logs[i].update(w1.logs[i].len() - 1, marked)), ..w1 }
    } else {
        w1
    }
}

/// The model is thinking in session `i`.
#[verifier::opaque]
pub open spec fn thinking_effect(w: WidgetView, i: int) -> WidgetView {
    set_session(
        w,
        i,
        SessionView {
            active: true,
            activity: "thinking..."@,
            current_tool: Some(thinking_tool()),
            ..w.sessions[i]
        },
    )
}

/// A turn of session `i` completed: it is idle and its finished subagents are dropped.
#[verifier::opaque]
pub open spec fn turn_complete_effect(w: WidgetView, i: int) -> WidgetView {
    set_session(
        w,
        i,
        SessionView {
            active: false,
            activity: "idle"@,
            current_tool: None,
            subagents: keep_subs(w.sessions[i].subagents, |s: SubAgentView| sub_busy(s)),
            ..w.sessions[i]
        },
    )
}

/// The context of session `i` was compacted.
#[verifier::opaque]
pub open spec fn compaction_effect(w: WidgetView, i: int, now: Clock) -> WidgetView {
    push_log(
        set_session(
            w,
            i,
            SessionView { active: true, activity: "compacting context..."@, ..w.sessions[i] },
        ),
        i,
        entry_at(
            now,
            "System"@,
            "context compaction"@,
            "Context window compacted to free space"@,
            false,
            ToolCategory::Unknown,
        ),
    )
}

/// Session `i` ended (the user ran /exit).
#[verifier::opaque]
pub open spec fn session_end_effect(w: WidgetView, i: int, now: Clock) -> WidgetView {
    push_log(
        set_session(
            w,
            i,
            SessionView {
                active: false,
                current_tool: None,
                activity: "session ended"@,
                exited_at: Some(now.wall_ns),
                ..w.sessions[i]
            },
        ),
        i,
        entry_at(
            now,
            "System"@,
            "session exited (/exit)"@,
            "User ran /exit to end the session"@,
            false,
            ToolCategory::Unknown,
        ),
    )
}

/// The effect of a main-source event on the session it names (after `touch`).
pub open spec fn main_event(w: WidgetView, id: Seq<char>, ev: EventView, now: Clock) -> WidgetView {
    let idx = first_session(w.sessions, id);
    match ev {
        EventView::SessionStart { project, .. } => if idx is Some {
            w
        } else {
            WidgetView {
                sessions: w.sessions.push(new_session(id, project, now)),
                logs: w.logs.push(seq![]),
                ..w
            }
        },
        EventView::UserPrompt { text } => match idx {
            Some(i) => if w.sessions[i].exited_at is Some {
                w
            } else {
                user_prompt_effect(w, i, text, now)
            },
            None => w,
        },
        EventView::ToolStart { tool_name, tool_use_id, category, description } => match idx {
            Some(i) => if w.sessions[i].exited_at is Some {
                w
            } else {
                tool_start_effect(w, i, tool_name, tool_use_id, category, description, now)
            },
            None => w,
        },
        EventView::ToolEnd { tool_use_id, is_error, error_message } => match idx {
            Some(i) => tool_end_effect(w, i, tool_use_id, is_error, error_message),
            None => w,
        },
        EventView::Thinking => match idx {
            Some(i) => thinking_effect(w, i),
            None => w,
        },
        EventView::TurnComplete { .. } => match idx {
            Some(i) => turn_complete_effect(w, i),
            None => w,
        },
        EventView::AgentSpawned { description, .. } => match idx {
            Some(i) => push_log(
                w,
                i,
                entry_at(
                    now,
                    "Agent"@,
                    truncated(description, 80),
                    description,
                    false,
                    ToolCategory::Spawning,
                ),
            ),
            None => w,
        },
        EventView::ContextCompaction => match idx {
            Some(i) => compaction_effect(w, i, now),
            None => w,
        },
        EventView::SessionEnd => match idx {
            Some(i) => session_end_effect(w, i, now),
            None => w,
        },
        _ => w,
    }
}

/// A subagent first seen at `now`.
pub open spec fn new_subagent(id: Seq<char>, now: Clock) -> SubAgentView {
    SubAgentView {
        agent_id: id,
        description: seq![],
        active: true,
        current_tool: None,
        activity: "starting..."@,
        last_event_time: Some(now.mono_ns),
        needs_attention: false,
    }
}

/// The subagents of a session once `id` is among them (added at the end if new).
pub open spec fn with_subagent(subs: Seq<SubAgentView>, id: Seq<char>, now: Clock) -> Seq<
    SubAgentView,
> {
    if first_subagent(subs, id) is Some {
        subs
    } else {
        subs.push(new_subagent(id, now))
    }
}

/// The effect of an event on a subagent (already refreshed).
pub open spec fn subagent_event(sub: SubAgentView, ev: EventView) -> SubAgentView {
    match ev {
        EventView::UserPrompt { text } => SubAgentView {
            description: if sub.description.len() == 0 {
                truncated(text, 60)
            } else {
                sub.description
            },
            active: true,
            activity: truncated(text, 200),
            ..sub
        },
        EventView::ToolStart { tool_name, tool_use_id, category, description } => SubAgentView {
            active: true,
            activity: tool_activity(tool_name, description),
            current_tool: Some(ToolView { tool_name, tool_use_id, category, description }),
            needs_attention: if category == ToolCategory::Awaiting {
                true
            } else {
                sub.needs_attention
            },
            ..sub
        },
        EventView::ToolEnd { tool_use_id, .. } => if sub.current_tool matches Some(t)
            && t.tool_use_id == tool_use_id {
            SubAgentView { current_tool: None, ..sub }
        } else {
            sub
        },
        EventView::Thinking => SubAgentView {
            active: true,
            activity: "thinking..."@,
            current_tool: Some(thinking_tool()),
            ..sub
        },
        EventView::TurnComplete { .. } => SubAgentView {
            active: false,
            current_tool: None,
            activity: "done"@,
            ..sub
        },
        _ => sub,
    }
}

/// The effect of an event from subagent `agent_id` on session `i`.
pub open spec fn subagent_step(
    w: WidgetView,
    i: int,
    agent_id: Seq<char>,
    ev: EventView,
    now: Clock,
) -> WidgetView {
    let subs = with_subagent(w.sessions[i].subagents, agent_id, now);
    let j = first_subagent(subs, agent_id)->0;
    let refreshed = SubAgentView {
        last_event_time: Some(now.mono_ns),
        needs_attention: false,
        ..subs[j]
    };
    set_session(
        w,
        i,
        SessionView { subagents: subs.update(j, subagent_event(refreshed, ev)), ..w.sessions[i] },
    )
}

/// The display state after a tagged event arrives at `now`.
pub open spec fn apply_event(w: WidgetView, t: TaggedView, now: Clock) -> WidgetView {
    match t.source {
        EventSourceView::SubAgent { agent_id } => match first_session(w.sessions, t.session_id) {
            Some(i) => subagent_step(w, i, agent_id, t.event, now),
            None => w,
        },
        EventSourceView::Main => main_event(touch(w, t.session_id, now), t.session_id, t.event, now),
    }
}

// ---------------------------------------------------------------------------
// The tick step
// ---------------------------------------------------------------------------

/// A tool other than thinking has run without events for long enough to ask for
/// attention.
pub open spec fn tool_stale(tool: Option<ToolView>, last: Option<u64>, now: Clock) -> bool {
    match tool {
        Some(t) => t.category != ToolCategory::Thinking && match last {
            Some(l) => mono_elapsed_at_least(now.mono_ns, l, ATTENTION_THRESHOLD_SECS),
            None => false,
        },
        None => false,
    }
}

/// A subagent after a tick: a running tool without events for long enough asks for
/// attention.
pub open spec fn tick_subagent(s: SubAgentView, now: Clock) -> SubAgentView {
    if s.active && !s.needs_attention && tool_stale(s.current_tool, s.last_event_time, now) {
        SubAgentView { needs_attention: true, ..s }
    } else {
        s
    }
}

/// The subagents after a tick: each checked for staleness.
pub open spec fn tick_subagents(s: Seq<SubAgentView>, now: Clock) -> Seq<SubAgentView> {
    s.map_values(|x: SubAgentView| tick_subagent(x, now))
}

/// A subagent kept at a tick: busy, or heard from less than a minute ago (or never).
pub open spec fn sub_kept(s: SubAgentView, now: Clock) -> bool {
    sub_busy(s) || match s.last_event_time {
        Some(last) => !mono_elapsed_at_least(now.mono_ns, last, SUBAGENT_CLEANUP_SECS),
        None => true,
    }
}

/// A session after a tick: archived once exited long enough ago, flagged when its
/// tool has been silent long enough, its subagents checked and the idle ones dropped.
pub open spec fn tick_session(s: SessionView, now: Clock) -> SessionView {
    let archived = s.archived || match s.exited_at {
        Some(e) => now.wall_ns >= e && now.wall_ns - e >= ARCHIVE_GRACE_SECS * NANOS_PER_SEC,
        None => false,
    };
    let attention = s.needs_attention || tool_stale(s.current_tool, s.last_event_time, now);
    SessionView {
        archived,
        needs_attention: attention,
        subagents: keep_subs(tick_subagents(s.subagents, now), |x: SubAgentView| sub_kept(x, now)),
        ..s
    }
}

/// The display state after a tick at `now`.
pub open spec fn tick_widget(w: WidgetView, now: Clock) -> WidgetView {
    WidgetView {
        sessions: w.sessions.map_values(|s: SessionView| tick_session(s, now)),
        spinner_frame: if w.spinner_frame == usize::MAX {
            0
        } else {
            (w.spinner_frame + 1) as usize
        },
        ..w
    }
}


// ---------------------------------------------------------------------------
// Session ids stay distinct
// ---------------------------------------------------------------------------

/// No two sessions share an id.
pub open spec fn distinct_ids(s: Seq<SessionView>) -> bool {
    forall|i: int, j: int| 0 <= i < j < s.len() ==> s[i].session_id != s[j].session_id
}

/// `b` holds sessions with the ids and project slugs of `a`, at the same positions.
pub open spec fn same_keys(a: Seq<SessionView>, b: Seq<SessionView>) -> bool {
    a.len() == b.len() && forall|k: int|
        0 <= k < a.len() ==> #[trigger] b[k].session_id == a[k].session_id && b[k].project_slug
            == a[k].project_slug
}

/// Every change of a session's fields keeps the ids and project slugs where they are.
proof fn lemma_effects_keep_ids(w: WidgetView, i: int, now: Clock)
    requires
        0 <= i < w.sessions.len(),
    ensures
        forall|text: Seq<char>| same_keys(w.sessions, #[trigger] user_prompt_effect(w, i, text, now).sessions),
        forall|n: Seq<char>, id: Seq<char>, c: ToolCategory, d: Seq<char>|
            same_keys(w.sessions, #[trigger] tool_start_effect(w, i, n, id, c, d, now).sessions),
        forall|id: Seq<char>, e: bool, m: Option<Seq<char>>|
            same_keys(w.sessions, #[trigger] tool_end_effect(w, i, id, e, m).sessions),
        same_keys(w.sessions, thinking_effect(w, i).sessions),
        same_keys(w.sessions, turn_complete_effect(w, i).sessions),
        same_keys(w.sessions, compaction_effect(w, i, now).sessions),
        same_keys(w.sessions, session_end_effect(w, i, now).sessions),
        forall|e: EntryView| same_keys(w.sessions, #[trigger] push_log(w, i, e).sessions),
{
    reveal(user_prompt_effect);
    reveal(tool_start_effect);
    reveal(tool_end_effect);
    reveal(thinking_effect);
    reveal(turn_complete_effect);
    reveal(compaction_effect);
    reveal(session_end_effect);
}

/// Sessions with the ids of distinct sessions are distinct.
proof fn lemma_same_keys_distinct(a: Seq<SessionView>, b: Seq<SessionView>)
    requires
        distinct_ids(a),
        same_keys(a, b),
    ensures
        distinct_ids(b),
{
    assert forall|i: int, j: int| 0 <= i < j < b.len() implies b[i].session_id != b[j].session_id by {
        assert(b[i].session_id == a[i].session_id);
        assert(b[j].session_id == a[j].session_id);
    }
}

/// Sessions never share an id: an event adds a session only under an id that no
/// session has, and changes no session's id.
pub proof fn lemma_event_keeps_ids_distinct(w: WidgetView, t: TaggedView, now: Clock)
    requires
        distinct_ids(w.sessions),
    ensures
        distinct_ids(apply_event(w, t, now).sessions),
{
    reveal(first_session);
    match t.source {
        EventSourceView::SubAgent { agent_id } => match first_session(w.sessions, t.session_id) {
            Some(i) => {
                let w2 = subagent_step(w, i, agent_id, t.event, now);
                assert(same_keys(w.sessions, w2.sessions));
                lemma_same_keys_distinct(w.sessions, w2.sessions);
            },
            None => {},
        },
        EventSourceView::Main => {
            let w1 = touch(w, t.session_id, now);
            assert(same_keys(w.sessions, w1.sessions));
            lemma_same_keys_distinct(w.sessions, w1.sessions);
            let id = t.session_id;
            let w2 = main_event(w1, id, t.event, now);
            match first_session(w1.sessions, id) {
                Some(i) => {
                    lemma_effects_keep_ids(w1, i, now);
                    assert(same_keys(w1.sessions, w2.sessions));
                    lemma_same_keys_distinct(w1.sessions, w2.sessions);
                },
                None => {
                    if t.event is SessionStart {
                        assert forall|k: int| 0 <= k < w1.sessions.len() implies w1.sessions[k].session_id != id by {}
                        assert forall|a: int, b: int| 0 <= a < b < w2.sessions.len() implies w2.sessions[a].session_id
                            != w2.sessions[b].session_id by {
                            if b == w1.sessions.len() {
                                assert(w2.sessions[b].session_id == id);
                                assert(w2.sessions[a] == w1.sessions[a]);
                            } else {
                                assert(w2.sessions[a] == w1.sessions[a]);
                                assert(w2.sessions[b] == w1.sessions[b]);
                            }
                        }
                    } else {
                        assert(w2 == w1);
                    }
                },
            }
        },
    }
}

/// Some session has the id `id`.
pub open spec fn has_session(s: Seq<SessionView>, id: Seq<char>) -> bool {
    exists|k: int| 0 <= k < s.len() && #[trigger] s[k].session_id == id
}

/// The event starts a session the widget does not have yet.
pub open spec fn starts_new_session(w: WidgetView, t: TaggedView) -> bool {
    &&& t.source is Main
    &&& t.event is SessionStart
    &&& !has_session(w.sessions, t.session_id)
}

/// A session with the id `id` at `k` means there is a first one.
proof fn lemma_first_exists(s: Seq<SessionView>, id: Seq<char>, k: int)
    requires
        0 <= k < s.len(),
        s[k].session_id == id,
    ensures
        exists|i: int|
            0 <= i < s.len() && #[trigger] s[i].session_id == id && forall|j: int|
                0 <= j < i ==> s[j].session_id != id,
    decreases k,
{
    if exists|j: int| 0 <= j < k && #[trigger] s[j].session_id == id {
        let j = choose|j: int| 0 <= j < k && #[trigger] s[j].session_id == id;
        lemma_first_exists(s, id, j);
    } else {
        assert(forall|j: int| 0 <= j < k ==> s[j].session_id != id);
    }
}

/// `first_session` finds a session exactly when one has the id.
proof fn lemma_first_session_found(s: Seq<SessionView>, id: Seq<char>)
    ensures
        (first_session(s, id) is Some) == has_session(s, id),
        first_session(s, id) matches Some(i) ==> 0 <= i < s.len() && s[i].session_id == id,
{
    reveal(first_session);
    if has_session(s, id) {
        let k = choose|k: int| 0 <= k < s.len() && #[trigger] s[k].session_id == id;
        lemma_first_exists(s, id, k);
    }
}

/// Sessions with the same ids at the same positions have the same ids in them.
proof fn lemma_same_keys_has(a: Seq<SessionView>, b: Seq<SessionView>, id: Seq<char>)
    requires
        same_keys(a, b),
    ensures
        has_session(a, id) == has_session(b, id),
{
    if has_session(a, id) {
        let k = choose|k: int| 0 <= k < a.len() && #[trigger] a[k].session_id == id;
        assert(b[k].session_id == id);
    }
    if has_session(b, id) {
        let k = choose|k: int| 0 <= k < b.len() && #[trigger] b[k].session_id == id;
        assert(a[k].session_id == id);
    }
}

/// `touch` keeps every session's id and project slug.
proof fn lemma_touch_keeps(w: WidgetView, id: Seq<char>, now: Clock)
    ensures
        same_keys(w.sessions, touch(w, id, now).sessions),
{
    lemma_first_session_found(w.sessions, id);
}

/// An event adds a session exactly when it is a main-source `SessionStart` for an id no
/// session has, and then at the end, with the event's id and project; every session
/// already there keeps its place, its id and its project slug.
pub proof fn lemma_event_session_count(w: WidgetView, t: TaggedView, now: Clock)
    ensures
        apply_event(w, t, now).sessions.len() == w.sessions.len() + (if starts_new_session(w, t) {
            1int
        } else {
            0int
        }),
        forall|k: int|
            0 <= k < w.sessions.len() ==> #[trigger] apply_event(w, t, now).sessions[k].session_id
                == w.sessions[k].session_id && apply_event(w, t, now).sessions[k].project_slug
                == w.sessions[k].project_slug,
        starts_new_session(w, t) ==> (apply_event(w, t, now).sessions.last().session_id
            == t.session_id && (t.event matches EventView::SessionStart { project, .. }
            && apply_event(w, t, now).sessions.last().project_slug == project)),
{
    let w2 = apply_event(w, t, now);
    match t.source {
        EventSourceView::SubAgent { agent_id } => {
            lemma_first_session_found(w.sessions, t.session_id);
            assert(!starts_new_session(w, t));
            match first_session(w.sessions, t.session_id) {
                Some(i) => {
                    assert(same_keys(w.sessions, w2.sessions));
                    assert(w2.sessions.len() == w.sessions.len());
                },
                None => {
                    assert(w2 == w);
                },
            }
        },
        EventSourceView::Main => {
            let id = t.session_id;
            let w1 = touch(w, id, now);
            lemma_touch_keeps(w, id, now);
            lemma_same_keys_has(w.sessions, w1.sessions, id);
            lemma_first_session_found(w1.sessions, id);
            match first_session(w1.sessions, id) {
                Some(i) => {
                    lemma_effects_keep_ids(w1, i, now);
                    assert(same_keys(w1.sessions, w2.sessions));
                },
                None => {
                    if t.event is SessionStart {
                        assert(w2.sessions == w1.sessions.push(w2.sessions.last()));
                    } else {
                        assert(w2 == w1);
                    }
                },
            }
        },
    }
}

/// A tick changes no session's id.
pub proof fn lemma_tick_keeps_ids_distinct(w: WidgetView, now: Clock)
    requires
        distinct_ids(w.sessions),
    ensures
        distinct_ids(tick_widget(w, now).sessions),
{
    let w2 = tick_widget(w, now);
    assert(same_keys(w.sessions, w2.sessions));
    lemma_same_keys_distinct(w.sessions, w2.sessions);
}

// ---------------------------------------------------------------------------
// Subagent entries and the tick
// ---------------------------------------------------------------------------

/// No two subagents share an id.
pub open spec fn distinct_agent_ids(s: Seq<SubAgentView>) -> bool {
    forall|i: int, j: int| 0 <= i < j < s.len() ==> s[i].agent_id != s[j].agent_id
}

/// Some subagent of `s` has the id `id`.
pub open spec fn has_agent(s: Seq<SubAgentView>, id: Seq<char>) -> bool {
    exists|k: int| 0 <= k < s.len() && #[trigger] s[k].agent_id == id
}

/// An event asks the user for something: a tool that waits for an answer starts.
pub open spec fn asks_user(ev: EventView) -> bool {
    ev matches EventView::ToolStart { category, .. } && category == ToolCategory::Awaiting
}

/// An event from a subagent, on a session whose subagents have distinct ids, leaves
/// exactly one entry with the subagent's id (appended when it was new), keeps the ids
/// distinct, marks that entry as waiting for the user exactly when the event asks the
/// user for something, and changes no other subagent and no other session.
pub proof fn lemma_subagent_event_one_entry(
    w: WidgetView,
    i: int,
    agent_id: Seq<char>,
    ev: EventView,
    now: Clock,
)
    requires
        0 <= i < w.sessions.len(),
        distinct_agent_ids(w.sessions[i].subagents),
    ensures
        ({
            let w2 = subagent_step(w, i, agent_id, ev, now);
            let old_subs = w.sessions[i].subagents;
            let subs = w2.sessions[i].subagents;
            &&& w2.sessions.len() == w.sessions.len()
            &&& w2.logs == w.logs
            &&& w2.spinner_frame == w.spinner_frame
            &&& forall|k: int| 0 <= k < w.sessions.len() && k != i ==> w2.sessions[k] == w.sessions[k]
            &&& distinct_agent_ids(subs)
            &&& subs.len() == old_subs.len() + if has_agent(old_subs, agent_id) {
                0int
            } else {
                1int
            }
            &&& exists|j: int|
                0 <= j < subs.len() && subs[j].agent_id == agent_id && subs[j].needs_attention
                    == asks_user(ev) && forall|k: int|
                    0 <= k < subs.len() && k != j ==> subs[k].agent_id != agent_id
            &&& forall|k: int|
                0 <= k < old_subs.len() && old_subs[k].agent_id != agent_id ==> subs[k]
                    == old_subs[k]
        }),
{
    reveal(first_subagent);
    let old_subs = w.sessions[i].subagents;
    let subs = with_subagent(old_subs, agent_id, now);
    if !has_agent(old_subs, agent_id) {
        assert(first_subagent(old_subs, agent_id) is None);
        assert(subs[old_subs.len() as int].agent_id == agent_id);
        assert(has_agent(subs, agent_id));
    } else {
        let k0 = choose|k: int| 0 <= k < old_subs.len() && #[trigger] old_subs[k].agent_id == agent_id;
        assert(old_subs[k0].agent_id == agent_id);
    }
    let j = first_subagent(subs, agent_id)->0;
    assert(0 <= j < subs.len() && subs[j].agent_id == agent_id);
    assert forall|k: int| 0 <= k < subs.len() && k != j implies subs[k].agent_id != agent_id by {
        if k < old_subs.len() && j < old_subs.len() {
        } else if k < old_subs.len() {
            assert(!has_agent(old_subs, agent_id)) by {
                if has_agent(old_subs, agent_id) {
                    assert(subs == old_subs);
                }
            }
        }
    }
    let refreshed = SubAgentView { last_event_time: Some(now.mono_ns), needs_attention: false, ..subs[j] };
    let e = subagent_event(refreshed, ev);
    assert(e.agent_id == agent_id);
    assert(e.needs_attention == asks_user(ev));
    let w2 = subagent_step(w, i, agent_id, ev, now);
    let new_subs = w2.sessions[i].subagents;
    assert(new_subs == subs.update(j, e));
    assert(distinct_agent_ids(subs)) by {
        assert forall|a: int, b: int| 0 <= a < b < subs.len() implies subs[a].agent_id != subs[b].agent_id by {
            if b == old_subs.len() {
                assert(!has_agent(old_subs, agent_id)) by {
                    if has_agent(old_subs, agent_id) {
                        assert(subs == old_subs);
                    }
                }
                assert(subs[a] == old_subs[a]);
            }
        }
    }
    assert(distinct_agent_ids(new_subs));
    assert(new_subs[j].agent_id == agent_id && new_subs[j].needs_attention == asks_user(ev));
}

/// The first session with the id `id` is at `i` when `i` has it and none before does.
proof fn lemma_first_session_is(s: Seq<SessionView>, id: Seq<char>, i: int)
    requires
        0 <= i < s.len(),
        s[i].session_id == id,
        forall|j: int| 0 <= j < i ==> s[j].session_id != id,
    ensures
        first_session(s, id) == Some(i),
{
    reveal(first_session);
    let c = choose|c: int|
        0 <= c < s.len() && #[trigger] s[c].session_id == id && forall|j: int|
            0 <= j < c ==> s[j].session_id != id;
    assert(s[i].session_id == id);
    if c < i {
        assert(s[c].session_id != id);
    } else if c > i {
        assert(s[i].session_id != id);
    }
}

/// What `process_event` does with an event from subagent `agent_id` of session `i`,
/// the first session with the event's session id, whose subagent ids are distinct: the
/// ids stay distinct; exactly one entry has `agent_id`, appended when it was new; that
/// entry waits for the user exactly when the event asks the user for something; no
/// other subagent, no other session, no log and not the spinner change.
pub proof fn lemma_subagent_tagged_event_one_entry(w: WidgetView, t: TaggedView, now: Clock, i: int)
    requires
        t.source is SubAgent,
        0 <= i < w.sessions.len(),
        w.sessions[i].session_id == t.session_id,
        forall|j: int| 0 <= j < i ==> w.sessions[j].session_id != t.session_id,
        distinct_agent_ids(w.sessions[i].subagents),
    ensures
        ({
            let w2 = apply_event(w, t, now);
            let agent_id = t.source->agent_id;
            let old_subs = w.sessions[i].subagents;
            let subs = w2.sessions[i].subagents;
            &&& w2.sessions.len() == w.sessions.len()
            &&& w2.logs == w.logs
            &&& w2.spinner_frame == w.spinner_frame
            &&& forall|k: int| 0 <= k < w.sessions.len() && k != i ==> w2.sessions[k] == w.sessions[k]
            &&& distinct_agent_ids(subs)
            &&& subs.len() == old_subs.len() + if has_agent(old_subs, agent_id) {
                0int
            } else {
                1int
            }
            &&& exists|j: int|
                0 <= j < subs.len() && subs[j].agent_id == agent_id && subs[j].needs_attention
                    == asks_user(t.event) && forall|k: int|
                    0 <= k < subs.len() && k != j ==> subs[k].agent_id != agent_id
            &&& forall|k: int|
                0 <= k < old_subs.len() && old_subs[k].agent_id != agent_id ==> subs[k]
                    == old_subs[k]
        }),
{
    lemma_first_session_is(w.sessions, t.session_id, i);
    assert(apply_event(w, t, now) == subagent_step(w, i, t.source->agent_id, t.event, now));
    lemma_subagent_event_one_entry(w, i, t.source->agent_id, t.event, now);
}

/// A tool started from the main log of a live session becomes its current tool, with
/// the event's name, id, category and description; the session is active, and it needs
/// attention exactly when the tool waits for the user (category `Awaiting`): any
/// earlier flag is cleared by the event.
pub proof fn lemma_main_tool_start(w: WidgetView, t: TaggedView, now: Clock, i: int)
    requires
        t.source is Main,
        t.event is ToolStart,
        0 <= i < w.sessions.len(),
        w.sessions[i].session_id == t.session_id,
        forall|j: int| 0 <= j < i ==> w.sessions[j].session_id != t.session_id,
        w.sessions[i].exited_at is None,
    ensures
        ({
            let s2 = apply_event(w, t, now).sessions[i];
            &&& s2.needs_attention == (t.event->ToolStart_category == ToolCategory::Awaiting)
            &&& s2.active
            &&& s2.current_tool == Some(
                ToolView {
                    tool_name: t.event->ToolStart_tool_name,
                    tool_use_id: t.event->ToolStart_tool_use_id,
                    category: t.event->ToolStart_category,
                    description: t.event->ToolStart_description,
                },
            )
            &&& s2.session_id == w.sessions[i].session_id
        }),
{
    lemma_first_session_is(w.sessions, t.session_id, i);
    let w1 = touch(w, t.session_id, now);
    lemma_touch_keeps(w, t.session_id, now);
    assert(w1.sessions[i].exited_at is None && !w1.sessions[i].needs_attention);
    assert forall|j: int| 0 <= j < i implies w1.sessions[j].session_id != t.session_id by {}
    lemma_first_session_is(w1.sessions, t.session_id, i);
    reveal(tool_start_effect);
}

/// A tick leaves the busy subagents busy.
proof fn lemma_tick_subagent_busy(x: SubAgentView, now: Clock)
    ensures
        sub_busy(tick_subagent(x, now)) == sub_busy(x),
        tick_subagent(x, now).agent_id == x.agent_id,
{
}

/// Keeping what `p` holds of after keeping what `q` holds of, where `p` implies `q`,
/// keeps what `p` holds of.
proof fn lemma_keep_keep(
    s: Seq<SubAgentView>,
    p: spec_fn(SubAgentView) -> bool,
    q: spec_fn(SubAgentView) -> bool,
)
    requires
        forall|x: SubAgentView| #[trigger] p(x) ==> q(x),
    ensures
        keep_subs(keep_subs(s, q), p) == keep_subs(s, p),
    decreases s.len(),
{
    if s.len() > 0 {
        lemma_keep_keep(s.drop_last(), p, q);
        if q(s.last()) {
            let kq = keep_subs(s.drop_last(), q).push(s.last());
            assert(kq.drop_last() =~= keep_subs(s.drop_last(), q));
            assert(kq.last() == s.last());
        }
    }
}

/// Keeping the busy subagents commutes with the tick's staleness check.
proof fn lemma_keep_busy_ticked(s: Seq<SubAgentView>, now: Clock)
    ensures
        keep_subs(tick_subagents(s, now), |x: SubAgentView| sub_busy(x)) == tick_subagents(
            keep_subs(s, |x: SubAgentView| sub_busy(x)),
            now,
        ),
    decreases s.len(),
{
    let busy = |x: SubAgentView| sub_busy(x);
    if s.len() > 0 {
        lemma_keep_busy_ticked(s.drop_last(), now);
        assert(tick_subagents(s, now).drop_last() =~= tick_subagents(s.drop_last(), now));
        assert(tick_subagents(s, now).last() == tick_subagent(s.last(), now));
        lemma_tick_subagent_busy(s.last(), now);
        if busy(s.last()) {
            let k = keep_subs(s.drop_last(), busy);
            assert(tick_subagents(k.push(s.last()), now) =~= tick_subagents(k, now).push(
                tick_subagent(s.last(), now),
            ));
        }
    } else {
        assert(tick_subagents(s, now) =~= Seq::<SubAgentView>::empty());
        assert(tick_subagents(Seq::<SubAgentView>::empty(), now) =~= Seq::<SubAgentView>::empty());
    }
}

/// A tick advances the spinner (wrapping) and keeps every session in its place; it only
/// ever adds archiving (to a session exited long enough ago) and attention; and the busy
/// subagents of each session after the tick are exactly its busy subagents before, in
/// order, each checked for staleness (none busy is dropped).
pub proof fn lemma_tick_only_grows(w: WidgetView, now: Clock)
    ensures
        ({
            let w2 = tick_widget(w, now);
            &&& w2.spinner_frame == if w.spinner_frame == usize::MAX {
                0usize
            } else {
                (w.spinner_frame + 1) as usize
            }
            &&& w2.sessions.len() == w.sessions.len()
            &&& w2.logs == w.logs
            &&& forall|k: int|
                0 <= k < w.sessions.len() ==> {
                    let s = w.sessions[k];
                    let s2 = #[trigger] w2.sessions[k];
                    &&& s2.session_id == s.session_id
                    &&& s2.archived == (s.archived || match s.exited_at {
                        Some(e) => now.wall_ns >= e && now.wall_ns - e >= ARCHIVE_GRACE_SECS
                            * NANOS_PER_SEC,
                        None => false,
                    })
                    &&& (s.needs_attention ==> s2.needs_attention)
                    &&& keep_subs(s2.subagents, |x: SubAgentView| sub_busy(x)) == tick_subagents(
                        keep_subs(s.subagents, |x: SubAgentView| sub_busy(x)),
                        now,
                    )
                }
        }),
{
    let w2 = tick_widget(w, now);
    assert forall|k: int| 0 <= k < w.sessions.len() implies keep_subs(
        (#[trigger] w2.sessions[k]).subagents,
        |x: SubAgentView| sub_busy(x),
    ) == tick_subagents(keep_subs(w.sessions[k].subagents, |x: SubAgentView| sub_busy(x)), now) by {
        let s = w.sessions[k];
        let busy = |x: SubAgentView| sub_busy(x);
        let kept = |x: SubAgentView| sub_kept(x, now);
        assert(w2.sessions[k] == tick_session(s, now));
        assert forall|x: SubAgentView| #[trigger] busy(x) implies kept(x) by {}
        lemma_keep_keep(tick_subagents(s.subagents, now), busy, kept);
        lemma_keep_busy_ticked(s.subagents, now);
    }
}

// ---------------------------------------------------------------------------
// Executable parts
// ---------------------------------------------------------------------------

/// The decimal digit `d` as a character.
fn digit(d: u64) -> (c: char)
    requires
        d < 10,
    ensures
        c == digit_char(d as nat),
{
    let digits = ['0', '1', '2', '3', '4', '5', '6', '7', '8', '9'];
    assert(digits@ =~= seq!['0', '1', '2', '3', '4', '5', '6', '7', '8', '9']);
    digits[d as usize]
}

/// "HH:MM:SS" of the time of day `secs` seconds after the epoch (UTC).
pub fn format_hms(secs: u64) -> (r: String)
    ensures
        r@ == hms_of_secs(secs as nat),
{
    let hours = (secs / 3600) % 24;
    let minutes = (secs / 60) % 60;
    let seconds = secs % 60;
    let mut r = String::new();
    push_char(&mut r, digit(hours / 10));
    push_char(&mut r, digit(hours % 10));
    push_char(&mut r, ':');
    push_char(&mut r, digit(minutes / 10));
    push_char(&mut r, digit(minutes % 10));
    push_char(&mut r, ':');
    push_char(&mut r, digit(seconds / 10));
    push_char(&mut r, digit(seconds % 10));
    assert(r@ =~= hms_of_secs(secs as nat));
    r
}

/// Simple HH:MM:SS formatter for the wall-clock time of `now` (UTC).
pub fn format_time_now(now: Clock) -> (r: String)
    ensures
        r@ == hms_of_wall(now.wall_ns),
{
    if now.wall_ns >= 0 {
        let secs: i128 = now.wall_ns / 1_000_000_000;
        let day_secs: i128 = secs % 86400;
        format_hms(day_secs as u64)
    } else {
        let mut r = String::new();
        push_char(&mut r, '0');
        push_char(&mut r, '0');
        push_char(&mut r, ':');
        push_char(&mut r, '0');
        push_char(&mut r, '0');
        push_char(&mut r, ':');
        push_char(&mut r, '0');
        push_char(&mut r, '0');
        assert(r@ =~= hms_of_wall(now.wall_ns));
        r
    }
}

/// `mono_elapsed_at_least`, computed.
fn elapsed_at_least(now: u64, then: u64, secs: u64) -> (r: bool)
    requires
        secs <= 60,
    ensures
        r == mono_elapsed_at_least(now, then, secs),
{
    now >= then && now - then >= secs * NANOS_PER_SEC
}

/// The index of the first session with id `id`.
/// A search of the list stands for a map keyed by the id: vstd specifies `HashMap`,
/// but keyed by `String` its operations prove nothing here.
pub fn find_session(sessions: &Vec<Session>, id: &str) -> (r: Option<usize>)
    ensures
        r matches Some(i) ==> first_session(sessions_view(sessions@), id@) == Some(i as int)
            && i < sessions@.len() && sessions@[i as int].session_id@ == id@,
        r is None ==> first_session(sessions_view(sessions@), id@) is None,
{
    reveal(first_session);
    let key = crate::text::chars_of(id);
    let ghost sv = sessions_view(sessions@);
    let mut i: usize = 0;
    while i < sessions.len()
        invariant
            0 <= i <= sessions@.len(),
            key@ == id@,
            sv == sessions_view(sessions@),
            forall|j: int| 0 <= j < i ==> (#[trigger] sv[j]).session_id != id@,
        decreases sessions.len() - i,
    {
        let other = crate::text::chars_of(sessions[i].session_id.as_str());
        if crate::text::chars_eq(&other, &key) {
            assert(sv[i as int].session_id == id@);
            proof {
                reveal(first_session);
                let c = choose|c: int|
                    0 <= c < sv.len() && #[trigger] sv[c].session_id == id@ && forall|j: int|
                        0 <= j < c ==> sv[j].session_id != id@;
                assert(c == i);
            }
            return Some(i);
        }
        i += 1;
    }
    None
}

/// The index of the first subagent with id `id`.
pub fn find_subagent(subs: &Vec<SubAgent>, id: &str) -> (r: Option<usize>)
    ensures
        r matches Some(i) ==> first_subagent(subs_view(subs@), id@) == Some(i as int)
            && i < subs@.len() && subs@[i as int].agent_id@ == id@,
        r is None ==> first_subagent(subs_view(subs@), id@) is None,
{
    reveal(first_subagent);
    let key = crate::text::chars_of(id);
    let ghost sv = subs_view(subs@);
    let mut i: usize = 0;
    while i < subs.len()
        invariant
            0 <= i <= subs@.len(),
            key@ == id@,
            sv == subs_view(subs@),
            forall|j: int| 0 <= j < i ==> (#[trigger] sv[j]).agent_id != id@,
        decreases subs.len() - i,
    {
        let other = crate::text::chars_of(subs[i].agent_id.as_str());
        if crate::text::chars_eq(&other, &key) {
            assert(sv[i as int].agent_id == id@);
            proof {
                reveal(first_subagent);
                let c = choose|c: int|
                    0 <= c < sv.len() && #[trigger] sv[c].agent_id == id@ && forall|j: int|
                        0 <= j < c ==> sv[j].agent_id != id@;
                assert(c == i);
            }
            return Some(i);
        }
        i += 1;
    }
    None
}

/// "name(description)".
fn tool_activity_exec(name: &str, desc: &str) -> (r: String)
    ensures
        r@ == tool_activity(name@, desc@),
{
    let mut r = copy_str(name);
    push_char(&mut r, '(');
    append_str(&mut r, desc);
    push_char(&mut r, ')');
    assert(r@ =~= tool_activity(name@, desc@));
    r
}

/// The tool shown while the model is thinking.
fn thinking_tool_exec() -> (t: ActiveTool)
    ensures
        t@ == thinking_tool(),
{
    let t = ActiveTool {
        tool_name: copy_str("thinking"),
        tool_use_id: String::new(),
        category: ToolCategory::Thinking,
        description: copy_str("thinking..."),
    };
    assert(t@.tool_use_id =~= Seq::<char>::empty());
    t
}

/// The subagents that are running or waiting for the user, in order.
fn keep_busy(subs: Vec<SubAgent>) -> (r: Vec<SubAgent>)
    ensures
        subs_view(r@) == keep_subs(subs_view(subs@), |s: SubAgentView| sub_busy(s)),
{
    let ghost orig = subs_view(subs@);
    let n0: usize = subs.len();
    let mut rest = subs;
    let mut out: Vec<SubAgent> = Vec::new();
    let mut k: usize = 0;
    assert(orig.take(0) =~= Seq::<SubAgentView>::empty());
    while rest.len() > 0
        invariant
            orig.len() == n0,
            k + rest@.len() == orig.len(),
            subs_view(rest@) == orig.skip(k as int),
            subs_view(out@) == keep_subs(orig.take(k as int), |s: SubAgentView| sub_busy(s)),
        decreases rest.len(),
    {
        let ghost r0 = rest@;
        let sub = rest.remove(0);
        assert(subs_view(r0)[0] == sub@);
        assert(orig.skip(k as int)[0] == orig[k as int]);
        assert(subs_view(rest@) =~= subs_view(r0).drop_first());
        assert(sub@ == orig[k as int]);
        assert(subs_view(rest@) =~= orig.skip(k + 1));
        assert(orig.take(k + 1).drop_last() =~= orig.take(k as int));
        if sub.active || sub.needs_attention {
            let ghost o = subs_view(out@);
            out.push(sub);
            assert(subs_view(out@) =~= o.push(orig[k as int]));
        }
        k += 1;
    }
    assert(orig.take(k as int) =~= orig);
    out
}

/// The subagents kept at a tick at `now`, in order.
fn keep_recent(subs: Vec<SubAgent>, now: Clock) -> (r: Vec<SubAgent>)
    ensures
        subs_view(r@) == keep_subs(subs_view(subs@), |s: SubAgentView| sub_kept(s, now)),
{
    let ghost orig = subs_view(subs@);
    let n0: usize = subs.len();
    let mut rest = subs;
    let mut out: Vec<SubAgent> = Vec::new();
    let mut k: usize = 0;
    assert(orig.take(0) =~= Seq::<SubAgentView>::empty());
    while rest.len() > 0
        invariant
            orig.len() == n0,
            k + rest@.len() == orig.len(),
            subs_view(rest@) == orig.skip(k as int),
            subs_view(out@) == keep_subs(orig.take(k as int), |s: SubAgentView| sub_kept(s, now)),
        decreases rest.len(),
    {
        let ghost r0 = rest@;
        let sub = rest.remove(0);
        assert(subs_view(r0)[0] == sub@);
        assert(orig.skip(k as int)[0] == orig[k as int]);
        assert(subs_view(rest@) =~= subs_view(r0).drop_first());
        assert(sub@ == orig[k as int]);
        assert(subs_view(rest@) =~= orig.skip(k + 1));
        assert(orig.take(k + 1).drop_last() =~= orig.take(k as int));
        let keep = if sub.active || sub.needs_attention {
            true
        } else {
            match sub.last_event_time {
                Some(last) => !elapsed_at_least(now.mono_ns, last, SUBAGENT_CLEANUP_SECS),
                None => true,
            }
        };
        if keep {
            let ghost o = subs_view(out@);
            out.push(sub);
            assert(subs_view(out@) =~= o.push(orig[k as int]));
        }
        k += 1;
    }
    assert(orig.take(k as int) =~= orig);
    out
}


/// A session after a tick at `now`.
fn tick_session_exec(s: &mut Session, now: Clock)
    ensures
        final(s)@ == tick_session(old(s)@, now),
{
    let ghost s0 = s@;
    // Archive grace period
    if !s.archived {
        match s.exited_at {
            Some(e) => {
                let grace: i128 = 300_000_000_000;
                if now.wall_ns >= e && now.wall_ns >= i128::MIN + grace && e <= now.wall_ns - grace {
                    s.archived = true;
                }
            },
            None => {},
        }
    }
    assert(s@.archived == tick_session(s0, now).archived);
    // Staleness: a silent tool (other than thinking) asks for attention.
    if !s.needs_attention {
        let stale = match &s.current_tool {
            Some(tool) => tool.category != ToolCategory::Thinking && match s.last_event_time {
                Some(last) => elapsed_at_least(now.mono_ns, last, ATTENTION_THRESHOLD_SECS),
                None => false,
            },
            None => false,
        };
        if stale {
            s.needs_attention = true;
        }
    }
    assert(s@.needs_attention == tick_session(s0, now).needs_attention);
    // Staleness for subagents
    let ghost subs0 = subs_view(s.subagents@);
    let ghost s1 = s@;
    let mut j: usize = 0;
    while j < s.subagents.len()
        invariant
            0 <= j <= s.subagents@.len(),
            s@ == (SessionView { subagents: subs_view(s.subagents@), ..s1 }),
            s.subagents@.len() == subs0.len(),
            forall|k: int| 0 <= k < j ==> subs_view(s.subagents@)[k] == tick_subagent(#[trigger] subs0[k], now),
            forall|k: int| j <= k < subs0.len() ==> subs_view(s.subagents@)[k] == #[trigger] subs0[k],
        decreases s.subagents.len() - j,
    {
        let stale = s.subagents[j].active && !s.subagents[j].needs_attention && match &s.subagents[j].current_tool {
            Some(tool) => tool.category != ToolCategory::Thinking && match s.subagents[j].last_event_time {
                Some(last) => elapsed_at_least(now.mono_ns, last, ATTENTION_THRESHOLD_SECS),
                None => false,
            },
            None => false,
        };
        if stale {
            s.subagents[j].needs_attention = true;
        }
        j += 1;
    }
    assert(subs_view(s.subagents@) =~= tick_subagents(subs0, now));
    // Evict idle subagents
    let mut subs: Vec<SubAgent> = Vec::new();
    std::mem::swap(&mut subs, &mut s.subagents);
    s.subagents = keep_recent(subs, now);
    assert(s@.subagents == tick_session(s0, now).subagents);
    assert(s@ == tick_session(s0, now));
}

impl ClaudeWidget {
    /// No sessions yet.
    pub fn new() -> (w: Self)
        ensures
            w@.sessions == Seq::<SessionView>::empty(),
            w@.logs == Seq::<Seq<EntryView>>::empty(),
            w@.spinner_frame == 0,
    {
        let w = ClaudeWidget { sessions: Vec::new(), activity_logs: Vec::new(), spinner_frame: 0 };
        assert(w@.sessions =~= Seq::<SessionView>::empty());
        assert(w@.logs =~= Seq::<Seq<EntryView>>::empty());
        w
    }

    /// Advance the spinner and apply the time-based rules at `now`.
    pub fn tick(&mut self, now: Clock)
        ensures
            final(self)@ == tick_widget(old(self)@, now),
    {
        self.spinner_frame = if self.spinner_frame == usize::MAX {
            0
        } else {
            self.spinner_frame + 1
        };
        let ghost s0 = sessions_view(self.sessions@);
        let ghost logs0 = self.activity_logs@;
        let ghost frame0 = self.spinner_frame;
        let mut i: usize = 0;
        while i < self.sessions.len()
            invariant
                0 <= i <= self.sessions@.len(),
                self.activity_logs@ == logs0,
                self.spinner_frame == frame0,
                self.sessions@.len() == s0.len(),
                forall|k: int| 0 <= k < i ==> sessions_view(self.sessions@)[k] == tick_session(#[trigger] s0[k], now),
                forall|k: int| i <= k < s0.len() ==> sessions_view(self.sessions@)[k] == #[trigger] s0[k],
            decreases self.sessions.len() - i,
        {
            tick_session_exec(&mut self.sessions[i], now);
            i += 1;
        }
        assert(sessions_view(self.sessions@) =~= s0.map_values(|s: SessionView| tick_session(s, now)));
        assert(self@.logs == tick_widget(old(self)@, now).logs);
        assert(self@.spinner_frame == tick_widget(old(self)@, now).spinner_frame);
        assert(self@.sessions == tick_widget(old(self)@, now).sessions);
    }

    /// The spinner frame shown now.
    pub fn spinner_char(&self) -> (r: &'static str)
        ensures
            r@ == braille_spec()[((self.spinner_frame / 4) % 10) as int],
    {
        let frames = LoaderStyle::Braille.text_frames();
        assert(frames@.len() == frames_view(frames@).len());
        let r = frame_at(frames, self.spinner_frame / 4);
        assert(frames_view(frames@)[((self.spinner_frame / 4) % 10) as int] == r@);
        r
    }
}


/// The effect of an event on a subagent.
fn apply_to_subagent(sub: &mut SubAgent, event: SessionEvent)
    ensures
        final(sub)@ == subagent_event(old(sub)@, event@),
{
        match event {
            SessionEvent::UserPrompt { text } => {
                if sub.description.as_str().is_empty() {
                    sub.description = truncate_str(text.as_str(), 60);
                }
                sub.active = true;
                sub.activity = truncate_str(text.as_str(), 200);
            },
            SessionEvent::ToolStart { tool_name, tool_use_id, category, description } => {
                sub.active = true;
                sub.activity = tool_activity_exec(
                    tool_name.as_str(),
                    description.as_str(),
                );
                sub.current_tool = Some(
                    ActiveTool { tool_name, tool_use_id, category, description },
                );
                if category == ToolCategory::Awaiting {
                    sub.needs_attention = true;
                }
            },
            SessionEvent::ToolEnd { tool_use_id, .. } => {
                let ends_current = match &sub.current_tool {
                    Some(t) => crate::text::str_is(t.tool_use_id.as_str(), tool_use_id.as_str()),
                    None => false,
                };
                if ends_current {
                    sub.current_tool = None;
                }
            },
            SessionEvent::Thinking => {
                sub.active = true;
                sub.activity = copy_str("thinking...");
                sub.current_tool = Some(thinking_tool_exec());
            },
            SessionEvent::TurnComplete { .. } => {
                sub.active = false;
                sub.current_tool = None;
                sub.activity = copy_str("done");
            },
            // Progress heartbeats only refresh the timestamp.
            _ => {},
        }
}

/// The index of subagent `id` in `subs`, which is added at the end if new.
fn ensure_subagent(subs: &mut Vec<SubAgent>, id: &String, now: Clock) -> (j: usize)
    ensures
        subs_view(final(subs)@) == with_subagent(subs_view(old(subs)@), id@, now),
        first_subagent(subs_view(final(subs)@), id@) == Some(j as int),
        j < final(subs)@.len(),
{
    match find_subagent(subs, id.as_str()) {
        Some(j) => j,
        None => {
            let ghost subs0 = subs_view(subs@);
            let sub = SubAgent {
                agent_id: id.clone(),
                description: String::new(),
                active: true,
                current_tool: None,
                activity: copy_str("starting..."),
                last_event_time: Some(now.mono_ns),
                needs_attention: false,
            };
            assert(sub@.description =~= Seq::<char>::empty());
            assert(sub@ == new_subagent(id@, now));
            subs.push(sub);
            let ghost subs1 = subs_view(subs@);
            assert(subs1 =~= subs0.push(new_subagent(id@, now)));
            proof {
                reveal(first_subagent);
                let n = subs0.len() as int;
                assert(subs1[n].agent_id == id@);
                let c = choose|c: int|
                    0 <= c < subs1.len() && #[trigger] subs1[c].agent_id == id@ && forall|k: int|
                        0 <= k < c ==> subs1[k].agent_id != id@;
                if c < n {
                    assert(subs0[c].agent_id == id@);
                }
                assert(c == n);
            }
            subs.len() - 1
        },
    }
}

/// A new log entry stamped with the time of `now`.
fn make_entry(
    now: Clock,
    tool: String,
    summary: String,
    detail: String,
    is_error: bool,
    category: ToolCategory,
) -> (e: ActivityEntry)
    ensures
        e@ == entry_at(now, tool@, summary@, detail@, is_error, category),
{
    ActivityEntry { timestamp: format_time_now(now), tool, summary, detail, is_error, category }
}

impl ClaudeWidget {
    /// Core state machine: process a tagged event from the watcher at `now`.
    pub fn process_event(&mut self, tagged: TaggedEvent, now: Clock)
        requires
            widget_wf(old(self)@),
        ensures
            final(self)@ == apply_event(old(self)@, tagged@, now),
            widget_wf(final(self)@),
    {
        let TaggedEvent { session_id, event, source } = tagged;
        match source {
            // Route subagent events to their own handler
            EventSource::SubAgent { agent_id } => {
                match find_session(&self.sessions, session_id.as_str()) {
                    Some(idx) => self.process_subagent_event(idx, agent_id, event, now),
                    None => {},
                }
            },
            EventSource::Main => {
                self.touch(&session_id, now);
                self.apply_main_event(&session_id, event, now);
            },
        }
    }

    /// Main source events: update the session's timestamp and clear its attention flag.
    fn touch(&mut self, id: &String, now: Clock)
        requires
            widget_wf(old(self)@),
        ensures
            final(self)@ == touch(old(self)@, id@, now),
            widget_wf(final(self)@),
    {
        match find_session(&self.sessions, id.as_str()) {
            Some(i) => {
                if self.sessions[i].exited_at.is_none() {
                    let ghost w0 = self@;
                    self.sessions[i].last_event_time = Some(now.mono_ns);
                    self.sessions[i].needs_attention = false;
                    assert(self@.sessions =~= touch(w0, id@, now).sessions);
                }
            },
            None => {},
        }
    }

    fn apply_main_event(&mut self, id: &String, event: SessionEvent, now: Clock)
        requires
            widget_wf(old(self)@),
        ensures
            final(self)@ == main_event(old(self)@, id@, event@, now),
            widget_wf(final(self)@),
    {
        let found = find_session(&self.sessions, id.as_str());
        match event {
            SessionEvent::SessionStart { project, .. } => {
                if found.is_none() {
                    self.start_session(id, project, now);
                }
            },
            SessionEvent::UserPrompt { text } => {
                if let Some(i) = found {
                    if self.sessions[i].exited_at.is_none() {
                        self.on_user_prompt(i, text, now);
                    }
                }
            },
            SessionEvent::ToolStart { tool_name, tool_use_id, category, description } => {
                if let Some(i) = found {
                    if self.sessions[i].exited_at.is_none() {
                        self.on_tool_start(i, tool_name, tool_use_id, category, description, now);
                    }
                }
            },
            SessionEvent::ToolEnd { tool_use_id, is_error, error_message } => {
                if let Some(i) = found {
                    self.on_tool_end(i, tool_use_id, is_error, error_message);
                }
            },
            SessionEvent::Thinking => {
                if let Some(i) = found {
                    self.on_thinking(i);
                }
            },
            SessionEvent::TurnComplete { .. } => {
                if let Some(i) = found {
                    self.on_turn_complete(i);
                }
            },
            SessionEvent::AgentSpawned { description, .. } => {
                if let Some(i) = found {
                    let summary = truncate_str(description.as_str(), 80);
                    let entry = make_entry(
                        now,
                        copy_str("Agent"),
                        summary,
                        description,
                        false,
                        ToolCategory::Spawning,
                    );
                    self.push_entry(i, entry);
                }
            },
            SessionEvent::ContextCompaction => {
                if let Some(i) = found {
                    self.on_compaction(i, now);
                }
            },
            SessionEvent::SessionEnd => {
                if let Some(i) = found {
                    self.on_session_end(i, now);
                }
            },
            // Token usage and progress heartbeats only refresh the timestamp.
            _ => {},
        }
    }

    /// The model is thinking in session `i`.
    fn on_thinking(&mut self, i: usize)
        requires
            widget_wf(old(self)@),
            i < old(self)@.sessions.len(),
        ensures
            final(self)@ == thinking_effect(old(self)@, i as int),
            widget_wf(final(self)@),
    {
        reveal(thinking_effect);
        let ghost w0 = self@;
        self.sessions[i].active = true;
        self.sessions[i].activity = copy_str("thinking...");
        self.sessions[i].current_tool = Some(thinking_tool_exec());
        assert(self@.sessions =~= thinking_effect(w0, i as int).sessions);
    }

    /// A turn of session `i` completed.
    fn on_turn_complete(&mut self, i: usize)
        requires
            widget_wf(old(self)@),
            i < old(self)@.sessions.len(),
        ensures
            final(self)@ == turn_complete_effect(old(self)@, i as int),
            widget_wf(final(self)@),
    {
        reveal(turn_complete_effect);
        let ghost w0 = self@;
        self.sessions[i].active = false;
        self.sessions[i].activity = copy_str("idle");
        self.sessions[i].current_tool = None;
        // Finished subagents won't produce more events
        let mut subs: Vec<SubAgent> = Vec::new();
        std::mem::swap(&mut subs, &mut self.sessions[i].subagents);
        self.sessions[i].subagents = keep_busy(subs);
        assert(self@.sessions =~= turn_complete_effect(w0, i as int).sessions);
    }

    /// The context of session `i` was compacted.
    fn on_compaction(&mut self, i: usize, now: Clock)
        requires
            widget_wf(old(self)@),
            i < old(self)@.sessions.len(),
        ensures
            final(self)@ == compaction_effect(old(self)@, i as int, now),
            widget_wf(final(self)@),
    {
        reveal(compaction_effect);
        let ghost w0 = self@;
        self.sessions[i].active = true;
        self.sessions[i].activity = copy_str("compacting context...");
        assert(self@.sessions =~= set_session(
            w0,
            i as int,
            SessionView { active: true, activity: "compacting context..."@, ..w0.sessions[i as int] },
        ).sessions);
        let entry = make_entry(
            now,
            copy_str("System"),
            copy_str("context compaction"),
            copy_str("Context window compacted to free space"),
            false,
            ToolCategory::Unknown,
        );
        self.push_entry(i, entry);
    }

    /// Session `i` ended.
    fn on_session_end(&mut self, i: usize, now: Clock)
        requires
            widget_wf(old(self)@),
            i < old(self)@.sessions.len(),
        ensures
            final(self)@ == session_end_effect(old(self)@, i as int, now),
            widget_wf(final(self)@),
    {
        reveal(session_end_effect);
        let ghost w0 = self@;
        self.sessions[i].active = false;
        self.sessions[i].current_tool = None;
        self.sessions[i].activity = copy_str("session ended");
        self.sessions[i].exited_at = Some(now.wall_ns);
        assert(self@.sessions =~= set_session(
            w0,
            i as int,
            SessionView {
                active: false,
                current_tool: None,
                activity: "session ended"@,
                exited_at: Some(now.wall_ns),
                ..w0.sessions[i as int]
            },
        ).sessions);
        let entry = make_entry(
            now,
            copy_str("System"),
            copy_str("session exited (/exit)"),
            copy_str("User ran /exit to end the session"),
            false,
            ToolCategory::Unknown,
        );
        self.push_entry(i, entry);
    }

    /// Appends `entry` to the log of session `i`.
    fn push_entry(&mut self, i: usize, entry: ActivityEntry)
        requires
            widget_wf(old(self)@),
            i < old(self)@.sessions.len(),
        ensures
            final(self)@ == push_log(old(self)@, i as int, entry@),
            widget_wf(final(self)@),
    {
        let ghost w0 = self@;
        self.activity_logs[i].push(entry);
        assert(self@.logs[i as int] =~= w0.logs[i as int].push(entry@));
        assert(self@.logs =~= push_log(w0, i as int, entry@).logs);
    }

    /// Starts tracking session `id`.
    fn start_session(&mut self, id: &String, project: String, now: Clock)
        requires
            widget_wf(old(self)@),
        ensures
            final(self)@ == (WidgetView {
                sessions: old(self)@.sessions.push(new_session(id@, project@, now)),
                logs: old(self)@.logs.push(seq![]),
                ..old(self)@
            }),
            widget_wf(final(self)@),
    {
        let ghost w0 = self@;
        let session = Session {
            session_id: id.clone(),
            project_slug: project,
            active: true,
            kind: SessionKind::Code,
            current_tool: None,
            activity: copy_str("starting..."),
            exited_at: None,
            archived: false,
            last_event_time: Some(now.mono_ns),
            needs_attention: false,
            subagents: Vec::new(),
        };
        assert(subs_view(session.subagents@) =~= Seq::<SubAgentView>::empty());
        self.sessions.push(session);
        let empty: Vec<ActivityEntry> = Vec::new();
        assert(log_view(empty@) =~= Seq::<EntryView>::empty());
        self.activity_logs.push(empty);
        assert(self@.sessions =~= w0.sessions.push(new_session(id@, project@, now)));
        assert(self@.logs =~= w0.logs.push(seq![]));
    }

    /// A prompt of the user in live session `i`.
    fn on_user_prompt(&mut self, i: usize, text: String, now: Clock)
        requires
            widget_wf(old(self)@),
            i < old(self)@.sessions.len(),
        ensures
            final(self)@ == user_prompt_effect(old(self)@, i as int, text@, now),
            widget_wf(final(self)@),
    {
        reveal(user_prompt_effect);
        let ghost w0 = self@;
        self.sessions[i].active = true;
        self.sessions[i].activity = truncate_str(text.as_str(), 200);
        assert(self@.sessions =~= set_session(
            w0,
            i as int,
            SessionView { active: true, activity: truncated(text@, 200), ..w0.sessions[i as int] },
        ).sessions);
        let summary = truncate_str(text.as_str(), 80);
        let entry = make_entry(now, copy_str("User"), summary, text, false, ToolCategory::Unknown);
        self.push_entry(i, entry);
    }

    /// A tool started in live session `i`.
    fn on_tool_start(
        &mut self,
        i: usize,
        tool_name: String,
        tool_use_id: String,
        category: ToolCategory,
        description: String,
        now: Clock,
    )
        requires
            widget_wf(old(self)@),
            i < old(self)@.sessions.len(),
        ensures
            final(self)@ == tool_start_effect(
                old(self)@,
                i as int,
                tool_name@,
                tool_use_id@,
                category,
                description@,
                now,
            ),
            widget_wf(final(self)@),
    {
        reveal(tool_start_effect);
        let ghost w0 = self@;
        self.sessions[i].active = true;
        self.sessions[i].activity = tool_activity_exec(tool_name.as_str(), description.as_str());
        self.sessions[i].current_tool = Some(
            ActiveTool {
                tool_name: tool_name.clone(),
                tool_use_id: tool_use_id,
                category,
                description: description.clone(),
            },
        );
        // AskUserQuestion asks for attention at once
        if category == ToolCategory::Awaiting {
            self.sessions[i].needs_attention = true;
        }
        let ghost w1 = self@;
        assert(w1.sessions =~= set_session(
            w0,
            i as int,
            SessionView {
                active: true,
                activity: tool_activity(tool_name@, description@),
                current_tool: Some(
                    ToolView {
                        tool_name: tool_name@,
                        tool_use_id: w1.sessions[i as int].current_tool->0.tool_use_id,
                        category,
                        description: description@,
                    },
                ),
                needs_attention: if category == ToolCategory::Awaiting {
                    true
                } else {
                    w0.sessions[i as int].needs_attention
                },
                ..w0.sessions[i as int]
            },
        ).sessions);
        let summary = truncate_str(description.as_str(), 80);
        let entry = make_entry(now, tool_name, summary, description, false, category);
        self.push_entry(i, entry);
    }

    /// A tool ended in session `i`.
    fn on_tool_end(
        &mut self,
        i: usize,
        tool_use_id: String,
        is_error: bool,
        error_message: Option<String>,
    )
        requires
            widget_wf(old(self)@),
            i < old(self)@.sessions.len(),
        ensures
            final(self)@ == tool_end_effect(
                old(self)@,
                i as int,
                tool_use_id@,
                is_error,
                crate::events::opt_view(error_message),
            ),
            widget_wf(final(self)@),
    {
        reveal(tool_end_effect);
        let ghost w0 = self@;
        let ends_current = match &self.sessions[i].current_tool {
            Some(t) => crate::text::str_is(t.tool_use_id.as_str(), tool_use_id.as_str()),
            None => false,
        };
        if ends_current {
            self.sessions[i].current_tool = None;
        }
        let ghost w1 = self@;
        assert(w1.sessions =~= tool_end_effect(w0, i as int, tool_use_id@, false, None).sessions);
        if is_error {
            let n = self.activity_logs[i].len();
            if n > 0 {
                self.activity_logs[i][n - 1].is_error = true;
                match error_message {
                    Some(m) => {
                        self.activity_logs[i][n - 1].detail = m;
                    },
                    None => {},
                }
                assert(self@.logs[i as int] =~= tool_end_effect(
                    w0,
                    i as int,
                    tool_use_id@,
                    is_error,
                    crate::events::opt_view(error_message),
                ).logs[i as int]);
                assert(self@.logs =~= tool_end_effect(
                    w0,
                    i as int,
                    tool_use_id@,
                    is_error,
                    crate::events::opt_view(error_message),
                ).logs);
            }
        }
    }

    /// Process an event from a subagent file of session `session_idx`.
    fn process_subagent_event(
        &mut self,
        session_idx: usize,
        agent_id: String,
        event: SessionEvent,
        now: Clock,
    )
        requires
            widget_wf(old(self)@),
            session_idx < old(self)@.sessions.len(),
        ensures
            final(self)@ == subagent_step(old(self)@, session_idx as int, agent_id@, event@, now),
            widget_wf(final(self)@),
    {
        let ghost w0 = self@;
        let ghost ev = event@;
        let i = session_idx;
        // Find or create the SubAgent entry
        let j = ensure_subagent(&mut self.sessions[i].subagents, &agent_id, now);
        let ghost subs = with_subagent(w0.sessions[i as int].subagents, agent_id@, now);
        assert(subs_view(self.sessions[i as int].subagents@) =~= subs);
        assert(first_subagent(subs, agent_id@) == Some(j as int));
        self.sessions[i].subagents[j].last_event_time = Some(now.mono_ns);
        self.sessions[i].subagents[j].needs_attention = false;
        let ghost refreshed = SubAgentView {
            last_event_time: Some(now.mono_ns),
            needs_attention: false,
            ..subs[j as int]
        };
        assert(self.sessions[i as int].subagents@[j as int]@ == refreshed);
        apply_to_subagent(&mut self.sessions[i].subagents[j], event);
        assert(self.sessions[i as int].subagents@[j as int]@ == subagent_event(refreshed, ev));
        assert(subs_view(self.sessions[i as int].subagents@) =~= subs.update(
            j as int,
            subagent_event(refreshed, ev),
        ));
        assert(self@.sessions =~= subagent_step(w0, i as int, agent_id@, ev, now).sessions);
    }
}

} // verus!
