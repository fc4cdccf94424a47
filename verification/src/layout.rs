//! What the display shows of the sessions: which sessions and subagents get a row, and
//! the icon and text of each row.
use vstd::prelude::*;
use crate::events::ToolCategory;
use crate::loader::{braille_spec, frame_at, frames_view, tool_frames_of, tool_state_frames, LoaderStyle};
use crate::session::{
    hms_of_secs, icon_of, sessions_view, subs_view, ActivityEntry, ClaudeWidget, EntryView,
    Session, SessionView, SubAgent, SubAgentView, WidgetView, MAX_VISIBLE_SESSIONS, NANOS_PER_SEC,
    two_digits, digit_char,
};
use crate::text::{append_str, chars_of, contains, copy_str, push_char};
use crate::util::{truncate_str, truncated};
use crate::shell::{InstanceView, ShellInstance, ShellState, ShellStateView};
use crate::shell::config::Visibility;

verus! {

/// The positions of the sessions that are not archived, in order.
pub open spec fn live_indices(s: Seq<SessionView>) -> Seq<usize>
    decreases s.len(),
{
    if s.len() == 0 {
        Seq::empty()
    } else {
        let rest = live_indices(s.drop_last());
        if !s.last().archived {
            rest.push((s.len() - 1) as usize)
        } else {
            rest
        }
    }
}

/// The positions of the archived sessions, in order.
pub open spec fn archived_indices(s: Seq<SessionView>) -> Seq<usize>
    decreases s.len(),
{
    if s.len() == 0 {
        Seq::empty()
    } else {
        let rest = archived_indices(s.drop_last());
        if s.last().archived {
            rest.push((s.len() - 1) as usize)
        } else {
            rest
        }
    }
}

/// The last `n` of `v` (all of it when it is shorter).
pub open spec fn last_n(v: Seq<usize>, n: nat) -> Seq<usize> {
    if v.len() > n {
        v.skip(v.len() - n)
    } else {
        v
    }
}

/// The sessions shown in the HUD: the last `MAX_VISIBLE_SESSIONS` that are not
/// archived, by position, in order.
pub open spec fn shown_sessions(s: Seq<SessionView>) -> Seq<usize> {
    last_n(live_indices(s), MAX_VISIBLE_SESSIONS as nat)
}

/// The positions of the sessions that are (`archived`) or are not archived, in order.
fn indices_where_archived(sessions: &Vec<Session>, archived: bool) -> (r: Vec<usize>)
    ensures
        r@ == if archived {
            archived_indices(sessions_view(sessions@))
        } else {
            live_indices(sessions_view(sessions@))
        },
{
    let ghost sv = sessions_view(sessions@);
    let mut r: Vec<usize> = Vec::new();
    let mut i: usize = 0;
    assert(sv.take(0) =~= Seq::<SessionView>::empty());
    while i < sessions.len()
        invariant
            0 <= i <= sessions@.len(),
            sv == sessions_view(sessions@),
            r@ == if archived {
                archived_indices(sv.take(i as int))
            } else {
                live_indices(sv.take(i as int))
            },
        decreases sessions.len() - i,
    {
        assert(sv.take(i + 1).drop_last() =~= sv.take(i as int));
        assert(sv.take(i + 1).last() == sessions@[i as int]@);
        if sessions[i].archived == archived {
            r.push(i);
        }
        i += 1;
    }
    assert(sv.take(sessions@.len() as int) =~= sv);
    r
}

/// The positions of the archived sessions, in order.
pub fn archived_session_indices(w: &ClaudeWidget) -> (r: Vec<usize>)
    ensures
        r@ == archived_indices(w@.sessions),
{
    indices_where_archived(&w.sessions, true)
}

/// The sessions shown in the HUD (see `shown_sessions`).
pub fn visible_session_indices(w: &ClaudeWidget) -> (r: Vec<usize>)
    ensures
        r@ == shown_sessions(w@.sessions),
{
    let live = indices_where_archived(&w.sessions, false);
    if live.len() <= MAX_VISIBLE_SESSIONS {
        return live;
    }
    let start = live.len() - MAX_VISIBLE_SESSIONS;
    let mut r: Vec<usize> = Vec::new();
    let mut k: usize = start;
    while k < live.len()
        invariant
            start <= k <= live@.len(),
            r@ == live@.subrange(start as int, k as int),
        decreases live.len() - k,
    {
        r.push(live[k]);
        assert(live@.subrange(start as int, k + 1) =~= live@.subrange(start as int, k as int).push(
            live@[k as int],
        ));
        k += 1;
    }
    r
}

/// The positions of the subagents that are running or ask for attention, in order.
pub open spec fn busy_indices(s: Seq<SubAgentView>) -> Seq<usize>
    decreases s.len(),
{
    if s.len() == 0 {
        Seq::empty()
    } else {
        let rest = busy_indices(s.drop_last());
        if s.last().active || s.last().needs_attention {
            rest.push((s.len() - 1) as usize)
        } else {
            rest
        }
    }
}

/// `0, 1, ..., n - 1`.
pub open spec fn upto(n: nat) -> Seq<usize> {
    Seq::new(n, |i: int| i as usize)
}

/// The subagents shown under a session, by position, and how many more there are: all
/// of them when focused (at most five shown), only the running or waiting ones
/// otherwise (at most two shown).
pub open spec fn shown_subagents(s: Seq<SubAgentView>, focused: bool) -> (Seq<usize>, nat) {
    let all = if focused {
        upto(s.len())
    } else {
        busy_indices(s)
    };
    let max: nat = if focused {
        5
    } else {
        2
    };
    if all.len() > max {
        (all.take(max as int), (all.len() - max) as nat)
    } else {
        (all, 0)
    }
}

/// The subagents shown under a session and how many more there are (see
/// `shown_subagents`).
pub fn displayed_subagents(subs: &Vec<SubAgent>, focused: bool) -> (r: (Vec<usize>, usize))
    ensures
        (r.0@, r.1 as nat) == shown_subagents(subs_view(subs@), focused),
{
    let ghost sv = subs_view(subs@);
    let mut all: Vec<usize> = Vec::new();
    let mut i: usize = 0;
    assert(sv.take(0) =~= Seq::<SubAgentView>::empty());
    while i < subs.len()
        invariant
            0 <= i <= subs@.len(),
            sv == subs_view(subs@),
            all@ == if focused {
                upto(i as nat)
            } else {
                busy_indices(sv.take(i as int))
            },
        decreases subs.len() - i,
    {
        assert(sv.take(i + 1).drop_last() =~= sv.take(i as int));
        assert(sv.take(i + 1).last() == subs@[i as int]@);
        if focused || subs[i].active || subs[i].needs_attention {
            all.push(i);
        }
        assert(upto((i + 1) as nat) =~= upto(i as nat).push(i));
        i += 1;
    }
    assert(sv.take(subs@.len() as int) =~= sv);
    let max: usize = if focused {
        5
    } else {
        2
    };
    if all.len() > max {
        let overflow = all.len() - max;
        all.truncate(max);
        assert(all@ =~= all@.take(max as int));
        (all, overflow)
    } else {
        (all, 0)
    }
}

/// The icon of a session row: stopped, waiting, the running tool's animation, the
/// spinner while busy, or the session's kind.
pub open spec fn session_icon_of(w: WidgetView, s: SessionView, focused: bool) -> Seq<char> {
    if s.exited_at is Some {
        "\u{f04d}"@
    } else if s.needs_attention {
        "\u{f0f3}"@
    } else if s.active && s.current_tool is Some {
        let frames = tool_frames_of(s.current_tool->0.category);
        frames[((w.spinner_frame / 4) as int) % (frames.len() as int)]
    } else if s.active {
        braille_spec()[((w.spinner_frame / 4) % 10) as int]
    } else {
        icon_of(s.kind, focused)
    }
}

/// The icon of the session row `s` of the widget `w`.
pub fn session_icon(w: &ClaudeWidget, s: &Session, focused: bool) -> (r: &'static str)
    ensures
        r@ == session_icon_of(w@, s@, focused),
{
    if s.exited_at.is_some() {
        "\u{f04d}"
    } else if s.needs_attention {
        "\u{f0f3}"
    } else if s.active && s.current_tool.is_some() {
        let cat = match &s.current_tool {
            Some(t) => t.category,
            None => ToolCategory::Unknown,
        };
        let frames = tool_state_frames(cat);
        let r = frame_at(frames, w.spinner_frame / 4);
        assert(frames_view(frames@)[((w.spinner_frame / 4) as int) % (frames@.len() as int)] == r@);
        r
    } else if s.active {
        w.spinner_char()
    } else {
        s.kind.icon(focused)
    }
}

/// The icon of a subagent row: waiting, the running tool's animation, the spinner while
/// busy, or done.
pub open spec fn subagent_icon_of(w: WidgetView, s: SubAgentView) -> Seq<char> {
    if s.needs_attention {
        "\u{f0f3}"@
    } else if s.current_tool is Some {
        let frames = tool_frames_of(s.current_tool->0.category);
        frames[((w.spinner_frame / 4) as int) % (frames.len() as int)]
    } else if s.active {
        braille_spec()[((w.spinner_frame / 4) % 10) as int]
    } else {
        "\u{f00c}"@
    }
}

/// The icon of the subagent row `s` under the widget `w`.
pub fn subagent_icon(w: &ClaudeWidget, s: &SubAgent) -> (r: &'static str)
    ensures
        r@ == subagent_icon_of(w@, s@),
{
    if s.needs_attention {
        "\u{f0f3}"
    } else if s.current_tool.is_some() {
        let cat = match &s.current_tool {
            Some(t) => t.category,
            None => ToolCategory::Unknown,
        };
        let frames = tool_state_frames(cat);
        let r = frame_at(frames, w.spinner_frame / 4);
        assert(frames_view(frames@)[((w.spinner_frame / 4) as int) % (frames@.len() as int)] == r@);
        r
    } else if s.active {
        w.spinner_char()
    } else {
        "\u{f00c}"
    }
}

/// The text of a subagent row, at most about `max_chars` long: its description (or its
/// activity when it has none), followed by its activity while it runs.
pub open spec fn subagent_text_of(s: SubAgentView, max_chars: nat) -> Seq<char> {
    let desc = if s.description.len() == 0 {
        s.activity
    } else {
        s.description
    };
    if s.active && s.activity.len() > 0 {
        truncated(desc, 30) + ": "@ + truncated(
            s.activity,
            if max_chars >= 34 {
                (max_chars - 34) as nat
            } else {
                0
            },
        )
    } else {
        truncated(desc, max_chars)
    }
}

/// The text of the subagent row `s` (see `subagent_text_of`).
pub fn subagent_text(s: &SubAgent, max_chars: usize) -> (r: String)
    ensures
        r@ == subagent_text_of(s@, max_chars as nat),
{
    let desc: &str = if s.description.as_str().is_empty() {
        s.activity.as_str()
    } else {
        s.description.as_str()
    };
    proof {
        assert(s.description@.len() == 0 ==> desc@ == s.activity@);
    }
    if s.active && !s.activity.as_str().is_empty() {
        let mut r = truncate_str(desc, 30);
        append_str(&mut r, ": ");
        let rest: usize = if max_chars >= 34 {
            max_chars - 34
        } else {
            0
        };
        let t = truncate_str(s.activity.as_str(), rest);
        append_str(&mut r, t.as_str());
        r
    } else {
        truncate_str(desc, max_chars)
    }
}

/// The label of an archived session: when it exited ("exited HH:MM", the time of day in
/// UTC, or just "exited" before the epoch), or "archived".
pub open spec fn exit_label_of(exited_at: Option<i128>) -> Seq<char> {
    match exited_at {
        Some(ns) => if ns >= 0 {
            let day = ((ns as int / NANOS_PER_SEC as int) % 86400) as nat;
            "exited "@ + two_digits(day / 3600) + seq![':'] + two_digits((day / 60) % 60)
        } else {
            "exited"@
        },
        None => "archived"@,
    }
}

/// A digit character.
fn digit_of(d: u64) -> (c: char)
    requires
        d < 10,
    ensures
        c == digit_char(d as nat),
{
    ((('0' as u8) + (d as u8)) as char)
}

/// The label of an archived session (see `exit_label_of`).
pub fn exit_label(exited_at: Option<i128>) -> (r: String)
    ensures
        r@ == exit_label_of(exited_at),
{
    match exited_at {
        Some(ns) => if ns >= 0 {
            let day: u64 = ((ns / 1_000_000_000) % 86400) as u64;
            let hours: u64 = day / 3600;
            let minutes: u64 = (day / 60) % 60;
            let mut r = copy_str("exited ");
            push_char(&mut r, digit_of(hours / 10));
            push_char(&mut r, digit_of(hours % 10));
            push_char(&mut r, ':');
            push_char(&mut r, digit_of(minutes / 10));
            push_char(&mut r, digit_of(minutes % 10));
            proof {
                reveal_strlit("exited ");
            }
            r
        } else {
            copy_str("exited")
        },
        None => copy_str("archived"),
    }
}

/// How an activity-log entry is marked.
#[derive(Debug, Clone, Copy, PartialEq, Eq, Structural)]
pub enum EntryMark {
    /// A tool that failed.
    Error,
    /// A command a guardrail blocked (its summary carries the warning sign).
    Blocked,
    /// The last entry while its tool still runs.
    Running,
    Plain,
}

/// The mark of an entry, given whether it is the last of its log and whether its
/// session runs a tool.
pub open spec fn entry_mark_of(e: EntryView, is_last: bool, tool_running: bool) -> EntryMark {
    let blocked = e.is_error && contains(e.summary, seq!['\u{f071}']);
    if e.is_error && !blocked {
        EntryMark::Error
    } else if blocked {
        EntryMark::Blocked
    } else if !e.is_error && tool_running && is_last {
        EntryMark::Running
    } else {
        EntryMark::Plain
    }
}

/// The mark of the entry `e` (see `entry_mark_of`).
pub fn entry_mark(e: &ActivityEntry, is_last: bool, tool_running: bool) -> (r: EntryMark)
    ensures
        r == entry_mark_of(e@, is_last, tool_running),
{
    let v = chars_of(e.summary.as_str());
    let mut sign: Vec<char> = Vec::new();
    sign.push('\u{f071}');
    assert(sign@ =~= seq!['\u{f071}']);
    let blocked = e.is_error && crate::text::find_exec(&v, &sign).is_some();
    if e.is_error && !blocked {
        EntryMark::Error
    } else if blocked {
        EntryMark::Blocked
    } else if !e.is_error && tool_running && is_last {
        EntryMark::Running
    } else {
        EntryMark::Plain
    }
}

/// The first of the last `lines` lines of a buffer of `len` lines.
pub open spec fn window_start(len: nat, lines: nat) -> nat {
    if len > lines {
        (len - lines) as nat
    } else {
        0
    }
}

/// Where the shown part of a shell buffer begins: its last `lines` lines.
pub fn buffer_window_start(len: usize, lines: usize) -> (r: usize)
    ensures
        r as nat == window_start(len as nat, lines as nat),
{
    if len > lines {
        len - lines
    } else {
        0
    }
}


/// Characters of activity text a row shows in focused mode.
pub const FOCUSED_TEXT_CHARS: usize = 512;

/// Characters of activity text a row shows otherwise.
pub const COMPACT_TEXT_CHARS: usize = 64;

/// How many characters of activity text a row shows.
pub fn activity_text_limit(focused: bool) -> (r: usize)
    ensures
        r == if focused {
            FOCUSED_TEXT_CHARS
        } else {
            COMPACT_TEXT_CHARS
        },
{
    if focused {
        FOCUSED_TEXT_CHARS
    } else {
        COMPACT_TEXT_CHARS
    }
}

/// How a row of the overlay is colored.
#[derive(Debug, Clone, Copy, PartialEq, Eq, Structural)]
pub enum RowTone {
    /// Under the pointer.
    Hovered,
    /// Waiting for the user.
    Attention,
    /// Finished or idle: drawn muted.
    Fading,
    /// Everything else.
    Plain,
}

/// The tone of a session's row: hovered first, then a live session that waits for the
/// user, then an exited session in its grace period.
pub open spec fn session_tone_of(s: SessionView, hovered: bool) -> RowTone {
    if hovered {
        RowTone::Hovered
    } else if s.exited_at is None && s.needs_attention {
        RowTone::Attention
    } else if s.exited_at is Some && !s.archived {
        RowTone::Fading
    } else {
        RowTone::Plain
    }
}

/// The tone of a session's row (see `session_tone_of`).
pub fn session_tone(s: &Session, hovered: bool) -> (r: RowTone)
    ensures
        r == session_tone_of(s@, hovered),
{
    if hovered {
        RowTone::Hovered
    } else if s.exited_at.is_none() && s.needs_attention {
        RowTone::Attention
    } else if s.exited_at.is_some() && !s.archived {
        RowTone::Fading
    } else {
        RowTone::Plain
    }
}

/// The tone of a subagent's row: waiting for the user, running, or idle.
pub open spec fn subagent_tone_of(s: SubAgentView) -> RowTone {
    if s.needs_attention {
        RowTone::Attention
    } else if s.active {
        RowTone::Plain
    } else {
        RowTone::Fading
    }
}

/// The tone of a subagent's row (see `subagent_tone_of`).
pub fn subagent_tone(s: &SubAgent) -> (r: RowTone)
    ensures
        r == subagent_tone_of(s@),
{
    if s.needs_attention {
        RowTone::Attention
    } else if s.active {
        RowTone::Plain
    } else {
        RowTone::Fading
    }
}

/// The positions of the shell instances the overlay lists in full, in order: all of them
/// in focused mode, the ones configured `visible: always` otherwise.
pub open spec fn shown_shells(insts: Seq<InstanceView>, focused: bool) -> Seq<usize>
    decreases insts.len(),
{
    if insts.len() == 0 {
        Seq::empty()
    } else {
        let rest = shown_shells(insts.drop_last(), focused);
        if focused || insts.last().config.visible == Visibility::Always {
            rest.push((insts.len() - 1) as usize)
        } else {
            rest
        }
    }
}

/// The positions of the shell instances the overlay lists in full (see `shown_shells`).
pub fn shown_shell_indices(st: &ShellState, focused: bool) -> (r: Vec<usize>)
    ensures
        r@ == shown_shells(st@.instances, focused),
{
    let ghost iv = st@.instances;
    let mut r: Vec<usize> = Vec::new();
    let mut i: usize = 0;
    assert(iv.take(0) =~= Seq::<InstanceView>::empty());
    while i < st.instances.len()
        invariant
            0 <= i <= st.instances@.len(),
            iv == st@.instances,
            iv.len() == st.instances@.len(),
            r@ == shown_shells(iv.take(i as int), focused),
        decreases st.instances.len() - i,
    {
        assert(iv.take(i + 1).drop_last() =~= iv.take(i as int));
        assert(iv.take(i + 1).last() == st.instances@[i as int]@);
        if focused || st.instances[i].config.visible == Visibility::Always {
            r.push(i);
        }
        i += 1;
    }
    assert(iv.take(iv.len() as int) =~= iv);
    r
}

/// The instance whose latest line the unfocused overlay adds below the listed ones: the
/// one that printed last, unless it is listed already.
pub open spec fn summarized_shell(st: ShellStateView, focused: bool) -> Option<usize> {
    if focused {
        None
    } else {
        match st.most_recent {
            Some(i) => if i < st.instances.len() && st.instances[i as int].config.visible
                != Visibility::Always {
                Some(i)
            } else {
                None
            },
            None => None,
        }
    }
}

/// The instance summarized on the unfocused overlay (see `summarized_shell`).
pub fn summarized_shell_index(st: &ShellState, focused: bool) -> (r: Option<usize>)
    ensures
        r == summarized_shell(st@, focused),
{
    if focused {
        return None;
    }
    match st.most_recent {
        Some(i) => {
            if i < st.instances.len() && st.instances[i].config.visible != Visibility::Always {
                Some(i)
            } else {
                None
            }
        },
        None => None,
    }
}

/// The line that summarizes an instance: its latest output line, else its error, cut
/// to its terminal width; empty when it has neither.
pub open spec fn summary_line_of(inst: InstanceView) -> Seq<char> {
    if inst.buffer.len() > 0 {
        truncated(inst.buffer.last(), inst.config.cols as nat)
    } else {
        match inst.error {
            Some(e) => truncated(e, inst.config.cols as nat),
            None => Seq::empty(),
        }
    }
}

/// The line that summarizes an instance (see `summary_line_of`).
pub fn summary_line(inst: &ShellInstance) -> (r: String)
    ensures
        r@ == summary_line_of(inst@),
{
    let n = inst.buffer.len();
    if n > 0 {
        truncate_str(&inst.buffer[n - 1], inst.config.cols)
    } else {
        match &inst.error {
            Some(e) => truncate_str(e, inst.config.cols),
            None => String::new(),
        }
    }
}

/// A line under a shell widget's label.
#[derive(Debug, Clone, PartialEq, Eq)]
pub enum ShellLine {
    /// The instance's error, cut to leave room for its marker.
    Failure(String),
    /// An output line, cut to the terminal width.
    Output(String),
    /// The exit code of a finished process.
    Exit(i32),
    /// The process has printed nothing yet.
    Waiting,
}

/// A `ShellLine` as plain values.
pub enum ShellLineView {
    Failure(Seq<char>),
    Output(Seq<char>),
    Exit(i32),
    Waiting,
}

impl View for ShellLine {
    type V = ShellLineView;

    open spec fn view(&self) -> ShellLineView {
        match self {
            ShellLine::Failure(e) => ShellLineView::Failure(e@),
            ShellLine::Output(l) => ShellLineView::Output(l@),
            ShellLine::Exit(c) => ShellLineView::Exit(*c),
            ShellLine::Waiting => ShellLineView::Waiting,
        }
    }
}

/// The views of a list of shell lines.
pub open spec fn shell_lines_view(v: Seq<ShellLine>) -> Seq<ShellLineView> {
    v.map_values(|l: ShellLine| l@)
}

/// Output lines, each cut to `cols` characters.
pub open spec fn output_lines(buf: Seq<Seq<char>>, cols: nat) -> Seq<ShellLineView> {
    buf.map_values(|l: Seq<char>| ShellLineView::Output(truncated(l, cols)))
}

/// The exit line that a full listing ends with once the process has exited.
pub open spec fn exit_tail(full: bool, code: Option<i32>) -> Seq<ShellLineView> {
    match code {
        Some(c) => if full {
            seq![ShellLineView::Exit(c)]
        } else {
            Seq::empty()
        },
        None => Seq::empty(),
    }
}

/// What a shell widget shows under its label; `full` is a full listing (focused mode).
/// An error replaces everything; without output a full listing shows the exit code, or
/// that it waits; otherwise the last `lines` output lines, then the exit code in a full
/// listing.
pub open spec fn shell_body_of(inst: InstanceView, full: bool) -> Seq<ShellLineView> {
    let cols = inst.config.cols as nat;
    match inst.error {
        Some(e) => seq![ShellLineView::Failure(truncated(e, if cols >= 4 { (cols - 4) as nat } else { 0 }))],
        None => if inst.buffer.len() == 0 {
            if !full {
                Seq::empty()
            } else {
                match inst.exit_code {
                    Some(c) => seq![ShellLineView::Exit(c)],
                    None => seq![ShellLineView::Waiting],
                }
            }
        } else {
            output_lines(
                inst.buffer.skip(window_start(inst.buffer.len(), inst.config.lines as nat) as int),
                cols,
            ) + exit_tail(full, inst.exit_code)
        },
    }
}

/// What a shell widget shows under its label (see `shell_body_of`).
pub fn shell_body(inst: &ShellInstance, full: bool) -> (r: Vec<ShellLine>)
    ensures
        shell_lines_view(r@) == shell_body_of(inst@, full),
{
    let cols = inst.config.cols;
    let mut r: Vec<ShellLine> = Vec::new();
    match &inst.error {
        Some(e) => {
            r.push(ShellLine::Failure(truncate_str(e, cols.saturating_sub(4))));
            assert(shell_lines_view(r@) =~= shell_body_of(inst@, full));
            return r;
        },
        None => {},
    }
    let n = inst.buffer.len();
    if n == 0 {
        if full {
            match inst.exit_code {
                Some(c) => r.push(ShellLine::Exit(c)),
                None => r.push(ShellLine::Waiting),
            }
        }
        assert(shell_lines_view(r@) =~= shell_body_of(inst@, full));
        return r;
    }
    let ghost buf = inst@.buffer;
    let start = buffer_window_start(n, inst.config.lines);
    let mut k: usize = start;
    assert(shell_lines_view(r@) =~= output_lines(buf.subrange(start as int, start as int), cols as nat));
    while k < n
        invariant
            start <= k <= n,
            n == inst.buffer@.len(),
            buf == inst@.buffer,
            buf.len() == n,
            cols == inst.config.cols,
            shell_lines_view(r@) == output_lines(buf.subrange(start as int, k as int), cols as nat),
        decreases n - k,
    {
        let ghost before = shell_lines_view(r@);
        r.push(ShellLine::Output(truncate_str(&inst.buffer[k], cols)));
        assert(shell_lines_view(r@) =~= before.push(ShellLineView::Output(truncated(buf[k as int], cols as nat))));
        assert(output_lines(buf.subrange(start as int, k + 1), cols as nat) =~= output_lines(
            buf.subrange(start as int, k as int),
            cols as nat,
        ).push(ShellLineView::Output(truncated(buf[k as int], cols as nat))));
        k += 1;
    }
    assert(buf.subrange(start as int, n as int) =~= buf.skip(start as int));
    let ghost body = shell_lines_view(r@);
    if full {
        match inst.exit_code {
            Some(c) => {
                r.push(ShellLine::Exit(c));
                assert(shell_lines_view(r@) =~= body.push(ShellLineView::Exit(c)));
            },
            None => {},
        }
    }
    assert(shell_lines_view(r@) =~= shell_body_of(inst@, full));
    r
}

/// A session's row shows its project in focused mode and once the session has exited.
pub fn shows_project(s: &Session, focused: bool) -> (r: bool)
    ensures
        r == (focused || s@.exited_at is Some),
{
    focused || s.exited_at.is_some()
}

/// The number of archived sessions the archive pill shows: only in focused mode, and
/// only when there is at least one.
pub fn archive_pill_count(w: &ClaudeWidget, focused: bool) -> (r: Option<usize>)
    ensures
        r == if focused && archived_indices(w@.sessions).len() > 0 {
            Some(archived_indices(w@.sessions).len() as usize)
        } else {
            None
        },
{
    let n = archived_session_indices(w).len();
    if focused && n > 0 {
        Some(n)
    } else {
        None
    }
}

} // verus!
