//! Turns lines of a session log (one JSON document per line) into `SessionEvent`s.
use vstd::prelude::*;
use crate::events::{
    category_of, events_view, lemma_events_push, opt_view, EventView,
    SessionEvent, ToolCategory,
};
use crate::json::{
    array_exec, array_of, bool_exec, bool_of, deref_opt, field, field_exec, get, get_exec,
    json_of_text, parse_json, str_exec, str_of, u64_exec, u64_of, Json,
};
use crate::text::{
    append_str, chars_eq, chars_of, contains, contains_lit, copy_str, find, find_exec, find_from,
    find_from_exec, is_lit, push_char, str_is, string_of, string_of_range, strings_view, trim,
    trim_bounds,
};
use crate::util::{truncate_str, truncated};

verus! {

// ---------------------------------------------------------------------------
// Mathematical description of the parser
// ---------------------------------------------------------------------------

/// `o`'s string, or `d` when there is none.
pub open spec fn or_else(o: Option<Seq<char>>, d: Seq<char>) -> Seq<char> {
    match o {
        Some(s) => s,
        None => d,
    }
}

/// The ids a parser has already seen, in the order it first saw them.
pub struct ParserView {
    pub message_ids: Seq<Seq<char>>,
    pub tool_use_ids: Seq<Seq<char>>,
}


// --- paths ---

/// The components of `s` split at '/' (empty ones dropped) that are complete, and the
/// component being read at the end of `s`.
pub open spec fn component_state(s: Seq<char>) -> (Seq<Seq<char>>, Seq<char>)
    decreases s.len(),
{
    if s.len() == 0 {
        (seq![], seq![])
    } else {
        let (done, cur) = component_state(s.drop_last());
        if s.last() == '/' {
            if cur.len() > 0 {
                (done.push(cur), seq![])
            } else {
                (done, seq![])
            }
        } else {
            (done, cur.push(s.last()))
        }
    }
}

/// The non-empty components of a '/'-separated path.
pub open spec fn components(s: Seq<char>) -> Seq<Seq<char>> {
    let (done, cur) = component_state(s);
    if cur.len() > 0 {
        done.push(cur)
    } else {
        done
    }
}

/// A path cut to its last two components, behind ".../", when it has more than two.
pub open spec fn shortened(path: Seq<char>) -> Seq<char> {
    let p = components(path);
    if p.len() <= 2 {
        path
    } else {
        "..."@ + seq!['/'] + p[p.len() - 2] + seq!['/'] + p[p.len() - 1]
    }
}

// --- tool descriptions ---

/// The path given under "file_path", shortened, or `d`.
pub open spec fn path_or(input: Json, d: Seq<char>) -> Seq<char> {
    match str_of(get(input, "file_path"@)) {
        Some(p) => shortened(p),
        None => d,
    }
}

/// The string under `key`, truncated to `n` characters, or `d`.
pub open spec fn text_or(input: Json, key: Seq<char>, n: nat, d: Seq<char>) -> Seq<char> {
    match str_of(get(input, key)) {
        Some(s) => truncated(s, n),
        None => d,
    }
}

/// A human-readable description of a tool call from its name and input.
pub open spec fn tool_description(name: Seq<char>, input: Json) -> Seq<char> {
    if name == "Read"@ {
        path_or(input, "reading file"@)
    } else if name == "Edit"@ {
        path_or(input, "editing file"@)
    } else if name == "Write"@ {
        path_or(input, "writing file"@)
    } else if name == "NotebookEdit"@ || name == "MultiEdit"@ {
        let p = match get(input, "file_path"@) {
            Some(x) => Some(x),
            None => get(input, "notebook_path"@),
        };
        match str_of(p) {
            Some(s) => shortened(s),
            None => "editing file"@,
        }
    } else if name == "AskUserQuestion"@ {
        "asking user"@
    } else if name == "EnterPlanMode"@ || name == "ExitPlanMode"@ {
        "planning"@
    } else if name == "Skill"@ {
        match str_of(get(input, "skill"@)) {
            Some(s) => "/"@ + s,
            None => "skill"@,
        }
    } else if name == "Glob"@ {
        text_or(input, "pattern"@, 200, "glob search"@)
    } else if name == "Grep"@ {
        text_or(input, "pattern"@, 200, "grep search"@)
    } else if name == "Bash"@ {
        text_or(input, "command"@, 500, "running command"@)
    } else if name == "Task"@ || name == "TaskCreate"@ {
        text_or(input, "description"@, 200, "spawning agent"@)
    } else if name == "WebSearch"@ {
        text_or(input, "query"@, 200, "web search"@)
    } else if name == "WebFetch"@ {
        text_or(input, "url"@, 300, "fetching URL"@)
    } else if name == "SendMessage"@ {
        let recipient = or_else(str_of(get(input, "recipient"@)), "all"@);
        match str_of(get(input, "summary"@)) {
            Some(s) => if s.len() > 0 {
                recipient + ": "@ + truncated(s, 60)
            } else {
                "to "@ + recipient
            },
            None => "to "@ + recipient,
        }
    } else if name == "TeamCreate"@ {
        match str_of(get(input, "team_name"@)) {
            Some(s) => "team: "@ + s,
            None => "creating team"@,
        }
    } else {
        truncated(name, 80)
    }
}

// --- tool results ---

/// The first non-empty "text" among `items`, truncated to 500 characters.
pub open spec fn first_text(items: Seq<Json>) -> Option<Seq<char>>
    decreases items.len(),
{
    if items.len() == 0 {
        None
    } else {
        match str_of(get(items[0], "text"@)) {
            Some(t) => if t.len() > 0 {
                Some(truncated(t, 500))
            } else {
                first_text(items.drop_first())
            },
            None => first_text(items.drop_first()),
        }
    }
}

/// The error text of a tool_result block: its "content" when that is a non-empty
/// string, else the first non-empty "text" of its content blocks; at most 500
/// characters (plus "...").
pub open spec fn error_content(block: Json) -> Option<Seq<char>> {
    match get(block, "content"@) {
        Some(Json::Str(t)) => if t@.len() > 0 {
            Some(truncated(t@, 500))
        } else {
            None
        },
        Some(Json::Array(items)) => first_text(items@),
        _ => None,
    }
}

/// The event a content block of a user entry gives: a `ToolEnd` for a tool_result
/// block with a non-empty tool_use_id.
pub open spec fn result_block_events(b: Json) -> Seq<EventView> {
    if str_of(get(b, "type"@)) == Some("tool_result"@) {
        let id = or_else(str_of(get(b, "tool_use_id"@)), seq![]);
        let is_error = bool_of(get(b, "is_error"@)) == Some(true);
        let msg = if is_error {
            error_content(b)
        } else {
            None
        };
        if id.len() > 0 {
            seq![EventView::ToolEnd { tool_use_id: id, is_error, error_message: msg }]
        } else {
            seq![]
        }
    } else {
        seq![]
    }
}

/// The events of a list of content blocks of a user entry.
pub open spec fn result_events(blocks: Seq<Json>) -> Seq<EventView>
    decreases blocks.len(),
{
    if blocks.len() == 0 {
        seq![]
    } else {
        result_events(blocks.drop_last()) + result_block_events(blocks.last())
    }
}

// --- teammate messages ---

/// The opening of the teammate id attribute.
pub open spec fn id_attr() -> Seq<char> {
    "teammate_id=\""@
}

/// The closing tag of a teammate message.
pub open spec fn close_tag() -> Seq<char> {
    "</teammate-message>"@
}

/// The teammate named in a `<teammate-message teammate_id="NAME">` tag, or "teammate".
pub open spec fn teammate_name(text: Seq<char>) -> Seq<char> {
    match find(text, id_attr()) {
        Some(start) => {
            let name_start = start + id_attr().len();
            match find_from(text, seq!['"'], name_start) {
                Some(end) => text.subrange(name_start, end),
                None => "teammate"@,
            }
        },
        None => "teammate"@,
    }
}

/// The text between the first '>' and the closing tag (or the end) can be cut out:
/// the closing tag does not start before that '>' ends.
pub open spec fn teammate_ok(text: Seq<char>) -> bool {
    match find(text, seq!['>']) {
        Some(g) => match find(text, close_tag()) {
            Some(e) => g + 1 <= e,
            None => true,
        },
        None => true,
    }
}

/// The trimmed text inside a teammate message (when `teammate_ok`).
pub open spec fn teammate_inner(text: Seq<char>) -> Option<Seq<char>> {
    match find(text, seq!['>']) {
        Some(g) => {
            let end = match find(text, close_tag()) {
                Some(e) => e,
                None => text.len() as int,
            };
            Some(trim(text.subrange(g + 1, end)))
        },
        None => None,
    }
}

/// The summary of a teammate message from the teammate's name, the inner text and
/// the JSON document read from the inner text (if it is one).
pub open spec fn teammate_summary(teammate: Seq<char>, inner: Seq<char>, doc: Option<Json>) -> Seq<
    char,
> {
    let content = match doc {
        Some(j) => str_of(get(j, "content"@)),
        None => None,
    };
    let ty = match doc {
        Some(j) => str_of(get(j, "type"@)),
        None => None,
    };
    if content is Some {
        teammate + ": "@ + truncated(content->0, 200)
    } else if ty is Some {
        teammate + " ("@ + ty->0 + ")"@
    } else if inner.len() > 0 {
        teammate + ": "@ + truncated(inner, 200)
    } else {
        "msg from "@ + teammate
    }
}

/// A readable summary of a prompt holding `<teammate-message>` tags.
pub open spec fn cleaned_teammate(text: Seq<char>) -> Seq<char> {
    let teammate = teammate_name(text);
    match teammate_inner(text) {
        Some(inner) => teammate_summary(teammate, inner, json_of_text(inner)),
        None => "msg from "@ + teammate,
    }
}

// --- entries ---

/// The tag that marks the /exit command.
pub open spec fn exit_tag() -> Seq<char> {
    "<command-name>/exit</command-name>"@
}

/// The tag that marks the output of a local command.
pub open spec fn stdout_tag() -> Seq<char> {
    "<local-command-stdout>"@
}

/// The tag that opens a message from a teammate.
pub open spec fn teammate_tag() -> Seq<char> {
    "<teammate-message"@
}

/// The events of a user prompt given as plain text.
pub open spec fn prompt_events(text: Seq<char>) -> Seq<EventView> {
    if contains(text, exit_tag()) {
        seq![EventView::SessionEnd]
    } else if contains(text, stdout_tag()) {
        seq![]
    } else if contains(text, teammate_tag()) {
        seq![EventView::UserPrompt { text: cleaned_teammate(text) }]
    } else {
        seq![EventView::UserPrompt { text }]
    }
}

/// Cleaning a prompt does not cut at an impossible position.
pub open spec fn prompt_ok(text: Seq<char>) -> bool {
    !contains(text, exit_tag()) && !contains(text, stdout_tag()) && contains(text, teammate_tag())
        ==> teammate_ok(text)
}

/// The flag `key` of `entry` is `true`.
pub open spec fn flag(entry: Json, key: Seq<char>) -> bool {
    bool_of(get(entry, key)) == Some(true)
}

/// The events of a user entry.
pub open spec fn user_events(entry: Json) -> Seq<EventView> {
    if flag(entry, "isMeta"@) || flag(entry, "isCompactSummary"@) {
        seq![]
    } else {
        match field(get(entry, "message"@), "content"@) {
            Some(Json::Str(t)) => prompt_events(t@),
            Some(Json::Array(blocks)) => result_events(blocks@),
            _ => seq![],
        }
    }
}

/// A user entry can be read without cutting at an impossible position.
pub open spec fn user_ok(entry: Json) -> bool {
    !flag(entry, "isMeta"@) && !flag(entry, "isCompactSummary"@) ==> match field(
        get(entry, "message"@),
        "content"@,
    ) {
        Some(Json::Str(t)) => prompt_ok(t@),
        _ => true,
    }
}

/// The events and seen tool ids after one content block of an assistant entry.
pub open spec fn block_step(tools: Seq<Seq<char>>, b: Json) -> (Seq<EventView>, Seq<Seq<char>>) {
    match str_of(get(b, "type"@)) {
        Some(ty) => if ty == "thinking"@ {
            (seq![EventView::Thinking], tools)
        } else if ty == "tool_use"@ {
            let id = or_else(str_of(get(b, "id"@)), seq![]);
            if id.len() == 0 || tools.contains(id) {
                (seq![], tools)
            } else {
                let name = or_else(str_of(get(b, "name"@)), "unknown"@);
                let input = match get(b, "input"@) {
                    Some(i) => i,
                    None => Json::Null,
                };
                let start = EventView::ToolStart {
                    tool_name: name,
                    tool_use_id: id,
                    category: category_of(name),
                    description: tool_description(name, input),
                };
                if name == "Task"@ || name == "TaskCreate"@ {
                    let desc = or_else(
                        str_of(field(get(b, "input"@), "description"@)),
                        "unnamed agent"@,
                    );
                    (
                        seq![EventView::AgentSpawned { agent_id: id, description: desc }, start],
                        tools.push(id),
                    )
                } else {
                    (seq![start], tools.push(id))
                }
            }
        } else {
            (seq![], tools)
        },
        None => (seq![], tools),
    }
}

/// The events and seen tool ids after the content blocks of an assistant entry.
pub open spec fn blocks_step(tools: Seq<Seq<char>>, blocks: Seq<Json>) -> (
    Seq<EventView>,
    Seq<Seq<char>>,
)
    decreases blocks.len(),
{
    if blocks.len() == 0 {
        (seq![], tools)
    } else {
        let (ev, t) = blocks_step(tools, blocks.drop_last());
        let (ev2, t2) = block_step(t, blocks.last());
        (ev + ev2, t2)
    }
}

/// The token usage event of an assistant message (if its id is new and it used
/// tokens), and the message ids seen afterwards.
pub open spec fn usage_step(ids: Seq<Seq<char>>, m: Json) -> (Seq<EventView>, Seq<Seq<char>>) {
    let id = or_else(str_of(get(m, "id"@)), seq![]);
    match get(m, "usage"@) {
        Some(u) => if id.len() > 0 {
            let input = match u64_of(get(u, "input_tokens"@)) {
                Some(n) => n,
                None => 0,
            };
            let output = match u64_of(get(u, "output_tokens"@)) {
                Some(n) => n,
                None => 0,
            };
            let cache = match u64_of(get(u, "cache_read_input_tokens"@)) {
                Some(n) => n,
                None => 0,
            };
            let new = !ids.contains(id);
            let ids2 = if new {
                ids.push(id)
            } else {
                ids
            };
            if new && (input > 0 || output > 0) {
                (
                    seq![
                        EventView::TokenUsage {
                            input_tokens: input,
                            output_tokens: output,
                            cache_read_tokens: cache,
                        },
                    ],
                    ids2,
                )
            } else {
                (seq![], ids2)
            }
        } else {
            (seq![], ids)
        },
        None => (seq![], ids),
    }
}

/// The events of an assistant entry and the parser state afterwards.
pub open spec fn assistant_step(st: ParserView, entry: Json) -> (Seq<EventView>, ParserView) {
    match get(entry, "message"@) {
        Some(m) => {
            let (ev1, ids) = usage_step(st.message_ids, m);
            match array_of(get(m, "content"@)) {
                Some(blocks) => {
                    let (ev2, tools) = blocks_step(st.tool_use_ids, blocks);
                    (ev1 + ev2, ParserView { message_ids: ids, tool_use_ids: tools })
                },
                None => (ev1, ParserView { message_ids: ids, tool_use_ids: st.tool_use_ids }),
            }
        },
        None => (seq![], st),
    }
}

/// The events of a system entry.
pub open spec fn system_events(entry: Json) -> Seq<EventView> {
    match str_of(get(entry, "subtype"@)) {
        Some(sub) => if sub == "turn_duration"@ {
            match u64_of(get(entry, "durationMs"@)) {
                Some(ms) => seq![EventView::TurnComplete { duration_ms: ms }],
                None => seq![],
            }
        } else if sub == "compact_boundary"@ {
            seq![EventView::ContextCompaction]
        } else {
            seq![]
        },
        None => seq![],
    }
}

/// How an entry is read, from its "type" (or, for other types, its message's role).
pub enum EntryKind {
    User,
    Assistant,
    System,
    Progress,
    Ignored,
}

/// How `entry` is read.
pub open spec fn entry_kind(entry: Json) -> EntryKind {
    let ty = or_else(str_of(get(entry, "type"@)), seq![]);
    if ty == "user"@ {
        EntryKind::User
    } else if ty == "assistant"@ {
        EntryKind::Assistant
    } else if ty == "system"@ {
        EntryKind::System
    } else if ty == "progress"@ {
        EntryKind::Progress
    } else if ty == "file-history-snapshot"@ || ty == "queue-operation"@ {
        EntryKind::Ignored
    } else {
        let role = str_of(field(get(entry, "message"@), "role"@));
        if role == Some("user"@) {
            EntryKind::User
        } else if role == Some("assistant"@) {
            EntryKind::Assistant
        } else {
            EntryKind::Ignored
        }
    }
}

/// The events of one log entry and the parser state afterwards.
pub open spec fn entry_step(st: ParserView, entry: Json) -> (Seq<EventView>, ParserView) {
    match entry_kind(entry) {
        EntryKind::User => (user_events(entry), st),
        EntryKind::Assistant => assistant_step(st, entry),
        EntryKind::System => (system_events(entry), st),
        EntryKind::Progress => (seq![EventView::ToolProgress], st),
        EntryKind::Ignored => (seq![], st),
    }
}

/// An entry can be read without cutting a teammate message at an impossible position.
pub open spec fn entry_ok(entry: Json) -> bool {
    entry_kind(entry) is User ==> user_ok(entry)
}

/// The events of one log line and the parser state afterwards: nothing for text that
/// is not JSON.
pub open spec fn line_step(st: ParserView, line: Seq<char>) -> (Seq<EventView>, ParserView) {
    match json_of_text(line) {
        Some(entry) => entry_step(st, entry),
        None => (seq![], st),
    }
}

/// A line can be read without cutting a teammate message at an impossible position.
pub open spec fn line_ok(line: Seq<char>) -> bool {
    json_of_text(line) matches Some(entry) ==> entry_ok(entry)
}


// ---------------------------------------------------------------------------
// Paths
// ---------------------------------------------------------------------------

/// The pieces of `v` that the ranges `r` select.
pub open spec fn ranges_view(v: Seq<char>, r: Seq<(usize, usize)>) -> Seq<Seq<char>> {
    Seq::new(r.len(), |k: int| v.subrange(r[k].0 as int, r[k].1 as int))
}

/// Show just the filename, or the last two components behind ".../".
pub fn shorten_path(path: &str) -> (r: String)
    ensures
        r@ == shortened(path@),
{
    let v = chars_of(path);
    let mut done: Vec<(usize, usize)> = Vec::new();
    let mut cur: usize = 0;
    let mut i: usize = 0;
    while i < v.len()
        invariant
            0 <= cur <= i <= v@.len(),
            v@ == path@,
            forall|k: int| 0 <= k < done@.len() ==> (#[trigger] done@[k]).0 < done@[k].1 <= i,
            component_state(v@.take(i as int)) == (
                ranges_view(v@, done@),
                v@.subrange(cur as int, i as int),
            ),
        decreases v.len() - i,
    {
        assert(v@.take(i + 1).drop_last() =~= v@.take(i as int));
        assert(v@.take(i + 1).last() == v@[i as int]);
        if v[i] == '/' {
            if cur < i {
                done.push((cur, i));
                assert(ranges_view(v@, done@) =~= ranges_view(v@, old_done(done@)).push(
                    v@.subrange(cur as int, i as int),
                ));
            }
            cur = i + 1;
            assert(v@.subrange(cur as int, (i + 1) as int) =~= Seq::<char>::empty());
        } else {
            assert(v@.subrange(cur as int, i + 1) =~= v@.subrange(cur as int, i as int).push(
                v@[i as int],
            ));
        }
        i += 1;
    }
    assert(v@.take(v@.len() as int) =~= v@);
    if cur < v.len() {
        done.push((cur, v.len()));
        assert(ranges_view(v@, done@) =~= ranges_view(v@, old_done(done@)).push(
            v@.subrange(cur as int, v@.len() as int),
        ));
    }
    let ghost parts = components(path@);
    assert(parts == ranges_view(v@, done@));
    let n = done.len();
    if n <= 2 {
        copy_str(path)
    } else {
        let (a1, b1) = done[n - 2];
        let (a2, b2) = done[n - 1];
        let mut r = copy_str(".../");
        let p1 = string_of_range(&v, a1, b1);
        let p2 = string_of_range(&v, a2, b2);
        append_str(&mut r, p1.as_str());
        push_char(&mut r, '/');
        append_str(&mut r, p2.as_str());
        assert(".../"@ =~= "..."@ + seq!['/']) by {
            reveal_strlit(".../");
            reveal_strlit("...");
        }
        r
    }
}

/// The ranges before the last one was pushed.
pub open spec fn old_done(r: Seq<(usize, usize)>) -> Seq<(usize, usize)> {
    r.drop_last()
}


// ---------------------------------------------------------------------------
// Tool descriptions and error messages
// ---------------------------------------------------------------------------

/// The string under "file_path", shortened, or `d`.
fn path_or_exec(input: &Json, d: &str) -> (r: String)
    ensures
        r@ == path_or(*input, d@),
{
    match str_exec(get_exec(input, "file_path")) {
        Some(p) => shorten_path(p.as_str()),
        None => copy_str(d),
    }
}

/// The string under `key`, truncated to `n` characters, or `d`.
fn text_or_exec(input: &Json, key: &str, n: usize, d: &str) -> (r: String)
    ensures
        r@ == text_or(*input, key@, n as nat, d@),
{
    match str_exec(get_exec(input, key)) {
        Some(s) => truncate_str(s.as_str(), n),
        None => copy_str(d),
    }
}

/// `a` followed by `b`.
fn concat2(a: &str, b: &str) -> (r: String)
    ensures
        r@ == a@ + b@,
{
    let mut r = copy_str(a);
    append_str(&mut r, b);
    r
}

/// `a`, `b` and `c` one after the other.
fn concat3(a: &str, b: &str, c: &str) -> (r: String)
    ensures
        r@ == a@ + b@ + c@,
{
    let mut r = concat2(a, b);
    append_str(&mut r, c);
    r
}

/// Extract a human-readable description from tool input.
pub fn extract_tool_description(tool_name: &str, input: &Json) -> (r: String)
    ensures
        r@ == tool_description(tool_name@, *input),
{
    let name = chars_of(tool_name);
    if is_lit(&name, "Read") {
        path_or_exec(input, "reading file")
    } else if is_lit(&name, "Edit") {
        path_or_exec(input, "editing file")
    } else if is_lit(&name, "Write") {
        path_or_exec(input, "writing file")
    } else if is_lit(&name, "NotebookEdit") || is_lit(&name, "MultiEdit") {
        let p = match get_exec(input, "file_path") {
            Some(x) => Some(x),
            None => get_exec(input, "notebook_path"),
        };
        match str_exec(p) {
            Some(s) => shorten_path(s.as_str()),
            None => copy_str("editing file"),
        }
    } else if is_lit(&name, "AskUserQuestion") {
        copy_str("asking user")
    } else if is_lit(&name, "EnterPlanMode") || is_lit(&name, "ExitPlanMode") {
        copy_str("planning")
    } else if is_lit(&name, "Skill") {
        match str_exec(get_exec(input, "skill")) {
            Some(s) => concat2("/", s.as_str()),
            None => copy_str("skill"),
        }
    } else if is_lit(&name, "Glob") {
        text_or_exec(input, "pattern", 200, "glob search")
    } else if is_lit(&name, "Grep") {
        text_or_exec(input, "pattern", 200, "grep search")
    } else if is_lit(&name, "Bash") {
        text_or_exec(input, "command", 500, "running command")
    } else if is_lit(&name, "Task") || is_lit(&name, "TaskCreate") {
        text_or_exec(input, "description", 200, "spawning agent")
    } else if is_lit(&name, "WebSearch") {
        text_or_exec(input, "query", 200, "web search")
    } else if is_lit(&name, "WebFetch") {
        text_or_exec(input, "url", 300, "fetching URL")
    } else if is_lit(&name, "SendMessage") {
        let recipient = match str_exec(get_exec(input, "recipient")) {
            Some(r) => copy_str(r.as_str()),
            None => copy_str("all"),
        };
        match str_exec(get_exec(input, "summary")) {
            Some(s) => {
                if s.as_str().is_empty() {
                    concat2("to ", recipient.as_str())
                } else {
                    let t = truncate_str(s.as_str(), 60);
                    concat3(recipient.as_str(), ": ", t.as_str())
                }
            },
            None => concat2("to ", recipient.as_str()),
        }
    } else if is_lit(&name, "TeamCreate") {
        match str_exec(get_exec(input, "team_name")) {
            Some(s) => concat2("team: ", s.as_str()),
            None => copy_str("creating team"),
        }
    } else {
        truncate_str(tool_name, 80)
    }
}

/// Extract error message text from a tool_result content block.
pub fn extract_error_content(block: &Json) -> (r: Option<String>)
    ensures
        opt_view(r) == error_content(*block),
{
    match get_exec(block, "content") {
        Some(Json::Str(t)) => {
            if t.as_str().is_empty() {
                None
            } else {
                Some(truncate_str(t.as_str(), 500))
            }
        },
        Some(Json::Array(items)) => {
            let mut i: usize = 0;
            assert(items@.skip(0) =~= items@);
            while i < items.len()
                invariant
                    0 <= i <= items@.len(),
                    error_content(*block) == first_text(items@),
                    first_text(items@) == first_text(items@.skip(i as int)),
                decreases items.len() - i,
            {
                assert(items@.skip(i as int)[0] == items@[i as int]);
                assert(items@.skip(i as int).drop_first() =~= items@.skip(i + 1));
                match str_exec(get_exec(&items[i], "text")) {
                    Some(t) => {
                        if !t.as_str().is_empty() {
                            return Some(truncate_str(t.as_str(), 500));
                        }
                    },
                    None => {},
                }
                i += 1;
            }
            None
        },
        _ => None,
    }
}


// ---------------------------------------------------------------------------
// Teammate messages
// ---------------------------------------------------------------------------

/// The teammate named in the `teammate_id` attribute of `v`, or "teammate".
fn teammate_name_exec(v: &[char]) -> (r: String)
    ensures
        r@ == teammate_name(v@),
{
    let attr = chars_of("teammate_id=\"");
    match find_exec(v, &attr) {
        Some(start) => {
            proof {
                crate::text::lemma_find_from(v@, attr@, 0);
            }
            let n: usize = v.len();
            assert(start + attr@.len() <= n);
            let name_start = start + attr.len();
            let quote = chars_of("\"");
            assert(quote@ =~= seq!['"']) by {
                reveal_strlit("\"");
            }
            match find_from_exec(v, &quote, name_start) {
                Some(end) => {
                    proof {
                        crate::text::lemma_find_from(v@, quote@, name_start as int);
                    }
                    string_of_range(v, name_start, end)
                },
                None => copy_str("teammate"),
            }
        },
        None => copy_str("teammate"),
    }
}

/// The summary of a teammate message from the teammate's name, the inner text and
/// what `serde_json` read from the inner text.
pub fn summarize_teammate(teammate: &str, inner: &str, doc: Option<Json>) -> (r: String)
    ensures
        r@ == teammate_summary(teammate@, inner@, doc),
{
    let content = match &doc {
        Some(j) => str_exec(get_exec(j, "content")),
        None => None,
    };
    let ty = match &doc {
        Some(j) => str_exec(get_exec(j, "type")),
        None => None,
    };
    match content {
        Some(c) => {
            let t = truncate_str(c.as_str(), 200);
            concat3(teammate, ": ", t.as_str())
        },
        None => match ty {
            Some(ty) => {
                let mut r = concat3(teammate, " (", ty.as_str());
                append_str(&mut r, ")");
                r
            },
            None => {
                if !inner.is_empty() {
                    let t = truncate_str(inner, 200);
                    concat3(teammate, ": ", t.as_str())
                } else {
                    concat2("msg from ", teammate)
                }
            },
        },
    }
}

/// The position of the first '>' and the end of the inner text of a teammate message.
fn teammate_bounds(v: &[char]) -> (r: Option<(usize, usize)>)
    ensures
        r matches Some((g, e)) ==> {
            &&& find(v@, seq!['>']) == Some(g as int)
            &&& e == match find(v@, close_tag()) {
                Some(e) => e,
                None => v@.len() as int,
            }
        },
        r is None ==> find(v@, seq!['>']) is None,
{
    let gt = chars_of(">");
    assert(gt@ =~= seq!['>']) by {
        reveal_strlit(">");
    }
    match find_exec(v, &gt) {
        Some(g) => {
            let close = chars_of("</teammate-message>");
            let e = match find_exec(v, &close) {
                Some(e) => e,
                None => v.len(),
            };
            Some((g, e))
        },
        None => None,
    }
}

/// Whether a teammate message can be cut as `clean_teammate_prompt` cuts it.
pub fn teammate_ok_exec(text: &str) -> (r: bool)
    ensures
        r == teammate_ok(text@),
{
    let v = chars_of(text);
    match teammate_bounds(&v) {
        Some((g, e)) => {
            let close = chars_of("</teammate-message>");
            match find_exec(&v, &close) {
                Some(_) => g < e,
                None => true,
            }
        },
        None => true,
    }
}

/// Clean `<teammate-message>` XML tags from user prompts into a readable summary.
pub fn clean_teammate_prompt(text: &str) -> (r: String)
    requires
        teammate_ok(text@),
    ensures
        r@ == cleaned_teammate(text@),
{
    let v = chars_of(text);
    let teammate = teammate_name_exec(&v);
    match teammate_bounds(&v) {
        Some((g, e)) => {
            proof {
                crate::text::lemma_find_from(v@, seq!['>'], 0);
                crate::text::lemma_find_from(v@, close_tag(), 0);
            }
            let (a, b): (usize, usize) = trim_bounds(&v, g + 1, e);
            let inner = string_of_range(&v, a, b);
            let doc = parse_json(inner.as_str());
            summarize_teammate(teammate.as_str(), inner.as_str(), doc)
        },
        None => concat2("msg from ", teammate.as_str()),
    }
}


// ---------------------------------------------------------------------------
// The parser
// ---------------------------------------------------------------------------

/// Tracks seen IDs to deduplicate streaming chunks.
/// A `Vec` searched in order holds them: vstd specifies `HashSet`, but keyed by
/// `String` its operations prove nothing here.
pub struct Parser {
    seen_message_ids: Vec<String>,
    seen_tool_use_ids: Vec<String>,
}

impl View for Parser {
    type V = ParserView;

    closed spec fn view(&self) -> ParserView {
        ParserView {
            message_ids: strings_view(self.seen_message_ids@),
            tool_use_ids: strings_view(self.seen_tool_use_ids@),
        }
    }
}

/// Adds `id` to `ids` unless it is there; says whether it was added.
fn insert_id(ids: &mut Vec<String>, id: &String) -> (added: bool)
    ensures
        added == !strings_view(old(ids)@).contains(id@),
        strings_view(final(ids)@) == if added {
            strings_view(old(ids)@).push(id@)
        } else {
            strings_view(old(ids)@)
        },
{
    let key = chars_of(id.as_str());
    let mut i: usize = 0;
    while i < ids.len()
        invariant
            0 <= i <= ids@.len(),
            key@ == id@,
            forall|j: int| 0 <= j < i ==> (#[trigger] ids@[j])@ != id@,
        decreases ids.len() - i,
    {
        let other = chars_of(ids[i].as_str());
        if chars_eq(&other, &key) {
            assert(strings_view(ids@)[i as int] == id@);
            return false;
        }
        i += 1;
    }
    assert(!strings_view(ids@).contains(id@)) by {
        if strings_view(ids@).contains(id@) {
            let j = choose|j: int| 0 <= j < strings_view(ids@).len() && strings_view(ids@)[j] == id@;
            assert(ids@[j]@ == id@);
        }
    }
    let ghost before = ids@;
    ids.push(id.clone());
    assert(strings_view(ids@) =~= strings_view(before).push(id@));
    true
}

/// The flag `key` of `entry` is `true`.
fn flag_exec(entry: &Json, key: &str) -> (r: bool)
    ensures
        r == flag(*entry, key@),
{
    match bool_exec(get_exec(entry, key)) {
        Some(b) => b,
        None => false,
    }
}

/// `o` is a string equal to `lit`.
fn str_opt_is(o: Option<&String>, lit: &str) -> (r: bool)
    ensures
        r == (o matches Some(s) && s@ == lit@),
{
    match o {
        Some(s) => str_is(s.as_str(), lit),
        None => false,
    }
}

/// An owned copy of `o`'s string, or `d`.
fn string_or(o: Option<&String>, d: &str) -> (r: String)
    ensures
        r@ == match o {
            Some(s) => s@,
            None => d@,
        },
{
    match o {
        Some(s) => copy_str(s.as_str()),
        None => copy_str(d),
    }
}

/// An owned copy of `o`'s string, or the empty string.
fn string_or_empty(o: Option<&String>) -> (r: String)
    ensures
        r@ == or_else(
            match o {
                Some(s) => Some(s@),
                None => None,
            },
            seq![],
        ),
{
    match o {
        Some(s) => copy_str(s.as_str()),
        None => String::new(),
    }
}

/// The `u64` under `key`, or zero.
fn count_or_zero(u: &Json, key: &str) -> (r: u64)
    ensures
        r == match u64_of(get(*u, key@)) {
            Some(n) => n,
            None => 0,
        },
{
    match u64_exec(get_exec(u, key)) {
        Some(n) => n,
        None => 0,
    }
}

/// How `entry` is read.
fn entry_kind_exec(entry: &Json) -> (r: EntryKind)
    ensures
        r == entry_kind(*entry),
{
    let ty = match str_exec(get_exec(entry, "type")) {
        Some(s) => chars_of(s.as_str()),
        None => Vec::new(),
    };
    if is_lit(&ty, "user") {
        EntryKind::User
    } else if is_lit(&ty, "assistant") {
        EntryKind::Assistant
    } else if is_lit(&ty, "system") {
        EntryKind::System
    } else if is_lit(&ty, "progress") {
        EntryKind::Progress
    } else if is_lit(&ty, "file-history-snapshot") || is_lit(&ty, "queue-operation") {
        EntryKind::Ignored
    } else {
        let role = str_exec(field_exec(get_exec(entry, "message"), "role"));
        if str_opt_is(role, "user") {
            EntryKind::User
        } else if str_opt_is(role, "assistant") {
            EntryKind::Assistant
        } else {
            EntryKind::Ignored
        }
    }
}

/// Whether a plain-text prompt can be cleaned without cutting at an impossible position.
fn prompt_ok_exec(text: &str) -> (r: bool)
    ensures
        r == prompt_ok(text@),
{
    let v = chars_of(text);
    if !contains_lit(&v, "<command-name>/exit</command-name>") && !contains_lit(
        &v,
        "<local-command-stdout>",
    ) && contains_lit(&v, "<teammate-message") {
        teammate_ok_exec(text)
    } else {
        true
    }
}

/// Whether `entry` can be read without cutting a teammate message at an impossible
/// position.
pub fn entry_ok_exec(entry: &Json) -> (r: bool)
    ensures
        r == entry_ok(*entry),
{
    match entry_kind_exec(entry) {
        EntryKind::User => {
            if flag_exec(entry, "isMeta") || flag_exec(entry, "isCompactSummary") {
                true
            } else {
                match field_exec(get_exec(entry, "message"), "content") {
                    Some(Json::Str(t)) => prompt_ok_exec(t.as_str()),
                    _ => true,
                }
            }
        },
        _ => true,
    }
}

impl Parser {
    /// A parser that has seen no ids.
    pub fn new() -> (p: Self)
        ensures
            p@.message_ids == Seq::<Seq<char>>::empty(),
            p@.tool_use_ids == Seq::<Seq<char>>::empty(),
    {
        let p = Parser { seen_message_ids: Vec::new(), seen_tool_use_ids: Vec::new() };
        assert(p@.message_ids =~= Seq::<Seq<char>>::empty());
        assert(p@.tool_use_ids =~= Seq::<Seq<char>>::empty());
        p
    }

    /// Parse a single JSONL line into zero or more SessionEvents.
    pub fn parse_line(&mut self, line: &str) -> (events: Vec<SessionEvent>)
        requires
            line_ok(line@),
        ensures
            (events_view(events@), final(self)@) == line_step(old(self)@, line@),
    {
        match parse_json(line) {
            Some(entry) => self.parse_entry(&entry),
            None => {
                let events: Vec<SessionEvent> = Vec::new();
                assert(events_view(events@) =~= Seq::<EventView>::empty());
                events
            },
        }
    }

    /// Parse a line, or say (with `None`, leaving the parser as it was) that it holds a
    /// teammate message whose closing tag comes before the end of its opening tag.
    pub fn parse_line_checked(&mut self, line: &str) -> (r: Option<Vec<SessionEvent>>)
        ensures
            r matches Some(events) ==> line_ok(line@) && (events_view(events@), final(self)@)
                == line_step(old(self)@, line@),
            r is None ==> !line_ok(line@) && final(self)@ == old(self)@,
    {
        let ok = match parse_json(line) {
            Some(entry) => entry_ok_exec(&entry),
            None => true,
        };
        if ok {
            Some(self.parse_line(line))
        } else {
            None
        }
    }

    /// The events of one log entry (a JSON document read from one line).
    pub fn parse_entry(&mut self, entry: &Json) -> (events: Vec<SessionEvent>)
        requires
            entry_ok(*entry),
        ensures
            (events_view(events@), final(self)@) == entry_step(old(self)@, *entry),
    {
        let mut events: Vec<SessionEvent> = Vec::new();
        assert(events_view(events@) =~= Seq::<EventView>::empty());
        match entry_kind_exec(entry) {
            EntryKind::User => {
                Self::parse_user_entry(entry, &mut events);
                assert(events_view(events@) =~= user_events(*entry));
            },
            EntryKind::Assistant => {
                self.parse_assistant_entry(entry, &mut events);
                assert(events_view(events@) =~= assistant_step(old(self)@, *entry).0);
            },
            EntryKind::System => {
                Self::parse_system_entry(entry, &mut events);
                assert(events_view(events@) =~= system_events(*entry));
            },
            EntryKind::Progress => {
                // Progress events are heartbeats indicating a tool is actively running.
                events.push(SessionEvent::ToolProgress);
                assert(events_view(events@) =~= seq![EventView::ToolProgress]);
            },
            EntryKind::Ignored => {},
        }
        events
    }

    fn parse_user_entry(entry: &Json, events: &mut Vec<SessionEvent>)
        requires
            user_ok(*entry),
        ensures
            events_view(final(events)@) == events_view(old(events)@) + user_events(*entry),
    {
        let ghost e0 = events@;
        // Skip meta entries and compact summaries
        if flag_exec(entry, "isMeta") || flag_exec(entry, "isCompactSummary") {
            assert(events_view(e0) + seq![] =~= events_view(e0));
            return;
        }
        match field_exec(get_exec(entry, "message"), "content") {
            Some(Json::Str(t)) => {
                let v = chars_of(t.as_str());
                if contains_lit(&v, "<command-name>/exit</command-name>") {
                    events.push(SessionEvent::SessionEnd);
                    proof {
                        lemma_events_push(e0, SessionEvent::SessionEnd);
                    }
                    assert(events_view(events@) =~= events_view(e0) + seq![EventView::SessionEnd]);
                } else if contains_lit(&v, "<local-command-stdout>") {
                    assert(events_view(e0) + seq![] =~= events_view(e0));
                } else {
                    let cleaned = if contains_lit(&v, "<teammate-message") {
                        clean_teammate_prompt(t.as_str())
                    } else {
                        copy_str(t.as_str())
                    };
                    let ev = SessionEvent::UserPrompt { text: cleaned };
                    events.push(ev);
                    proof {
                        lemma_events_push(e0, ev);
                    }
                    assert(events_view(events@) =~= events_view(e0) + seq![ev@]);
                }
            },
            Some(Json::Array(blocks)) => {
                let mut i: usize = 0;
                assert(blocks@.take(0) =~= Seq::<Json>::empty());
                assert(events_view(e0) + seq![] =~= events_view(e0));
                while i < blocks.len()
                    invariant
                        0 <= i <= blocks@.len(),
                        user_events(*entry) == result_events(blocks@),
                        events_view(events@) == events_view(e0) + result_events(
                            blocks@.take(i as int),
                        ),
                    decreases blocks.len() - i,
                {
                    assert(blocks@.take(i + 1).drop_last() =~= blocks@.take(i as int));
                    assert(blocks@.take(i + 1).last() == blocks@[i as int]);
                    Self::parse_result_block(&blocks[i], events);
                    i += 1;
                }
                assert(blocks@.take(blocks@.len() as int) =~= blocks@);
            },
            _ => {
                assert(events_view(e0) + seq![] =~= events_view(e0));
            },
        }
    }

    fn parse_result_block(b: &Json, events: &mut Vec<SessionEvent>)
        ensures
            events_view(final(events)@) == events_view(old(events)@) + result_block_events(*b),
    {
        let ghost e0 = events@;
        if !str_opt_is(str_exec(get_exec(b, "type")), "tool_result") {
            assert(events_view(e0) + seq![] =~= events_view(e0));
            return;
        }
        let tool_use_id = string_or_empty(str_exec(get_exec(b, "tool_use_id")));
        let is_error = flag_exec(b, "is_error");
        let error_message = if is_error {
            extract_error_content(b)
        } else {
            None
        };
        if !tool_use_id.as_str().is_empty() {
            let ev = SessionEvent::ToolEnd { tool_use_id, is_error, error_message };
            events.push(ev);
            proof {
                lemma_events_push(e0, ev);
            }
            assert(events_view(events@) =~= events_view(e0) + seq![ev@]);
        } else {
            assert(events_view(e0) + seq![] =~= events_view(e0));
        }
    }

    fn parse_assistant_entry(&mut self, entry: &Json, events: &mut Vec<SessionEvent>)
        ensures
            events_view(final(events)@) == events_view(old(events)@) + assistant_step(
                old(self)@,
                *entry,
            ).0,
            final(self)@ == assistant_step(old(self)@, *entry).1,
    {
        let ghost e0 = events@;
        let ghost st0 = self@;
        let message = match get_exec(entry, "message") {
            Some(m) => m,
            None => {
                assert(events_view(e0) + seq![] =~= events_view(e0));
                return;
            },
        };
        // Token usage (only once per message.id)
        let msg_id = string_or_empty(str_exec(get_exec(message, "id")));
        if !msg_id.as_str().is_empty() {
            match get_exec(message, "usage") {
                Some(usage) => {
                    let input = count_or_zero(usage, "input_tokens");
                    let output = count_or_zero(usage, "output_tokens");
                    let cache_read = count_or_zero(usage, "cache_read_input_tokens");
                    let added = insert_id(&mut self.seen_message_ids, &msg_id);
                    if added && (input > 0 || output > 0) {
                        let ev = SessionEvent::TokenUsage {
                            input_tokens: input,
                            output_tokens: output,
                            cache_read_tokens: cache_read,
                        };
                        events.push(ev);
                        proof {
                            lemma_events_push(e0, ev);
                        }
                    }
                },
                None => {},
            }
        }
        let ghost ev1 = usage_step(st0.message_ids, *message).0;
        assert(events_view(events@) =~= events_view(e0) + ev1);
        assert(self@.message_ids == usage_step(st0.message_ids, *message).1);
        assert(self@.tool_use_ids == st0.tool_use_ids);
        let blocks = match array_exec(get_exec(message, "content")) {
            Some(b) => b,
            None => {
                return;
            },
        };
        let ghost e1 = events@;
        let mut i: usize = 0;
        assert(blocks@.take(0) =~= Seq::<Json>::empty());
        assert(events_view(e1) + seq![] =~= events_view(e1));
        while i < blocks.len()
            invariant
                0 <= i <= blocks@.len(),
                self@.message_ids == usage_step(st0.message_ids, *message).1,
                events_view(events@) == events_view(e1) + blocks_step(
                    st0.tool_use_ids,
                    blocks@.take(i as int),
                ).0,
                self@.tool_use_ids == blocks_step(st0.tool_use_ids, blocks@.take(i as int)).1,
            decreases blocks.len() - i,
        {
            assert(blocks@.take(i + 1).drop_last() =~= blocks@.take(i as int));
            assert(blocks@.take(i + 1).last() == blocks@[i as int]);
            let ghost before = events_view(events@);
            self.parse_block(&blocks[i], events);
            assert(events_view(events@) =~= events_view(e1) + blocks_step(
                st0.tool_use_ids,
                blocks@.take(i + 1),
            ).0);
            i += 1;
        }
        assert(blocks@.take(blocks@.len() as int) =~= blocks@);
        assert(events_view(events@) =~= events_view(e0) + assistant_step(st0, *entry).0);
    }

    fn parse_block(&mut self, b: &Json, events: &mut Vec<SessionEvent>)
        ensures
            events_view(final(events)@) == events_view(old(events)@) + block_step(
                old(self)@.tool_use_ids,
                *b,
            ).0,
            final(self)@.tool_use_ids == block_step(old(self)@.tool_use_ids, *b).1,
            final(self)@.message_ids == old(self)@.message_ids,
    {
        let ghost e0 = events@;
        let block_type = match str_exec(get_exec(b, "type")) {
            Some(t) => chars_of(t.as_str()),
            None => {
                assert(events_view(e0) + seq![] =~= events_view(e0));
                return;
            },
        };
        if is_lit(&block_type, "thinking") {
            events.push(SessionEvent::Thinking);
            proof {
                lemma_events_push(e0, SessionEvent::Thinking);
            }
            assert(events_view(events@) =~= events_view(e0) + seq![EventView::Thinking]);
        } else if is_lit(&block_type, "tool_use") {
            let tool_id = string_or_empty(str_exec(get_exec(b, "id")));
            if tool_id.as_str().is_empty() {
                assert(events_view(e0) + seq![] =~= events_view(e0));
                return;
            }
            // Deduplicate streaming tool_use blocks
            if !insert_id(&mut self.seen_tool_use_ids, &tool_id) {
                assert(events_view(e0) + seq![] =~= events_view(e0));
                return;
            }
            let tool_name = string_or(str_exec(get_exec(b, "name")), "unknown");
            let category = ToolCategory::from_tool_name(tool_name.as_str());
            let description = match get_exec(b, "input") {
                Some(input) => extract_tool_description(tool_name.as_str(), input),
                None => extract_tool_description(tool_name.as_str(), &Json::Null),
            };
            let nv = chars_of(tool_name.as_str());
            if is_lit(&nv, "Task") || is_lit(&nv, "TaskCreate") {
                let agent_desc = string_or(
                    str_exec(field_exec(get_exec(b, "input"), "description")),
                    "unnamed agent",
                );
                let spawned = SessionEvent::AgentSpawned {
                    agent_id: tool_id.clone(),
                    description: agent_desc,
                };
                events.push(spawned);
                proof {
                    lemma_events_push(e0, spawned);
                }
            }
            let ghost e1 = events@;
            let start = SessionEvent::ToolStart {
                tool_name,
                tool_use_id: tool_id,
                category,
                description,
            };
            events.push(start);
            proof {
                lemma_events_push(e1, start);
            }
            assert(events_view(events@) =~= events_view(e0) + block_step(
                old(self)@.tool_use_ids,
                *b,
            ).0);
        } else {
            assert(events_view(e0) + seq![] =~= events_view(e0));
        }
    }

    fn parse_system_entry(entry: &Json, events: &mut Vec<SessionEvent>)
        ensures
            events_view(final(events)@) == events_view(old(events)@) + system_events(*entry),
    {
        let ghost e0 = events@;
        let subtype = match str_exec(get_exec(entry, "subtype")) {
            Some(s) => chars_of(s.as_str()),
            None => {
                assert(events_view(e0) + seq![] =~= events_view(e0));
                return;
            },
        };
        if is_lit(&subtype, "turn_duration") {
            match u64_exec(get_exec(entry, "durationMs")) {
                Some(ms) => {
                    let ev = SessionEvent::TurnComplete { duration_ms: ms };
                    events.push(ev);
                    proof {
                        lemma_events_push(e0, ev);
                    }
                    assert(events_view(events@) =~= events_view(e0) + seq![ev@]);
                },
                None => {
                    assert(events_view(e0) + seq![] =~= events_view(e0));
                },
            }
        } else if is_lit(&subtype, "compact_boundary") {
            events.push(SessionEvent::ContextCompaction);
            proof {
                lemma_events_push(e0, SessionEvent::ContextCompaction);
            }
            assert(events_view(events@) =~= events_view(e0) + seq![EventView::ContextCompaction]);
        } else {
            assert(events_view(e0) + seq![] =~= events_view(e0));
        }
    }
}

// ---------------------------------------------------------------------------
// Reading a line again
// ---------------------------------------------------------------------------

/// An event that starts something: a tool, a subagent, or a count of tokens.
pub open spec fn starts_work(e: EventView) -> bool {
    e is ToolStart || e is AgentSpawned || e is TokenUsage
}

/// None of the events starts something.
pub open spec fn quiet(ev: Seq<EventView>) -> bool {
    forall|i: int| 0 <= i < ev.len() ==> !starts_work(#[trigger] ev[i])
}

/// The id of a content block that starts a tool, if it has one.
pub open spec fn tool_use_id_of(b: Json) -> Option<Seq<char>> {
    match str_of(get(b, "type"@)) {
        Some(ty) => if ty == "tool_use"@ {
            let id = or_else(str_of(get(b, "id"@)), seq![]);
            if id.len() > 0 {
                Some(id)
            } else {
                None
            }
        } else {
            None
        },
        None => None,
    }
}

/// The events of tool results start nothing.
proof fn lemma_results_quiet(blocks: Seq<Json>)
    ensures
        quiet(result_events(blocks)),
    decreases blocks.len(),
{
    if blocks.len() > 0 {
        lemma_results_quiet(blocks.drop_last());
        let a = result_events(blocks.drop_last());
        let b = result_block_events(blocks.last());
        assert(quiet(b));
        assert forall|i: int| 0 <= i < (a + b).len() implies !starts_work(#[trigger] (a + b)[i]) by {
            if i < a.len() {
                assert((a + b)[i] == a[i]);
            } else {
                assert((a + b)[i] == b[i - a.len()]);
            }
        }
    }
}

/// Joining quiet event lists gives a quiet list.
proof fn lemma_quiet_add(a: Seq<EventView>, b: Seq<EventView>)
    requires
        quiet(a),
        quiet(b),
    ensures
        quiet(a + b),
{
    assert forall|i: int| 0 <= i < (a + b).len() implies !starts_work(#[trigger] (a + b)[i]) by {
        if i < a.len() {
            assert((a + b)[i] == a[i]);
        } else {
            assert((a + b)[i] == b[i - a.len()]);
        }
    }
}

/// Reading content blocks forgets no tool id and remembers the id of every block that
/// starts a tool.
proof fn lemma_blocks_remember(tools: Seq<Seq<char>>, blocks: Seq<Json>)
    ensures
        forall|x: Seq<char>| tools.contains(x) ==> #[trigger] blocks_step(tools, blocks).1.contains(x),
        forall|j: int| 0 <= j < blocks.len() ==> (#[trigger] tool_use_id_of(blocks[j])
            matches Some(id) ==> blocks_step(tools, blocks).1.contains(id)),
    decreases blocks.len(),
{
    reveal_strlit("tool_use");
    reveal_strlit("thinking");
    assert("tool_use"@[1] != "thinking"@[1]);
    if blocks.len() > 0 {
        let prefix = blocks.drop_last();
        lemma_blocks_remember(tools, prefix);
        let t = blocks_step(tools, prefix).1;
        let t2 = block_step(t, blocks.last()).1;
        assert forall|x: Seq<char>| t.contains(x) implies t2.contains(x) by {
            if t2 != t {
                let k = choose|k: int| 0 <= k < t.len() && t[k] == x;
                assert(t2[k] == x);
            }
        }
        assert forall|j: int| 0 <= j < blocks.len() implies (#[trigger] tool_use_id_of(blocks[j])
            matches Some(id) ==> blocks_step(tools, blocks).1.contains(id)) by {
            if j < prefix.len() {
                assert(blocks[j] == prefix[j]);
            } else {
                match tool_use_id_of(blocks[j]) {
                    Some(id) => {
                        if !t.contains(id) {
                            assert(t2 == t.push(id));
                            assert(t2[t.len() as int] == id);
                        }
                    },
                    None => {},
                }
            }
        }
    }
}

/// Content blocks whose tools are all known start nothing and learn nothing.
proof fn lemma_blocks_known(tools: Seq<Seq<char>>, blocks: Seq<Json>)
    requires
        forall|j: int| 0 <= j < blocks.len() ==> (#[trigger] tool_use_id_of(blocks[j])
            matches Some(id) ==> tools.contains(id)),
    ensures
        quiet(blocks_step(tools, blocks).0),
        blocks_step(tools, blocks).1 == tools,
    decreases blocks.len(),
{
    if blocks.len() > 0 {
        let prefix = blocks.drop_last();
        assert forall|j: int| 0 <= j < prefix.len() implies (#[trigger] tool_use_id_of(prefix[j])
            matches Some(id) ==> tools.contains(id)) by {
            assert(prefix[j] == blocks[j]);
        }
        lemma_blocks_known(tools, prefix);
        let last = blocks.last();
        assert(tool_use_id_of(blocks[blocks.len() - 1]) == tool_use_id_of(last));
        let (ev2, t2) = block_step(tools, last);
        assert(quiet(ev2));
        lemma_quiet_add(blocks_step(tools, prefix).0, ev2);
    }
}

/// Reading a log line a second time starts nothing again: whatever state the parser was
/// in, no tool, subagent or token count comes out of the second reading.
pub proof fn lemma_reread_line_quiet(st: ParserView, line: Seq<char>)
    ensures
        quiet(line_step(line_step(st, line).1, line).0),
{
    match json_of_text(line) {
        Some(entry) => match entry_kind(entry) {
            EntryKind::User => {
                match field(get(entry, "message"@), "content"@) {
                    Some(Json::Array(blocks)) => lemma_results_quiet(blocks@),
                    _ => {},
                }
            },
            EntryKind::Assistant => {
                match get(entry, "message"@) {
                    Some(m) => {
                        let st1 = assistant_step(st, entry).1;
                        let ids0 = usage_step(st.message_ids, m).1;
                        assert(st1.message_ids == ids0);
                        let id = or_else(str_of(get(m, "id"@)), seq![]);
                        if get(m, "usage"@) is Some && id.len() > 0 {
                            if !st.message_ids.contains(id) {
                                assert(ids0 == st.message_ids.push(id));
                                assert(ids0[st.message_ids.len() as int] == id);
                            }
                            assert(ids0.contains(id));
                        }
                        let (ev1, ids1) = usage_step(st1.message_ids, m);
                        assert(quiet(ev1));
                        match array_of(get(m, "content"@)) {
                            Some(blocks) => {
                                lemma_blocks_remember(st.tool_use_ids, blocks);
                                lemma_blocks_known(st1.tool_use_ids, blocks);
                                lemma_quiet_add(ev1, blocks_step(st1.tool_use_ids, blocks).0);
                            },
                            None => {},
                        }
                    },
                    None => {},
                }
            },
            _ => {},
        },
        None => {},
    }
}


/// What is started under a tool id: a tool, or a subagent.
pub enum Started {
    Tool,
    Agent,
}

/// The tool id under which an event starts a tool (or, for `Agent`, spawns a subagent).
pub open spec fn started(k: Started, e: EventView) -> Option<Seq<char>> {
    match (k, e) {
        (Started::Tool, EventView::ToolStart { tool_use_id, .. }) => Some(tool_use_id),
        (Started::Agent, EventView::AgentSpawned { agent_id, .. }) => Some(agent_id),
        _ => None,
    }
}

/// Going from the seen tool ids `before` to `after` while emitting `ev`: no seen id is
/// forgotten, every tool (or subagent) started was not seen before and is seen after,
/// and none is started twice.
pub open spec fn fresh_starts(
    k: Started,
    before: Seq<Seq<char>>,
    ev: Seq<EventView>,
    after: Seq<Seq<char>>,
) -> bool {
    &&& forall|x: Seq<char>| #[trigger] before.contains(x) ==> after.contains(x)
    &&& forall|i: int|
        0 <= i < ev.len() ==> (started(k, #[trigger] ev[i]) matches Some(x) ==> !before.contains(
            x,
        ) && after.contains(x))
    &&& forall|i: int, j: int|
        0 <= i < j < ev.len() ==> (started(k, #[trigger] ev[i]) matches Some(x)
            ==> started(k, #[trigger] ev[j]) != Some(x))
}

/// The events and the parser state after reading `lines` in order.
pub open spec fn lines_step(st: ParserView, lines: Seq<Seq<char>>) -> (Seq<EventView>, ParserView)
    decreases lines.len(),
{
    if lines.len() == 0 {
        (seq![], st)
    } else {
        let (ev, st1) = lines_step(st, lines.drop_last());
        let (ev2, st2) = line_step(st1, lines.last());
        (ev + ev2, st2)
    }
}

/// Events that start nothing, with the seen ids unchanged, start no tool.
proof fn lemma_quiet_fresh(k: Started, tools: Seq<Seq<char>>, ev: Seq<EventView>)
    requires
        quiet(ev),
    ensures
        fresh_starts(k, tools, ev, tools),
{
    assert forall|i: int| 0 <= i < ev.len() implies started(k, #[trigger] ev[i]) is None by {
        assert(!starts_work(ev[i]));
    }
}

/// Two steps that each start tools only once start tools only once together.
proof fn lemma_fresh_chain(
    k: Started,
    a: Seq<Seq<char>>,
    e1: Seq<EventView>,
    b: Seq<Seq<char>>,
    e2: Seq<EventView>,
    c: Seq<Seq<char>>,
)
    requires
        fresh_starts(k, a, e1, b),
        fresh_starts(k, b, e2, c),
    ensures
        fresh_starts(k, a, e1 + e2, c),
{
    let e = e1 + e2;
    assert forall|i: int| 0 <= i < e.len() implies (started(k, #[trigger] e[i]) matches Some(x)
        ==> !a.contains(x) && c.contains(x)) by {
        if i < e1.len() {
            assert(e[i] == e1[i]);
        } else {
            assert(e[i] == e2[i - e1.len()]);
        }
    }
    assert forall|i: int, j: int| 0 <= i < j < e.len() implies (started(k, #[trigger] e[i])
        matches Some(x) ==> started(k, #[trigger] e[j]) != Some(x)) by {
        if j < e1.len() {
            assert(e[i] == e1[i]);
            assert(e[j] == e1[j]);
        } else if i >= e1.len() {
            assert(e[i] == e2[i - e1.len()]);
            assert(e[j] == e2[j - e1.len()]);
        } else {
            assert(e[i] == e1[i]);
            assert(e[j] == e2[j - e1.len()]);
            if let Some(x) = started(k, e1[i]) {
                assert(b.contains(x));
            }
        }
    }
}

/// One content block starts a tool only under an id not seen yet, and then sees it.
proof fn lemma_block_fresh(k: Started, tools: Seq<Seq<char>>, b: Json)
    ensures
        fresh_starts(k, tools, block_step(tools, b).0, block_step(tools, b).1),
{
    let (ev, t) = block_step(tools, b);
    match str_of(get(b, "type"@)) {
        Some(ty) => {
            if ty == "thinking"@ {
                lemma_quiet_fresh(k, tools, ev);
            } else if ty == "tool_use"@ {
                let id = or_else(str_of(get(b, "id"@)), seq![]);
                if id.len() == 0 || tools.contains(id) {
                    lemma_quiet_fresh(k, tools, ev);
                } else {
                    assert(t == tools.push(id));
                    assert(t[tools.len() as int] == id);
                    assert forall|x: Seq<char>| #[trigger] tools.contains(x) implies t.contains(x) by {
                        let k = choose|k: int| 0 <= k < tools.len() && tools[k] == x;
                        assert(t[k] == x);
                    }
                    assert forall|i: int| 0 <= i < ev.len() implies (started(k, #[trigger] ev[i])
                        matches Some(x) ==> !tools.contains(x) && t.contains(x)) by {
                        if let Some(x) = started(k, ev[i]) {
                            assert(x == id);
                        }
                    }
                }
            } else {
                lemma_quiet_fresh(k, tools, ev);
            }
        },
        None => lemma_quiet_fresh(k, tools, ev),
    }
}

/// Content blocks start each tool at most once, and only tools not seen yet.
proof fn lemma_blocks_fresh(k: Started, tools: Seq<Seq<char>>, blocks: Seq<Json>)
    ensures
        fresh_starts(k, tools, blocks_step(tools, blocks).0, blocks_step(tools, blocks).1),
    decreases blocks.len(),
{
    if blocks.len() > 0 {
        let prefix = blocks.drop_last();
        lemma_blocks_fresh(k, tools, prefix);
        let (ev, t) = blocks_step(tools, prefix);
        lemma_block_fresh(k, t, blocks.last());
        lemma_fresh_chain(k, tools, ev, t, block_step(t, blocks.last()).0, block_step(t, blocks.last()).1);
    } else {
        lemma_quiet_fresh(k, tools, seq![]);
    }
}

/// Reading one line starts each tool at most once, and only tools not seen yet.
proof fn lemma_line_fresh(k: Started, st: ParserView, line: Seq<char>)
    ensures
        fresh_starts(k, st.tool_use_ids, line_step(st, line).0, line_step(st, line).1.tool_use_ids),
{
    match json_of_text(line) {
        Some(entry) => match entry_kind(entry) {
            EntryKind::User => {
                match field(get(entry, "message"@), "content"@) {
                    Some(Json::Array(blocks)) => lemma_results_quiet(blocks@),
                    _ => {},
                }
                lemma_quiet_fresh(k, st.tool_use_ids, user_events(entry));
            },
            EntryKind::Assistant => {
                match get(entry, "message"@) {
                    Some(m) => {
                        let (ev1, ids) = usage_step(st.message_ids, m);
                        assert forall|i: int| 0 <= i < ev1.len() implies started(k, 
                            #[trigger] ev1[i],
                        ) is None by {}
                        assert(fresh_starts(k, st.tool_use_ids, ev1, st.tool_use_ids));
                        match array_of(get(m, "content"@)) {
                            Some(blocks) => {
                                lemma_blocks_fresh(k, st.tool_use_ids, blocks);
                                let (ev2, tools) = blocks_step(st.tool_use_ids, blocks);
                                lemma_fresh_chain(k, st.tool_use_ids, ev1, st.tool_use_ids, ev2, tools);
                            },
                            None => {},
                        }
                    },
                    None => lemma_quiet_fresh(k, st.tool_use_ids, seq![]),
                }
            },
            EntryKind::System => lemma_quiet_fresh(k, st.tool_use_ids, system_events(entry)),
            EntryKind::Progress => lemma_quiet_fresh(k, st.tool_use_ids, seq![EventView::ToolProgress]),
            EntryKind::Ignored => lemma_quiet_fresh(k, st.tool_use_ids, seq![]),
        },
        None => lemma_quiet_fresh(k, st.tool_use_ids, seq![]),
    }
}

/// Over the life of a parser, whatever lines it reads: each tool id starts a tool (for
/// `Started::Tool`) and spawns a subagent (for `Started::Agent`) at most once, never
/// under an id the parser had already seen, and no seen id is forgotten.
pub proof fn lemma_tool_starts_once(k: Started, st: ParserView, lines: Seq<Seq<char>>)
    ensures
        fresh_starts(k, st.tool_use_ids, lines_step(st, lines).0, lines_step(st, lines).1.tool_use_ids),
    decreases lines.len(),
{
    if lines.len() > 0 {
        lemma_tool_starts_once(k, st, lines.drop_last());
        let (ev, st1) = lines_step(st, lines.drop_last());
        lemma_line_fresh(k, st1, lines.last());
        let (ev2, st2) = line_step(st1, lines.last());
        lemma_fresh_chain(k, st.tool_use_ids, ev, st1.tool_use_ids, ev2, st2.tool_use_ids);
    } else {
        lemma_quiet_fresh(k, st.tool_use_ids, seq![]);
    }
}

/// How many token counts the events report.
pub open spec fn usage_count(ev: Seq<EventView>) -> nat
    decreases ev.len(),
{
    if ev.len() == 0 {
        0
    } else {
        usage_count(ev.drop_last()) + if ev.last() is TokenUsage {
            1nat
        } else {
            0nat
        }
    }
}

/// Going from the seen message ids `before` to `after` while emitting `ev`: no seen id
/// is forgotten, distinct ids stay distinct, and there are no more token counts than
/// ids learned.
pub open spec fn fresh_usage(before: Seq<Seq<char>>, ev: Seq<EventView>, after: Seq<Seq<char>>) -> bool {
    &&& forall|x: Seq<char>| #[trigger] before.contains(x) ==> after.contains(x)
    &&& (before.no_duplicates() ==> after.no_duplicates())
    &&& before.len() + usage_count(ev) <= after.len()
}

/// Token counts of joined events add up.
proof fn lemma_usage_count_add(a: Seq<EventView>, b: Seq<EventView>)
    ensures
        usage_count(a + b) == usage_count(a) + usage_count(b),
    decreases b.len(),
{
    if b.len() > 0 {
        lemma_usage_count_add(a, b.drop_last());
        assert((a + b).drop_last() =~= a + b.drop_last());
    } else {
        assert(a + b =~= a);
    }
}

/// Events that start nothing report no token count.
proof fn lemma_quiet_no_usage(ev: Seq<EventView>)
    requires
        quiet(ev),
    ensures
        usage_count(ev) == 0,
    decreases ev.len(),
{
    if ev.len() > 0 {
        assert(!starts_work(ev[ev.len() - 1]));
        assert forall|i: int| 0 <= i < ev.drop_last().len() implies !starts_work(#[trigger] ev.drop_last()[i]) by {
            assert(ev.drop_last()[i] == ev[i]);
        }
        lemma_quiet_no_usage(ev.drop_last());
    }
}

/// Two steps that each report token counts only for new ids do so together.
proof fn lemma_usage_chain(
    a: Seq<Seq<char>>,
    e1: Seq<EventView>,
    b: Seq<Seq<char>>,
    e2: Seq<EventView>,
    c: Seq<Seq<char>>,
)
    requires
        fresh_usage(a, e1, b),
        fresh_usage(b, e2, c),
    ensures
        fresh_usage(a, e1 + e2, c),
{
    lemma_usage_count_add(e1, e2);
}

/// Content blocks report no token count.
proof fn lemma_blocks_no_usage(tools: Seq<Seq<char>>, blocks: Seq<Json>)
    ensures
        usage_count(blocks_step(tools, blocks).0) == 0,
    decreases blocks.len(),
{
    reveal_with_fuel(usage_count, 3);
    if blocks.len() > 0 {
        let prefix = blocks.drop_last();
        lemma_blocks_no_usage(tools, prefix);
        let (ev, t) = blocks_step(tools, prefix);
        lemma_usage_count_add(ev, block_step(t, blocks.last()).0);
    }
}

/// Reading one line reports a token count only for a message id not seen yet.
proof fn lemma_line_usage(st: ParserView, line: Seq<char>)
    ensures
        fresh_usage(st.message_ids, line_step(st, line).0, line_step(st, line).1.message_ids),
{
    reveal_with_fuel(usage_count, 2);
    match json_of_text(line) {
        Some(entry) => match entry_kind(entry) {
            EntryKind::User => {
                match field(get(entry, "message"@), "content"@) {
                    Some(Json::Array(blocks)) => lemma_results_quiet(blocks@),
                    _ => {},
                }
                lemma_quiet_no_usage(user_events(entry));
            },
            EntryKind::Assistant => {
                match get(entry, "message"@) {
                    Some(m) => {
                        let ids = st.message_ids;
                        let (ev1, ids2) = usage_step(ids, m);
                        if ids2 != ids {
                            let id = or_else(str_of(get(m, "id"@)), seq![]);
                            assert(ids2 == ids.push(id));
                            assert(!ids.contains(id));
                            assert(ids2[ids.len() as int] == id);
                            assert forall|x: Seq<char>| #[trigger] ids.contains(x) implies ids2.contains(x) by {
                                let k = choose|k: int| 0 <= k < ids.len() && ids[k] == x;
                                assert(ids2[k] == x);
                            }
                            if ids.no_duplicates() {
                                assert forall|a: int, b: int| 0 <= a < ids2.len() && 0 <= b < ids2.len() && a != b
                                    implies ids2[a] != ids2[b] by {
                                    if b == ids.len() {
                                        assert(ids2[a] == ids[a]);
                                    } else if a == ids.len() {
                                        assert(ids2[b] == ids[b]);
                                    }
                                }
                            }
                        }
                        assert(fresh_usage(ids, ev1, ids2));
                        match array_of(get(m, "content"@)) {
                            Some(blocks) => {
                                lemma_blocks_no_usage(st.tool_use_ids, blocks);
                                lemma_usage_count_add(ev1, blocks_step(st.tool_use_ids, blocks).0);
                            },
                            None => {},
                        }
                    },
                    None => {},
                }
            },
            _ => {},
        },
        None => {},
    }
}

/// Over the life of a parser, whatever lines it reads: it reports at most as many token
/// counts as it learns new message ids, and the message ids it has seen are never
/// forgotten and stay distinct.
pub proof fn lemma_token_counts_once(st: ParserView, lines: Seq<Seq<char>>)
    ensures
        fresh_usage(st.message_ids, lines_step(st, lines).0, lines_step(st, lines).1.message_ids),
    decreases lines.len(),
{
    if lines.len() > 0 {
        lemma_token_counts_once(st, lines.drop_last());
        let (ev, st1) = lines_step(st, lines.drop_last());
        lemma_line_usage(st1, lines.last());
        let (ev2, st2) = line_step(st1, lines.last());
        lemma_usage_chain(st.message_ids, ev, st1.message_ids, ev2, st2.message_ids);
    }
}

/// The count a usage field gives: its number, or zero when it is missing.
pub open spec fn token_field(o: Option<Json>) -> u64 {
    match u64_of(o) {
        Some(n) => n,
        None => 0,
    }
}

/// A log line holding an assistant message with a new, non-empty id and a `usage`
/// object with some input or output tokens reports them first: a `TokenUsage` event
/// whose counts are the message's `usage.input_tokens`, `usage.output_tokens` and
/// `usage.cache_read_input_tokens` (zero where a field is missing), and the message id is
/// then seen.
pub proof fn lemma_token_usage_counts(st: ParserView, line: Seq<char>, entry: Json, m: Json, u: Json)
    requires
        json_of_text(line) == Some(entry),
        str_of(get(entry, "type"@)) == Some("assistant"@),
        get(entry, "message"@) == Some(m),
        get(m, "usage"@) == Some(u),
        str_of(get(m, "id"@)) matches Some(id) && id.len() > 0 && !st.message_ids.contains(id),
        token_field(get(u, "input_tokens"@)) > 0 || token_field(get(u, "output_tokens"@)) > 0,
    ensures
        line_step(st, line).0.len() > 0,
        line_step(st, line).0[0] == (EventView::TokenUsage {
            input_tokens: token_field(get(u, "input_tokens"@)),
            output_tokens: token_field(get(u, "output_tokens"@)),
            cache_read_tokens: token_field(get(u, "cache_read_input_tokens"@)),
        }),
        line_step(st, line).1.message_ids.contains(str_of(get(m, "id"@))->0),
{
    reveal_strlit("assistant");
    reveal_strlit("user");
    assert("assistant"@[0] != "user"@[0]);
    assert(entry_kind(entry) is Assistant);
    let id = str_of(get(m, "id"@))->0;
    let (ev1, ids) = usage_step(st.message_ids, m);
    assert(ids == st.message_ids.push(id));
    assert(ids[st.message_ids.len() as int] == id);
    match array_of(get(m, "content"@)) {
        Some(blocks) => {
            let ev2 = blocks_step(st.tool_use_ids, blocks).0;
            assert((ev1 + ev2)[0] == ev1[0]);
        },
        None => {},
    }
}
} // verus!
