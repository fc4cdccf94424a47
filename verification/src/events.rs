//! Events produced by the session-log parser and consumed by the display state machine.
use vstd::prelude::*;
use crate::text::{chars_of, is_lit, starts_with, starts_with_lit};

verus! {

/// The kinds of tool an agent session uses.
#[derive(Debug, Clone, Copy, PartialEq, Eq, Structural, Hash)]
pub enum ToolCategory {
    /// Read, Glob, Grep, ListMcpResourcesTool, ReadMcpResourceTool
    Reading,
    /// Edit, Write, NotebookEdit, MultiEdit
    Writing,
    /// Bash
    Running,
    /// Task, TaskCreate, SendMessage, Team*, EnterWorktree
    Spawning,
    /// WebSearch, WebFetch
    Web,
    /// mcp__* tools
    Mcp,
    /// AskUserQuestion
    Awaiting,
    /// Thinking blocks
    Thinking,
    /// Everything else (EnterPlanMode, Skill, TodoRead, etc.)
    Unknown,
}

/// The category a tool name belongs to.
pub open spec fn category_of(name: Seq<char>) -> ToolCategory {
    if name == "Read"@ || name == "Glob"@ || name == "Grep"@ || name == "ListMcpResourcesTool"@
        || name == "ReadMcpResourceTool"@ || name == "ToolSearch"@ {
        ToolCategory::Reading
    } else if name == "Edit"@ || name == "Write"@ || name == "NotebookEdit"@ || name
        == "MultiEdit"@ {
        ToolCategory::Writing
    } else if name == "Bash"@ {
        ToolCategory::Running
    } else if name == "Task"@ || name == "TaskCreate"@ || name == "TaskUpdate"@ || name
        == "TaskList"@ || name == "TaskGet"@ || name == "TaskOutput"@ || name == "TaskStop"@
        || name == "SendMessage"@ || name == "TeamCreate"@ || name == "TeamDelete"@ || name
        == "EnterWorktree"@ {
        ToolCategory::Spawning
    } else if name == "WebSearch"@ || name == "WebFetch"@ {
        ToolCategory::Web
    } else if name == "AskUserQuestion"@ {
        ToolCategory::Awaiting
    } else if starts_with(name, "mcp__"@) {
        ToolCategory::Mcp
    } else {
        ToolCategory::Unknown
    }
}

impl ToolCategory {
    /// The category of the tool called `name`.
    pub fn from_tool_name(name: &str) -> (r: Self)
        ensures
            r == category_of(name@),
    {
        let v = chars_of(name);
        if is_lit(&v, "Read") || is_lit(&v, "Glob") || is_lit(&v, "Grep") || is_lit(
            &v,
            "ListMcpResourcesTool",
        ) || is_lit(&v, "ReadMcpResourceTool") || is_lit(&v, "ToolSearch") {
            ToolCategory::Reading
        } else if is_lit(&v, "Edit") || is_lit(&v, "Write") || is_lit(&v, "NotebookEdit")
            || is_lit(&v, "MultiEdit") {
            ToolCategory::Writing
        } else if is_lit(&v, "Bash") {
            ToolCategory::Running
        } else if is_lit(&v, "Task") || is_lit(&v, "TaskCreate") || is_lit(&v, "TaskUpdate")
            || is_lit(&v, "TaskList") || is_lit(&v, "TaskGet") || is_lit(&v, "TaskOutput")
            || is_lit(&v, "TaskStop") || is_lit(&v, "SendMessage") || is_lit(&v, "TeamCreate")
            || is_lit(&v, "TeamDelete") || is_lit(&v, "EnterWorktree") {
            ToolCategory::Spawning
        } else if is_lit(&v, "WebSearch") || is_lit(&v, "WebFetch") {
            ToolCategory::Web
        } else if is_lit(&v, "AskUserQuestion") {
            ToolCategory::Awaiting
        } else if starts_with_lit(&v, "mcp__") {
            ToolCategory::Mcp
        } else {
            ToolCategory::Unknown
        }
    }
}

/// Identifies where an event originated: the main session file or a subagent file.
#[derive(Debug, Clone, PartialEq, Eq)]
pub enum EventSource {
    /// Event from the main session JSONL file.
    Main,
    /// Event from a subagent JSONL file.
    SubAgent { agent_id: String },
}

/// The mathematical form of an `EventSource`.
pub enum EventSourceView {
    Main,
    SubAgent { agent_id: Seq<char> },
}

impl View for EventSource {
    type V = EventSourceView;

    open spec fn view(&self) -> EventSourceView {
        match self {
            EventSource::Main => EventSourceView::Main,
            EventSource::SubAgent { agent_id } => EventSourceView::SubAgent { agent_id: agent_id@ },
        }
    }
}

/// A SessionEvent tagged with the session it belongs to and its source.
#[derive(Debug, Clone)]
pub struct TaggedEvent {
    pub session_id: String,
    pub event: SessionEvent,
    pub source: EventSource,
}

/// The mathematical form of a `TaggedEvent`.
pub struct TaggedView {
    pub session_id: Seq<char>,
    pub event: EventView,
    pub source: EventSourceView,
}

impl View for TaggedEvent {
    type V = TaggedView;

    open spec fn view(&self) -> TaggedView {
        TaggedView { session_id: self.session_id@, event: self.event@, source: self.source@ }
    }
}

/// Events produced by the JSONL watcher, consumed by the UI state machine.
#[derive(Debug, Clone)]
pub enum SessionEvent {
    /// A new session was detected.
    SessionStart { session_id: String, project: String, timestamp: String },
    /// The user typed a prompt.
    UserPrompt { text: String },
    /// A tool invocation started.
    ToolStart {
        tool_name: String,
        tool_use_id: String,
        category: ToolCategory,
        description: String,
    },
    /// A tool invocation completed.
    ToolEnd { tool_use_id: String, is_error: bool, error_message: Option<String> },
    /// A subagent was spawned (Task tool).
    AgentSpawned { agent_id: String, description: String },
    /// Context compaction occurred.
    ContextCompaction,
    /// A turn completed with duration info.
    TurnComplete { duration_ms: u64 },
    /// Token usage update.
    TokenUsage { input_tokens: u64, output_tokens: u64, cache_read_tokens: u64 },
    /// The assistant is thinking.
    Thinking,
    /// Session ended (no more activity).
    SessionEnd,
    /// A progress heartbeat (tool is actively running).
    ToolProgress,
}

/// The mathematical form of a `SessionEvent`: strings become character sequences.
pub enum EventView {
    SessionStart { session_id: Seq<char>, project: Seq<char>, timestamp: Seq<char> },
    UserPrompt { text: Seq<char> },
    ToolStart {
        tool_name: Seq<char>,
        tool_use_id: Seq<char>,
        category: ToolCategory,
        description: Seq<char>,
    },
    ToolEnd { tool_use_id: Seq<char>, is_error: bool, error_message: Option<Seq<char>> },
    AgentSpawned { agent_id: Seq<char>, description: Seq<char> },
    ContextCompaction,
    TurnComplete { duration_ms: u64 },
    TokenUsage { input_tokens: u64, output_tokens: u64, cache_read_tokens: u64 },
    Thinking,
    SessionEnd,
    ToolProgress,
}

/// The view of an optional string.
pub open spec fn opt_view(o: Option<String>) -> Option<Seq<char>> {
    match o {
        Some(s) => Some(s@),
        None => None,
    }
}

impl View for SessionEvent {
    type V = EventView;

    open spec fn view(&self) -> EventView {
        match self {
            SessionEvent::SessionStart { session_id, project, timestamp } => EventView::SessionStart {
                session_id: session_id@,
                project: project@,
                timestamp: timestamp@,
            },
            SessionEvent::UserPrompt { text } => EventView::UserPrompt { text: text@ },
            SessionEvent::ToolStart { tool_name, tool_use_id, category, description } =>
                EventView::ToolStart {
                tool_name: tool_name@,
                tool_use_id: tool_use_id@,
                category: *category,
                description: description@,
            },
            SessionEvent::ToolEnd { tool_use_id, is_error, error_message } => EventView::ToolEnd {
                tool_use_id: tool_use_id@,
                is_error: *is_error,
                error_message: opt_view(*error_message),
            },
            SessionEvent::AgentSpawned { agent_id, description } => EventView::AgentSpawned {
                agent_id: agent_id@,
                description: description@,
            },
            SessionEvent::ContextCompaction => EventView::ContextCompaction,
            SessionEvent::TurnComplete { duration_ms } => EventView::TurnComplete {
                duration_ms: *duration_ms,
            },
            SessionEvent::TokenUsage { input_tokens, output_tokens, cache_read_tokens } =>
                EventView::TokenUsage {
                input_tokens: *input_tokens,
                output_tokens: *output_tokens,
                cache_read_tokens: *cache_read_tokens,
            },
            SessionEvent::Thinking => EventView::Thinking,
            SessionEvent::SessionEnd => EventView::SessionEnd,
            SessionEvent::ToolProgress => EventView::ToolProgress,
        }
    }
}

/// The views of a sequence of events.
pub open spec fn events_view(v: Seq<SessionEvent>) -> Seq<EventView> {
    v.map_values(|e: SessionEvent| e@)
}

/// Appending an event appends its view.
pub proof fn lemma_events_push(v: Seq<SessionEvent>, e: SessionEvent)
    ensures
        events_view(v.push(e)) == events_view(v).push(e@),
{
    assert(events_view(v.push(e)) =~= events_view(v).push(e@));
}

} // verus!
