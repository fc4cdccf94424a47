//! A fixed set of sessions and activity logs that shows the display without a live agent.
use vstd::prelude::*;
use crate::events::ToolCategory;
use crate::session::{
    widget_wf, ActiveTool, ActivityEntry, ClaudeWidget, EntryView, Session, SessionKind,
    SessionView, SubAgentView, ToolView, WidgetView, tool_opt_view,
};
use crate::text::copy_str;

verus! {

/// A log entry of the demo.
fn entry(
    timestamp: &str,
    tool: &str,
    summary: &str,
    detail: &str,
    is_error: bool,
    category: ToolCategory,
) -> (e: ActivityEntry)
    ensures
        e@ == (EntryView {
            timestamp: timestamp@,
            tool: tool@,
            summary: summary@,
            detail: detail@,
            is_error,
            category,
        }),
{
    ActivityEntry {
        timestamp: copy_str(timestamp),
        tool: copy_str(tool),
        summary: copy_str(summary),
        detail: copy_str(detail),
        is_error,
        category,
    }
}

/// A running tool of the demo.
fn tool(tool_name: &str, tool_use_id: &str, category: ToolCategory, description: &str) -> (t: ActiveTool)
    ensures
        t@ == (ToolView {
            tool_name: tool_name@,
            tool_use_id: tool_use_id@,
            category,
            description: description@,
        }),
{
    ActiveTool {
        tool_name: copy_str(tool_name),
        tool_use_id: copy_str(tool_use_id),
        category,
        description: copy_str(description),
    }
}

/// A demo session, never exited, with no subagents and no event time.
fn session(
    session_id: &str,
    project_slug: &str,
    active: bool,
    kind: SessionKind,
    current_tool: Option<ActiveTool>,
    activity: &str,
) -> (s: Session)
    ensures
        s@.session_id == session_id@,
        s@.project_slug == project_slug@,
        s@.active == active,
        s@.kind == kind,
        s@.current_tool == tool_opt_view(current_tool),
        s@.activity == activity@,
        s@.exited_at is None,
        !s@.archived,
        s@.last_event_time is None,
        !s@.needs_attention,
        s@.subagents == Seq::<SubAgentView>::empty(),
{
    let s = Session {
        session_id: copy_str(session_id),
        project_slug: copy_str(project_slug),
        active,
        kind,
        current_tool,
        activity: copy_str(activity),
        exited_at: None,
        archived: false,
        last_event_time: None,
        needs_attention: false,
        subagents: Vec::new(),
    };
    assert(s@.subagents =~= Seq::<SubAgentView>::empty());
    s
}

/// The demo sessions and logs as plain values.
#[verifier::opaque]
pub open spec fn demo_widget_view() -> WidgetView {
    WidgetView {
        sessions: seq![
            SessionView {
                session_id: "demo-0000-0000-0000-000000000001"@,
                project_slug: "my-repo-1"@,
                active: true,
                kind: SessionKind::Terminal,
                current_tool: Some(ToolView { tool_name: "Bash"@, tool_use_id: "demo_bash_1"@, category: ToolCategory::Running, description: "git log --oneline | grep '^fix' => /tmp/out"@ }),
                activity: "Bash(git log --oneline | grep '^fix' => /tmp/out)"@,
                exited_at: None,
                archived: false,
                last_event_time: None,
                needs_attention: false,
                subagents: Seq::empty(),
            },
            SessionView {
                session_id: "demo-0000-0000-0000-000000000002"@,
                project_slug: "my-repo-2"@,
                active: true,
                kind: SessionKind::Code,
                current_tool: Some(ToolView { tool_name: "Write"@, tool_use_id: "demo_write_1"@, category: ToolCategory::Writing, description: "items.filter(x => x != null && x.id >= 0 || x.flag === true)"@ }),
                activity: "Write(items.filter(x => x != null && x.id >= 0 || x.flag === true))"@,
                exited_at: None,
                archived: false,
                last_event_time: None,
                needs_attention: false,
                subagents: Seq::empty(),
            },
            SessionView {
                session_id: "demo-0000-0000-0000-000000000003"@,
                project_slug: "my-repo-3"@,
                active: false,
                kind: SessionKind::Markdown,
                current_tool: None,
                activity: "Write(../appointment-view/README.md)"@,
                exited_at: None,
                archived: false,
                last_event_time: None,
                needs_attention: false,
                subagents: Seq::empty(),
            },
            SessionView {
                session_id: "demo-0000-0000-0000-000000000004"@,
                project_slug: "my-repo-4"@,
                active: true,
                kind: SessionKind::Code,
                current_tool: Some(ToolView { tool_name: "Edit"@, tool_use_id: "demo_edit_1"@, category: ToolCategory::Writing, description: "fn run() -> Result<(), Error> { let val <= 0xff; www ==> ok }"@ }),
                activity: "Edit(fn run() -> Result<(), Error> { let val <= 0xff; www ==> ok })"@,
                exited_at: None,
                archived: false,
                last_event_time: None,
                needs_attention: false,
                subagents: Seq::empty(),
            },
        ],
        logs: seq![
            seq![
                EntryView { timestamp: "14:30:01"@, tool: "Bash"@, summary: "git log --oneline | head -20"@, detail: "a1b2c3d fix: handle nil pointer in event handler\ne4f5g6h feat: add retry logic for API calls\ni7j8k9l refactor: extract validation into separate fn"@, is_error: false, category: ToolCategory::Running },
                EntryView { timestamp: "14:30:08"@, tool: "Read"@, summary: "main.go (lines 1-85)"@, detail: "Read 85 lines from main.go\nEntry point sets up HTTP server on :8080\nUses handler package for route registration"@, is_error: false, category: ToolCategory::Reading },
                EntryView { timestamp: "14:30:15"@, tool: "Read"@, summary: "handler/event.go (lines 1-120)"@, detail: "Read 120 lines from handler/event.go\nFound handleRequest function at line 42\nIdentified potential nil dereference at line 87"@, is_error: false, category: ToolCategory::Reading },
                EntryView { timestamp: "14:30:22"@, tool: "Grep"@, summary: "\"handleRequest\" across codebase"@, detail: "handler/event.go:42:  func handleRequest(e *Event) (*Result, error) {\nhandler/event_test.go:23:  result, err := handleRequest(testEvent)\nhandler/queue.go:67:    res, err := handleRequest(evt)"@, is_error: false, category: ToolCategory::Reading },
                EntryView { timestamp: "14:30:35"@, tool: "Bash"@, summary: "go test ./handler/... (FAIL)"@, detail: "--- FAIL: TestHandleRequest_Nil (0.00s)\npanic: runtime error: invalid memory address or nil pointer dereference\n[signal SIGSEGV: segmentation violation]"@, is_error: true, category: ToolCategory::Running },
                EntryView { timestamp: "14:30:50"@, tool: "Edit"@, summary: "add nil guard in middleware"@, detail: "handler/middleware.go:31\n+ if req == nil {\n+     http.Error(w, \"nil request\", http.StatusBadRequest)\n+     return\n+ }"@, is_error: false, category: ToolCategory::Writing },
                EntryView { timestamp: "14:31:12"@, tool: "Edit"@, summary: "fix nil pointer in handleRequest"@, detail: "handler/event.go:80-81\n+ if e == nil {\n+     return nil, fmt.Errorf(\"handleRequest: nil event\")\n+ }"@, is_error: false, category: ToolCategory::Writing },
                EntryView { timestamp: "14:31:18"@, tool: "Bash"@, summary: "go test ./handler/... (PASS)"@, detail: "ok\tgithub.com/example/my-repo-1/handler\t0.028s"@, is_error: false, category: ToolCategory::Running },
                EntryView { timestamp: "14:31:42"@, tool: "Bash"@, summary: "golangci-lint run ./..."@, detail: "handler/queue.go:45:12: error return value not checked (errcheck)\n\tconn.Close()\nFound 1 issue(s)"@, is_error: false, category: ToolCategory::Running },
                EntryView { timestamp: "14:31:48"@, tool: "Edit"@, summary: "fix errcheck lint: defer conn.Close()"@, detail: "handler/queue.go:45\n- conn.Close()\n+ if err := conn.Close(); err != nil {\n+     logger.Warn(\"failed to close conn\", \"err\", err)\n+ }"@, is_error: false, category: ToolCategory::Writing },
                EntryView { timestamp: "14:31:55"@, tool: "Bash"@, summary: "go test -race ./..."@, detail: "ok\tgithub.com/example/my-repo-1/handler\t0.031s\nok\tgithub.com/example/my-repo-1/queue\t0.045s\nok\tgithub.com/example/my-repo-1/server\t0.022s"@, is_error: false, category: ToolCategory::Running },
                EntryView { timestamp: "14:32:08"@, tool: "Bash"@, summary: "git diff --stat"@, detail: " handler/event.go      | 5 ++++-\n handler/middleware.go  | 4 ++++\n handler/queue.go      | 4 +++-\n handler/response.go   | 2 +-\n 4 files changed, 12 insertions(+), 3 deletions(-)"@, is_error: false, category: ToolCategory::Running },
                EntryView { timestamp: "14:33:55"@, tool: "Bash"@, summary: "\u{f071} BLOCKED: rm -rf /* (guardrail)"@, detail: "\u{2718} Command rejected by safety guardrail\n\nAttempted: rm -rf /tmp/build/../../../*\nResolved path: rm -rf /*\n\nReason: path traversal detected \u{2014} resolved target\nis outside allowed working directory."@, is_error: true, category: ToolCategory::Running },
                EntryView { timestamp: "14:33:57"@, tool: "Bash"@, summary: "rm -rf ./build/output (safe cleanup)"@, detail: "# removed build artifacts safely\n# 12 files deleted, 3 directories removed"@, is_error: false, category: ToolCategory::Running },
                EntryView { timestamp: "14:34:42"@, tool: "Bash"@, summary: "git commit -m 'fix: nil pointer + integration tests'"@, detail: "[main a1b2c3d] fix: nil pointer + integration tests\n 7 files changed, 46 insertions(+), 5 deletions(-)"@, is_error: false, category: ToolCategory::Running },
            ],
            seq![
                EntryView { timestamp: "14:28:01"@, tool: "Read"@, summary: "src/components/ItemList.tsx"@, detail: "Read 85 lines from ItemList.tsx\nComponent renders unfiltered items array directly\nNo null checks on item properties"@, is_error: false, category: ToolCategory::Reading },
                EntryView { timestamp: "14:28:22"@, tool: "Grep"@, summary: "\"ItemList\" usage across src/"@, detail: "src/components/ItemList.tsx:8:  export const ItemList: FC<Props>\nsrc/pages/Dashboard.tsx:5:  import { ItemList } from '../components'\nsrc/pages/Search.tsx:7:  import { ItemList } from '../components'"@, is_error: false, category: ToolCategory::Reading },
                EntryView { timestamp: "14:28:45"@, tool: "Edit"@, summary: "add null-safe filter in useItems hook"@, detail: "src/hooks/useItems.ts:22\n- return { data: response.data, isLoading, error };\n+ const safeItems = (response.data ?? []).filter(\n+   (item): item is Item => item != null && item.id != null\n+ );\n+ return { data: safeItems, isLoading, error };"@, is_error: false, category: ToolCategory::Writing },
                EntryView { timestamp: "14:28:52"@, tool: "Write"@, summary: "src/components/ItemFilter.tsx (new)"@, detail: "Created new component ItemFilter (45 lines)\nProps: { categories: string[]; selected: string; onChange }"@, is_error: false, category: ToolCategory::Writing },
                EntryView { timestamp: "14:29:00"@, tool: "Edit"@, summary: "update Dashboard to use ItemFilter"@, detail: "src/pages/Dashboard.tsx:5\n- import { ItemList } from '../components'\n+ import { ItemList, ItemFilter } from '../components'"@, is_error: false, category: ToolCategory::Writing },
                EntryView { timestamp: "14:29:15"@, tool: "Bash"@, summary: "npx tsc --noEmit"@, detail: "src/components/ItemFilter.tsx(12,5): error TS2322:\nType 'string | undefined' is not assignable to type 'string'."@, is_error: true, category: ToolCategory::Running },
                EntryView { timestamp: "14:29:22"@, tool: "Edit"@, summary: "fix type error in ItemFilter onChange"@, detail: "src/components/ItemFilter.tsx:12\n- onChange={(e) => onChange(e.target.value)}\n+ onChange={(e) => onChange(e.target.value ?? '')}"@, is_error: false, category: ToolCategory::Writing },
                EntryView { timestamp: "14:29:30"@, tool: "Bash"@, summary: "npx tsc --noEmit (OK)"@, detail: "# no type errors"@, is_error: false, category: ToolCategory::Running },
                EntryView { timestamp: "14:29:52"@, tool: "Bash"@, summary: "npm test -- --watchAll=false (PASS)"@, detail: "PASS  src/components/ItemList.test.tsx\nPASS  src/hooks/useItems.test.ts\nPASS  src/pages/Dashboard.test.tsx\n\nTest Suites: 3 passed, 3 total\nTests:       5 passed, 5 total"@, is_error: false, category: ToolCategory::Running },
                EntryView { timestamp: "14:29:58"@, tool: "Bash"@, summary: "\u{f071} BLOCKED: rm -rf node_modules/ dist/"@, detail: "\u{2718} Command rejected by safety guardrail\n\nAttempted: rm -rf node_modules/ dist/ .next/\n\nReason: bulk recursive deletion of multiple\ndirectories requires explicit user approval."@, is_error: true, category: ToolCategory::Running },
            ],
            seq![
                EntryView { timestamp: "14:25:01"@, tool: "Read"@, summary: "README.md"@, detail: "Read 45 lines from README.md\nTitle: Appointment View Service\nReferences deprecated /v1/appointments endpoint"@, is_error: false, category: ToolCategory::Reading },
                EntryView { timestamp: "14:25:08"@, tool: "Read"@, summary: "docs/api.md"@, detail: "Read 120 lines from docs/api.md\nDocuments 8 REST endpoints\nAll use /v1/ prefix \u{2014} should be /v2/"@, is_error: false, category: ToolCategory::Reading },
                EntryView { timestamp: "14:25:22"@, tool: "Grep"@, summary: "\"/v1/\" across docs/"@, detail: "docs/api.md:12:  POST /v1/appointments\ndocs/api.md:28:  GET  /v1/appointments/:id\nREADME.md:18:  curl http://localhost:3000/v1/appointments"@, is_error: false, category: ToolCategory::Reading },
                EntryView { timestamp: "14:25:30"@, tool: "Write"@, summary: "README.md (full rewrite)"@, detail: "appointment-view/README.md (full rewrite, 62 lines)\n- Updated title and description\n- Fixed badge URLs to new CI\n- Updated endpoint from /v1/ to /v2/"@, is_error: false, category: ToolCategory::Writing },
                EntryView { timestamp: "14:25:42"@, tool: "Write"@, summary: "docs/api.md (update all endpoints)"@, detail: "docs/api.md (rewrite, 145 lines)\n- Updated all 8 endpoints from /v1/ to /v2/\n- Added rate limiting section"@, is_error: false, category: ToolCategory::Writing },
                EntryView { timestamp: "14:26:25"@, tool: "Bash"@, summary: "npx markdownlint docs/ README.md"@, detail: "docs/api.md:45 MD009 Trailing spaces\nFound 4 issues in 3 files"@, is_error: false, category: ToolCategory::Running },
                EntryView { timestamp: "14:26:32"@, tool: "Edit"@, summary: "fix markdownlint warnings"@, detail: "docs/api.md: removed trailing spaces at lines 45, 88\nREADME.md: removed trailing space at line 38"@, is_error: false, category: ToolCategory::Writing },
                EntryView { timestamp: "14:26:38"@, tool: "Bash"@, summary: "npx markdownlint docs/ README.md (PASS)"@, detail: "# no issues found"@, is_error: false, category: ToolCategory::Running },
            ],
            seq![
                EntryView { timestamp: "14:33:01"@, tool: "Read"@, summary: "src/lib.rs (lines 1-200)"@, detail: "Read 200 lines from lib.rs\nPublic API: run(), Config, Pipeline\nrun() declared as Result<(), Error> but line 68 returns String"@, is_error: false, category: ToolCategory::Reading },
                EntryView { timestamp: "14:33:15"@, tool: "Grep"@, summary: "\"process_data\" across src/"@, detail: "src/lib.rs:112:  fn process_data(&mut self) -> Result<(), Error> {\nsrc/pipeline.rs:34: pub fn process_data(&mut self, input: &[u8]) -> Vec<u8>"@, is_error: false, category: ToolCategory::Reading },
                EntryView { timestamp: "14:33:30"@, tool: "Bash"@, summary: "cargo check"@, detail: "error[E0308]: mismatched types\n  --> src/lib.rs:68:16\nerror[E0502]: cannot borrow `*self` as mutable\n  --> src/lib.rs:115:9\nerror: aborting due to 2 previous errors"@, is_error: true, category: ToolCategory::Running },
                EntryView { timestamp: "14:33:38"@, tool: "Edit"@, summary: "fix return type: use Box<dyn Error>"@, detail: "src/lib.rs:12\n- pub fn run(config: Config) -> Result<(), Error> {\n+ pub fn run(config: Config) -> Result<(), Box<dyn std::error::Error>> {"@, is_error: false, category: ToolCategory::Writing },
                EntryView { timestamp: "14:33:52"@, tool: "Edit"@, summary: "fix borrow checker: clone buffer"@, detail: "src/lib.rs:114-115\n- let data = &self.buffer;\n- self.transform(data);\n+ let data = self.buffer.clone();\n+ self.transform(&data);"@, is_error: false, category: ToolCategory::Writing },
                EntryView { timestamp: "14:33:58"@, tool: "Bash"@, summary: "cargo check (OK)"@, detail: "    Checking my-repo-4 v0.1.0\n    Finished dev [unoptimized + debuginfo] in 1.42s"@, is_error: false, category: ToolCategory::Running },
                EntryView { timestamp: "14:34:12"@, tool: "Bash"@, summary: "cargo test"@, detail: "running 8 tests\ntest tests::test_error_propagation ... FAILED\ntest result: FAILED. 7 passed; 1 failed"@, is_error: true, category: ToolCategory::Running },
                EntryView { timestamp: "14:34:20"@, tool: "Edit"@, summary: "fix test assertion for new error type"@, detail: "tests/unit.rs:48\n- assert!(matches!(result, Err(Error::Config(_))));\n+ assert!(result.is_err());\n+ assert!(result.unwrap_err().to_string().contains(\"invalid config\"));"@, is_error: false, category: ToolCategory::Writing },
                EntryView { timestamp: "14:34:28"@, tool: "Bash"@, summary: "cargo test (PASS)"@, detail: "running 8 tests\ntest result: ok. 8 passed; 0 failed"@, is_error: false, category: ToolCategory::Running },
                EntryView { timestamp: "14:34:42"@, tool: "Edit"@, summary: "optimize: reuse buffers with double-buffer swap"@, detail: "src/pipeline.rs:34-40 \u{2014} replaced per-stage allocation with double-buffer swap\n~22% improvement on 1MB benchmark"@, is_error: false, category: ToolCategory::Writing },
                EntryView { timestamp: "14:35:10"@, tool: "Bash"@, summary: "\u{f071} BLOCKED: git push --force origin main"@, detail: "\u{2718} Command rejected by safety guardrail\n\nAttempted: git push --force origin main\n\nReason: force-pushing to main/master is unconditionally blocked."@, is_error: true, category: ToolCategory::Running },
                EntryView { timestamp: "14:35:14"@, tool: "Bash"@, summary: "git push origin main"@, detail: "Enumerating objects: 12, done.\nTo github.com:example/my-repo-4.git\n   b4c5d6e..f7g8h9i  main -> main"@, is_error: false, category: ToolCategory::Running },
            ],
        ],
        spinner_frame: 0,
    }
}

/// The demo sessions: four simulated sessions with their activity logs.
pub fn create_demo_widget() -> (w: ClaudeWidget)
    ensures
        w@ == demo_widget_view(),
        widget_wf(w@),
        w@.spinner_frame == 0,
        w@.sessions.len() == 4,
        w@.sessions[0].session_id == "demo-0000-0000-0000-000000000001"@,
        w@.sessions[0].project_slug == "my-repo-1"@,
        w@.sessions[0].kind == SessionKind::Terminal,
        w@.sessions[0].active == true,
        w@.sessions[1].session_id == "demo-0000-0000-0000-000000000002"@,
        w@.sessions[1].project_slug == "my-repo-2"@,
        w@.sessions[1].kind == SessionKind::Code,
        w@.sessions[1].active == true,
        w@.sessions[2].session_id == "demo-0000-0000-0000-000000000003"@,
        w@.sessions[2].project_slug == "my-repo-3"@,
        w@.sessions[2].kind == SessionKind::Markdown,
        w@.sessions[2].active == false,
        w@.sessions[3].session_id == "demo-0000-0000-0000-000000000004"@,
        w@.sessions[3].project_slug == "my-repo-4"@,
        w@.sessions[3].kind == SessionKind::Code,
        w@.sessions[3].active == true,
        w@.logs[0].len() == 15,
        w@.logs[1].len() == 10,
        w@.logs[2].len() == 8,
        w@.logs[3].len() == 12,
{
    let mut sessions: Vec<Session> = Vec::new();
    sessions.push(session(
        "demo-0000-0000-0000-000000000001",
        "my-repo-1",
        true,
        SessionKind::Terminal,
        Some(tool("Bash", "demo_bash_1", ToolCategory::Running, "git log --oneline | grep '^fix' => /tmp/out")),
        "Bash(git log --oneline | grep '^fix' => /tmp/out)",
    ));
    sessions.push(session(
        "demo-0000-0000-0000-000000000002",
        "my-repo-2",
        true,
        SessionKind::Code,
        Some(tool("Write", "demo_write_1", ToolCategory::Writing, "items.filter(x => x != null && x.id >= 0 || x.flag === true)")),
        "Write(items.filter(x => x != null && x.id >= 0 || x.flag === true))",
    ));
    sessions.push(session(
        "demo-0000-0000-0000-000000000003",
        "my-repo-3",
        false,
        SessionKind::Markdown,
        None,
        "Write(../appointment-view/README.md)",
    ));
    sessions.push(session(
        "demo-0000-0000-0000-000000000004",
        "my-repo-4",
        true,
        SessionKind::Code,
        Some(tool("Edit", "demo_edit_1", ToolCategory::Writing, "fn run() -> Result<(), Error> { let val <= 0xff; www ==> ok }")),
        "Edit(fn run() -> Result<(), Error> { let val <= 0xff; www ==> ok })",
    ));
    let mut activity_logs: Vec<Vec<ActivityEntry>> = Vec::new();
    let mut log: Vec<ActivityEntry> = Vec::new();
    log.push(entry(
        "14:30:01",
        "Bash",
        "git log --oneline | head -20",
        "a1b2c3d fix: handle nil pointer in event handler\ne4f5g6h feat: add retry logic for API calls\ni7j8k9l refactor: extract validation into separate fn",
        false,
        ToolCategory::Running,
    ));
    log.push(entry(
        "14:30:08",
        "Read",
        "main.go (lines 1-85)",
        "Read 85 lines from main.go\nEntry point sets up HTTP server on :8080\nUses handler package for route registration",
        false,
        ToolCategory::Reading,
    ));
    log.push(entry(
        "14:30:15",
        "Read",
        "handler/event.go (lines 1-120)",
        "Read 120 lines from handler/event.go\nFound handleRequest function at line 42\nIdentified potential nil dereference at line 87",
        false,
        ToolCategory::Reading,
    ));
    log.push(entry(
        "14:30:22",
        "Grep",
        "\"handleRequest\" across codebase",
        "handler/event.go:42:  func handleRequest(e *Event) (*Result, error) {\nhandler/event_test.go:23:  result, err := handleRequest(testEvent)\nhandler/queue.go:67:    res, err := handleRequest(evt)",
        false,
        ToolCategory::Reading,
    ));
    log.push(entry(
        "14:30:35",
        "Bash",
        "go test ./handler/... (FAIL)",
        "--- FAIL: TestHandleRequest_Nil (0.00s)\npanic: runtime error: invalid memory address or nil pointer dereference\n[signal SIGSEGV: segmentation violation]",
        true,
        ToolCategory::Running,
    ));
    log.push(entry(
        "14:30:50",
        "Edit",
        "add nil guard in middleware",
        "handler/middleware.go:31\n+ if req == nil {\n+     http.Error(w, \"nil request\", http.StatusBadRequest)\n+     return\n+ }",
        false,
        ToolCategory::Writing,
    ));
    log.push(entry(
        "14:31:12",
        "Edit",
        "fix nil pointer in handleRequest",
        "handler/event.go:80-81\n+ if e == nil {\n+     return nil, fmt.Errorf(\"handleRequest: nil event\")\n+ }",
        false,
        ToolCategory::Writing,
    ));
    log.push(entry(
        "14:31:18",
        "Bash",
        "go test ./handler/... (PASS)",
        "ok\tgithub.com/example/my-repo-1/handler\t0.028s",
        false,
        ToolCategory::Running,
    ));
    log.push(entry(
        "14:31:42",
        "Bash",
        "golangci-lint run ./...",
        "handler/queue.go:45:12: error return value not checked (errcheck)\n\tconn.Close()\nFound 1 issue(s)",
        false,
        ToolCategory::Running,
    ));
    log.push(entry(
        "14:31:48",
        "Edit",
        "fix errcheck lint: defer conn.Close()",
        "handler/queue.go:45\n- conn.Close()\n+ if err := conn.Close(); err != nil {\n+     logger.Warn(\"failed to close conn\", \"err\", err)\n+ }",
        false,
        ToolCategory::Writing,
    ));
    log.push(entry(
        "14:31:55",
        "Bash",
        "go test -race ./...",
        "ok\tgithub.com/example/my-repo-1/handler\t0.031s\nok\tgithub.com/example/my-repo-1/queue\t0.045s\nok\tgithub.com/example/my-repo-1/server\t0.022s",
        false,
        ToolCategory::Running,
    ));
    log.push(entry(
        "14:32:08",
        "Bash",
        "git diff --stat",
        " handler/event.go      | 5 ++++-\n handler/middleware.go  | 4 ++++\n handler/queue.go      | 4 +++-\n handler/response.go   | 2 +-\n 4 files changed, 12 insertions(+), 3 deletions(-)",
        false,
        ToolCategory::Running,
    ));
    log.push(entry(
        "14:33:55",
        "Bash",
        "\u{f071} BLOCKED: rm -rf /* (guardrail)",
        "\u{2718} Command rejected by safety guardrail\n\nAttempted: rm -rf /tmp/build/../../../*\nResolved path: rm -rf /*\n\nReason: path traversal detected \u{2014} resolved target\nis outside allowed working directory.",
        true,
        ToolCategory::Running,
    ));
    log.push(entry(
        "14:33:57",
        "Bash",
        "rm -rf ./build/output (safe cleanup)",
        "# removed build artifacts safely\n# 12 files deleted, 3 directories removed",
        false,
        ToolCategory::Running,
    ));
    log.push(entry(
        "14:34:42",
        "Bash",
        "git commit -m 'fix: nil pointer + integration tests'",
        "[main a1b2c3d] fix: nil pointer + integration tests\n 7 files changed, 46 insertions(+), 5 deletions(-)",
        false,
        ToolCategory::Running,
    ));
    activity_logs.push(log);
    let mut log: Vec<ActivityEntry> = Vec::new();
    log.push(entry(
        "14:28:01",
        "Read",
        "src/components/ItemList.tsx",
        "Read 85 lines from ItemList.tsx\nComponent renders unfiltered items array directly\nNo null checks on item properties",
        false,
        ToolCategory::Reading,
    ));
    log.push(entry(
        "14:28:22",
        "Grep",
        "\"ItemList\" usage across src/",
        "src/components/ItemList.tsx:8:  export const ItemList: FC<Props>\nsrc/pages/Dashboard.tsx:5:  import { ItemList } from '../components'\nsrc/pages/Search.tsx:7:  import { ItemList } from '../components'",
        false,
        ToolCategory::Reading,
    ));
    log.push(entry(
        "14:28:45",
        "Edit",
        "add null-safe filter in useItems hook",
        "src/hooks/useItems.ts:22\n- return { data: response.data, isLoading, error };\n+ const safeItems = (response.data ?? []).filter(\n+   (item): item is Item => item != null && item.id != null\n+ );\n+ return { data: safeItems, isLoading, error };",
        false,
        ToolCategory::Writing,
    ));
    log.push(entry(
        "14:28:52",
        "Write",
        "src/components/ItemFilter.tsx (new)",
        "Created new component ItemFilter (45 lines)\nProps: { categories: string[]; selected: string; onChange }",
        false,
        ToolCategory::Writing,
    ));
    log.push(entry(
        "14:29:00",
        "Edit",
        "update Dashboard to use ItemFilter",
        "src/pages/Dashboard.tsx:5\n- import { ItemList } from '../components'\n+ import { ItemList, ItemFilter } from '../components'",
        false,
        ToolCategory::Writing,
    ));
    log.push(entry(
        "14:29:15",
        "Bash",
        "npx tsc --noEmit",
        "src/components/ItemFilter.tsx(12,5): error TS2322:\nType 'string | undefined' is not assignable to type 'string'.",
        true,
        ToolCategory::Running,
    ));
    log.push(entry(
        "14:29:22",
        "Edit",
        "fix type error in ItemFilter onChange",
        "src/components/ItemFilter.tsx:12\n- onChange={(e) => onChange(e.target.value)}\n+ onChange={(e) => onChange(e.target.value ?? '')}",
        false,
        ToolCategory::Writing,
    ));
    log.push(entry(
        "14:29:30",
        "Bash",
        "npx tsc --noEmit (OK)",
        "# no type errors",
        false,
        ToolCategory::Running,
    ));
    log.push(entry(
        "14:29:52",
        "Bash",
        "npm test -- --watchAll=false (PASS)",
        "PASS  src/components/ItemList.test.tsx\nPASS  src/hooks/useItems.test.ts\nPASS  src/pages/Dashboard.test.tsx\n\nTest Suites: 3 passed, 3 total\nTests:       5 passed, 5 total",
        false,
        ToolCategory::Running,
    ));
    log.push(entry(
        "14:29:58",
        "Bash",
        "\u{f071} BLOCKED: rm -rf node_modules/ dist/",
        "\u{2718} Command rejected by safety guardrail\n\nAttempted: rm -rf node_modules/ dist/ .next/\n\nReason: bulk recursive deletion of multiple\ndirectories requires explicit user approval.",
        true,
        ToolCategory::Running,
    ));
    activity_logs.push(log);
    let mut log: Vec<ActivityEntry> = Vec::new();
    log.push(entry(
        "14:25:01",
        "Read",
        "README.md",
        "Read 45 lines from README.md\nTitle: Appointment View Service\nReferences deprecated /v1/appointments endpoint",
        false,
        ToolCategory::Reading,
    ));
    log.push(entry(
        "14:25:08",
        "Read",
        "docs/api.md",
        "Read 120 lines from docs/api.md\nDocuments 8 REST endpoints\nAll use /v1/ prefix \u{2014} should be /v2/",
        false,
        ToolCategory::Reading,
    ));
    log.push(entry(
        "14:25:22",
        "Grep",
        "\"/v1/\" across docs/",
        "docs/api.md:12:  POST /v1/appointments\ndocs/api.md:28:  GET  /v1/appointments/:id\nREADME.md:18:  curl http://localhost:3000/v1/appointments",
        false,
        ToolCategory::Reading,
    ));
    log.push(entry(
        "14:25:30",
        "Write",
        "README.md (full rewrite)",
        "appointment-view/README.md (full rewrite, 62 lines)\n- Updated title and description\n- Fixed badge URLs to new CI\n- Updated endpoint from /v1/ to /v2/",
        false,
        ToolCategory::Writing,
    ));
    log.push(entry(
        "14:25:42",
        "Write",
        "docs/api.md (update all endpoints)",
        "docs/api.md (rewrite, 145 lines)\n- Updated all 8 endpoints from /v1/ to /v2/\n- Added rate limiting section",
        false,
        ToolCategory::Writing,
    ));
    log.push(entry(
        "14:26:25",
        "Bash",
        "npx markdownlint docs/ README.md",
        "docs/api.md:45 MD009 Trailing spaces\nFound 4 issues in 3 files",
        false,
        ToolCategory::Running,
    ));
    log.push(entry(
        "14:26:32",
        "Edit",
        "fix markdownlint warnings",
        "docs/api.md: removed trailing spaces at lines 45, 88\nREADME.md: removed trailing space at line 38",
        false,
        ToolCategory::Writing,
    ));
    log.push(entry(
        "14:26:38",
        "Bash",
        "npx markdownlint docs/ README.md (PASS)",
        "# no issues found",
        false,
        ToolCategory::Running,
    ));
    activity_logs.push(log);
    let mut log: Vec<ActivityEntry> = Vec::new();
    log.push(entry(
        "14:33:01",
        "Read",
        "src/lib.rs (lines 1-200)",
        "Read 200 lines from lib.rs\nPublic API: run(), Config, Pipeline\nrun() declared as Result<(), Error> but line 68 returns String",
        false,
        ToolCategory::Reading,
    ));
    log.push(entry(
        "14:33:15",
        "Grep",
        "\"process_data\" across src/",
        "src/lib.rs:112:  fn process_data(&mut self) -> Result<(), Error> {\nsrc/pipeline.rs:34: pub fn process_data(&mut self, input: &[u8]) -> Vec<u8>",
        false,
        ToolCategory::Reading,
    ));
    log.push(entry(
        "14:33:30",
        "Bash",
        "cargo check",
        "error[E0308]: mismatched types\n  --> src/lib.rs:68:16\nerror[E0502]: cannot borrow `*self` as mutable\n  --> src/lib.rs:115:9\nerror: aborting due to 2 previous errors",
        true,
        ToolCategory::Running,
    ));
    log.push(entry(
        "14:33:38",
        "Edit",
        "fix return type: use Box<dyn Error>",
        "src/lib.rs:12\n- pub fn run(config: Config) -> Result<(), Error> {\n+ pub fn run(config: Config) -> Result<(), Box<dyn std::error::Error>> {",
        false,
        ToolCategory::Writing,
    ));
    log.push(entry(
        "14:33:52",
        "Edit",
        "fix borrow checker: clone buffer",
        "src/lib.rs:114-115\n- let data = &self.buffer;\n- self.transform(data);\n+ let data = self.buffer.clone();\n+ self.transform(&data);",
        false,
        ToolCategory::Writing,
    ));
    log.push(entry(
        "14:33:58",
        "Bash",
        "cargo check (OK)",
        "    Checking my-repo-4 v0.1.0\n    Finished dev [unoptimized + debuginfo] in 1.42s",
        false,
        ToolCategory::Running,
    ));
    log.push(entry(
        "14:34:12",
        "Bash",
        "cargo test",
        "running 8 tests\ntest tests::test_error_propagation ... FAILED\ntest result: FAILED. 7 passed; 1 failed",
        true,
        ToolCategory::Running,
    ));
    log.push(entry(
        "14:34:20",
        "Edit",
        "fix test assertion for new error type",
        "tests/unit.rs:48\n- assert!(matches!(result, Err(Error::Config(_))));\n+ assert!(result.is_err());\n+ assert!(result.unwrap_err().to_string().contains(\"invalid config\"));",
        false,
        ToolCategory::Writing,
    ));
    log.push(entry(
        "14:34:28",
        "Bash",
        "cargo test (PASS)",
        "running 8 tests\ntest result: ok. 8 passed; 0 failed",
        false,
        ToolCategory::Running,
    ));
    log.push(entry(
        "14:34:42",
        "Edit",
        "optimize: reuse buffers with double-buffer swap",
        "src/pipeline.rs:34-40 \u{2014} replaced per-stage allocation with double-buffer swap\n~22% improvement on 1MB benchmark",
        false,
        ToolCategory::Writing,
    ));
    log.push(entry(
        "14:35:10",
        "Bash",
        "\u{f071} BLOCKED: git push --force origin main",
        "\u{2718} Command rejected by safety guardrail\n\nAttempted: git push --force origin main\n\nReason: force-pushing to main/master is unconditionally blocked.",
        true,
        ToolCategory::Running,
    ));
    log.push(entry(
        "14:35:14",
        "Bash",
        "git push origin main",
        "Enumerating objects: 12, done.\nTo github.com:example/my-repo-4.git\n   b4c5d6e..f7g8h9i  main -> main",
        false,
        ToolCategory::Running,
    ));
    activity_logs.push(log);
    let w = ClaudeWidget { sessions, activity_logs, spinner_frame: 0 };
    proof {
        reveal(demo_widget_view);
        assert(w@.sessions =~= demo_widget_view().sessions);
        assert(w@.logs[0] =~= demo_widget_view().logs[0]);
        assert(w@.logs[1] =~= demo_widget_view().logs[1]);
        assert(w@.logs[2] =~= demo_widget_view().logs[2]);
        assert(w@.logs[3] =~= demo_widget_view().logs[3]);
        assert(w@.logs =~= demo_widget_view().logs);
    }
    w
}

} // verus!
