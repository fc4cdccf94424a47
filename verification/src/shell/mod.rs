//! Shell output widgets: their configuration file and the state the display keeps of them.
//!
//! The processes themselves run outside this crate; it receives what they print and
//! when they exit as `ShellEvent`s and keeps the state the widgets show.
pub mod config;

use vstd::prelude::*;
use std::collections::VecDeque;
use crate::events::opt_view;
use crate::session::{Clock, NANOS_PER_SEC};
use crate::text::strings_view;
use config::{
    configs_view, copy_config, ConfigView, ShellConfig, ShellMode, Visibility, DEFAULT_COLS,
    DEFAULT_LINES, DEFAULT_ROWS,
};

verus! {

/// Maximum lines kept in the ring buffer per instance.
pub const MAX_BUFFER_LINES: usize = 256;

/// If the mode is auto-detected and the process exits within this many seconds, it is
/// treated as a one-shot command.
pub const ONESHOT_DETECT_SECS: u64 = 3;

/// The configuration file is looked at every this many polls of the processes.
pub const CONFIG_CHECK_POLLS: u64 = 40;

/// Whether the configuration file is looked at on poll number `poll_count`.
pub fn config_check_due(poll_count: u64) -> (r: bool)
    ensures
        r == (poll_count % CONFIG_CHECK_POLLS == 0),
{
    poll_count % CONFIG_CHECK_POLLS == 0
}

/// The bytes of the shells configuration file's path (see `config::config_file_path`).
pub fn config_file_path() -> (r: Vec<u8>)
    ensures
        exists|home: Option<Seq<u8>>| r@ == config::config_path_under(home),
{
    config::config_file_path()
}

/// A running shell widget instance.
pub struct ShellInstance {
    pub config: ShellConfig,
    /// The last lines of output, oldest first.
    pub buffer: VecDeque<String>,
    pub exit_code: Option<i32>,
    /// Wall-clock time of the last output, in nanoseconds since the Unix epoch.
    pub last_update: i128,
    pub error: Option<String>,
    /// Resolved mode (after auto-detection).
    pub resolved_mode: ShellMode,
    /// Monotonic time at which the process was spawned, in nanoseconds.
    pub spawned_at: u64,
}

/// A shell instance as plain values.
pub struct InstanceView {
    pub config: ConfigView,
    pub buffer: Seq<Seq<char>>,
    pub exit_code: Option<i32>,
    pub last_update: i128,
    pub error: Option<Seq<char>>,
    pub resolved_mode: ShellMode,
    pub spawned_at: u64,
}

impl View for ShellInstance {
    type V = InstanceView;

    open spec fn view(&self) -> InstanceView {
        InstanceView {
            config: self.config@,
            buffer: strings_view(self.buffer@),
            exit_code: self.exit_code,
            last_update: self.last_update,
            error: opt_view(self.error),
            resolved_mode: self.resolved_mode,
            spawned_at: self.spawned_at,
        }
    }
}

/// Top-level state for the shell output widget system.
pub struct ShellState {
    pub instances: Vec<ShellInstance>,
    /// The instance that printed last.
    pub most_recent: Option<usize>,
}

/// The shell state as plain values.
pub struct ShellStateView {
    pub instances: Seq<InstanceView>,
    pub most_recent: Option<usize>,
}

/// The views of a list of instances.
pub open spec fn instances_view(v: Seq<ShellInstance>) -> Seq<InstanceView> {
    v.map_values(|i: ShellInstance| i@)
}

impl View for ShellState {
    type V = ShellStateView;

    open spec fn view(&self) -> ShellStateView {
        ShellStateView {
            instances: instances_view(self.instances@),
            most_recent: self.most_recent,
        }
    }
}

impl Default for ShellState {
    fn default() -> (r: Self)
        ensures
            r@.instances == Seq::<InstanceView>::empty(),
            r@.most_recent is None,
    {
        let r = ShellState { instances: Vec::new(), most_recent: None };
        assert(r@.instances =~= Seq::<InstanceView>::empty());
        r
    }
}

/// Events sent from the shell processes to the display.
#[derive(Debug, Clone)]
pub enum ShellEvent {
    /// New output lines for a shell instance (identified by label).
    Output { label: String, lines: Vec<String> },
    /// A shell process exited.
    Exited { label: String, exit_code: Option<i32> },
    /// A shell process failed to spawn.
    Error { label: String, error: String },
    /// Initial config loaded: the configurations to create instances for.
    ConfigLoaded(Vec<ShellConfig>),
    /// Config file changed: the new configurations (the state reconciles with them).
    ConfigReloaded(Vec<ShellConfig>),
}

/// A shell event as plain values.
pub enum ShellEventView {
    Output { label: Seq<char>, lines: Seq<Seq<char>> },
    Exited { label: Seq<char>, exit_code: Option<i32> },
    Error { label: Seq<char>, error: Seq<char> },
    ConfigLoaded(Seq<ConfigView>),
    ConfigReloaded(Seq<ConfigView>),
}

impl View for ShellEvent {
    type V = ShellEventView;

    open spec fn view(&self) -> ShellEventView {
        match self {
            ShellEvent::Output { label, lines } => ShellEventView::Output {
                label: label@,
                lines: strings_view(lines@),
            },
            ShellEvent::Exited { label, exit_code } => ShellEventView::Exited {
                label: label@,
                exit_code: *exit_code,
            },
            ShellEvent::Error { label, error } => ShellEventView::Error {
                label: label@,
                error: error@,
            },
            ShellEvent::ConfigLoaded(c) => ShellEventView::ConfigLoaded(configs_view(c@)),
            ShellEvent::ConfigReloaded(c) => ShellEventView::ConfigReloaded(configs_view(c@)),
        }
    }
}

/// The first instance with the given label.
pub open spec fn instance_with_label(insts: Seq<InstanceView>, label: Seq<char>) -> Option<int>
    decreases insts.len(),
{
    if insts.len() == 0 {
        None
    } else {
        match instance_with_label(insts.drop_last(), label) {
            Some(k) => Some(k),
            None => if insts.last().config.label == label {
                Some(insts.len() - 1)
            } else {
                None
            },
        }
    }
}

/// The last `n` elements of `b` (all of it when it is shorter).
pub open spec fn keep_last(b: Seq<Seq<char>>, n: nat) -> Seq<Seq<char>> {
    if b.len() > n {
        b.skip(b.len() - n)
    } else {
        b
    }
}

/// A buffer after the lines `lines` were appended one by one, each time dropping the
/// oldest lines beyond `MAX_BUFFER_LINES`.
pub open spec fn buffer_extend(b: Seq<Seq<char>>, lines: Seq<Seq<char>>) -> Seq<Seq<char>>
    decreases lines.len(),
{
    if lines.len() == 0 {
        b
    } else {
        keep_last(buffer_extend(b, lines.drop_last()).push(lines.last()), MAX_BUFFER_LINES as nat)
    }
}

/// A new instance for `cfg`, started at `now`.
pub open spec fn fresh_instance(cfg: ConfigView, now: Clock) -> InstanceView {
    InstanceView {
        config: cfg,
        buffer: Seq::empty(),
        exit_code: None,
        last_update: now.wall_ns,
        error: None,
        resolved_mode: match cfg.mode {
            Some(m) => m,
            None => ShellMode::Stream,
        },
        spawned_at: now.mono_ns,
    }
}

/// A stand-in for an instance that failed to spawn before any configuration named it.
pub open spec fn placeholder_instance(label: Seq<char>, error: Seq<char>, now: Clock) -> InstanceView {
    InstanceView {
        config: ConfigView {
            label,
            command: Seq::empty(),
            mode: None,
            lines: DEFAULT_LINES,
            visible: Visibility::Focus,
            cols: DEFAULT_COLS,
            rows: DEFAULT_ROWS,
            font_size: None,
            font_size_texts: Seq::empty(),
        },
        buffer: Seq::empty(),
        exit_code: None,
        last_update: now.wall_ns,
        error: Some(error),
        resolved_mode: ShellMode::Stream,
        spawned_at: now.mono_ns,
    }
}

/// The first instance with the label and command of `cfg`.
pub open spec fn instance_running(insts: Seq<InstanceView>, cfg: ConfigView) -> Option<int>
    decreases insts.len(),
{
    if insts.len() == 0 {
        None
    } else {
        match instance_running(insts.drop_last(), cfg) {
            Some(k) => Some(k),
            None => if insts.last().config.label == cfg.label && insts.last().config.command
                == cfg.command {
                Some(insts.len() - 1)
            } else {
                None
            },
        }
    }
}

/// The instances after a reload to `cfgs`: an instance running the same label and
/// command keeps its output and state under the new configuration; the others start
/// afresh.
pub open spec fn reloaded(insts: Seq<InstanceView>, cfgs: Seq<ConfigView>, now: Clock) -> Seq<
    InstanceView,
>
    decreases cfgs.len(),
{
    if cfgs.len() == 0 {
        Seq::empty()
    } else {
        let cfg = cfgs.last();
        let inst = match instance_running(insts, cfg) {
            Some(k) => InstanceView { config: cfg, ..insts[k] },
            None => fresh_instance(cfg, now),
        };
        reloaded(insts, cfgs.drop_last(), now).push(inst)
    }
}

/// `a - b`, or zero when `b` is later.
pub open spec fn since(a: u64, b: u64) -> int {
    if a >= b {
        a - b
    } else {
        0
    }
}

/// The state after the event `e` arrived at `now`.
pub open spec fn shell_step(st: ShellStateView, e: ShellEventView, now: Clock) -> ShellStateView {
    match e {
        ShellEventView::Output { label, lines } => match instance_with_label(st.instances, label) {
            Some(k) => ShellStateView {
                instances: st.instances.update(
                    k,
                    InstanceView {
                        buffer: buffer_extend(st.instances[k].buffer, lines),
                        last_update: now.wall_ns,
                        ..st.instances[k]
                    },
                ),
                most_recent: Some(k as usize),
            },
            None => st,
        },
        ShellEventView::Exited { label, exit_code } => match instance_with_label(
            st.instances,
            label,
        ) {
            Some(k) => {
                let inst = st.instances[k];
                let quick = inst.config.mode is None && since(now.mono_ns, inst.spawned_at)
                    < ONESHOT_DETECT_SECS * NANOS_PER_SEC;
                ShellStateView {
                    instances: st.instances.update(
                        k,
                        InstanceView {
                            exit_code,
                            resolved_mode: if quick {
                                ShellMode::Oneshot
                            } else {
                                inst.resolved_mode
                            },
                            ..inst
                        },
                    ),
                    ..st
                }
            },
            None => st,
        },
        ShellEventView::Error { label, error } => match instance_with_label(st.instances, label) {
            Some(k) => ShellStateView {
                instances: st.instances.update(
                    k,
                    InstanceView { error: Some(error), ..st.instances[k] },
                ),
                ..st
            },
            None => ShellStateView {
                instances: st.instances.push(placeholder_instance(label, error, now)),
                ..st
            },
        },
        ShellEventView::ConfigLoaded(cfgs) => ShellStateView {
            instances: cfgs.map_values(|c: ConfigView| fresh_instance(c, now)),
            most_recent: None,
        },
        ShellEventView::ConfigReloaded(cfgs) => {
            let insts = reloaded(st.instances, cfgs, now);
            ShellStateView {
                instances: insts,
                most_recent: match st.most_recent {
                    Some(i) => if i >= insts.len() {
                        None
                    } else {
                        Some(i)
                    },
                    None => None,
                },
            }
        },
    }
}

/// The index of the first instance labelled `label`.
fn find_instance(insts: &Vec<ShellInstance>, label: &String) -> (r: Option<usize>)
    ensures
        match r {
            Some(k) => k < insts@.len() && instance_with_label(instances_view(insts@), label@)
                == Some(k as int),
            None => instance_with_label(instances_view(insts@), label@) is None,
        },
{
    let ghost all = instances_view(insts@);
    let mut i: usize = 0;
    assert(all.take(0) =~= Seq::<InstanceView>::empty());
    while i < insts.len()
        invariant
            0 <= i <= insts@.len(),
            all == instances_view(insts@),
            instance_with_label(all.take(i as int), label@) is None,
        decreases insts.len() - i,
    {
        assert(all.take(i + 1).drop_last() =~= all.take(i as int));
        assert(all.take(i + 1).last() == insts@[i as int]@);
        if insts[i].config.label == *label {
            proof {
                lemma_label_prefix(all, i as int + 1, label@);
            }
            return Some(i);
        }
        i += 1;
    }
    assert(all.take(insts@.len() as int) =~= all);
    None
}

/// A label found in a prefix is found at the same place in the whole list.
proof fn lemma_label_prefix(all: Seq<InstanceView>, n: int, label: Seq<char>)
    requires
        0 <= n <= all.len(),
        instance_with_label(all.take(n), label) is Some,
    ensures
        instance_with_label(all, label) == instance_with_label(all.take(n), label),
    decreases all.len(),
{
    if n < all.len() {
        assert(all.drop_last().take(n) =~= all.take(n));
        lemma_label_prefix(all.drop_last(), n, label);
    } else {
        assert(all.take(n) =~= all);
    }
}

/// The index of the first instance with the label and command of `cfg`.
fn find_running(insts: &Vec<ShellInstance>, cfg: &ShellConfig) -> (r: Option<usize>)
    ensures
        match r {
            Some(k) => k < insts@.len() && instance_running(instances_view(insts@), cfg@) == Some(
                k as int,
            ),
            None => instance_running(instances_view(insts@), cfg@) is None,
        },
{
    let ghost all = instances_view(insts@);
    let mut i: usize = 0;
    assert(all.take(0) =~= Seq::<InstanceView>::empty());
    while i < insts.len()
        invariant
            0 <= i <= insts@.len(),
            all == instances_view(insts@),
            instance_running(all.take(i as int), cfg@) is None,
        decreases insts.len() - i,
    {
        assert(all.take(i + 1).drop_last() =~= all.take(i as int));
        assert(all.take(i + 1).last() == insts@[i as int]@);
        if insts[i].config.label == cfg.label && insts[i].config.command == cfg.command {
            proof {
                lemma_running_prefix(all, i as int + 1, cfg@);
            }
            return Some(i);
        }
        i += 1;
    }
    assert(all.take(insts@.len() as int) =~= all);
    None
}

/// A match found in a prefix is found at the same place in the whole list.
proof fn lemma_running_prefix(all: Seq<InstanceView>, n: int, cfg: ConfigView)
    requires
        0 <= n <= all.len(),
        instance_running(all.take(n), cfg) is Some,
    ensures
        instance_running(all, cfg) == instance_running(all.take(n), cfg),
    decreases all.len(),
{
    if n < all.len() {
        assert(all.drop_last().take(n) =~= all.take(n));
        lemma_running_prefix(all.drop_last(), n, cfg);
    } else {
        assert(all.take(n) =~= all);
    }
}

/// Appends `lines` to `buffer`, keeping at most the last `MAX_BUFFER_LINES`.
fn extend_buffer(buffer: &mut VecDeque<String>, lines: &Vec<String>)
    ensures
        strings_view(final(buffer)@) == buffer_extend(strings_view(old(buffer)@), strings_view(lines@)),
{
    let ghost b0 = strings_view(buffer@);
    let ghost ls = strings_view(lines@);
    let mut j: usize = 0;
    assert(ls.take(0) =~= Seq::<Seq<char>>::empty());
    while j < lines.len()
        invariant
            0 <= j <= lines@.len(),
            ls == strings_view(lines@),
            strings_view(buffer@) == buffer_extend(b0, ls.take(j as int)),
        decreases lines.len() - j,
    {
        assert(ls.take(j + 1).drop_last() =~= ls.take(j as int));
        assert(ls.take(j + 1).last() == lines@[j as int]@);
        let ghost pushed = strings_view(buffer@).push(lines@[j as int]@);
        buffer.push_back(lines[j].clone());
        assert(strings_view(buffer@) =~= pushed);
        let ghost full = buffer@;
        while buffer.len() > MAX_BUFFER_LINES
            invariant
                full.len() >= buffer@.len(),
                buffer@.len() == full.len() || buffer@.len() >= MAX_BUFFER_LINES,
                buffer@ == full.skip(full.len() - buffer@.len()),
            decreases buffer@.len(),
        {
            let ghost before = buffer@;
            let popped = buffer.pop_front();
            assert(popped is Some);
            assert(buffer@ =~= full.skip(full.len() - buffer@.len()));
        }
        assert(strings_view(buffer@) =~= strings_view(full).skip(
            strings_view(full).len() - strings_view(buffer@).len(),
        ));
        assert(strings_view(full) == pushed);
        assert(strings_view(buffer@) =~= keep_last(pushed, MAX_BUFFER_LINES as nat));
        j += 1;
    }
    assert(ls.take(lines@.len() as int) =~= ls);
}

/// A copy of a buffer.
fn copy_buffer(b: &VecDeque<String>) -> (r: VecDeque<String>)
    ensures
        r@ == b@,
{
    let mut r: VecDeque<String> = VecDeque::new();
    let mut k: usize = 0;
    while k < b.len()
        invariant
            0 <= k <= b@.len(),
            r@ == b@.take(k as int),
        decreases b.len() - k,
    {
        r.push_back(b[k].clone());
        assert(b@.take(k + 1) =~= b@.take(k as int).push(b@[k as int]));
        k += 1;
    }
    assert(b@.take(b@.len() as int) =~= b@);
    r
}

/// A copy of an optional string.
fn copy_opt_string(s: &Option<String>) -> (r: Option<String>)
    ensures
        opt_view(r) == opt_view(*s),
{
    match s {
        Some(t) => Some(t.clone()),
        None => None,
    }
}

/// A new instance for `cfg`, started at `now`.
fn fresh_instance_exec(cfg: ShellConfig, now: Clock) -> (r: ShellInstance)
    ensures
        r@ == fresh_instance(cfg@, now),
{
    let mode = match cfg.mode {
        Some(m) => m,
        None => ShellMode::Stream,
    };
    let r = ShellInstance {
        config: cfg,
        buffer: VecDeque::new(),
        exit_code: None,
        last_update: now.wall_ns,
        error: None,
        resolved_mode: mode,
        spawned_at: now.mono_ns,
    };
    assert(strings_view(r.buffer@) =~= Seq::<Seq<char>>::empty());
    r
}

impl ShellState {
    /// Applies a shell event that arrived at `now`.
    pub fn apply_event(&mut self, event: &ShellEvent, now: Clock)
        ensures
            final(self)@ == shell_step(old(self)@, event@, now),
    {
        let ghost s0 = self@;
        match event {
            ShellEvent::Output { label, lines } => {
                if let Some(idx) = find_instance(&self.instances, label) {
                    extend_buffer(&mut self.instances[idx].buffer, lines);
                    self.instances[idx].last_update = now.wall_ns;
                    self.most_recent = Some(idx);
                    assert(self@.instances =~= shell_step(s0, event@, now).instances);
                }
            },
            ShellEvent::Exited { label, exit_code } => {
                if let Some(idx) = find_instance(&self.instances, label) {
                    self.instances[idx].exit_code = *exit_code;
                    // Auto-detect: an unspecified mode that exited quickly is a one-shot
                    let spawned = self.instances[idx].spawned_at;
                    let elapsed: u64 = if now.mono_ns >= spawned {
                        now.mono_ns - spawned
                    } else {
                        0
                    };
                    if self.instances[idx].config.mode.is_none() && elapsed < ONESHOT_DETECT_SECS
                        * NANOS_PER_SEC {
                        self.instances[idx].resolved_mode = ShellMode::Oneshot;
                    }
                    assert(self@.instances =~= shell_step(s0, event@, now).instances);
                }
            },
            ShellEvent::Error { label, error } => {
                if let Some(idx) = find_instance(&self.instances, label) {
                    self.instances[idx].error = Some(error.clone());
                    assert(self@.instances =~= shell_step(s0, event@, now).instances);
                } else {
                    // The instance may not exist yet (spawn failure before ConfigLoaded):
                    // a placeholder stands for it.
                    let inst = ShellInstance {
                        config: ShellConfig {
                            label: label.clone(),
                            command: String::new(),
                            mode: None,
                            lines: DEFAULT_LINES,
                            visible: Visibility::Focus,
                            cols: DEFAULT_COLS,
                            rows: DEFAULT_ROWS,
                            font_size: None,
                            font_size_texts: Vec::new(),
                        },
                        buffer: VecDeque::new(),
                        exit_code: None,
                        last_update: now.wall_ns,
                        error: Some(error.clone()),
                        resolved_mode: ShellMode::Stream,
                        spawned_at: now.mono_ns,
                    };
                    assert(inst@.config.font_size_texts =~= Seq::<Seq<char>>::empty());
                    assert(inst@.buffer =~= Seq::<Seq<char>>::empty());
                    assert(inst@ == placeholder_instance(label@, error@, now));
                    self.instances.push(inst);
                    assert(self@.instances =~= shell_step(s0, event@, now).instances);
                }
            },
            ShellEvent::ConfigLoaded(configs) => {
                let mut insts: Vec<ShellInstance> = Vec::new();
                let ghost cv = configs_view(configs@);
                let mut i: usize = 0;
                assert(instances_view(insts@) =~= cv.take(0).map_values(
                    |c: ConfigView| fresh_instance(c, now),
                ));
                while i < configs.len()
                    invariant
                        0 <= i <= configs@.len(),
                        cv == configs_view(configs@),
                        instances_view(insts@) == cv.take(i as int).map_values(
                            |c: ConfigView| fresh_instance(c, now),
                        ),
                    decreases configs.len() - i,
                {
                    let ghost before = instances_view(insts@);
                    let inst = fresh_instance_exec(copy_config(&configs[i]), now);
                    insts.push(inst);
                    assert(cv[i as int] == configs@[i as int]@);
                    assert(instances_view(insts@) =~= before.push(fresh_instance(cv[i as int], now)));
                    assert(cv.take(i + 1) =~= cv.take(i as int).push(cv[i as int]));
                    assert(cv.take(i + 1).map_values(|c: ConfigView| fresh_instance(c, now))
                        =~= cv.take(i as int).map_values(|c: ConfigView| fresh_instance(c, now)).push(
                        fresh_instance(cv[i as int], now),
                    ));
                    i += 1;
                }
                assert(cv.take(configs@.len() as int) =~= cv);
                self.instances = insts;
                self.most_recent = None;
            },
            ShellEvent::ConfigReloaded(configs) => {
                // Preserve existing buffers for unchanged instances
                let mut insts: Vec<ShellInstance> = Vec::new();
                let ghost cv = configs_view(configs@);
                let mut i: usize = 0;
                assert(cv.take(0) =~= Seq::<ConfigView>::empty());
                assert(instances_view(insts@) =~= Seq::<InstanceView>::empty());
                while i < configs.len()
                    invariant
                        0 <= i <= configs@.len(),
                        cv == configs_view(configs@),
                        self@ == s0,
                        instances_view(insts@) == reloaded(s0.instances, cv.take(i as int), now),
                    decreases configs.len() - i,
                {
                    assert(cv.take(i + 1).drop_last() =~= cv.take(i as int));
                    assert(cv.take(i + 1).last() == configs@[i as int]@);
                    let cfg = copy_config(&configs[i]);
                    let inst = match find_running(&self.instances, &configs[i]) {
                        Some(k) => {
                            let existing = &self.instances[k];
                            ShellInstance {
                                config: cfg,
                                buffer: copy_buffer(&existing.buffer),
                                exit_code: existing.exit_code,
                                last_update: existing.last_update,
                                error: copy_opt_string(&existing.error),
                                resolved_mode: existing.resolved_mode,
                                spawned_at: existing.spawned_at,
                            }
                        },
                        None => fresh_instance_exec(cfg, now),
                    };
                    let ghost before = instances_view(insts@);
                    insts.push(inst);
                    assert(instances_view(insts@) =~= before.push(inst@));
                    i += 1;
                }
                assert(cv.take(configs@.len() as int) =~= cv);
                let n = insts.len();
                self.instances = insts;
                // Reset most_recent if it's out of bounds
                if let Some(idx) = self.most_recent {
                    if idx >= n {
                        self.most_recent = None;
                    }
                }
            },
        }
    }
}

// ---------------------------------------------------------------------------
// The buffers keep the latest lines
// ---------------------------------------------------------------------------

/// Keeping the last `n` after one more line forgets nothing that keeping them before
/// would have kept.
proof fn lemma_keep_last_push(s: Seq<Seq<char>>, x: Seq<char>, n: nat)
    requires
        n >= 1,
    ensures
        keep_last(keep_last(s, n).push(x), n) == keep_last(s.push(x), n),
{
    if s.len() > n {
        assert(keep_last(s, n).push(x).skip(1) =~= s.push(x).skip(s.push(x).len() - n));
    } else {
        assert(keep_last(s, n) == s);
    }
}

/// A buffer of at most `MAX_BUFFER_LINES` lines, after more lines came, holds the last
/// `MAX_BUFFER_LINES` of its lines followed by the new ones.
pub proof fn lemma_buffer_keeps_last_lines(b: Seq<Seq<char>>, lines: Seq<Seq<char>>)
    requires
        b.len() <= MAX_BUFFER_LINES,
    ensures
        buffer_extend(b, lines) == keep_last(b + lines, MAX_BUFFER_LINES as nat),
    decreases lines.len(),
{
    if lines.len() == 0 {
        assert(b + lines =~= b);
    } else {
        lemma_buffer_keeps_last_lines(b, lines.drop_last());
        lemma_keep_last_push(b + lines.drop_last(), lines.last(), MAX_BUFFER_LINES as nat);
        assert((b + lines.drop_last()).push(lines.last()) =~= b + lines);
    }
}

/// Every buffer holds at most `MAX_BUFFER_LINES` lines.
pub open spec fn buffers_bounded(insts: Seq<InstanceView>) -> bool {
    forall|i: int| 0 <= i < insts.len() ==> (#[trigger] insts[i]).buffer.len() <= MAX_BUFFER_LINES
}

/// Reloading keeps the buffers bounded.
proof fn lemma_reloaded_bounded(insts: Seq<InstanceView>, cfgs: Seq<ConfigView>, now: Clock)
    requires
        buffers_bounded(insts),
    ensures
        buffers_bounded(reloaded(insts, cfgs, now)),
        reloaded(insts, cfgs, now).len() == cfgs.len(),
    decreases cfgs.len(),
{
    if cfgs.len() > 0 {
        lemma_reloaded_bounded(insts, cfgs.drop_last(), now);
        lemma_running_found(insts, cfgs.last());
        let r = reloaded(insts, cfgs, now);
        assert forall|i: int| 0 <= i < r.len() implies (#[trigger] r[i]).buffer.len() <= MAX_BUFFER_LINES by {
            if i < r.len() - 1 {
                assert(r[i] == reloaded(insts, cfgs.drop_last(), now)[i]);
            }
        }
    }
}

/// A match of `instance_running` is an instance.
proof fn lemma_running_found(insts: Seq<InstanceView>, cfg: ConfigView)
    ensures
        instance_running(insts, cfg) matches Some(k) ==> 0 <= k < insts.len(),
    decreases insts.len(),
{
    if insts.len() > 0 {
        lemma_running_found(insts.drop_last(), cfg);
    }
}

/// A match of `instance_with_label` is an instance.
proof fn lemma_label_found(insts: Seq<InstanceView>, label: Seq<char>)
    ensures
        instance_with_label(insts, label) matches Some(k) ==> 0 <= k < insts.len(),
    decreases insts.len(),
{
    if insts.len() > 0 {
        lemma_label_found(insts.drop_last(), label);
    }
}

/// No event lets a buffer grow past `MAX_BUFFER_LINES` lines.
pub proof fn lemma_event_keeps_buffers_bounded(st: ShellStateView, e: ShellEventView, now: Clock)
    requires
        buffers_bounded(st.instances),
    ensures
        buffers_bounded(shell_step(st, e, now).instances),
{
    let st2 = shell_step(st, e, now);
    match e {
        ShellEventView::Output { label, lines } => {
            lemma_label_found(st.instances, label);
            match instance_with_label(st.instances, label) {
                Some(k) => {
                    lemma_buffer_keeps_last_lines(st.instances[k].buffer, lines);
                    assert forall|i: int| 0 <= i < st2.instances.len() implies (
                    #[trigger] st2.instances[i]).buffer.len() <= MAX_BUFFER_LINES by {
                        if i != k {
                            assert(st2.instances[i] == st.instances[i]);
                        }
                    }
                },
                None => {},
            }
        },
        ShellEventView::Exited { label, .. } => {
            lemma_label_found(st.instances, label);
            assert forall|i: int| 0 <= i < st2.instances.len() implies (
            #[trigger] st2.instances[i]).buffer.len() <= MAX_BUFFER_LINES by {
                assert(st2.instances[i].buffer == st.instances[i].buffer);
            }
        },
        ShellEventView::Error { label, .. } => {
            lemma_label_found(st.instances, label);
            assert forall|i: int| 0 <= i < st2.instances.len() implies (
            #[trigger] st2.instances[i]).buffer.len() <= MAX_BUFFER_LINES by {
                if i < st.instances.len() {
                    assert(st2.instances[i].buffer == st.instances[i].buffer);
                }
            }
        },
        ShellEventView::ConfigLoaded(cfgs) => {},
        ShellEventView::ConfigReloaded(cfgs) => {
            lemma_reloaded_bounded(st.instances, cfgs, now);
        },
    }
}


/// When no instance has the label and command of `cfg`, none is running it.
proof fn lemma_running_none(insts: Seq<InstanceView>, cfg: ConfigView)
    requires
        forall|j: int|
            0 <= j < insts.len() ==> !((#[trigger] insts[j]).config.label == cfg.label
                && insts[j].config.command == cfg.command),
    ensures
        instance_running(insts, cfg) is None,
    decreases insts.len(),
{
    if insts.len() > 0 {
        assert forall|j: int| 0 <= j < insts.drop_last().len() implies !((
        #[trigger] insts.drop_last()[j]).config.label == cfg.label && insts.drop_last()[j].config.command
            == cfg.command) by {
            assert(insts.drop_last()[j] == insts[j]);
        }
        lemma_running_none(insts.drop_last(), cfg);
        assert(insts.last() == insts[insts.len() - 1]);
    }
}

/// The `k`-th instance after a reload comes from the `k`-th configuration alone.
proof fn lemma_reloaded_at(insts: Seq<InstanceView>, cfgs: Seq<ConfigView>, now: Clock, k: int)
    requires
        0 <= k < cfgs.len(),
    ensures
        reloaded(insts, cfgs, now).len() == cfgs.len(),
        reloaded(insts, cfgs, now)[k] == match instance_running(insts, cfgs[k]) {
            Some(j) => InstanceView { config: cfgs[k], ..insts[j] },
            None => fresh_instance(cfgs[k], now),
        },
    decreases cfgs.len(),
{
    lemma_reloaded_len(insts, cfgs, now);
    if k < cfgs.len() - 1 {
        lemma_reloaded_at(insts, cfgs.drop_last(), now, k);
        assert(cfgs.drop_last()[k] == cfgs[k]);
    }
}

/// A reload gives one instance per configuration.
proof fn lemma_reloaded_len(insts: Seq<InstanceView>, cfgs: Seq<ConfigView>, now: Clock)
    ensures
        reloaded(insts, cfgs, now).len() == cfgs.len(),
    decreases cfgs.len(),
{
    if cfgs.len() > 0 {
        lemma_reloaded_len(insts, cfgs.drop_last(), now);
    }
}

/// An instance started for a configuration: it runs under that configuration, with no
/// output, exit code or error yet, in the mode the configuration names, or as a stream
/// when it names none (the mode is then detected when the process exits).
pub open spec fn started_for(inst: InstanceView, cfg: ConfigView) -> bool {
    &&& inst.config == cfg
    &&& inst.buffer.len() == 0
    &&& inst.exit_code is None
    &&& inst.error is None
    &&& (cfg.mode matches Some(m) ==> inst.resolved_mode == m)
    &&& (cfg.mode is None ==> inst.resolved_mode == ShellMode::Stream)
}

/// Loading configurations starts one instance per configuration, in order, each in the
/// mode its configuration names (a stream when it names none); a reload starts a
/// configuration the same way when no instance ran its label and command.
pub proof fn lemma_started_instances(st: ShellStateView, cfgs: Seq<ConfigView>, now: Clock)
    ensures
        shell_step(st, ShellEventView::ConfigLoaded(cfgs), now).instances.len() == cfgs.len(),
        forall|k: int|
            0 <= k < cfgs.len() ==> started_for(
                #[trigger] shell_step(st, ShellEventView::ConfigLoaded(cfgs), now).instances[k],
                cfgs[k],
            ),
        shell_step(st, ShellEventView::ConfigReloaded(cfgs), now).instances.len() == cfgs.len(),
        forall|k: int|
            0 <= k < cfgs.len() && (forall|j: int|
                0 <= j < st.instances.len() ==> !((#[trigger] st.instances[j]).config.label
                    == cfgs[k].label && st.instances[j].config.command == cfgs[k].command))
                ==> started_for(
                #[trigger] shell_step(st, ShellEventView::ConfigReloaded(cfgs), now).instances[k],
                cfgs[k],
            ),
{
    lemma_reloaded_len(st.instances, cfgs, now);
    assert forall|k: int|
        0 <= k < cfgs.len() && (forall|j: int|
            0 <= j < st.instances.len() ==> !((#[trigger] st.instances[j]).config.label
                == cfgs[k].label && st.instances[j].config.command == cfgs[k].command))
            implies started_for(
            #[trigger] shell_step(st, ShellEventView::ConfigReloaded(cfgs), now).instances[k],
            cfgs[k],
        ) by {
        lemma_running_none(st.instances, cfgs[k]);
        lemma_reloaded_at(st.instances, cfgs, now, k);
    }
}
} // verus!
