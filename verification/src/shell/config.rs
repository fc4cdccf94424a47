//! The shell widget configuration: a markdown file with one `# label` section per widget.
//!
//! ```markdown
//! # label-name
//! - command: tail -f /var/log/syslog
//! - mode: stream
//! - lines: 16
//! - visible: always
//! - cols: 160
//! - rows: 40
//! - font_size: 5.0
//! ```
//!
//! Only the `# heading` and `- command:` are required. HTML comments (`<!-- ... -->`)
//! are skipped.
use vstd::prelude::*;
use vstd::string::StringSliceAdditionalSpecFns;
use crate::events::opt_view;
use crate::text::{
    char_vecs_view, chars_of, contains, contains_lit, lines_of, lowercase_of, occurs_at_exec,
    split_lines, starts_with, str_is, string_of, strings_view, to_lowercase, trim, trim_bounds,
    push_char, append_str, is_ws, lemma_trim_trimmed, lemma_lines_concat, lemma_lines_nonempty,
};

verus! {

/// Shell execution mode.
#[derive(Debug, Clone, Copy, PartialEq, Eq, Structural)]
pub enum ShellMode {
    /// Long-running command (e.g. `tail -f`). Stays alive, streams output.
    Stream,
    /// One-shot command (e.g. `date`). Runs, captures output, exits.
    Oneshot,
    /// TUI program (e.g. `top`, `htop`). Runs in a PTY with terminal emulation.
    Tui,
}

/// When a shell widget is visible.
#[derive(Debug, Clone, Copy, PartialEq, Eq, Structural)]
pub enum Visibility {
    /// Show only in focused mode (default for stream/oneshot).
    Focus,
    /// Show in both focused and unfocused modes.
    Always,
}

impl Default for Visibility {
    fn default() -> (r: Self)
        ensures
            r == Visibility::Focus,
    {
        Visibility::Focus
    }
}

/// Output lines shown when a section gives none.
pub const DEFAULT_LINES: usize = 16;

/// Terminal columns when a section gives none.
pub const DEFAULT_COLS: usize = 120;

/// Terminal rows when a section gives none.
pub const DEFAULT_ROWS: usize = 24;

/// Parsed configuration for a single shell widget.
#[derive(Debug, Clone)]
pub struct ShellConfig {
    pub label: String,
    pub command: String,
    pub mode: Option<ShellMode>,
    pub lines: usize,
    pub visible: Visibility,
    pub cols: usize,
    pub rows: usize,
    /// The font size, as the bit pattern of an `f32` (`f32::to_bits`); `None` for the
    /// default size.
    pub font_size: Option<u32>,
    /// The values of the section's `- font_size:` lines, trimmed, in file order. The size
    /// they set is the last of them that reads as a float, clamped to `2.0..=32.0`;
    /// reading floats is the caller's part, which then fills in `font_size`.
    pub font_size_texts: Vec<String>,
}

/// A shell configuration as plain values.
pub struct ConfigView {
    pub label: Seq<char>,
    pub command: Seq<char>,
    pub mode: Option<ShellMode>,
    pub lines: usize,
    pub visible: Visibility,
    pub cols: usize,
    pub rows: usize,
    pub font_size: Option<u32>,
    pub font_size_texts: Seq<Seq<char>>,
}

impl View for ShellConfig {
    type V = ConfigView;

    open spec fn view(&self) -> ConfigView {
        ConfigView {
            label: self.label@,
            command: self.command@,
            mode: self.mode,
            lines: self.lines,
            visible: self.visible,
            cols: self.cols,
            rows: self.rows,
            font_size: self.font_size,
            font_size_texts: strings_view(self.font_size_texts@),
        }
    }
}

/// The views of a list of configurations.
pub open spec fn configs_view(cs: Seq<ShellConfig>) -> Seq<ConfigView> {
    cs.map_values(|c: ShellConfig| c@)
}

/// The view of an optional configuration.
pub open spec fn opt_config_view(c: Option<ShellConfig>) -> Option<ConfigView> {
    match c {
        Some(c) => Some(c@),
        None => None,
    }
}

/// The section being read: what its heading and settings have given so far.
pub struct Section {
    pub label: Option<Seq<char>>,
    pub command: Option<Seq<char>>,
    pub mode: Option<ShellMode>,
    pub lines: usize,
    pub visible: Visibility,
    pub cols: usize,
    pub rows: usize,
    pub font_size_texts: Seq<Seq<char>>,
}

/// Where the reader stands after some lines: the finished configurations, the open
/// section, and whether it is inside an HTML comment.
pub struct ScanState {
    pub configs: Seq<ConfigView>,
    pub section: Section,
    pub in_comment: bool,
}

/// A section with the given heading and every setting at its default.
pub open spec fn new_section(label: Option<Seq<char>>) -> Section {
    Section {
        label,
        command: None,
        mode: None,
        lines: DEFAULT_LINES,
        visible: Visibility::Focus,
        cols: DEFAULT_COLS,
        rows: DEFAULT_ROWS,
        font_size_texts: Seq::empty(),
    }
}

/// The configuration a section makes: one exactly when it has a heading and a command.
pub open spec fn section_config(s: Section) -> Option<ConfigView> {
    match (s.label, s.command) {
        (Some(label), Some(command)) => Some(
            ConfigView {
                label,
                command,
                mode: s.mode,
                lines: s.lines,
                visible: s.visible,
                cols: s.cols,
                rows: s.rows,
                font_size: None,
                font_size_texts: s.font_size_texts,
            },
        ),
        _ => None,
    }
}

/// The finished configurations once the open section is closed.
pub open spec fn flushed(st: ScanState) -> Seq<ConfigView> {
    match section_config(st.section) {
        Some(c) => st.configs.push(c),
        None => st.configs,
    }
}

/// `n` brought into `lo..=hi` (what `usize::clamp` returns).
pub open spec fn clamped(n: usize, lo: usize, hi: usize) -> usize {
    if n < lo {
        lo
    } else if n > hi {
        hi
    } else {
        n
    }
}

/// Every character of `s` is an ASCII digit.
pub open spec fn all_digits(s: Seq<char>) -> bool {
    forall|i: int| 0 <= i < s.len() ==> '0' <= #[trigger] s[i] <= '9'
}

/// The number that the decimal digits `s` write.
pub open spec fn digits_value(s: Seq<char>) -> nat
    decreases s.len(),
{
    if s.len() == 0 {
        0
    } else {
        digits_value(s.drop_last()) * 10 + (s.last() as nat - '0' as nat) as nat
    }
}

/// What `str::parse::<usize>` gives: an optional `+`, then one or more decimal digits
/// whose value fits in a `usize`.
pub open spec fn usize_text(s: Seq<char>) -> Option<usize> {
    let d = if s.len() > 0 && s[0] == '+' {
        s.drop_first()
    } else {
        s
    };
    if d.len() > 0 && all_digits(d) && digits_value(d) <= usize::MAX {
        Some(digits_value(d) as usize)
    } else {
        None
    }
}

/// The mode that a lowercased `- mode:` value names.
pub open spec fn mode_word(w: Seq<char>) -> Option<ShellMode> {
    if w == "stream"@ {
        Some(ShellMode::Stream)
    } else if w == "oneshot"@ {
        Some(ShellMode::Oneshot)
    } else if w == "tui"@ {
        Some(ShellMode::Tui)
    } else {
        None
    }
}

/// The visibility that a lowercased `- visible:` value names.
pub open spec fn visibility_word(w: Seq<char>) -> Visibility {
    if w == "always"@ {
        Visibility::Always
    } else {
        Visibility::Focus
    }
}

/// What follows the prefix `p` in `t`, trimmed.
pub open spec fn rest(t: Seq<char>, p: Seq<char>) -> Seq<char> {
    trim(t.skip(p.len() as int))
}

/// The effect of one trimmed setting line `t` on the open section.
pub open spec fn setting_step(s: Section, t: Seq<char>) -> Section {
    if starts_with(t, "- command:"@) {
        let c = rest(t, "- command:"@);
        if c.len() > 0 {
            Section { command: Some(c), ..s }
        } else {
            s
        }
    } else if starts_with(t, "- mode:"@) {
        Section { mode: mode_word(lowercase_of(rest(t, "- mode:"@))), ..s }
    } else if starts_with(t, "- lines:"@) {
        match usize_text(rest(t, "- lines:"@)) {
            Some(n) => Section { lines: clamped(n, 1, 64), ..s },
            None => s,
        }
    } else if starts_with(t, "- visible:"@) {
        Section { visible: visibility_word(lowercase_of(rest(t, "- visible:"@))), ..s }
    } else if starts_with(t, "- cols:"@) {
        match usize_text(rest(t, "- cols:"@)) {
            Some(n) => Section { cols: clamped(n, 40, 512), ..s },
            None => s,
        }
    } else if starts_with(t, "- rows:"@) {
        match usize_text(rest(t, "- rows:"@)) {
            Some(n) => Section { rows: clamped(n, 4, 200), ..s },
            None => s,
        }
    } else if starts_with(t, "- font_size:"@) {
        Section { font_size_texts: s.font_size_texts.push(rest(t, "- font_size:"@)), ..s }
    } else {
        s
    }
}

/// The effect of one line of the file.
pub open spec fn line_step(st: ScanState, line: Seq<char>) -> ScanState {
    let t = trim(line);
    if st.in_comment || contains(t, "<!--"@) {
        ScanState { in_comment: !contains(t, "-->"@), ..st }
    } else if starts_with(t, "# "@) {
        ScanState {
            configs: flushed(st),
            section: new_section(Some(rest(t, "# "@))),
            in_comment: false,
        }
    } else if st.section.label is None {
        st
    } else {
        ScanState { section: setting_step(st.section, t), ..st }
    }
}

/// The state before the first line.
pub open spec fn initial_scan() -> ScanState {
    ScanState { configs: Seq::empty(), section: new_section(None), in_comment: false }
}

/// The state after the given lines.
pub open spec fn scan_lines(lines: Seq<Seq<char>>) -> ScanState
    decreases lines.len(),
{
    if lines.len() == 0 {
        initial_scan()
    } else {
        line_step(scan_lines(lines.drop_last()), lines.last())
    }
}

/// The configurations that a configuration file holds, in file order.
pub open spec fn config_views(content: Seq<char>) -> Seq<ConfigView> {
    flushed(scan_lines(lines_of(content)))
}

/// The open section, with executable fields.
struct SectionExec {
    label: Option<String>,
    command: Option<String>,
    mode: Option<ShellMode>,
    lines: usize,
    visible: Visibility,
    cols: usize,
    rows: usize,
    font_size_texts: Vec<String>,
}

impl View for SectionExec {
    type V = Section;

    closed spec fn view(&self) -> Section {
        Section {
            label: opt_view(self.label),
            command: opt_view(self.command),
            mode: self.mode,
            lines: self.lines,
            visible: self.visible,
            cols: self.cols,
            rows: self.rows,
            font_size_texts: strings_view(self.font_size_texts@),
        }
    }
}

/// A fresh section under the heading `label`.
fn new_section_exec(label: Option<String>) -> (s: SectionExec)
    ensures
        s@ == new_section(opt_view(label)),
{
    let s = SectionExec {
        label,
        command: None,
        mode: None,
        lines: DEFAULT_LINES,
        visible: Visibility::Focus,
        cols: DEFAULT_COLS,
        rows: DEFAULT_ROWS,
        font_size_texts: Vec::new(),
    };
    assert(strings_view(s.font_size_texts@) =~= Seq::<Seq<char>>::empty());
    s
}

/// `n` brought into `lo..=hi`.
pub fn clamp_usize(n: usize, lo: usize, hi: usize) -> (r: usize)
    ensures
        r == clamped(n, lo, hi),
{
    if n < lo {
        lo
    } else if n > hi {
        hi
    } else {
        n
    }
}

/// The value of the digits `s` never falls short of the value of a prefix of them.
proof fn lemma_digits_prefix(s: Seq<char>, k: int)
    requires
        0 <= k <= s.len(),
        all_digits(s),
    ensures
        digits_value(s.take(k)) <= digits_value(s),
    decreases s.len(),
{
    if k < s.len() {
        assert(s.drop_last().take(k) =~= s.take(k));
        lemma_digits_prefix(s.drop_last(), k);
    } else {
        assert(s.take(k) =~= s);
    }
}

/// `str::parse::<usize>` on the characters `v`.
pub fn parse_usize(v: &[char]) -> (r: Option<usize>)
    ensures
        r == usize_text(v@),
{
    let start: usize = if v.len() > 0 && v[0] == '+' {
        1
    } else {
        0
    };
    let ghost d = if v@.len() > 0 && v@[0] == '+' {
        v@.drop_first()
    } else {
        v@
    };
    assert(d =~= v@.skip(start as int));
    if start >= v.len() {
        return None;
    }
    let mut val: usize = 0;
    let mut i: usize = start;
    while i < v.len()
        invariant
            start <= i <= v@.len(),
            start < v@.len(),
            d == v@.skip(start as int),
            usize_text(v@) == (if d.len() > 0 && all_digits(d) && digits_value(d) <= usize::MAX {
                Some(digits_value(d) as usize)
            } else {
                None
            }),
            all_digits(d.take(i - start)),
            val == digits_value(d.take(i - start)),
        decreases v.len() - i,
    {
        let c = v[i];
        let ghost p = d.take(i + 1 - start);
        assert(p.drop_last() =~= d.take(i - start));
        assert(p.last() == c);
        if c < '0' || '9' < c {
            assert(!all_digits(d)) by {
                assert(d[i - start] == c);
            }
            return None;
        }
        let digit: usize = ((c as u32) - ('0' as u32)) as usize;
        assert(digit == c as nat - '0' as nat);
        assert(all_digits(p));
        if val > (usize::MAX - digit) / 10 {
            proof {
                assert(val * 10 + digit > usize::MAX) by (nonlinear_arith)
                    requires
                        val > (usize::MAX - digit) / 10,
                        digit <= 9,
                ;
                if all_digits(d) {
                    lemma_digits_prefix(d, i + 1 - start);
                    assert(d.take(i + 1 - start) == p);
                }
            }
            return None;
        }
        assert(val * 10 + digit <= usize::MAX) by (nonlinear_arith)
            requires
                val <= (usize::MAX - digit) / 10,
                digit <= 9,
        ;
        val = val * 10 + digit;
        i += 1;
    }
    assert(d.take(i - start) =~= d);
    Some(val)
}

/// The mode that a lowercased `- mode:` value names.
pub fn mode_of_word(w: &str) -> (r: Option<ShellMode>)
    ensures
        r == mode_word(w@),
{
    if str_is(w, "stream") {
        Some(ShellMode::Stream)
    } else if str_is(w, "oneshot") {
        Some(ShellMode::Oneshot)
    } else if str_is(w, "tui") {
        Some(ShellMode::Tui)
    } else {
        None
    }
}

/// The visibility that a lowercased `- visible:` value names.
pub fn visibility_of_word(w: &str) -> (r: Visibility)
    ensures
        r == visibility_word(w@),
{
    if str_is(w, "always") {
        Visibility::Always
    } else {
        Visibility::Focus
    }
}

/// `v[from..to]` as a new vector.
fn sub_chars(v: &[char], from: usize, to: usize) -> (r: Vec<char>)
    requires
        from <= to <= v@.len(),
    ensures
        r@ == v@.subrange(from as int, to as int),
{
    let mut r: Vec<char> = Vec::new();
    let mut i: usize = from;
    while i < to
        invariant
            from <= i <= to <= v@.len(),
            r@ == v@.subrange(from as int, i as int),
        decreases to - i,
    {
        r.push(v[i]);
        assert(v@.subrange(from as int, i + 1) =~= v@.subrange(from as int, i as int).push(
            v@[i as int],
        ));
        i += 1;
    }
    r
}

/// `trim(t)` as a new vector.
fn trimmed(t: &[char]) -> (r: Vec<char>)
    ensures
        r@ == trim(t@),
{
    let (a, b): (usize, usize) = trim_bounds(t, 0, t.len());
    assert(t@.subrange(0, t@.len() as int) =~= t@);
    sub_chars(t, a, b)
}

/// If `t` begins with `lit`, what follows it, trimmed.
fn strip_lit(t: &[char], lit: &str) -> (r: Option<Vec<char>>)
    ensures
        r is Some <==> starts_with(t@, lit@),
        r matches Some(v) ==> v@ == rest(t@, lit@),
{
    let p = chars_of(lit);
    if occurs_at_exec(t, &p, 0) {
        let tail = sub_chars(t, p.len(), t.len());
        assert(tail@ == t@.skip(lit@.len() as int));
        Some(trimmed(&tail))
    } else {
        None
    }
}

/// The lowercase of the characters `v`, as a string.
fn lowered(v: &[char]) -> (r: String)
    ensures
        r@ == lowercase_of(v@),
{
    let s = string_of(v);
    to_lowercase(s.as_str())
}

impl SectionExec {
    /// Applies one trimmed setting line.
    fn apply_setting(&mut self, t: &[char])
        ensures
            final(self)@ == setting_step(old(self)@, t@),
    {
        if let Some(c) = strip_lit(t, "- command:") {
            if c.len() > 0 {
                self.command = Some(string_of(&c));
            }
        } else if let Some(m) = strip_lit(t, "- mode:") {
            let w = lowered(&m);
            self.mode = mode_of_word(w.as_str());
        } else if let Some(n) = strip_lit(t, "- lines:") {
            if let Some(k) = parse_usize(&n) {
                self.lines = clamp_usize(k, 1, 64);
            }
        } else if let Some(x) = strip_lit(t, "- visible:") {
            let w = lowered(&x);
            self.visible = visibility_of_word(w.as_str());
        } else if let Some(n) = strip_lit(t, "- cols:") {
            if let Some(k) = parse_usize(&n) {
                self.cols = clamp_usize(k, 40, 512);
            }
        } else if let Some(n) = strip_lit(t, "- rows:") {
            if let Some(k) = parse_usize(&n) {
                self.rows = clamp_usize(k, 4, 200);
            }
        } else if let Some(f) = strip_lit(t, "- font_size:") {
            let ghost before = strings_view(self.font_size_texts@);
            self.font_size_texts.push(string_of(&f));
            assert(strings_view(self.font_size_texts@) =~= before.push(f@));
        }
    }

    /// The configuration the section makes, if it has a heading and a command.
    fn into_config(self) -> (r: Option<ShellConfig>)
        ensures
            opt_config_view(r) == section_config(self@),
    {
        match (self.label, self.command) {
            (Some(label), Some(command)) => Some(
                ShellConfig {
                    label,
                    command,
                    mode: self.mode,
                    lines: self.lines,
                    visible: self.visible,
                    cols: self.cols,
                    rows: self.rows,
                    font_size: None,
                    font_size_texts: self.font_size_texts,
                },
            ),
            _ => None,
        }
    }
}

/// Closes the open section: its configuration, if it makes one, joins `configs`, and a
/// fresh section under `label` takes its place.
fn close_section(configs: &mut Vec<ShellConfig>, section: &mut SectionExec, label: Option<String>)
    ensures
        configs_view(final(configs)@) == flushed(
            ScanState { configs: configs_view(old(configs)@), section: old(section)@, in_comment: false },
        ),
        final(section)@ == new_section(opt_view(label)),
{
    let mut fresh = new_section_exec(label);
    std::mem::swap(section, &mut fresh);
    let ghost before = configs_view(configs@);
    match fresh.into_config() {
        Some(c) => {
            configs.push(c);
            assert(configs_view(configs@) =~= before.push(c@));
        },
        None => {},
    }
}

/// Reads one line of the file.
fn scan_line(
    configs: &mut Vec<ShellConfig>,
    section: &mut SectionExec,
    in_comment: &mut bool,
    line: &[char],
)
    ensures
        (ScanState {
            configs: configs_view(final(configs)@),
            section: final(section)@,
            in_comment: *final(in_comment),
        }) == line_step(
            ScanState {
                configs: configs_view(old(configs)@),
                section: old(section)@,
                in_comment: *old(in_comment),
            },
            line@,
        ),
{
    let t = trimmed(line);
    if *in_comment || contains_lit(&t, "<!--") {
        *in_comment = !contains_lit(&t, "-->");
        return;
    }
    if let Some(heading) = strip_lit(&t, "# ") {
        close_section(configs, section, Some(string_of(&heading)));
        return;
    }
    if section.label.is_none() {
        return;
    }
    section.apply_setting(&t);
}

/// Parses a shell configuration file into its widget configurations, in file order.
///
/// A section becomes a configuration when it has a `# heading` and a non-empty
/// `- command:`; later settings in a section override earlier ones, and values that do
/// not read are ignored. `lines`, `cols` and `rows` are clamped to `1..=64`, `40..=512`
/// and `4..=200`. Every returned configuration has `font_size` `None`; the section's
/// `- font_size:` values are in `font_size_texts`.
pub fn parse_config(content: &str) -> (r: Vec<ShellConfig>)
    ensures
        configs_view(r@) == config_views(content@),
{
    let v = chars_of(content);
    let lines = split_lines(&v);
    let mut configs: Vec<ShellConfig> = Vec::new();
    let mut section = new_section_exec(None);
    let mut in_comment = false;
    let mut i: usize = 0;
    assert(char_vecs_view(lines@).take(0) =~= Seq::<Seq<char>>::empty());
    assert(configs_view(configs@) =~= Seq::<ConfigView>::empty());
    while i < lines.len()
        invariant
            0 <= i <= lines@.len(),
            char_vecs_view(lines@) == lines_of(content@),
            (ScanState { configs: configs_view(configs@), section: section@, in_comment })
                == scan_lines(char_vecs_view(lines@).take(i as int)),
        decreases lines.len() - i,
    {
        let ghost ls = char_vecs_view(lines@);
        assert(ls.take(i + 1).drop_last() =~= ls.take(i as int));
        assert(ls.take(i + 1).last() == lines@[i as int]@);
        scan_line(&mut configs, &mut section, &mut in_comment, &lines[i]);
        i += 1;
    }
    assert(char_vecs_view(lines@).take(lines@.len() as int) =~= char_vecs_view(lines@));
    close_section(&mut configs, &mut section, None);
    configs
}

/// What changed between two configuration lists, matching configurations by label.
pub struct ConfigDiff {
    /// Configurations whose label is new (instances to spawn).
    pub added: Vec<ShellConfig>,
    /// Labels that are gone (processes to kill).
    pub removed: Vec<String>,
    /// Configurations whose settings changed (kill the old process, spawn a new one).
    pub changed: Vec<ShellConfig>,
}

/// The last configuration in `cs` with the given label (the one a map built from `cs`
/// keeps for it).
pub open spec fn last_with_label(cs: Seq<ConfigView>, label: Seq<char>) -> Option<ConfigView>
    decreases cs.len(),
{
    if cs.len() == 0 {
        None
    } else if cs.last().label == label {
        Some(cs.last())
    } else {
        last_with_label(cs.drop_last(), label)
    }
}

/// The bits `b` of an `f32` are a NaN.
pub open spec fn f32_bits_nan(b: u32) -> bool {
    (b & 0x7f80_0000u32) == 0x7f80_0000u32 && (b & 0x007f_ffffu32) != 0
}

/// The `f32`s with the bits `a` and `b` are equal under `==`: neither is a NaN, and the
/// bits agree or both are zeros.
pub open spec fn f32_bits_eq(a: u32, b: u32) -> bool {
    !f32_bits_nan(a) && !f32_bits_nan(b) && (a == b || ((a & 0x7fff_ffffu32) == 0 && (b
        & 0x7fff_ffffu32) == 0))
}

/// Two optional font sizes are equal under `==`.
pub open spec fn sizes_eq(a: Option<u32>, b: Option<u32>) -> bool {
    match (a, b) {
        (None, None) => true,
        (Some(x), Some(y)) => f32_bits_eq(x, y),
        _ => false,
    }
}

/// `new` differs from `old` in a setting that needs a restart.
pub open spec fn settings_differ(old: ConfigView, new: ConfigView) -> bool {
    ||| old.command != new.command
    ||| old.mode != new.mode
    ||| old.lines != new.lines
    ||| old.visible != new.visible
    ||| old.cols != new.cols
    ||| old.rows != new.rows
    ||| !sizes_eq(old.font_size, new.font_size)
}

/// The configurations of `new`, in order, whose label `old` does not have.
pub open spec fn added_of(old: Seq<ConfigView>, new: Seq<ConfigView>) -> Seq<ConfigView>
    decreases new.len(),
{
    if new.len() == 0 {
        Seq::empty()
    } else {
        let a = added_of(old, new.drop_last());
        if last_with_label(old, new.last().label) is None {
            a.push(new.last())
        } else {
            a
        }
    }
}

/// The configurations of `new`, in order, whose label `old` has with other settings.
pub open spec fn changed_of(old: Seq<ConfigView>, new: Seq<ConfigView>) -> Seq<ConfigView>
    decreases new.len(),
{
    if new.len() == 0 {
        Seq::empty()
    } else {
        let c = changed_of(old, new.drop_last());
        match last_with_label(old, new.last().label) {
            Some(o) => if settings_differ(o, new.last()) {
                c.push(new.last())
            } else {
                c
            },
            None => c,
        }
    }
}

/// The labels of `old`, in order, that `new` does not have.
pub open spec fn removed_of(old: Seq<ConfigView>, new: Seq<ConfigView>) -> Seq<Seq<char>>
    decreases old.len(),
{
    if old.len() == 0 {
        Seq::empty()
    } else {
        let r = removed_of(old.drop_last(), new);
        if last_with_label(new, old.last().label) is None {
            r.push(old.last().label)
        } else {
            r
        }
    }
}

/// The index of the last configuration in `cs` labelled `label`.
fn last_index_with_label(cs: &[ShellConfig], label: &String) -> (r: Option<usize>)
    ensures
        match r {
            Some(k) => k < cs@.len() && last_with_label(configs_view(cs@), label@) == Some(
                cs@[k as int]@,
            ),
            None => last_with_label(configs_view(cs@), label@) is None,
        },
{
    let mut found: Option<usize> = None;
    let mut i: usize = 0;
    assert(configs_view(cs@).take(0) =~= Seq::<ConfigView>::empty());
    while i < cs.len()
        invariant
            0 <= i <= cs@.len(),
            match found {
                Some(k) => k < i && last_with_label(configs_view(cs@).take(i as int), label@)
                    == Some(cs@[k as int]@),
                None => last_with_label(configs_view(cs@).take(i as int), label@) is None,
            },
        decreases cs.len() - i,
    {
        let ghost vs = configs_view(cs@);
        assert(vs.take(i + 1).drop_last() =~= vs.take(i as int));
        assert(vs.take(i + 1).last() == cs@[i as int]@);
        if cs[i].label == *label {
            found = Some(i);
        }
        i += 1;
    }
    assert(configs_view(cs@).take(cs@.len() as int) =~= configs_view(cs@));
    found
}

/// The bits `b` of an `f32` are a NaN.
fn f32_bits_nan_exec(b: u32) -> (r: bool)
    ensures
        r == f32_bits_nan(b),
{
    (b & 0x7f80_0000u32) == 0x7f80_0000u32 && (b & 0x007f_ffffu32) != 0
}

/// Two optional font sizes are equal under `==`.
fn sizes_eq_exec(a: Option<u32>, b: Option<u32>) -> (r: bool)
    ensures
        r == sizes_eq(a, b),
{
    match (a, b) {
        (None, None) => true,
        (Some(x), Some(y)) => !f32_bits_nan_exec(x) && !f32_bits_nan_exec(y) && (x == y || ((x
            & 0x7fff_ffffu32) == 0 && (y & 0x7fff_ffffu32) == 0)),
        _ => false,
    }
}

/// `new` differs from `old` in a setting that needs a restart.
fn settings_differ_exec(old: &ShellConfig, new: &ShellConfig) -> (r: bool)
    ensures
        r == settings_differ(old@, new@),
{
    old.command != new.command || old.mode != new.mode || old.lines != new.lines || old.visible
        != new.visible || old.cols != new.cols || old.rows != new.rows || !sizes_eq_exec(
        old.font_size,
        new.font_size,
    )
}

/// A copy of a list of strings.
pub fn copy_strings(v: &Vec<String>) -> (r: Vec<String>)
    ensures
        strings_view(r@) == strings_view(v@),
{
    let mut r: Vec<String> = Vec::new();
    let mut i: usize = 0;
    while i < v.len()
        invariant
            0 <= i <= v@.len(),
            strings_view(r@) == strings_view(v@).take(i as int),
        decreases v.len() - i,
    {
        let ghost before = strings_view(r@);
        r.push(v[i].clone());
        assert(strings_view(r@) =~= before.push(v@[i as int]@));
        assert(strings_view(v@).take(i + 1) =~= strings_view(v@).take(i as int).push(
            v@[i as int]@,
        ));
        i += 1;
    }
    assert(strings_view(v@).take(v@.len() as int) =~= strings_view(v@));
    r
}

/// A copy of a configuration.
pub fn copy_config(c: &ShellConfig) -> (r: ShellConfig)
    ensures
        r@ == c@,
{
    ShellConfig {
        label: c.label.clone(),
        command: c.command.clone(),
        mode: c.mode,
        lines: c.lines,
        visible: c.visible,
        cols: c.cols,
        rows: c.rows,
        font_size: c.font_size,
        font_size_texts: copy_strings(&c.font_size_texts),
    }
}

/// Computes what changed from `old` to `new`, matching configurations by label.
///
/// A configuration of `new` is added when no configuration of `old` has its label, and
/// changed when the last one of `old` with its label differs from it in a setting; a
/// label of `old` is removed when no configuration of `new` has it. Each list keeps the
/// order of the list it comes from. Labels are looked up by searching the lists, which
/// stand for maps keyed by `String`: vstd's map specs prove nothing with such keys.
pub fn reconcile(old: &[ShellConfig], new: &[ShellConfig]) -> (d: ConfigDiff)
    ensures
        configs_view(d.added@) == added_of(configs_view(old@), configs_view(new@)),
        strings_view(d.removed@) == removed_of(configs_view(old@), configs_view(new@)),
        configs_view(d.changed@) == changed_of(configs_view(old@), configs_view(new@)),
{
    let ghost ov = configs_view(old@);
    let ghost nv = configs_view(new@);
    let mut added: Vec<ShellConfig> = Vec::new();
    let mut changed: Vec<ShellConfig> = Vec::new();
    let mut i: usize = 0;
    assert(nv.take(0) =~= Seq::<ConfigView>::empty());
    assert(configs_view(added@) =~= Seq::<ConfigView>::empty());
    assert(configs_view(changed@) =~= Seq::<ConfigView>::empty());
    while i < new.len()
        invariant
            0 <= i <= new@.len(),
            ov == configs_view(old@),
            nv == configs_view(new@),
            configs_view(added@) == added_of(ov, nv.take(i as int)),
            configs_view(changed@) == changed_of(ov, nv.take(i as int)),
        decreases new.len() - i,
    {
        assert(nv.take(i + 1).drop_last() =~= nv.take(i as int));
        assert(nv.take(i + 1).last() == new@[i as int]@);
        let ghost a0 = configs_view(added@);
        let ghost c0 = configs_view(changed@);
        match last_index_with_label(old, &new[i].label) {
            None => {
                let c = copy_config(&new[i]);
                added.push(c);
                assert(configs_view(added@) =~= a0.push(new@[i as int]@));
            },
            Some(k) => {
                if settings_differ_exec(&old[k], &new[i]) {
                    let c = copy_config(&new[i]);
                    changed.push(c);
                    assert(configs_view(changed@) =~= c0.push(new@[i as int]@));
                }
            },
        }
        i += 1;
    }
    assert(nv.take(new@.len() as int) =~= nv);
    let mut removed: Vec<String> = Vec::new();
    let mut j: usize = 0;
    assert(ov.take(0) =~= Seq::<ConfigView>::empty());
    assert(strings_view(removed@) =~= Seq::<Seq<char>>::empty());
    while j < old.len()
        invariant
            0 <= j <= old@.len(),
            ov == configs_view(old@),
            nv == configs_view(new@),
            strings_view(removed@) == removed_of(ov.take(j as int), nv),
        decreases old.len() - j,
    {
        assert(ov.take(j + 1).drop_last() =~= ov.take(j as int));
        assert(ov.take(j + 1).last() == old@[j as int]@);
        let ghost r0 = strings_view(removed@);
        if last_index_with_label(new, &old[j].label).is_none() {
            removed.push(old[j].label.clone());
            assert(strings_view(removed@) =~= r0.push(old@[j as int].label@));
        }
        j += 1;
    }
    assert(ov.take(old@.len() as int) =~= ov);
    ConfigDiff { added, removed, changed }
}

/// The labels of a list of configuration views.
pub open spec fn labels_of(cs: Seq<ConfigView>) -> Seq<Seq<char>> {
    cs.map_values(|c: ConfigView| c.label)
}

impl ConfigDiff {
    /// Nothing was added, removed or changed.
    pub fn is_empty(&self) -> (r: bool)
        ensures
            r == (self.added@.len() == 0 && self.removed@.len() == 0 && self.changed@.len()
                == 0),
    {
        self.added.len() == 0 && self.removed.len() == 0 && self.changed.len() == 0
    }

    /// The labels whose processes stop on a reload: the removed ones, then the changed ones.
    pub fn stopped_labels(&self) -> (r: Vec<String>)
        ensures
            strings_view(r@) == strings_view(self.removed@) + labels_of(
                configs_view(self.changed@),
            ),
    {
        let mut r: Vec<String> = Vec::new();
        let mut i: usize = 0;
        while i < self.removed.len()
            invariant
                0 <= i <= self.removed@.len(),
                strings_view(r@) == strings_view(self.removed@).take(i as int),
            decreases self.removed.len() - i,
        {
            let ghost before = strings_view(r@);
            r.push(self.removed[i].clone());
            assert(strings_view(r@) =~= before.push(self.removed@[i as int]@));
            assert(strings_view(self.removed@).take(i + 1) =~= strings_view(self.removed@).take(
                i as int,
            ).push(self.removed@[i as int]@));
            i += 1;
        }
        assert(strings_view(self.removed@).take(self.removed@.len() as int) =~= strings_view(
            self.removed@,
        ));
        let ghost head = strings_view(r@);
        let ghost cl = labels_of(configs_view(self.changed@));
        let mut j: usize = 0;
        while j < self.changed.len()
            invariant
                0 <= j <= self.changed@.len(),
                cl == labels_of(configs_view(self.changed@)),
                strings_view(r@) == head + cl.take(j as int),
            decreases self.changed.len() - j,
        {
            let ghost before = strings_view(r@);
            r.push(self.changed[j].label.clone());
            assert(strings_view(r@) =~= before.push(self.changed@[j as int].label@));
            assert(cl.take(j + 1) =~= cl.take(j as int).push(self.changed@[j as int].label@));
            assert(head + cl.take(j + 1) =~= (head + cl.take(j as int)).push(
                self.changed@[j as int].label@,
            ));
            j += 1;
        }
        assert(cl.take(self.changed@.len() as int) =~= cl);
        r
    }

    /// The configurations that start on a reload: the added ones, then the changed ones.
    pub fn started_configs(&self) -> (r: Vec<ShellConfig>)
        ensures
            configs_view(r@) == configs_view(self.added@) + configs_view(self.changed@),
    {
        let mut r: Vec<ShellConfig> = Vec::new();
        let ghost av = configs_view(self.added@);
        let ghost cv = configs_view(self.changed@);
        let mut i: usize = 0;
        assert(configs_view(r@) =~= av.take(0));
        while i < self.added.len()
            invariant
                0 <= i <= self.added@.len(),
                av == configs_view(self.added@),
                configs_view(r@) == av.take(i as int),
            decreases self.added.len() - i,
        {
            let ghost before = configs_view(r@);
            r.push(copy_config(&self.added[i]));
            assert(configs_view(r@) =~= before.push(self.added@[i as int]@));
            assert(av.take(i + 1) =~= av.take(i as int).push(self.added@[i as int]@));
            i += 1;
        }
        assert(av.take(self.added@.len() as int) =~= av);
        let mut j: usize = 0;
        assert(av + cv.take(0) =~= av);
        while j < self.changed.len()
            invariant
                0 <= j <= self.changed@.len(),
                av == configs_view(self.added@),
                cv == configs_view(self.changed@),
                configs_view(r@) == av + cv.take(j as int),
            decreases self.changed.len() - j,
        {
            let ghost before = configs_view(r@);
            r.push(copy_config(&self.changed[j]));
            assert(configs_view(r@) =~= before.push(self.changed@[j as int]@));
            assert(av + cv.take(j + 1) =~= (av + cv.take(j as int)).push(
                self.changed@[j as int]@,
            ));
            j += 1;
        }
        assert(cv.take(self.changed@.len() as int) =~= cv);
        r
    }
}

/// `base` joined with the relative path `rel`, as `Path::join` joins them: a `/` goes
/// between the two unless `base` is empty or already ends in one.
pub open spec fn joined(base: Seq<char>, rel: Seq<char>) -> Seq<char> {
    if base.len() == 0 || base.last() == '/' {
        base + rel
    } else {
        base + seq!['/'] + rel
    }
}

/// Joins `base` and the relative path `rel` (see `joined`).
pub fn join_path(base: &str, rel: &str) -> (r: String)
    ensures
        r@ == joined(base@, rel@),
{
    let b = chars_of(base);
    let mut s = string_of(&b);
    if b.len() > 0 && b[b.len() - 1] != '/' {
        push_char(&mut s, '/');
    }
    append_str(&mut s, rel);
    s
}

/// The bytes of the path `base` joined with the relative path `rel`, as `Path::join`
/// joins them: a `/` goes between the two unless `base` is empty or already ends in one.
pub open spec fn joined_bytes(base: Seq<u8>, rel: Seq<u8>) -> Seq<u8> {
    if base.len() == 0 || base.last() == 0x2fu8 {
        base + rel
    } else {
        base + seq![0x2fu8] + rel
    }
}

/// `v` followed by the bytes of `s`.
fn extend_bytes(v: &mut Vec<u8>, s: &[u8])
    ensures
        final(v)@ == old(v)@ + s@,
{
    let ghost v0 = v@;
    let mut i: usize = 0;
    while i < s.len()
        invariant
            0 <= i <= s@.len(),
            v@ == v0 + s@.take(i as int),
        decreases s.len() - i,
    {
        v.push(s[i]);
        assert(s@.take(i + 1) =~= s@.take(i as int).push(s@[i as int]));
        assert(v@ =~= v0 + s@.take(i + 1));
        i += 1;
    }
    assert(s@.take(s@.len() as int) =~= s@);
}

/// Joins the path bytes `base` and the relative path bytes `rel` (see `joined_bytes`).
pub fn join_bytes(base: &[u8], rel: &[u8]) -> (r: Vec<u8>)
    ensures
        r@ == joined_bytes(base@, rel@),
{
    let mut r: Vec<u8> = Vec::new();
    extend_bytes(&mut r, base);
    assert(r@ =~= base@);
    if base.len() > 0 && base[base.len() - 1] != 0x2fu8 {
        r.push(0x2fu8);
    }
    extend_bytes(&mut r, rel);
    r
}

/// The configuration file's path relative to the home directory.
pub open spec fn config_rel() -> Seq<u8> {
    ".config/viz/shells.md".spec_bytes()
}

/// The directory used when there is no home directory.
pub open spec fn fallback_home() -> Seq<u8> {
    "/tmp".spec_bytes()
}

/// The bytes of the configuration file's path under the home directory `home` (the
/// bytes of its path), or under `/tmp` when there is none: `.config/viz/shells.md`.
pub open spec fn config_path_under(home: Option<Seq<u8>>) -> Seq<u8> {
    match home {
        Some(h) => joined_bytes(h, config_rel()),
        None => joined_bytes(fallback_home(), config_rel()),
    }
}

/// The bytes of the configuration file's path for the home directory whose path has
/// the bytes `home` (see `config_path_under`).
pub fn config_path_for(home: Option<Vec<u8>>) -> (r: Vec<u8>)
    ensures
        r@ == config_path_under(opt_bytes_view(home)),
{
    match home {
        Some(h) => join_bytes(h.as_slice(), ".config/viz/shells.md".as_bytes()),
        None => join_bytes("/tmp".as_bytes(), ".config/viz/shells.md".as_bytes()),
    }
}

/// The view of an optional byte vector.
pub open spec fn opt_bytes_view(v: Option<Vec<u8>>) -> Option<Seq<u8>> {
    match v {
        Some(b) => Some(b@),
        None => None,
    }
}

/// `dirs::home_dir`: the user's home directory, when one can be found, as the bytes of
/// its path (`OsString::into_encoded_bytes`; on Unix, the path's own bytes).
#[verifier::external_body]
fn home_dir() -> (r: Option<Vec<u8>>) {
    match dirs::home_dir() {
        Some(p) => Some(p.into_os_string().into_encoded_bytes()),
        None => None,
    }
}

/// The bytes of the shells configuration file's path: `.config/viz/shells.md` under the
/// user's home directory, or under `/tmp` when it has none.
pub fn config_file_path() -> (r: Vec<u8>)
    ensures
        exists|home: Option<Seq<u8>>| r@ == config_path_under(home),
{
    let home = home_dir();
    config_path_for(home)
}

// ---------------------------------------------------------------------------
// What every parsed configuration satisfies
// ---------------------------------------------------------------------------

/// A label as the parser takes it from a heading: not empty, and trimmed.
pub open spec fn label_ok(l: Seq<char>) -> bool {
    l.len() > 0 && trim(l) == l
}

/// A configuration as the parser makes it: a non-empty trimmed label, a command, the
/// sizes within their ranges, and the font size left to the caller.
pub open spec fn config_in_range(c: ConfigView) -> bool {
    &&& label_ok(c.label)
    &&& c.command.len() > 0
    &&& 1 <= c.lines <= 64
    &&& 40 <= c.cols <= 512
    &&& 4 <= c.rows <= 200
    &&& c.font_size is None
}

/// The open section's settings are within their ranges.
pub open spec fn section_in_range(s: Section) -> bool {
    &&& (s.label matches Some(l) ==> label_ok(l))
    &&& (s.command matches Some(c) ==> c.len() > 0)
    &&& 1 <= s.lines <= 64
    &&& 40 <= s.cols <= 512
    &&& 4 <= s.rows <= 200
}

/// Every finished configuration and the open section are within their ranges.
pub open spec fn scan_in_range(st: ScanState) -> bool {
    &&& forall|i: int| 0 <= i < st.configs.len() ==> config_in_range(#[trigger] st.configs[i])
    &&& section_in_range(st.section)
}

/// Closing a section within its ranges keeps every configuration within them.
proof fn lemma_flushed_in_range(st: ScanState)
    requires
        scan_in_range(st),
    ensures
        forall|i: int| 0 <= i < flushed(st).len() ==> config_in_range(#[trigger] flushed(st)[i]),
{
}

/// One line keeps the reader within the ranges.
proof fn lemma_line_in_range(st: ScanState, line: Seq<char>)
    requires
        scan_in_range(st),
    ensures
        scan_in_range(line_step(st, line)),
{
    lemma_flushed_in_range(st);
    let t = trim(line);
    lemma_trim_trimmed(line);
    if starts_with(t, "# "@) {
        reveal_strlit("# ");
        let r = t.skip(2);
        assert(t.subrange(0, 2) == "# "@);
        assert("# "@[1] == ' ');
        assert(t.subrange(0, 2)[1] == t[1]);
        assert(t[1] == ' ');
        assert(t.len() > 2);
        assert(r[r.len() - 1] == t.last());
        assert(!is_ws(r[r.len() - 1]));
        lemma_trim_trimmed(r);
    }
}

/// Any number of lines keeps the reader within the ranges.
proof fn lemma_scan_in_range(lines: Seq<Seq<char>>)
    ensures
        scan_in_range(scan_lines(lines)),
    decreases lines.len(),
{
    if lines.len() > 0 {
        lemma_scan_in_range(lines.drop_last());
        lemma_line_in_range(scan_lines(lines.drop_last()), lines.last());
    }
}

/// Every configuration read from a file has a non-empty trimmed label, a command,
/// `lines` in `1..=64`, `cols` in `40..=512`, `rows` in `4..=200`, and no font size yet.
pub proof fn lemma_parsed_configs_in_range(content: Seq<char>)
    ensures
        forall|i: int|
            0 <= i < config_views(content).len() ==> config_in_range(
                #[trigger] config_views(content)[i],
            ),
{
    lemma_scan_in_range(lines_of(content));
    lemma_flushed_in_range(scan_lines(lines_of(content)));
}

// ---------------------------------------------------------------------------
// Reconciling a list with itself
// ---------------------------------------------------------------------------

/// A label that some configuration has is found.
proof fn lemma_label_found(cs: Seq<ConfigView>, k: int)
    requires
        0 <= k < cs.len(),
    ensures
        last_with_label(cs, cs[k].label) is Some,
    decreases cs.len(),
{
    if k < cs.len() - 1 {
        lemma_label_found(cs.drop_last(), k);
        assert(cs.drop_last()[k] == cs[k]);
    }
}

/// With distinct labels, the configuration found under a label is the one that has it.
proof fn lemma_label_unique(cs: Seq<ConfigView>, k: int)
    requires
        0 <= k < cs.len(),
        forall|i: int, j: int| 0 <= i < j < cs.len() ==> cs[i].label != cs[j].label,
    ensures
        last_with_label(cs, cs[k].label) == Some(cs[k]),
    decreases cs.len(),
{
    if k < cs.len() - 1 {
        assert(cs.last().label != cs[k].label);
        lemma_label_unique(cs.drop_last(), k);
        assert(cs.drop_last()[k] == cs[k]);
    }
}

/// Nothing is added when every label of `new` is in `old`.
proof fn lemma_nothing_added(old: Seq<ConfigView>, new: Seq<ConfigView>)
    requires
        forall|j: int| 0 <= j < new.len() ==> last_with_label(old, #[trigger] new[j].label) is Some,
    ensures
        added_of(old, new).len() == 0,
    decreases new.len(),
{
    if new.len() > 0 {
        assert forall|j: int| 0 <= j < new.drop_last().len() implies last_with_label(
            old,
            #[trigger] new.drop_last()[j].label,
        ) is Some by {
            assert(new.drop_last()[j] == new[j]);
        }
        lemma_nothing_added(old, new.drop_last());
        assert(last_with_label(old, new[new.len() - 1].label) is Some);
    }
}

/// Nothing is removed when every label of `old` is in `new`.
proof fn lemma_nothing_removed(old: Seq<ConfigView>, new: Seq<ConfigView>)
    requires
        forall|j: int| 0 <= j < old.len() ==> last_with_label(new, #[trigger] old[j].label) is Some,
    ensures
        removed_of(old, new).len() == 0,
    decreases old.len(),
{
    if old.len() > 0 {
        assert forall|j: int| 0 <= j < old.drop_last().len() implies last_with_label(
            new,
            #[trigger] old.drop_last()[j].label,
        ) is Some by {
            assert(old.drop_last()[j] == old[j]);
        }
        lemma_nothing_removed(old.drop_last(), new);
        assert(last_with_label(new, old[old.len() - 1].label) is Some);
    }
}

/// Nothing is changed when each configuration of `new` is found in `old` as itself,
/// with a comparable font size.
proof fn lemma_nothing_changed(old: Seq<ConfigView>, new: Seq<ConfigView>)
    requires
        forall|j: int|
            0 <= j < new.len() ==> last_with_label(old, #[trigger] new[j].label) == Some(new[j]),
        forall|j: int|
            0 <= j < new.len() ==> (#[trigger] new[j].font_size matches Some(b) ==> !f32_bits_nan(
                b,
            )),
    ensures
        changed_of(old, new).len() == 0,
    decreases new.len(),
{
    if new.len() > 0 {
        assert forall|j: int| 0 <= j < new.drop_last().len() implies last_with_label(
            old,
            #[trigger] new.drop_last()[j].label,
        ) == Some(new.drop_last()[j]) by {
            assert(new.drop_last()[j] == new[j]);
        }
        assert forall|j: int| 0 <= j < new.drop_last().len() implies (
        #[trigger] new.drop_last()[j].font_size matches Some(b) ==> !f32_bits_nan(b)) by {
            assert(new.drop_last()[j] == new[j]);
        }
        lemma_nothing_changed(old, new.drop_last());
        let c = new[new.len() - 1];
        assert(last_with_label(old, c.label) == Some(c));
        assert(!settings_differ(c, c));
    }
}

/// Reconciling a list with itself adds and removes nothing, and, when its labels are
/// distinct and no font size is a NaN (which differs from itself), changes nothing.
pub proof fn lemma_reconcile_same(cs: Seq<ConfigView>)
    ensures
        added_of(cs, cs).len() == 0,
        removed_of(cs, cs).len() == 0,
        (forall|i: int, j: int| 0 <= i < j < cs.len() ==> cs[i].label != cs[j].label) && (forall|
            i: int,
        |
            0 <= i < cs.len() ==> (#[trigger] cs[i].font_size matches Some(b) ==> !f32_bits_nan(b)))
            ==> changed_of(cs, cs).len() == 0,
{
    assert forall|j: int| 0 <= j < cs.len() implies last_with_label(cs, #[trigger] cs[j].label) is Some by {
        lemma_label_found(cs, j);
    }
    lemma_nothing_added(cs, cs);
    lemma_nothing_removed(cs, cs);
    if (forall|i: int, j: int| 0 <= i < j < cs.len() ==> cs[i].label != cs[j].label) && (forall|
        i: int,
    | 0 <= i < cs.len() ==> (#[trigger] cs[i].font_size matches Some(b) ==> !f32_bits_nan(b))) {
        assert forall|j: int| 0 <= j < cs.len() implies last_with_label(cs, #[trigger] cs[j].label)
            == Some(cs[j]) by {
            lemma_label_unique(cs, j);
        }
        lemma_nothing_changed(cs, cs);
    }
}

// ---------------------------------------------------------------------------
// Sections are read independently
// ---------------------------------------------------------------------------

/// The reader's state after the lines `ls`, starting from `st`.
pub open spec fn scan_from(st: ScanState, ls: Seq<Seq<char>>) -> ScanState
    decreases ls.len(),
{
    if ls.len() == 0 {
        st
    } else {
        line_step(scan_from(st, ls.drop_last()), ls.last())
    }
}

/// A line that opens a section: a `# ` heading, not inside an HTML comment's opening.
pub open spec fn heading_line(l: Seq<char>) -> bool {
    starts_with(trim(l), "# "@) && !contains(trim(l), "<!--"@)
}

/// The text does not end inside an HTML comment.
pub open spec fn ends_outside_comment(a: Seq<char>) -> bool {
    !scan_lines(lines_of(a)).in_comment
}

/// Reading from the start is reading from the initial state.
proof fn lemma_scan_lines_from(ls: Seq<Seq<char>>)
    ensures
        scan_lines(ls) == scan_from(initial_scan(), ls),
    decreases ls.len(),
{
    if ls.len() > 0 {
        lemma_scan_lines_from(ls.drop_last());
    }
}

/// Reading `x` then `y` is reading `x + y`.
proof fn lemma_scan_from_split(st: ScanState, x: Seq<Seq<char>>, y: Seq<Seq<char>>)
    ensures
        scan_from(st, x + y) == scan_from(scan_from(st, x), y),
    decreases y.len(),
{
    if y.len() == 0 {
        assert(x + y =~= x);
    } else {
        lemma_scan_from_split(st, x, y.drop_last());
        assert((x + y).drop_last() =~= x + y.drop_last());
        assert((x + y).last() == y.last());
    }
}

/// `x` holds the configurations of `y` after `pre`, and the same open section.
pub open spec fn shifted(x: ScanState, y: ScanState, pre: Seq<ConfigView>) -> bool {
    x.configs == pre + y.configs && x.section == y.section && x.in_comment == y.in_comment
}

/// A line keeps one state shifted from another.
proof fn lemma_step_shifted(x: ScanState, y: ScanState, pre: Seq<ConfigView>, l: Seq<char>)
    requires
        shifted(x, y, pre),
    ensures
        shifted(line_step(x, l), line_step(y, l), pre),
{
    match section_config(y.section) {
        Some(c) => {
            assert((pre + y.configs).push(c) =~= pre + y.configs.push(c));
        },
        None => {},
    }
}

/// Lines keep one state shifted from another.
proof fn lemma_from_shifted(x: ScanState, y: ScanState, pre: Seq<ConfigView>, ls: Seq<Seq<char>>)
    requires
        shifted(x, y, pre),
    ensures
        shifted(scan_from(x, ls), scan_from(y, ls), pre),
    decreases ls.len(),
{
    if ls.len() > 0 {
        lemma_from_shifted(x, y, pre, ls.drop_last());
        lemma_step_shifted(scan_from(x, ls.drop_last()), scan_from(y, ls.drop_last()), pre, ls.last());
    }
}

/// Sections are read independently: a configuration file made of a text `a` that ends
/// with a line break outside an HTML comment, followed by a text `b` whose first line is
/// a `# ` heading, gives the configurations of `a` followed by those of `b`. Nothing of
/// a section (its mode, sizes, visibility or command) carries over into the next.
pub proof fn lemma_sections_independent(a: Seq<char>, b: Seq<char>)
    requires
        a.len() > 0,
        a.last() == '\n',
        ends_outside_comment(a),
        heading_line(lines_of(b)[0]),
    ensures
        config_views(a + b) == config_views(a) + config_views(b),
{
    lemma_lines_concat(a, b);
    lemma_lines_nonempty(b);
    let la = lines_of(a);
    let l = la.drop_last();
    let m = lines_of(b);
    let h = m[0];
    let r = m.drop_first();
    assert(la =~= l.push(Seq::<char>::empty()));
    // The empty last line of `a` changes nothing.
    let s = scan_lines(l);
    reveal_strlit("<!--");
    reveal_strlit("-->");
    reveal_strlit("# ");
    reveal_strlit("- command:");
    reveal_strlit("- mode:");
    reveal_strlit("- lines:");
    reveal_strlit("- visible:");
    reveal_strlit("- cols:");
    reveal_strlit("- rows:");
    reveal_strlit("- font_size:");
    reveal_with_fuel(scan_from, 2);
    let e = Seq::<char>::empty();
    assert(trim(e) =~= e);
    assert(!contains(e, "<!--"@));
    assert(!contains(e, "-->"@));
    assert(!starts_with(e, "# "@));
    assert(setting_step(s.section, e) == s.section);
    assert(scan_lines(la) == line_step(s, e));
    assert(line_step(s, e) == s);
    // Both readings take the heading the same way.
    assert(m =~= seq![h] + r);
    assert(lines_of(a + b) =~= (l + seq![h]) + r);
    lemma_scan_lines_from(l);
    lemma_scan_lines_from(lines_of(a + b));
    lemma_scan_lines_from(m);
    lemma_scan_from_split(initial_scan(), l + seq![h], r);
    lemma_scan_from_split(initial_scan(), l, seq![h]);
    lemma_scan_from_split(initial_scan(), seq![h], r);
    assert(seq![h].drop_last() =~= Seq::<Seq<char>>::empty());
    assert(seq![h].last() == h);
    assert(scan_from(s, seq![h]) == line_step(s, h));
    assert(scan_from(initial_scan(), seq![h]) == line_step(initial_scan(), h));
    let x = line_step(s, h);
    let y = line_step(initial_scan(), h);
    assert(flushed(initial_scan()) =~= Seq::<ConfigView>::empty());
    assert(flushed(s) + y.configs =~= flushed(s));
    assert(shifted(x, y, flushed(s)));
    lemma_from_shifted(x, y, flushed(s), r);
    let xe = scan_from(x, r);
    let ye = scan_from(y, r);
    match section_config(ye.section) {
        Some(c) => {
            assert((flushed(s) + ye.configs).push(c) =~= flushed(s) + ye.configs.push(c));
        },
        None => {},
    }
}

} // verus!
