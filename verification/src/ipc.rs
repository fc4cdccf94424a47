//! The control socket's commands, as `dev-hud-ctl` sends them and the HUD reads them.
use vstd::prelude::*;
use crate::events::opt_view;
use crate::shell::config::{join_path, joined};
use crate::text::{
    append_str, chars_of, copy_str, is_ws, starts_with, starts_with_lit, str_is, string_of_range,
    strings_view, trim, trim_bounds, trim_end, trim_start, trim_string,
};
use crate::theme::ThemeMode;

verus! {

/// A command of the control socket.
#[derive(Debug)]
pub enum Command {
    /// `toggle`: show or hide the HUD.
    Toggle,
    /// `focus`: make the HUD take input, or stop.
    Focus,
    /// `demo loader-toggle`
    DemoLoaderToggle,
    /// `demo loader-change`
    DemoLoaderChange,
    /// `demo font-change`
    FontChange,
    /// `theme dark`, `theme light`, `theme auto`, `theme adaptive`
    Theme(ThemeMode),
    /// `theme-toggle`
    ThemeToggle,
    /// `bg-toggle`
    BackdropToggle,
    /// `shell-toggle`
    ShellToggle,
    /// `screen`: move to the next output.
    ScreenCycle,
    /// `screen <name>`: move to the named output.
    ScreenSet(String),
}

/// A command as plain values.
pub enum CommandView {
    Toggle,
    Focus,
    DemoLoaderToggle,
    DemoLoaderChange,
    FontChange,
    Theme(ThemeMode),
    ThemeToggle,
    BackdropToggle,
    ShellToggle,
    ScreenCycle,
    ScreenSet(Seq<char>),
}

impl View for Command {
    type V = CommandView;

    open spec fn view(&self) -> CommandView {
        match self {
            Command::Toggle => CommandView::Toggle,
            Command::Focus => CommandView::Focus,
            Command::DemoLoaderToggle => CommandView::DemoLoaderToggle,
            Command::DemoLoaderChange => CommandView::DemoLoaderChange,
            Command::FontChange => CommandView::FontChange,
            Command::Theme(m) => CommandView::Theme(*m),
            Command::ThemeToggle => CommandView::ThemeToggle,
            Command::BackdropToggle => CommandView::BackdropToggle,
            Command::ShellToggle => CommandView::ShellToggle,
            Command::ScreenCycle => CommandView::ScreenCycle,
            Command::ScreenSet(s) => CommandView::ScreenSet(s@),
        }
    }
}

/// The command a word names, without the `screen <name>` form.
pub open spec fn fixed_command(t: Seq<char>) -> Option<CommandView> {
    if t == "toggle"@ {
        Some(CommandView::Toggle)
    } else if t == "focus"@ {
        Some(CommandView::Focus)
    } else if t == "demo loader-toggle"@ {
        Some(CommandView::DemoLoaderToggle)
    } else if t == "demo loader-change"@ {
        Some(CommandView::DemoLoaderChange)
    } else if t == "demo font-change"@ {
        Some(CommandView::FontChange)
    } else if t == "theme dark"@ {
        Some(CommandView::Theme(ThemeMode::Dark))
    } else if t == "theme light"@ {
        Some(CommandView::Theme(ThemeMode::Light))
    } else if t == "theme auto"@ {
        Some(CommandView::Theme(ThemeMode::Auto))
    } else if t == "theme adaptive"@ {
        Some(CommandView::Theme(ThemeMode::Adaptive))
    } else if t == "theme-toggle"@ {
        Some(CommandView::ThemeToggle)
    } else if t == "bg-toggle"@ {
        Some(CommandView::BackdropToggle)
    } else if t == "shell-toggle"@ {
        Some(CommandView::ShellToggle)
    } else if t == "screen"@ {
        Some(CommandView::ScreenCycle)
    } else {
        None
    }
}

/// The command a line read from the socket holds: the trimmed line is one of the
/// fixed commands, or `screen ` and an output name (trimmed in its turn).
pub open spec fn command_of(line: Seq<char>) -> Option<CommandView> {
    let t = trim(line);
    match fixed_command(t) {
        Some(c) => Some(c),
        None => if starts_with(t, "screen "@) {
            Some(CommandView::ScreenSet(trim(t.skip(7))))
        } else {
            None
        },
    }
}

/// The command named by the (trimmed) word `t`, without the `screen <name>` form.
fn fixed_command_exec(t: &str) -> (r: Option<Command>)
    ensures
        match r {
            Some(c) => fixed_command(t@) == Some(c@),
            None => fixed_command(t@) is None,
        },
{
    if str_is(t, "toggle") {
        Some(Command::Toggle)
    } else if str_is(t, "focus") {
        Some(Command::Focus)
    } else if str_is(t, "demo loader-toggle") {
        Some(Command::DemoLoaderToggle)
    } else if str_is(t, "demo loader-change") {
        Some(Command::DemoLoaderChange)
    } else if str_is(t, "demo font-change") {
        Some(Command::FontChange)
    } else if str_is(t, "theme dark") {
        Some(Command::Theme(ThemeMode::Dark))
    } else if str_is(t, "theme light") {
        Some(Command::Theme(ThemeMode::Light))
    } else if str_is(t, "theme auto") {
        Some(Command::Theme(ThemeMode::Auto))
    } else if str_is(t, "theme adaptive") {
        Some(Command::Theme(ThemeMode::Adaptive))
    } else if str_is(t, "theme-toggle") {
        Some(Command::ThemeToggle)
    } else if str_is(t, "bg-toggle") {
        Some(Command::BackdropToggle)
    } else if str_is(t, "shell-toggle") {
        Some(Command::ShellToggle)
    } else if str_is(t, "screen") {
        Some(Command::ScreenCycle)
    } else {
        None
    }
}

/// Reads the command in a line received on the socket (see `command_of`); `None` for
/// an unknown command.
pub fn parse_command(line: &str) -> (r: Option<Command>)
    ensures
        match r {
            Some(c) => command_of(line@) == Some(c@),
            None => command_of(line@) is None,
        },
{
    let t = trim_string(line);
    match fixed_command_exec(t.as_str()) {
        Some(c) => Some(c),
        None => {
            let v = chars_of(t.as_str());
            let p = chars_of("screen ");
            if starts_with_lit(&v, "screen ") {
                assert(p@.len() == 7) by {
                    reveal_strlit("screen ");
                }
                let (a, b): (usize, usize) = trim_bounds(&v, 7, v.len());
                assert(v@.subrange(7, v@.len() as int) =~= v@.skip(7));
                Some(Command::ScreenSet(string_of_range(&v, a, b)))
            } else {
                None
            }
        },
    }
}

/// The commands `dev-hud-ctl` sends: a fixed command word, or `screen ` followed by
/// anything.
pub open spec fn known_command(cmd: Seq<char>) -> bool {
    fixed_command(cmd) is Some || starts_with(cmd, "screen "@)
}

/// Whether `dev-hud-ctl` sends `cmd` (see `known_command`).
pub fn is_known_command(cmd: &str) -> (r: bool)
    ensures
        r == known_command(cmd@),
{
    if fixed_command_exec(cmd).is_some() {
        return true;
    }
    let v = chars_of(cmd);
    starts_with_lit(&v, "screen ")
}

/// The words `args` joined by single spaces.
pub open spec fn joined_words(args: Seq<Seq<char>>) -> Seq<char>
    decreases args.len(),
{
    if args.len() == 0 {
        Seq::empty()
    } else if args.len() == 1 {
        args[0]
    } else {
        joined_words(args.drop_last()) + seq![' '] + args.last()
    }
}

/// Joins the command-line words into one command (see `joined_words`).
pub fn join_words(args: &Vec<String>) -> (r: String)
    ensures
        r@ == joined_words(strings_view(args@)),
{
    let ghost all = strings_view(args@);
    let mut r = String::new();
    let mut i: usize = 0;
    assert(all.take(0) =~= Seq::<Seq<char>>::empty());
    while i < args.len()
        invariant
            0 <= i <= args@.len(),
            all == strings_view(args@),
            r@ == joined_words(all.take(i as int)),
        decreases args.len() - i,
    {
        assert(all.take(i + 1).drop_last() =~= all.take(i as int));
        assert(all.take(i + 1).last() == args@[i as int]@);
        if i > 0 {
            crate::text::push_char(&mut r, ' ');
        }
        append_str(&mut r, args[i].as_str());
        proof {
            if i == 0 {
                assert(all.take(1)[0] == args@[0]@);
                assert(r@ =~= all.take(1)[0]);
            } else {
                assert(r@ =~= joined_words(all.take(i as int)) + seq![' '] + args@[i as int]@);
            }
        }
        i += 1;
    }
    assert(all.take(args@.len() as int) =~= all);
    r
}

/// The socket's path under the runtime directory `dir` (`/tmp` when there is none).
pub open spec fn socket_path_under(dir: Option<Seq<char>>) -> Seq<char> {
    match dir {
        Some(d) => joined(d, "dev-hud.sock"@),
        None => joined("/tmp"@, "dev-hud.sock"@),
    }
}

/// The control socket's path for the runtime directory `runtime_dir` (the value of
/// `XDG_RUNTIME_DIR`, if set).
pub fn socket_path_for(runtime_dir: Option<String>) -> (r: String)
    ensures
        r@ == socket_path_under(opt_view(runtime_dir)),
{
    match runtime_dir {
        Some(d) => join_path(d.as_str(), "dev-hud.sock"),
        None => join_path("/tmp", "dev-hud.sock"),
    }
}

/// `trim_end(s)` is a prefix of `s` after which only whitespace follows, and which ends
/// in a non-whitespace character (or is empty).
proof fn lemma_trim_end_prefix(s: Seq<char>)
    ensures
        exists|m: int|
            0 <= m <= s.len() && trim_end(s) == s.take(m) && (m == 0 || !is_ws(s[m - 1])) && (
            forall|j: int| m <= j < s.len() ==> is_ws(#[trigger] s[j])),
    decreases s.len(),
{
    if s.len() > 0 && is_ws(s.last()) {
        lemma_trim_end_prefix(s.drop_last());
        let m = choose|m: int|
            0 <= m <= s.drop_last().len() && trim_end(s.drop_last()) == s.drop_last().take(m) && (
            m == 0 || !is_ws(s.drop_last()[m - 1])) && (forall|j: int|
                m <= j < s.drop_last().len() ==> is_ws(#[trigger] s.drop_last()[j]));
        assert(s.drop_last().take(m) =~= s.take(m));
        assert forall|j: int| m <= j < s.len() implies is_ws(#[trigger] s[j]) by {
            if j < s.len() - 1 {
                assert(s.drop_last()[j] == s[j]);
            }
        }
        assert(0 <= m <= s.len() && trim_end(s) == s.take(m) && (m == 0 || !is_ws(s[m - 1])));
    } else {
        assert(s.take(s.len() as int) =~= s);
        assert(0 <= s.len() <= s.len() && trim_end(s) == s.take(s.len() as int));
    }
}

/// A text that begins and ends with non-whitespace is its own trim.
proof fn lemma_trim_noop(s: Seq<char>)
    requires
        s.len() > 0,
        !is_ws(s[0]),
        !is_ws(s.last()),
    ensures
        trim(s) == s,
{
}

/// Every command `dev-hud-ctl` sends is one the HUD understands.
pub proof fn lemma_known_commands_understood(cmd: Seq<char>)
    requires
        known_command(cmd),
    ensures
        command_of(cmd) is Some,
{
    reveal_strlit("toggle");
    reveal_strlit("focus");
    reveal_strlit("demo loader-toggle");
    reveal_strlit("demo loader-change");
    reveal_strlit("demo font-change");
    reveal_strlit("theme dark");
    reveal_strlit("theme light");
    reveal_strlit("theme auto");
    reveal_strlit("theme adaptive");
    reveal_strlit("theme-toggle");
    reveal_strlit("bg-toggle");
    reveal_strlit("shell-toggle");
    reveal_strlit("screen");
    reveal_strlit("screen ");
    if fixed_command(cmd) is Some {
        lemma_trim_noop(cmd);
    } else {
        assert(cmd.subrange(0, 7) == "screen "@);
        assert(cmd[0] == cmd.subrange(0, 7)[0]);
        assert(cmd[5] == cmd.subrange(0, 7)[5]);
        assert(cmd[6] == cmd.subrange(0, 7)[6]);
        assert(cmd[0] == 's' && cmd[5] == 'n' && cmd[6] == ' ');
        assert(trim_start(cmd) == cmd);
        lemma_trim_end_prefix(cmd);
        let m = choose|m: int|
            0 <= m <= cmd.len() && trim_end(cmd) == cmd.take(m) && (m == 0 || !is_ws(cmd[m - 1]))
                && (forall|j: int| m <= j < cmd.len() ==> is_ws(#[trigger] cmd[j]));
        assert(m >= 6) by {
            if m < 6 {
                assert(is_ws(cmd[5]));
            }
        }
        let t = trim(cmd);
        if m == 6 {
            assert(t =~= "screen"@);
        } else {
            assert(t.subrange(0, 7) =~= "screen "@);
            assert(starts_with(t, "screen "@));
        }
    }
}

} // verus!
