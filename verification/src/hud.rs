//! The display's state machine: what each message does to the HUD's state, and the
//! outside actions (surfaces to open and remove, queries to run) that it asks for.
//!
//! Surfaces are identified by the display's window ids, a type this module only
//! stores and hands back (`Id`). A message that may open a surface comes with a fresh
//! id for it.
use vstd::prelude::*;
use crate::demo::{create_demo_widget, demo_widget_view};
use crate::events::{TaggedEvent, TaggedView};
use crate::loader::{frame_count_of, next_style, DemoLoader, LoaderStyle};
use crate::session::{
    first_session, sessions_view, tick_widget, widget_wf, ClaudeWidget, Clock, SessionView,
    WidgetView, apply_event, find_session,
};
use crate::shell::{shell_step, ShellEvent, ShellEventView, ShellState, ShellStateView, InstanceView};
use crate::text::strings_view;
use crate::events::opt_view;
use crate::theme::{fixed_dark, fixed_dark_of, ThemeMode};

verus! {

/// How the HUD is shown.
#[derive(Debug, Clone, Copy, PartialEq, Eq, Structural)]
pub enum HudMode {
    Hidden,
    Visible,
    Focused,
}

/// The kinds of surface the HUD opens.
#[derive(Debug, Clone, Copy, PartialEq, Eq, Structural)]
pub enum SurfaceKind {
    /// The full-screen overlay that lets input through.
    Overlay,
    /// The full-screen overlay that takes input.
    Interactive,
    /// A modal window over the overlay.
    Modal,
}

/// The session detail modal.
#[derive(Debug)]
pub struct ModalState<Id> {
    pub surface_id: Id,
    pub session_index: usize,
    pub selected_entry: Option<usize>,
    pub hovered_entry: Option<usize>,
}

/// The archive modal.
#[derive(Debug)]
pub struct ArchiveModalState<Id> {
    pub surface_id: Id,
    pub selected_session: Option<usize>,
    pub selected_entry: Option<usize>,
    pub hovered_session: Option<usize>,
    pub hovered_entry: Option<usize>,
}

/// An outside action the state machine asks for.
#[derive(Debug)]
pub enum Effect<Id> {
    /// Open a surface of the given kind with the given id, on the named output (or on
    /// any output).
    Open { id: Id, kind: SurfaceKind, output: Option<String> },
    /// Close the surface with the given id.
    Remove(Id),
    /// Ask the desktop whether it prefers a dark theme, and report it with `system_theme`.
    ProbeSystemTheme,
    /// Sample the brightness of the screen under the HUD, and report what it suggests
    /// with `system_theme`.
    SampleBackground,
    /// Copy the text to the clipboard.
    Copy(String),
}

/// An action as plain values.
pub enum EffectView<Id> {
    Open { id: Id, kind: SurfaceKind, output: Option<Seq<char>> },
    Remove(Id),
    ProbeSystemTheme,
    SampleBackground,
    Copy(Seq<char>),
}

impl<Id> View for Effect<Id> {
    type V = EffectView<Id>;

    open spec fn view(&self) -> EffectView<Id> {
        match self {
            Effect::Open { id, kind, output } => EffectView::Open {
                id: *id,
                kind: *kind,
                output: opt_view(*output),
            },
            Effect::Remove(id) => EffectView::Remove(*id),
            Effect::ProbeSystemTheme => EffectView::ProbeSystemTheme,
            Effect::SampleBackground => EffectView::SampleBackground,
            Effect::Copy(s) => EffectView::Copy(s@),
        }
    }
}

/// The views of a list of actions.
pub open spec fn effects_view<Id>(v: Seq<Effect<Id>>) -> Seq<EffectView<Id>> {
    v.map_values(|e: Effect<Id>| e@)
}

/// What the display asks of the HUD.
#[derive(Debug)]
pub enum HudMsg {
    ToggleVisibility,
    ToggleFocus,
    DemoLoaderToggle,
    DemoLoaderChange,
    DemoClaudeToggle,
    ClaudeLiveToggle,
    FontChange,
    Tick,
    OpenSessionModal(usize),
    CloseModal,
    SelectActivity(usize),
    HoverSession(usize),
    UnhoverSession(usize),
    HoverEntry(usize),
    UnhoverEntry(usize),
    WatcherEvent(TaggedEvent),
    CopySessionId(String),
    ThemeSet(ThemeMode),
    ThemeToggle,
    ThemeRefresh,
    BackdropToggle,
    /// Move to the next output; carries the outputs there are, in order.
    ScreenCycle(Vec<String>),
    ScreenSet(String),
    OpenArchiveModal,
    CloseArchiveModal,
    HoverArchive,
    UnhoverArchive,
    SelectArchivedSession(usize),
    HoverArchivedSession(usize),
    UnhoverArchivedSession(usize),
    SelectArchivedEntry(usize),
    HoverArchivedEntry(usize),
    UnhoverArchivedEntry(usize),
    ShellEvent(ShellEvent),
    ShellToggle,
    SetAttention(String, bool),
}

/// A message as plain values.
pub enum MsgView {
    ToggleVisibility,
    ToggleFocus,
    DemoLoaderToggle,
    DemoLoaderChange,
    DemoClaudeToggle,
    ClaudeLiveToggle,
    FontChange,
    Tick,
    OpenSessionModal(usize),
    CloseModal,
    SelectActivity(usize),
    HoverSession(usize),
    UnhoverSession(usize),
    HoverEntry(usize),
    UnhoverEntry(usize),
    WatcherEvent(TaggedView),
    CopySessionId(Seq<char>),
    ThemeSet(ThemeMode),
    ThemeToggle,
    ThemeRefresh,
    BackdropToggle,
    ScreenCycle(Seq<Seq<char>>),
    ScreenSet(Seq<char>),
    OpenArchiveModal,
    CloseArchiveModal,
    HoverArchive,
    UnhoverArchive,
    SelectArchivedSession(usize),
    HoverArchivedSession(usize),
    UnhoverArchivedSession(usize),
    SelectArchivedEntry(usize),
    HoverArchivedEntry(usize),
    UnhoverArchivedEntry(usize),
    ShellEvent(ShellEventView),
    ShellToggle,
    SetAttention(Seq<char>, bool),
}

impl View for HudMsg {
    type V = MsgView;

    open spec fn view(&self) -> MsgView {
        match self {
            HudMsg::ToggleVisibility => MsgView::ToggleVisibility,
            HudMsg::ToggleFocus => MsgView::ToggleFocus,
            HudMsg::DemoLoaderToggle => MsgView::DemoLoaderToggle,
            HudMsg::DemoLoaderChange => MsgView::DemoLoaderChange,
            HudMsg::DemoClaudeToggle => MsgView::DemoClaudeToggle,
            HudMsg::ClaudeLiveToggle => MsgView::ClaudeLiveToggle,
            HudMsg::FontChange => MsgView::FontChange,
            HudMsg::Tick => MsgView::Tick,
            HudMsg::OpenSessionModal(i) => MsgView::OpenSessionModal(*i),
            HudMsg::CloseModal => MsgView::CloseModal,
            HudMsg::SelectActivity(i) => MsgView::SelectActivity(*i),
            HudMsg::HoverSession(i) => MsgView::HoverSession(*i),
            HudMsg::UnhoverSession(i) => MsgView::UnhoverSession(*i),
            HudMsg::HoverEntry(i) => MsgView::HoverEntry(*i),
            HudMsg::UnhoverEntry(i) => MsgView::UnhoverEntry(*i),
            HudMsg::WatcherEvent(t) => MsgView::WatcherEvent(t@),
            HudMsg::CopySessionId(s) => MsgView::CopySessionId(s@),
            HudMsg::ThemeSet(m) => MsgView::ThemeSet(*m),
            HudMsg::ThemeToggle => MsgView::ThemeToggle,
            HudMsg::ThemeRefresh => MsgView::ThemeRefresh,
            HudMsg::BackdropToggle => MsgView::BackdropToggle,
            HudMsg::ScreenCycle(o) => MsgView::ScreenCycle(strings_view(o@)),
            HudMsg::ScreenSet(s) => MsgView::ScreenSet(s@),
            HudMsg::OpenArchiveModal => MsgView::OpenArchiveModal,
            HudMsg::CloseArchiveModal => MsgView::CloseArchiveModal,
            HudMsg::HoverArchive => MsgView::HoverArchive,
            HudMsg::UnhoverArchive => MsgView::UnhoverArchive,
            HudMsg::SelectArchivedSession(i) => MsgView::SelectArchivedSession(*i),
            HudMsg::HoverArchivedSession(i) => MsgView::HoverArchivedSession(*i),
            HudMsg::UnhoverArchivedSession(i) => MsgView::UnhoverArchivedSession(*i),
            HudMsg::SelectArchivedEntry(i) => MsgView::SelectArchivedEntry(*i),
            HudMsg::HoverArchivedEntry(i) => MsgView::HoverArchivedEntry(*i),
            HudMsg::UnhoverArchivedEntry(i) => MsgView::UnhoverArchivedEntry(*i),
            HudMsg::ShellEvent(e) => MsgView::ShellEvent(e@),
            HudMsg::ShellToggle => MsgView::ShellToggle,
            HudMsg::SetAttention(s, b) => MsgView::SetAttention(s@, *b),
        }
    }
}

/// The HUD's state.
pub struct Hud<Id> {
    pub mode: HudMode,
    /// The surface of the overlay, when it is shown.
    pub surface_id: Option<Id>,
    /// The font in use, as an index into the display's fonts.
    pub font_index: usize,
    /// How many fonts the display offers.
    pub font_count: usize,
    /// How many image frames the demo loader's GIF and SVG styles have.
    pub gif_frame_count: usize,
    pub svg_frame_count: usize,
    pub demo_loader: Option<DemoLoader>,
    pub demo_claude: Option<ClaudeWidget>,
    pub claude: Option<ClaudeWidget>,
    pub modal: Option<ModalState<Id>>,
    pub archive_modal: Option<ArchiveModalState<Id>>,
    pub hovered_session: Option<usize>,
    pub hovered_archive: bool,
    pub theme_mode: ThemeMode,
    /// The dark theme is shown (otherwise the light one).
    pub dark: bool,
    pub backdrop: bool,
    /// The output the HUD is shown on, by name (any output when `None`).
    pub target_output: Option<String>,
    pub shells: Option<ShellState>,
}

/// The HUD's state as plain values.
pub struct HudView<Id> {
    pub mode: HudMode,
    pub surface_id: Option<Id>,
    pub font_index: usize,
    pub font_count: usize,
    pub gif_frame_count: usize,
    pub svg_frame_count: usize,
    pub demo_loader: Option<DemoLoader>,
    pub demo_claude: Option<WidgetView>,
    pub claude: Option<WidgetView>,
    pub modal: Option<ModalState<Id>>,
    pub archive_modal: Option<ArchiveModalState<Id>>,
    pub hovered_session: Option<usize>,
    pub hovered_archive: bool,
    pub theme_mode: ThemeMode,
    pub dark: bool,
    pub backdrop: bool,
    pub target_output: Option<Seq<char>>,
    pub shells: Option<ShellStateView>,
}

/// The view of an optional widget.
pub open spec fn widget_opt_view(w: Option<ClaudeWidget>) -> Option<WidgetView> {
    match w {
        Some(w) => Some(w@),
        None => None,
    }
}

/// The view of an optional shell state.
pub open spec fn shells_opt_view(s: Option<ShellState>) -> Option<ShellStateView> {
    match s {
        Some(s) => Some(s@),
        None => None,
    }
}

impl<Id> View for Hud<Id> {
    type V = HudView<Id>;

    open spec fn view(&self) -> HudView<Id> {
        HudView {
            mode: self.mode,
            surface_id: self.surface_id,
            font_index: self.font_index,
            font_count: self.font_count,
            gif_frame_count: self.gif_frame_count,
            svg_frame_count: self.svg_frame_count,
            demo_loader: self.demo_loader,
            demo_claude: widget_opt_view(self.demo_claude),
            claude: widget_opt_view(self.claude),
            modal: self.modal,
            archive_modal: self.archive_modal,
            hovered_session: self.hovered_session,
            hovered_archive: self.hovered_archive,
            theme_mode: self.theme_mode,
            dark: self.dark,
            backdrop: self.backdrop,
            target_output: opt_view(self.target_output),
            shells: shells_opt_view(self.shells),
        }
    }
}

/// The demo loader is on one of its frames.
pub open spec fn loader_wf(l: DemoLoader) -> bool {
    l.frame < frame_count_of(l)
}

/// The HUD's invariant: it has an overlay exactly when it is not hidden, a modal is
/// open only in focused mode and never two at once, the font index names a font, the
/// loader is on a frame, and each session widget keeps one log per session.
pub open spec fn hud_wf<Id>(h: HudView<Id>) -> bool {
    &&& (h.surface_id is Some <==> h.mode != HudMode::Hidden)
    &&& (h.modal is Some ==> h.mode == HudMode::Focused)
    &&& (h.archive_modal is Some ==> h.mode == HudMode::Focused)
    &&& !(h.modal is Some && h.archive_modal is Some)
    &&& h.font_index < h.font_count
    &&& (h.demo_loader matches Some(l) ==> loader_wf(l))
    &&& (h.demo_claude matches Some(w) ==> widget_wf(w))
    &&& (h.claude matches Some(w) ==> widget_wf(w))
}

/// The widget shown: the live one, else the demo.
pub open spec fn active_widget<Id>(h: HudView<Id>) -> Option<WidgetView> {
    match h.claude {
        Some(w) => Some(w),
        None => h.demo_claude,
    }
}

/// Some session of `w` is archived.
pub open spec fn has_archived(w: WidgetView) -> bool {
    exists|i: int| 0 <= i < w.sessions.len() && (#[trigger] w.sessions[i]).archived
}

/// Closes the session modal, if open.
pub open spec fn close_modal_step<Id>(h: HudView<Id>) -> (HudView<Id>, Seq<EffectView<Id>>) {
    match h.modal {
        Some(m) => (HudView { modal: None, ..h }, seq![EffectView::Remove(m.surface_id)]),
        None => (h, Seq::empty()),
    }
}

/// Closes the archive modal, if open.
pub open spec fn close_archive_step<Id>(h: HudView<Id>) -> (HudView<Id>, Seq<EffectView<Id>>) {
    match h.archive_modal {
        Some(m) => (HudView { archive_modal: None, ..h }, seq![EffectView::Remove(m.surface_id)]),
        None => (h, Seq::empty()),
    }
}

/// Closes both modals.
pub open spec fn close_modals_step<Id>(h: HudView<Id>) -> (HudView<Id>, Seq<EffectView<Id>>) {
    let (h1, e1) = close_modal_step(h);
    let (h2, e2) = close_archive_step(h1);
    (h2, e1 + e2)
}

/// Removes the overlay's surface, if there is one.
pub open spec fn drop_surface_step<Id>(h: HudView<Id>) -> (HudView<Id>, Seq<EffectView<Id>>) {
    match h.surface_id {
        Some(id) => (HudView { surface_id: None, ..h }, seq![EffectView::Remove(id)]),
        None => (h, Seq::empty()),
    }
}

/// Opens the overlay as a surface of kind `kind` with id `fresh`.
pub open spec fn open_step<Id>(h: HudView<Id>, kind: SurfaceKind, fresh: Id) -> (
    HudView<Id>,
    Seq<EffectView<Id>>,
) {
    (
        HudView { surface_id: Some(fresh), ..h },
        seq![EffectView::Open { id: fresh, kind, output: h.target_output }],
    )
}

/// Hides the HUD: closes the modals and the overlay.
pub open spec fn hide_step<Id>(h: HudView<Id>) -> (HudView<Id>, Seq<EffectView<Id>>) {
    let (h1, e1) = close_modals_step(h);
    let (h2, e2) = drop_surface_step(h1);
    (HudView { mode: HudMode::Hidden, ..h2 }, e1 + e2)
}

/// Opens the overlay anew (on the current target output), as the mode asks.
pub open spec fn recreate_step<Id>(h: HudView<Id>, fresh: Id) -> (HudView<Id>, Seq<EffectView<Id>>) {
    let (h1, e1) = close_modals_step(h);
    let (h2, e2) = drop_surface_step(h1);
    match h.mode {
        HudMode::Hidden => (h2, e1),
        HudMode::Visible => {
            let (h3, e3) = open_step(h2, SurfaceKind::Overlay, fresh);
            (h3, e1 + e2 + e3)
        },
        HudMode::Focused => {
            let (h3, e3) = open_step(h2, SurfaceKind::Interactive, fresh);
            (h3, e1 + e2 + e3)
        },
    }
}

/// The first position of `name` in `outputs`.
pub open spec fn output_position(outputs: Seq<Seq<char>>, name: Seq<char>) -> Option<int>
    decreases outputs.len(),
{
    if outputs.len() == 0 {
        None
    } else {
        match output_position(outputs.drop_last(), name) {
            Some(k) => Some(k),
            None => if outputs.last() == name {
                Some(outputs.len() - 1)
            } else {
                None
            },
        }
    }
}

/// The output after the current target in `outputs` (wrapping around), or the first
/// output when the target is not among them.
pub open spec fn next_output_index(outputs: Seq<Seq<char>>, target: Option<Seq<char>>) -> int {
    match target {
        Some(name) => match output_position(outputs, name) {
            Some(k) => (k + 1) % (outputs.len() as int),
            None => 0,
        },
        None => 0,
    }
}

/// `sel` toggled to `i`: cleared when it already is `i`.
pub open spec fn toggled(sel: Option<usize>, i: usize) -> Option<usize> {
    if sel == Some(i) {
        None
    } else {
        Some(i)
    }
}

/// `cur` cleared when it is `i`.
pub open spec fn unhovered(cur: Option<usize>, i: usize) -> Option<usize> {
    if cur == Some(i) {
        None
    } else {
        cur
    }
}

/// The loader just switched on.
pub open spec fn fresh_loader<Id>(h: HudView<Id>) -> DemoLoader {
    DemoLoader {
        style: LoaderStyle::Braille,
        frame: 0,
        gif_frame_count: h.gif_frame_count,
        svg_frame_count: h.svg_frame_count,
    }
}

/// The loader after one frame.
pub open spec fn loader_ticked(l: DemoLoader) -> DemoLoader {
    DemoLoader { frame: ((l.frame + 1) % (frame_count_of(l) as int)) as usize, ..l }
}

/// `w` with the attention flag of its first session `id` set to `value`.
pub open spec fn attention_set(w: WidgetView, id: Seq<char>, value: bool) -> WidgetView {
    match first_session(w.sessions, id) {
        Some(k) => WidgetView {
            sessions: w.sessions.update(k, SessionView { needs_attention: value, ..w.sessions[k] }),
            ..w
        },
        None => w,
    }
}

/// Messages of the pointer over sessions, entries and archived sessions.
pub open spec fn is_pointer_msg(m: MsgView) -> bool {
    m is SelectActivity
    || m is HoverSession
    || m is UnhoverSession
    || m is HoverEntry
    || m is UnhoverEntry
    || m is HoverArchive
    || m is UnhoverArchive
    || m is SelectArchivedSession
    || m is HoverArchivedSession
    || m is UnhoverArchivedSession
    || m is SelectArchivedEntry
    || m is HoverArchivedEntry
    || m is UnhoverArchivedEntry
}

/// The effect of the message `ToggleVisibility`.
#[verifier::opaque]
pub open spec fn step_toggle_visibility<Id>(h: HudView<Id>, fresh: Id, now: Clock) -> (
    HudView<Id>,
    Seq<EffectView<Id>>,
) {
    match h.mode {
        HudMode::Hidden => {
            let (h1, e1) = open_step(h, SurfaceKind::Overlay, fresh);
            (HudView { mode: HudMode::Visible, ..h1 }, e1)
        },
        _ => hide_step(h),
    }
}

/// The effect of the message `ToggleFocus`.
#[verifier::opaque]
pub open spec fn step_toggle_focus<Id>(h: HudView<Id>, fresh: Id, now: Clock) -> (
    HudView<Id>,
    Seq<EffectView<Id>>,
) {
    match h.mode {
        HudMode::Hidden => {
            let (h1, e1) = open_step(h, SurfaceKind::Interactive, fresh);
            (HudView { mode: HudMode::Focused, ..h1 }, e1)
        },
        HudMode::Visible => {
            let (h1, e1) = drop_surface_step(h);
            let (h2, e2) = open_step(h1, SurfaceKind::Interactive, fresh);
            (HudView { mode: HudMode::Focused, ..h2 }, e1 + e2)
        },
        HudMode::Focused => {
            let (h1, e1) = close_modals_step(h);
            let (h2, e2) = drop_surface_step(h1);
            let (h3, e3) = open_step(h2, SurfaceKind::Overlay, fresh);
            (HudView { mode: HudMode::Visible, ..h3 }, e1 + e2 + e3)
        },
    }
}

/// The effect of the message `DemoLoaderToggle`.
#[verifier::opaque]
pub open spec fn step_demo_loader_toggle<Id>(h: HudView<Id>, fresh: Id, now: Clock) -> (
    HudView<Id>,
    Seq<EffectView<Id>>,
) {
    let none = Seq::<EffectView<Id>>::empty();
    match h.demo_loader {
        Some(_) => (HudView { demo_loader: None, ..h }, none),
        None => (HudView { demo_loader: Some(fresh_loader(h)), ..h }, none),
    }
}

/// The effect of the message `DemoLoaderChange`.
#[verifier::opaque]
pub open spec fn step_demo_loader_change<Id>(h: HudView<Id>, fresh: Id, now: Clock) -> (
    HudView<Id>,
    Seq<EffectView<Id>>,
) {
    let none = Seq::<EffectView<Id>>::empty();
    match h.demo_loader {
        Some(l) => (
            HudView { demo_loader: Some(DemoLoader { style: next_style(l.style), frame: 0, ..l }), ..h },
            none,
        ),
        None => (HudView { demo_loader: Some(fresh_loader(h)), ..h }, none),
    }
}

/// The effect of the message `DemoClaudeToggle`.
#[verifier::opaque]
pub open spec fn step_demo_claude_toggle<Id>(h: HudView<Id>, fresh: Id, now: Clock) -> (
    HudView<Id>,
    Seq<EffectView<Id>>,
) {
    let none = Seq::<EffectView<Id>>::empty();
    match h.demo_claude {
        Some(_) => {
            let (h1, e1) = close_modals_step(h);
            (HudView { demo_claude: None, ..h1 }, e1)
        },
        None => (HudView { demo_claude: Some(demo_widget_view()), ..h }, none),
    }
}

/// The effect of the message `ClaudeLiveToggle`.
#[verifier::opaque]
pub open spec fn step_claude_live_toggle<Id>(h: HudView<Id>, fresh: Id, now: Clock) -> (
    HudView<Id>,
    Seq<EffectView<Id>>,
) {
    let none = Seq::<EffectView<Id>>::empty();
    match h.claude {
        Some(_) => {
            let (h1, e1) = close_modals_step(h);
            (HudView { claude: None, ..h1 }, e1)
        },
        None => (
            HudView {
                claude: Some(WidgetView { sessions: Seq::empty(), logs: Seq::empty(), spinner_frame: 0 }),
                ..h
            },
            none,
        ),
    }
}

/// The effect of the message `FontChange`.
#[verifier::opaque]
pub open spec fn step_font_change<Id>(h: HudView<Id>, fresh: Id, now: Clock) -> (
    HudView<Id>,
    Seq<EffectView<Id>>,
) {
    let none = Seq::<EffectView<Id>>::empty();
    (
        HudView { font_index: ((h.font_index + 1) % (h.font_count as int)) as usize, ..h },
        none,
    )
}

/// The effect of the message `Tick`.
#[verifier::opaque]
pub open spec fn step_tick<Id>(h: HudView<Id>, fresh: Id, now: Clock) -> (
    HudView<Id>,
    Seq<EffectView<Id>>,
) {
    let none = Seq::<EffectView<Id>>::empty();
    (
        HudView {
            demo_loader: match h.demo_loader {
                Some(l) => Some(loader_ticked(l)),
                None => None,
            },
            demo_claude: match h.demo_claude {
                Some(w) => Some(tick_widget(w, now)),
                None => None,
            },
            claude: match h.claude {
                Some(w) => Some(tick_widget(w, now)),
                None => None,
            },
            ..h
        },
        none,
    )
}

/// The effect of the message `OpenSessionModal`.
#[verifier::opaque]
pub open spec fn step_open_session_modal<Id>(h: HudView<Id>, idx: usize, fresh: Id, now: Clock) -> (
    HudView<Id>,
    Seq<EffectView<Id>>,
) {
    let none = Seq::<EffectView<Id>>::empty();
    {
        let has_session = match active_widget(h) {
            Some(w) => idx < w.sessions.len(),
            None => false,
        };
        if h.mode != HudMode::Focused || h.modal is Some || !has_session {
            (h, none)
        } else {
            let (h1, e1) = close_archive_step(h);
            (
                HudView {
                    hovered_session: None,
                    surface_id: h1.surface_id,
                    modal: Some(
                        ModalState {
                            surface_id: fresh,
                            session_index: idx,
                            selected_entry: None,
                            hovered_entry: None,
                        },
                    ),
                    ..h1
                },
                e1 + seq![EffectView::Open { id: fresh, kind: SurfaceKind::Modal, output: h.target_output }],
            )
        }
    }
}

/// The effect of the message `CloseModal`.
#[verifier::opaque]
pub open spec fn step_close_modal<Id>(h: HudView<Id>, fresh: Id, now: Clock) -> (
    HudView<Id>,
    Seq<EffectView<Id>>,
) {
    close_modal_step(h)
}

/// The effect of the message `SelectActivity`.
#[verifier::opaque]
pub open spec fn step_select_activity<Id>(h: HudView<Id>, i: usize, fresh: Id, now: Clock) -> (
    HudView<Id>,
    Seq<EffectView<Id>>,
) {
    let none = Seq::<EffectView<Id>>::empty();
    match h.modal {
        Some(md) => (
            HudView {
                modal: Some(ModalState { selected_entry: toggled(md.selected_entry, i), ..md }),
                ..h
            },
            none,
        ),
        None => (h, none),
    }
}

/// The effect of the message `HoverSession`.
#[verifier::opaque]
pub open spec fn step_hover_session<Id>(h: HudView<Id>, i: usize, fresh: Id, now: Clock) -> (
    HudView<Id>,
    Seq<EffectView<Id>>,
) {
    let none = Seq::<EffectView<Id>>::empty();
    (HudView { hovered_session: Some(i), ..h }, none)
}

/// The effect of the message `UnhoverSession`.
#[verifier::opaque]
pub open spec fn step_unhover_session<Id>(h: HudView<Id>, i: usize, fresh: Id, now: Clock) -> (
    HudView<Id>,
    Seq<EffectView<Id>>,
) {
    let none = Seq::<EffectView<Id>>::empty();
    (
        HudView { hovered_session: unhovered(h.hovered_session, i), ..h },
        none,
    )
}

/// The effect of the message `HoverEntry`.
#[verifier::opaque]
pub open spec fn step_hover_entry<Id>(h: HudView<Id>, i: usize, fresh: Id, now: Clock) -> (
    HudView<Id>,
    Seq<EffectView<Id>>,
) {
    let none = Seq::<EffectView<Id>>::empty();
    match h.modal {
        Some(md) => (
            HudView { modal: Some(ModalState { hovered_entry: Some(i), ..md }), ..h },
            none,
        ),
        None => (h, none),
    }
}

/// The effect of the message `UnhoverEntry`.
#[verifier::opaque]
pub open spec fn step_unhover_entry<Id>(h: HudView<Id>, i: usize, fresh: Id, now: Clock) -> (
    HudView<Id>,
    Seq<EffectView<Id>>,
) {
    let none = Seq::<EffectView<Id>>::empty();
    match h.modal {
        Some(md) => (
            HudView {
                modal: Some(ModalState { hovered_entry: unhovered(md.hovered_entry, i), ..md }),
                ..h
            },
            none,
        ),
        None => (h, none),
    }
}

/// The effect of the message `WatcherEvent`.
#[verifier::opaque]
pub open spec fn step_watcher_event<Id>(h: HudView<Id>, t: TaggedView, fresh: Id, now: Clock) -> (
    HudView<Id>,
    Seq<EffectView<Id>>,
) {
    let none = Seq::<EffectView<Id>>::empty();
    match h.claude {
        Some(w) => (HudView { claude: Some(apply_event(w, t, now)), ..h }, none),
        None => (h, none),
    }
}

/// The effect of the message `CopySessionId`.
#[verifier::opaque]
pub open spec fn step_copy_session_id<Id>(h: HudView<Id>, s: Seq<char>, fresh: Id, now: Clock) -> (
    HudView<Id>,
    Seq<EffectView<Id>>,
) {
    (h, seq![EffectView::Copy(s)])
}

/// The effect of the message `ThemeSet`.
#[verifier::opaque]
pub open spec fn step_theme_set<Id>(h: HudView<Id>, mode: ThemeMode, fresh: Id, now: Clock) -> (
    HudView<Id>,
    Seq<EffectView<Id>>,
) {
    let none = Seq::<EffectView<Id>>::empty();
    {
        let h1 = HudView {
            theme_mode: mode,
            backdrop: if mode == ThemeMode::Adaptive {
                true
            } else {
                h.backdrop
            },
            ..h
        };
        match fixed_dark_of(mode) {
            Some(d) => (HudView { dark: d, ..h1 }, none),
            None => (h1, seq![EffectView::ProbeSystemTheme]),
        }
    }
}

/// The effect of the message `ThemeToggle`.
#[verifier::opaque]
pub open spec fn step_theme_toggle<Id>(h: HudView<Id>, fresh: Id, now: Clock) -> (
    HudView<Id>,
    Seq<EffectView<Id>>,
) {
    let none = Seq::<EffectView<Id>>::empty();
    (HudView { dark: !h.dark, ..h }, none)
}

/// The effect of the message `ThemeRefresh`.
#[verifier::opaque]
pub open spec fn step_theme_refresh<Id>(h: HudView<Id>, fresh: Id, now: Clock) -> (
    HudView<Id>,
    Seq<EffectView<Id>>,
) {
    let none = Seq::<EffectView<Id>>::empty();
    match h.theme_mode {
        ThemeMode::Auto => (h, seq![EffectView::ProbeSystemTheme]),
        ThemeMode::Adaptive => (h, seq![EffectView::SampleBackground]),
        _ => (h, none),
    }
}

/// The effect of the message `BackdropToggle`.
#[verifier::opaque]
pub open spec fn step_backdrop_toggle<Id>(h: HudView<Id>, fresh: Id, now: Clock) -> (
    HudView<Id>,
    Seq<EffectView<Id>>,
) {
    let none = Seq::<EffectView<Id>>::empty();
    (HudView { backdrop: !h.backdrop, ..h }, none)
}

/// The effect of the message `ScreenCycle`.
#[verifier::opaque]
pub open spec fn step_screen_cycle<Id>(h: HudView<Id>, outputs: Seq<Seq<char>>, fresh: Id, now: Clock) -> (
    HudView<Id>,
    Seq<EffectView<Id>>,
) {
    let none = Seq::<EffectView<Id>>::empty();
    if outputs.len() == 0 {
        (h, none)
    } else {
        let next = outputs[next_output_index(outputs, h.target_output)];
        recreate_step(HudView { target_output: Some(next), ..h }, fresh)
    }
}

/// The effect of the message `ScreenSet`.
#[verifier::opaque]
pub open spec fn step_screen_set<Id>(h: HudView<Id>, name: Seq<char>, fresh: Id, now: Clock) -> (
    HudView<Id>,
    Seq<EffectView<Id>>,
) {
    recreate_step(HudView { target_output: Some(name), ..h }, fresh)
}

/// The effect of the message `OpenArchiveModal`.
#[verifier::opaque]
pub open spec fn step_open_archive_modal<Id>(h: HudView<Id>, fresh: Id, now: Clock) -> (
    HudView<Id>,
    Seq<EffectView<Id>>,
) {
    let none = Seq::<EffectView<Id>>::empty();
    {
        let any = match active_widget(h) {
            Some(w) => has_archived(w),
            None => false,
        };
        if h.mode != HudMode::Focused || h.archive_modal is Some || !any {
            (h, none)
        } else {
            let (h1, e1) = close_modal_step(h);
            (
                HudView {
                    archive_modal: Some(
                        ArchiveModalState {
                            surface_id: fresh,
                            selected_session: None,
                            selected_entry: None,
                            hovered_session: None,
                            hovered_entry: None,
                        },
                    ),
                    ..h1
                },
                e1 + seq![EffectView::Open { id: fresh, kind: SurfaceKind::Modal, output: h.target_output }],
            )
        }
    }
}

/// The effect of the message `CloseArchiveModal`.
#[verifier::opaque]
pub open spec fn step_close_archive_modal<Id>(h: HudView<Id>, fresh: Id, now: Clock) -> (
    HudView<Id>,
    Seq<EffectView<Id>>,
) {
    close_archive_step(h)
}

/// The effect of the message `HoverArchive`.
#[verifier::opaque]
pub open spec fn step_hover_archive<Id>(h: HudView<Id>, fresh: Id, now: Clock) -> (
    HudView<Id>,
    Seq<EffectView<Id>>,
) {
    let none = Seq::<EffectView<Id>>::empty();
    (HudView { hovered_archive: true, ..h }, none)
}

/// The effect of the message `UnhoverArchive`.
#[verifier::opaque]
pub open spec fn step_unhover_archive<Id>(h: HudView<Id>, fresh: Id, now: Clock) -> (
    HudView<Id>,
    Seq<EffectView<Id>>,
) {
    let none = Seq::<EffectView<Id>>::empty();
    (HudView { hovered_archive: false, ..h }, none)
}

/// The effect of the message `SelectArchivedSession`.
#[verifier::opaque]
pub open spec fn step_select_archived_session<Id>(h: HudView<Id>, i: usize, fresh: Id, now: Clock) -> (
    HudView<Id>,
    Seq<EffectView<Id>>,
) {
    let none = Seq::<EffectView<Id>>::empty();
    match h.archive_modal {
        Some(a) => (
            HudView {
                archive_modal: Some(
                    ArchiveModalState {
                        selected_session: toggled(a.selected_session, i),
                        selected_entry: None,
                        ..a
                    },
                ),
                ..h
            },
            none,
        ),
        None => (h, none),
    }
}

/// The effect of the message `HoverArchivedSession`.
#[verifier::opaque]
pub open spec fn step_hover_archived_session<Id>(h: HudView<Id>, i: usize, fresh: Id, now: Clock) -> (
    HudView<Id>,
    Seq<EffectView<Id>>,
) {
    let none = Seq::<EffectView<Id>>::empty();
    match h.archive_modal {
        Some(a) => (
            HudView { archive_modal: Some(ArchiveModalState { hovered_session: Some(i), ..a }), ..h },
            none,
        ),
        None => (h, none),
    }
}

/// The effect of the message `UnhoverArchivedSession`.
#[verifier::opaque]
pub open spec fn step_unhover_archived_session<Id>(h: HudView<Id>, i: usize, fresh: Id, now: Clock) -> (
    HudView<Id>,
    Seq<EffectView<Id>>,
) {
    let none = Seq::<EffectView<Id>>::empty();
    match h.archive_modal {
        Some(a) => (
            HudView {
                archive_modal: Some(
                    ArchiveModalState { hovered_session: unhovered(a.hovered_session, i), ..a },
                ),
                ..h
            },
            none,
        ),
        None => (h, none),
    }
}

/// The effect of the message `SelectArchivedEntry`.
#[verifier::opaque]
pub open spec fn step_select_archived_entry<Id>(h: HudView<Id>, i: usize, fresh: Id, now: Clock) -> (
    HudView<Id>,
    Seq<EffectView<Id>>,
) {
    let none = Seq::<EffectView<Id>>::empty();
    match h.archive_modal {
        Some(a) => (
            HudView {
                archive_modal: Some(
                    ArchiveModalState { selected_entry: toggled(a.selected_entry, i), ..a },
                ),
                ..h
            },
            none,
        ),
        None => (h, none),
    }
}

/// The effect of the message `HoverArchivedEntry`.
#[verifier::opaque]
pub open spec fn step_hover_archived_entry<Id>(h: HudView<Id>, i: usize, fresh: Id, now: Clock) -> (
    HudView<Id>,
    Seq<EffectView<Id>>,
) {
    let none = Seq::<EffectView<Id>>::empty();
    match h.archive_modal {
        Some(a) => (
            HudView { archive_modal: Some(ArchiveModalState { hovered_entry: Some(i), ..a }), ..h },
            none,
        ),
        None => (h, none),
    }
}

/// The effect of the message `UnhoverArchivedEntry`.
#[verifier::opaque]
pub open spec fn step_unhover_archived_entry<Id>(h: HudView<Id>, i: usize, fresh: Id, now: Clock) -> (
    HudView<Id>,
    Seq<EffectView<Id>>,
) {
    let none = Seq::<EffectView<Id>>::empty();
    match h.archive_modal {
        Some(a) => (
            HudView {
                archive_modal: Some(
                    ArchiveModalState { hovered_entry: unhovered(a.hovered_entry, i), ..a },
                ),
                ..h
            },
            none,
        ),
        None => (h, none),
    }
}

/// The effect of the message `ShellEvent`.
#[verifier::opaque]
pub open spec fn step_shell_event<Id>(h: HudView<Id>, e: ShellEventView, fresh: Id, now: Clock) -> (
    HudView<Id>,
    Seq<EffectView<Id>>,
) {
    let none = Seq::<EffectView<Id>>::empty();
    match h.shells {
        Some(s) => (HudView { shells: Some(shell_step(s, e, now)), ..h }, none),
        None => (h, none),
    }
}

/// The effect of the message `ShellToggle`.
#[verifier::opaque]
pub open spec fn step_shell_toggle<Id>(h: HudView<Id>, fresh: Id, now: Clock) -> (
    HudView<Id>,
    Seq<EffectView<Id>>,
) {
    let none = Seq::<EffectView<Id>>::empty();
    match h.shells {
        Some(_) => (HudView { shells: None, ..h }, none),
        None => (
            HudView {
                shells: Some(ShellStateView { instances: Seq::empty(), most_recent: None }),
                ..h
            },
            none,
        ),
    }
}

/// The effect of the message `SetAttention`.
#[verifier::opaque]
pub open spec fn step_set_attention<Id>(h: HudView<Id>, id: Seq<char>, value: bool, fresh: Id, now: Clock) -> (
    HudView<Id>,
    Seq<EffectView<Id>>,
) {
    let none = Seq::<EffectView<Id>>::empty();
    match h.claude {
        Some(w) => (HudView { claude: Some(attention_set(w, id, value)), ..h }, none),
        None => (h, none),
    }
}

/// The state and actions after the message `m` at `now`; `fresh` is the id for a surface
/// the message opens.
pub open spec fn hud_step<Id>(h: HudView<Id>, m: MsgView, fresh: Id, now: Clock) -> (
    HudView<Id>,
    Seq<EffectView<Id>>,
) {
    match m {
        MsgView::ToggleVisibility => step_toggle_visibility(h, fresh, now),
        MsgView::ToggleFocus => step_toggle_focus(h, fresh, now),
        MsgView::DemoLoaderToggle => step_demo_loader_toggle(h, fresh, now),
        MsgView::DemoLoaderChange => step_demo_loader_change(h, fresh, now),
        MsgView::DemoClaudeToggle => step_demo_claude_toggle(h, fresh, now),
        MsgView::ClaudeLiveToggle => step_claude_live_toggle(h, fresh, now),
        MsgView::FontChange => step_font_change(h, fresh, now),
        MsgView::Tick => step_tick(h, fresh, now),
        MsgView::OpenSessionModal(idx) => step_open_session_modal(h, idx, fresh, now),
        MsgView::CloseModal => step_close_modal(h, fresh, now),
        MsgView::SelectActivity(i) => step_select_activity(h, i, fresh, now),
        MsgView::HoverSession(i) => step_hover_session(h, i, fresh, now),
        MsgView::UnhoverSession(i) => step_unhover_session(h, i, fresh, now),
        MsgView::HoverEntry(i) => step_hover_entry(h, i, fresh, now),
        MsgView::UnhoverEntry(i) => step_unhover_entry(h, i, fresh, now),
        MsgView::WatcherEvent(t) => step_watcher_event(h, t, fresh, now),
        MsgView::CopySessionId(s) => step_copy_session_id(h, s, fresh, now),
        MsgView::ThemeSet(mode) => step_theme_set(h, mode, fresh, now),
        MsgView::ThemeToggle => step_theme_toggle(h, fresh, now),
        MsgView::ThemeRefresh => step_theme_refresh(h, fresh, now),
        MsgView::BackdropToggle => step_backdrop_toggle(h, fresh, now),
        MsgView::ScreenCycle(outputs) => step_screen_cycle(h, outputs, fresh, now),
        MsgView::ScreenSet(name) => step_screen_set(h, name, fresh, now),
        MsgView::OpenArchiveModal => step_open_archive_modal(h, fresh, now),
        MsgView::CloseArchiveModal => step_close_archive_modal(h, fresh, now),
        MsgView::HoverArchive => step_hover_archive(h, fresh, now),
        MsgView::UnhoverArchive => step_unhover_archive(h, fresh, now),
        MsgView::SelectArchivedSession(i) => step_select_archived_session(h, i, fresh, now),
        MsgView::HoverArchivedSession(i) => step_hover_archived_session(h, i, fresh, now),
        MsgView::UnhoverArchivedSession(i) => step_unhover_archived_session(h, i, fresh, now),
        MsgView::SelectArchivedEntry(i) => step_select_archived_entry(h, i, fresh, now),
        MsgView::HoverArchivedEntry(i) => step_hover_archived_entry(h, i, fresh, now),
        MsgView::UnhoverArchivedEntry(i) => step_unhover_archived_entry(h, i, fresh, now),
        MsgView::ShellEvent(e) => step_shell_event(h, e, fresh, now),
        MsgView::ShellToggle => step_shell_toggle(h, fresh, now),
        MsgView::SetAttention(id, value) => step_set_attention(h, id, value, fresh, now),
    }
}

/// The state the HUD starts in: visible (on `target_output`, with the overlay `fresh`),
/// dark, with the live widget when the agent is installed and the shell widgets when
/// they are configured.
pub open spec fn initial_hud<Id>(
    fresh: Id,
    target_output: Option<Seq<char>>,
    claude_installed: bool,
    shells_configured: bool,
    font_count: usize,
    gif_frame_count: usize,
    svg_frame_count: usize,
) -> HudView<Id> {
    HudView {
        mode: HudMode::Visible,
        surface_id: Some(fresh),
        font_index: 0,
        font_count,
        gif_frame_count,
        svg_frame_count,
        demo_loader: None,
        demo_claude: None,
        claude: if claude_installed {
            Some(WidgetView { sessions: Seq::empty(), logs: Seq::empty(), spinner_frame: 0 })
        } else {
            None
        },
        modal: None,
        archive_modal: None,
        hovered_session: None,
        hovered_archive: false,
        theme_mode: ThemeMode::Dark,
        dark: true,
        backdrop: false,
        target_output,
        shells: if shells_configured {
            Some(ShellStateView { instances: Seq::empty(), most_recent: None })
        } else {
            None
        },
    }
}

/// Some session of `sessions` is archived.
fn any_archived(sessions: &Vec<crate::session::Session>) -> (r: bool)
    ensures
        r == exists|i: int| 0 <= i < sessions@.len() && (#[trigger] sessions_view(sessions@)[i]).archived,
{
    let ghost sv = sessions_view(sessions@);
    let mut i: usize = 0;
    while i < sessions.len()
        invariant
            0 <= i <= sessions@.len(),
            sv == sessions_view(sessions@),
            forall|j: int| 0 <= j < i ==> !(#[trigger] sv[j]).archived,
        decreases sessions.len() - i,
    {
        if sessions[i].archived {
            assert(sv[i as int].archived);
            return true;
        }
        i += 1;
    }
    false
}

/// The first position of `name` in `outputs`.
fn output_position_exec(outputs: &Vec<String>, name: &String) -> (r: Option<usize>)
    ensures
        match r {
            Some(k) => k < outputs@.len() && output_position(strings_view(outputs@), name@) == Some(
                k as int,
            ),
            None => output_position(strings_view(outputs@), name@) is None,
        },
{
    let ghost all = strings_view(outputs@);
    let mut i: usize = 0;
    assert(all.take(0) =~= Seq::<Seq<char>>::empty());
    while i < outputs.len()
        invariant
            0 <= i <= outputs@.len(),
            all == strings_view(outputs@),
            output_position(all.take(i as int), name@) is None,
        decreases outputs.len() - i,
    {
        assert(all.take(i + 1).drop_last() =~= all.take(i as int));
        assert(all.take(i + 1).last() == outputs@[i as int]@);
        if outputs[i] == *name {
            proof {
                lemma_position_prefix(all, i as int + 1, name@);
            }
            return Some(i);
        }
        i += 1;
    }
    assert(all.take(outputs@.len() as int) =~= all);
    None
}

/// A position found in a prefix is the position in the whole list.
proof fn lemma_position_prefix(all: Seq<Seq<char>>, n: int, name: Seq<char>)
    requires
        0 <= n <= all.len(),
        output_position(all.take(n), name) is Some,
    ensures
        output_position(all, name) == output_position(all.take(n), name),
    decreases all.len(),
{
    if n < all.len() {
        assert(all.drop_last().take(n) =~= all.take(n));
        lemma_position_prefix(all.drop_last(), n, name);
    } else {
        assert(all.take(n) =~= all);
    }
}

/// A copy of an optional string.
fn copy_opt(s: &Option<String>) -> (r: Option<String>)
    ensures
        opt_view(r) == opt_view(*s),
{
    match s {
        Some(t) => Some(t.clone()),
        None => None,
    }
}

impl<Id: Copy> Hud<Id> {
    /// The HUD at start-up (see `initial_hud`), and the action that opens its overlay.
    pub fn new(
        fresh: Id,
        target_output: Option<String>,
        claude_installed: bool,
        shells_configured: bool,
        font_count: usize,
        gif_frame_count: usize,
        svg_frame_count: usize,
    ) -> (r: (Self, Vec<Effect<Id>>))
        requires
            font_count > 0,
        ensures
            r.0@ == initial_hud(
                fresh,
                opt_view(target_output),
                claude_installed,
                shells_configured,
                font_count,
                gif_frame_count,
                svg_frame_count,
            ),
            hud_wf(r.0@),
            effects_view(r.1@) == seq![
                EffectView::Open {
                    id: fresh,
                    kind: SurfaceKind::Overlay,
                    output: opt_view(target_output),
                },
            ],
    {
        let output = copy_opt(&target_output);
        let claude = if claude_installed {
            Some(ClaudeWidget::new())
        } else {
            None
        };
        let shells = if shells_configured {
            Some(ShellState::default())
        } else {
            None
        };
        let hud = Hud {
            mode: HudMode::Visible,
            surface_id: Some(fresh),
            font_index: 0,
            font_count,
            gif_frame_count,
            svg_frame_count,
            demo_loader: None,
            demo_claude: None,
            claude,
            modal: None,
            archive_modal: None,
            hovered_session: None,
            hovered_archive: false,
            theme_mode: ThemeMode::Dark,
            dark: true,
            backdrop: false,
            target_output,
            shells,
        };
        let mut effects: Vec<Effect<Id>> = Vec::new();
        effects.push(Effect::Open { id: fresh, kind: SurfaceKind::Overlay, output });
        assert(effects_view(effects@) =~= seq![
            EffectView::Open { id: fresh, kind: SurfaceKind::Overlay, output: opt_view(hud.target_output) },
        ]);
        assert(hud@.claude == initial_hud(fresh, opt_view(hud.target_output), claude_installed, shells_configured, font_count, gif_frame_count, svg_frame_count).claude);
        (hud, effects)
    }

    /// The desktop reported its theme (after `ProbeSystemTheme` or `SampleBackground`).
    pub fn system_theme(&mut self, dark: bool)
        ensures
            final(self)@ == (HudView { dark, ..old(self)@ }),
    {
        self.dark = dark;
    }

    /// Closes the session modal, if open.
    fn close_modal(&mut self) -> (e: Vec<Effect<Id>>)
        ensures
            (final(self)@, effects_view(e@)) == close_modal_step(old(self)@),
    {
        let mut e: Vec<Effect<Id>> = Vec::new();
        match self.modal.take() {
            Some(m) => {
                e.push(Effect::Remove(m.surface_id));
                assert(effects_view(e@) =~= seq![EffectView::Remove(m.surface_id)]);
            },
            None => {
                assert(effects_view(e@) =~= Seq::<EffectView<Id>>::empty());
            },
        }
        e
    }

    /// Closes the archive modal, if open.
    fn close_archive(&mut self) -> (e: Vec<Effect<Id>>)
        ensures
            (final(self)@, effects_view(e@)) == close_archive_step(old(self)@),
    {
        let mut e: Vec<Effect<Id>> = Vec::new();
        match self.archive_modal.take() {
            Some(m) => {
                e.push(Effect::Remove(m.surface_id));
                assert(effects_view(e@) =~= seq![EffectView::Remove(m.surface_id)]);
            },
            None => {
                assert(effects_view(e@) =~= Seq::<EffectView<Id>>::empty());
            },
        }
        e
    }

    /// Closes both modals.
    fn close_modals(&mut self) -> (e: Vec<Effect<Id>>)
        ensures
            (final(self)@, effects_view(e@)) == close_modals_step(old(self)@),
    {
        let mut e = self.close_modal();
        let mut e2 = self.close_archive();
        let ghost v1 = effects_view(e@);
        let ghost v2 = effects_view(e2@);
        e.append(&mut e2);
        assert(effects_view(e@) =~= v1 + v2);
        e
    }

    /// Removes the overlay's surface, if there is one.
    fn drop_surface(&mut self) -> (e: Vec<Effect<Id>>)
        ensures
            (final(self)@, effects_view(e@)) == drop_surface_step(old(self)@),
    {
        let mut e: Vec<Effect<Id>> = Vec::new();
        match self.surface_id.take() {
            Some(id) => {
                e.push(Effect::Remove(id));
                assert(effects_view(e@) =~= seq![EffectView::Remove(id)]);
            },
            None => {
                assert(effects_view(e@) =~= Seq::<EffectView<Id>>::empty());
            },
        }
        e
    }

    /// Opens the overlay as a surface of kind `kind` with id `fresh`.
    fn open(&mut self, kind: SurfaceKind, fresh: Id) -> (e: Vec<Effect<Id>>)
        ensures
            (final(self)@, effects_view(e@)) == open_step(old(self)@, kind, fresh),
    {
        let mut e: Vec<Effect<Id>> = Vec::new();
        e.push(Effect::Open { id: fresh, kind, output: copy_opt(&self.target_output) });
        self.surface_id = Some(fresh);
        assert(effects_view(e@) =~= seq![
            EffectView::Open { id: fresh, kind, output: opt_view(self.target_output) },
        ]);
        e
    }

    /// Opens the overlay anew, as the mode asks.
    fn recreate(&mut self, fresh: Id) -> (e: Vec<Effect<Id>>)
        ensures
            (final(self)@, effects_view(e@)) == recreate_step(old(self)@, fresh),
    {
        let mut e = self.close_modals();
        let ghost v1 = effects_view(e@);
        let mut e2 = self.drop_surface();
        let ghost v2 = effects_view(e2@);
        match self.mode {
            HudMode::Hidden => {},
            HudMode::Visible => {
                let mut e3 = self.open(SurfaceKind::Overlay, fresh);
                let ghost v3 = effects_view(e3@);
                e.append(&mut e2);
                e.append(&mut e3);
                assert(effects_view(e@) =~= v1 + v2 + v3);
            },
            HudMode::Focused => {
                let mut e3 = self.open(SurfaceKind::Interactive, fresh);
                let ghost v3 = effects_view(e3@);
                e.append(&mut e2);
                e.append(&mut e3);
                assert(effects_view(e@) =~= v1 + v2 + v3);
            },
        }
        e
    }

    /// The widget shown: the live one, else the demo.
    fn active(&self) -> (r: Option<&ClaudeWidget>)
        ensures
            match r {
                Some(w) => active_widget(self@) == Some(w@),
                None => active_widget(self@) is None,
            },
    {
        match &self.claude {
            Some(w) => Some(w),
            None => match &self.demo_claude {
                Some(w) => Some(w),
                None => None,
            },
        }
    }

    /// Handles the message `ToggleVisibility`.
    fn on_toggle_visibility(&mut self, fresh: Id, now: Clock) -> (effects: Vec<Effect<Id>>)
        requires
            hud_wf(old(self)@),
        ensures
            hud_wf(final(self)@),
            (final(self)@, effects_view(effects@)) == step_toggle_visibility(old(self)@, fresh, now),
    {
        reveal(step_toggle_visibility);
        match self.mode {
            HudMode::Hidden => {
                let e = self.open(SurfaceKind::Overlay, fresh);
                self.mode = HudMode::Visible;
                e
            },
            _ => {
                let mut e = self.close_modals();
                let ghost v1 = effects_view(e@);
                let mut e2 = self.drop_surface();
                let ghost v2 = effects_view(e2@);
                self.mode = HudMode::Hidden;
                e.append(&mut e2);
                assert(effects_view(e@) =~= v1 + v2);
                e
            },
        }
    }

    /// Handles the message `ToggleFocus`.
    fn on_toggle_focus(&mut self, fresh: Id, now: Clock) -> (effects: Vec<Effect<Id>>)
        requires
            hud_wf(old(self)@),
        ensures
            hud_wf(final(self)@),
            (final(self)@, effects_view(effects@)) == step_toggle_focus(old(self)@, fresh, now),
    {
        reveal(step_toggle_focus);
        match self.mode {
            HudMode::Hidden => {
                let e = self.open(SurfaceKind::Interactive, fresh);
                self.mode = HudMode::Focused;
                e
            },
            HudMode::Visible => {
                let mut e = self.drop_surface();
                let ghost v1 = effects_view(e@);
                let mut e2 = self.open(SurfaceKind::Interactive, fresh);
                let ghost v2 = effects_view(e2@);
                self.mode = HudMode::Focused;
                e.append(&mut e2);
                assert(effects_view(e@) =~= v1 + v2);
                e
            },
            HudMode::Focused => {
                let mut e = self.close_modals();
                let ghost v1 = effects_view(e@);
                let mut e2 = self.drop_surface();
                let ghost v2 = effects_view(e2@);
                let mut e3 = self.open(SurfaceKind::Overlay, fresh);
                let ghost v3 = effects_view(e3@);
                self.mode = HudMode::Visible;
                e.append(&mut e2);
                e.append(&mut e3);
                assert(effects_view(e@) =~= v1 + v2 + v3);
                e
            },
        }
    }

    /// Handles the message `OpenSessionModal`.
    fn on_open_session_modal(&mut self, idx: usize, fresh: Id, now: Clock) -> (effects: Vec<Effect<Id>>)
        requires
            hud_wf(old(self)@),
        ensures
            hud_wf(final(self)@),
            (final(self)@, effects_view(effects@)) == step_open_session_modal(old(self)@, idx, fresh, now),
    {
        reveal(step_open_session_modal);
        let ghost h0 = self@;
        let none: Vec<Effect<Id>> = Vec::new();
        assert(effects_view(none@) =~= Seq::<EffectView<Id>>::empty());
        if self.mode != HudMode::Focused || self.modal.is_some() {
            return none;
        }
        let has_session = match self.active() {
            Some(w) => idx < w.sessions.len(),
            None => false,
        };
        if !has_session {
            return none;
        }
        let mut e = self.close_archive();
        let ghost v1 = effects_view(e@);
        self.hovered_session = None;
        e.push(Effect::Open { id: fresh, kind: SurfaceKind::Modal, output: copy_opt(&self.target_output) });
        self.modal = Some(
            ModalState { surface_id: fresh, session_index: idx, selected_entry: None, hovered_entry: None },
        );
        assert(effects_view(e@) =~= v1 + seq![
            EffectView::Open { id: fresh, kind: SurfaceKind::Modal, output: h0.target_output },
        ]);
        e
    }

    /// Handles the message `CloseModal`.
    fn on_close_modal(&mut self, fresh: Id, now: Clock) -> (effects: Vec<Effect<Id>>)
        requires
            hud_wf(old(self)@),
        ensures
            hud_wf(final(self)@),
            (final(self)@, effects_view(effects@)) == step_close_modal(old(self)@, fresh, now),
    {
        reveal(step_close_modal);
        self.close_modal()
    }

    /// Handles the message `ScreenCycle`.
    fn on_screen_cycle(&mut self, outputs: Vec<String>, fresh: Id, now: Clock) -> (effects: Vec<Effect<Id>>)
        requires
            hud_wf(old(self)@),
        ensures
            hud_wf(final(self)@),
            (final(self)@, effects_view(effects@)) == step_screen_cycle(old(self)@, strings_view(outputs@), fresh, now),
    {
        reveal(step_screen_cycle);
        let none: Vec<Effect<Id>> = Vec::new();
        assert(effects_view(none@) =~= Seq::<EffectView<Id>>::empty());
        if outputs.len() == 0 {
            return none;
        }
        let next: usize = match &self.target_output {
            Some(name) => match output_position_exec(&outputs, name) {
                Some(k) => (k + 1) % outputs.len(),
                None => 0,
            },
            None => 0,
        };
        self.target_output = Some(outputs[next].clone());
        self.recreate(fresh)
    }

    /// Handles the message `ScreenSet`.
    fn on_screen_set(&mut self, name: String, fresh: Id, now: Clock) -> (effects: Vec<Effect<Id>>)
        requires
            hud_wf(old(self)@),
        ensures
            hud_wf(final(self)@),
            (final(self)@, effects_view(effects@)) == step_screen_set(old(self)@, name@, fresh, now),
    {
        reveal(step_screen_set);
        self.target_output = Some(name);
        self.recreate(fresh)
    }

    /// Handles the message `OpenArchiveModal`.
    fn on_open_archive_modal(&mut self, fresh: Id, now: Clock) -> (effects: Vec<Effect<Id>>)
        requires
            hud_wf(old(self)@),
        ensures
            hud_wf(final(self)@),
            (final(self)@, effects_view(effects@)) == step_open_archive_modal(old(self)@, fresh, now),
    {
        reveal(step_open_archive_modal);
        let ghost h0 = self@;
        let none: Vec<Effect<Id>> = Vec::new();
        assert(effects_view(none@) =~= Seq::<EffectView<Id>>::empty());
        if self.mode != HudMode::Focused || self.archive_modal.is_some() {
            return none;
        }
        let any = match self.active() {
            Some(w) => any_archived(&w.sessions),
            None => false,
        };
        if !any {
            return none;
        }
        let mut e = self.close_modal();
        let ghost v1 = effects_view(e@);
        e.push(Effect::Open { id: fresh, kind: SurfaceKind::Modal, output: copy_opt(&self.target_output) });
        self.archive_modal = Some(
            ArchiveModalState {
                surface_id: fresh,
                selected_session: None,
                selected_entry: None,
                hovered_session: None,
                hovered_entry: None,
            },
        );
        assert(effects_view(e@) =~= v1 + seq![
            EffectView::Open { id: fresh, kind: SurfaceKind::Modal, output: h0.target_output },
        ]);
        e
    }

    /// Handles the message `CloseArchiveModal`.
    fn on_close_archive_modal(&mut self, fresh: Id, now: Clock) -> (effects: Vec<Effect<Id>>)
        requires
            hud_wf(old(self)@),
        ensures
            hud_wf(final(self)@),
            (final(self)@, effects_view(effects@)) == step_close_archive_modal(old(self)@, fresh, now),
    {
        reveal(step_close_archive_modal);
        self.close_archive()
    }

    /// Handles the message `DemoClaudeToggle`.
    fn on_demo_claude_toggle(&mut self, fresh: Id, now: Clock) -> (effects: Vec<Effect<Id>>)
        requires
            hud_wf(old(self)@),
        ensures
            hud_wf(final(self)@),
            (final(self)@, effects_view(effects@)) == step_demo_claude_toggle(old(self)@, fresh, now),
    {
        reveal(step_demo_claude_toggle);
        let none: Vec<Effect<Id>> = Vec::new();
        assert(effects_view(none@) =~= Seq::<EffectView<Id>>::empty());
        if self.demo_claude.is_some() {
            let e = self.close_modals();
            self.demo_claude = None;
            e
        } else {
            self.demo_claude = Some(create_demo_widget());
            none
        }
    }

    /// Handles the message `ClaudeLiveToggle`.
    fn on_claude_live_toggle(&mut self, fresh: Id, now: Clock) -> (effects: Vec<Effect<Id>>)
        requires
            hud_wf(old(self)@),
        ensures
            hud_wf(final(self)@),
            (final(self)@, effects_view(effects@)) == step_claude_live_toggle(old(self)@, fresh, now),
    {
        reveal(step_claude_live_toggle);
        let none: Vec<Effect<Id>> = Vec::new();
        assert(effects_view(none@) =~= Seq::<EffectView<Id>>::empty());
        if self.claude.is_some() {
            let e = self.close_modals();
            self.claude = None;
            e
        } else {
            self.claude = Some(ClaudeWidget::new());
            none
        }
    }

    /// Handles the message `SelectActivity`.
    fn on_select_activity(&mut self, i: usize, fresh: Id, now: Clock) -> (effects: Vec<Effect<Id>>)
        requires
            hud_wf(old(self)@),
        ensures
            hud_wf(final(self)@),
            (final(self)@, effects_view(effects@)) == step_select_activity(old(self)@, i, fresh, now),
    {
        reveal(step_select_activity);
        let none: Vec<Effect<Id>> = Vec::new();
        assert(effects_view(none@) =~= Seq::<EffectView<Id>>::empty());
        match &mut self.modal {
            Some(md) => {
                md.selected_entry = match md.selected_entry {
                    Some(j) => if j == i {
                        None
                    } else {
                        Some(i)
                    },
                    None => Some(i),
                };
            },
            None => {},
        }
        none
    }

    /// Handles the message `HoverSession`.
    fn on_hover_session(&mut self, i: usize, fresh: Id, now: Clock) -> (effects: Vec<Effect<Id>>)
        requires
            hud_wf(old(self)@),
        ensures
            hud_wf(final(self)@),
            (final(self)@, effects_view(effects@)) == step_hover_session(old(self)@, i, fresh, now),
    {
        reveal(step_hover_session);
        let none: Vec<Effect<Id>> = Vec::new();
        assert(effects_view(none@) =~= Seq::<EffectView<Id>>::empty());
        self.hovered_session = Some(i);
        none
    }

    /// Handles the message `UnhoverSession`.
    fn on_unhover_session(&mut self, i: usize, fresh: Id, now: Clock) -> (effects: Vec<Effect<Id>>)
        requires
            hud_wf(old(self)@),
        ensures
            hud_wf(final(self)@),
            (final(self)@, effects_view(effects@)) == step_unhover_session(old(self)@, i, fresh, now),
    {
        reveal(step_unhover_session);
        let none: Vec<Effect<Id>> = Vec::new();
        assert(effects_view(none@) =~= Seq::<EffectView<Id>>::empty());
        match self.hovered_session {
            Some(j) => if j == i {
                self.hovered_session = None;
            },
            None => {},
        }
        none
    }

    /// Handles the message `HoverEntry`.
    fn on_hover_entry(&mut self, i: usize, fresh: Id, now: Clock) -> (effects: Vec<Effect<Id>>)
        requires
            hud_wf(old(self)@),
        ensures
            hud_wf(final(self)@),
            (final(self)@, effects_view(effects@)) == step_hover_entry(old(self)@, i, fresh, now),
    {
        reveal(step_hover_entry);
        let none: Vec<Effect<Id>> = Vec::new();
        assert(effects_view(none@) =~= Seq::<EffectView<Id>>::empty());
        match &mut self.modal {
            Some(md) => {
                md.hovered_entry = Some(i);
            },
            None => {},
        }
        none
    }

    /// Handles the message `UnhoverEntry`.
    fn on_unhover_entry(&mut self, i: usize, fresh: Id, now: Clock) -> (effects: Vec<Effect<Id>>)
        requires
            hud_wf(old(self)@),
        ensures
            hud_wf(final(self)@),
            (final(self)@, effects_view(effects@)) == step_unhover_entry(old(self)@, i, fresh, now),
    {
        reveal(step_unhover_entry);
        let none: Vec<Effect<Id>> = Vec::new();
        assert(effects_view(none@) =~= Seq::<EffectView<Id>>::empty());
        match &mut self.modal {
            Some(md) => match md.hovered_entry {
                Some(j) => if j == i {
                    md.hovered_entry = None;
                },
                None => {},
            },
            None => {},
        }
        none
    }

    /// Handles the message `HoverArchive`.
    fn on_hover_archive(&mut self, fresh: Id, now: Clock) -> (effects: Vec<Effect<Id>>)
        requires
            hud_wf(old(self)@),
        ensures
            hud_wf(final(self)@),
            (final(self)@, effects_view(effects@)) == step_hover_archive(old(self)@, fresh, now),
    {
        reveal(step_hover_archive);
        let none: Vec<Effect<Id>> = Vec::new();
        assert(effects_view(none@) =~= Seq::<EffectView<Id>>::empty());
        self.hovered_archive = true;
        none
    }

    /// Handles the message `UnhoverArchive`.
    fn on_unhover_archive(&mut self, fresh: Id, now: Clock) -> (effects: Vec<Effect<Id>>)
        requires
            hud_wf(old(self)@),
        ensures
            hud_wf(final(self)@),
            (final(self)@, effects_view(effects@)) == step_unhover_archive(old(self)@, fresh, now),
    {
        reveal(step_unhover_archive);
        let none: Vec<Effect<Id>> = Vec::new();
        assert(effects_view(none@) =~= Seq::<EffectView<Id>>::empty());
        self.hovered_archive = false;
        none
    }

    /// Handles the message `SelectArchivedSession`.
    fn on_select_archived_session(&mut self, i: usize, fresh: Id, now: Clock) -> (effects: Vec<Effect<Id>>)
        requires
            hud_wf(old(self)@),
        ensures
            hud_wf(final(self)@),
            (final(self)@, effects_view(effects@)) == step_select_archived_session(old(self)@, i, fresh, now),
    {
        reveal(step_select_archived_session);
        let none: Vec<Effect<Id>> = Vec::new();
        assert(effects_view(none@) =~= Seq::<EffectView<Id>>::empty());
        match &mut self.archive_modal {
            Some(a) => {
                a.selected_session = match a.selected_session {
                    Some(j) => if j == i {
                        None
                    } else {
                        Some(i)
                    },
                    None => Some(i),
                };
                a.selected_entry = None;
            },
            None => {},
        }
        none
    }

    /// Handles the message `HoverArchivedSession`.
    fn on_hover_archived_session(&mut self, i: usize, fresh: Id, now: Clock) -> (effects: Vec<Effect<Id>>)
        requires
            hud_wf(old(self)@),
        ensures
            hud_wf(final(self)@),
            (final(self)@, effects_view(effects@)) == step_hover_archived_session(old(self)@, i, fresh, now),
    {
        reveal(step_hover_archived_session);
        let none: Vec<Effect<Id>> = Vec::new();
        assert(effects_view(none@) =~= Seq::<EffectView<Id>>::empty());
        match &mut self.archive_modal {
            Some(a) => {
                a.hovered_session = Some(i);
            },
            None => {},
        }
        none
    }

    /// Handles the message `UnhoverArchivedSession`.
    fn on_unhover_archived_session(&mut self, i: usize, fresh: Id, now: Clock) -> (effects: Vec<Effect<Id>>)
        requires
            hud_wf(old(self)@),
        ensures
            hud_wf(final(self)@),
            (final(self)@, effects_view(effects@)) == step_unhover_archived_session(old(self)@, i, fresh, now),
    {
        reveal(step_unhover_archived_session);
        let none: Vec<Effect<Id>> = Vec::new();
        assert(effects_view(none@) =~= Seq::<EffectView<Id>>::empty());
        match &mut self.archive_modal {
            Some(a) => match a.hovered_session {
                Some(j) => if j == i {
                    a.hovered_session = None;
                },
                None => {},
            },
            None => {},
        }
        none
    }

    /// Handles the message `SelectArchivedEntry`.
    fn on_select_archived_entry(&mut self, i: usize, fresh: Id, now: Clock) -> (effects: Vec<Effect<Id>>)
        requires
            hud_wf(old(self)@),
        ensures
            hud_wf(final(self)@),
            (final(self)@, effects_view(effects@)) == step_select_archived_entry(old(self)@, i, fresh, now),
    {
        reveal(step_select_archived_entry);
        let none: Vec<Effect<Id>> = Vec::new();
        assert(effects_view(none@) =~= Seq::<EffectView<Id>>::empty());
        match &mut self.archive_modal {
            Some(a) => {
                a.selected_entry = match a.selected_entry {
                    Some(j) => if j == i {
                        None
                    } else {
                        Some(i)
                    },
                    None => Some(i),
                };
            },
            None => {},
        }
        none
    }

    /// Handles the message `HoverArchivedEntry`.
    fn on_hover_archived_entry(&mut self, i: usize, fresh: Id, now: Clock) -> (effects: Vec<Effect<Id>>)
        requires
            hud_wf(old(self)@),
        ensures
            hud_wf(final(self)@),
            (final(self)@, effects_view(effects@)) == step_hover_archived_entry(old(self)@, i, fresh, now),
    {
        reveal(step_hover_archived_entry);
        let none: Vec<Effect<Id>> = Vec::new();
        assert(effects_view(none@) =~= Seq::<EffectView<Id>>::empty());
        match &mut self.archive_modal {
            Some(a) => {
                a.hovered_entry = Some(i);
            },
            None => {},
        }
        none
    }

    /// Handles the message `UnhoverArchivedEntry`.
    fn on_unhover_archived_entry(&mut self, i: usize, fresh: Id, now: Clock) -> (effects: Vec<Effect<Id>>)
        requires
            hud_wf(old(self)@),
        ensures
            hud_wf(final(self)@),
            (final(self)@, effects_view(effects@)) == step_unhover_archived_entry(old(self)@, i, fresh, now),
    {
        reveal(step_unhover_archived_entry);
        let none: Vec<Effect<Id>> = Vec::new();
        assert(effects_view(none@) =~= Seq::<EffectView<Id>>::empty());
        match &mut self.archive_modal {
            Some(a) => match a.hovered_entry {
                Some(j) => if j == i {
                    a.hovered_entry = None;
                },
                None => {},
            },
            None => {},
        }
        none
    }

    /// Handles the message `DemoLoaderToggle`.
    fn on_demo_loader_toggle(&mut self, fresh: Id, now: Clock) -> (effects: Vec<Effect<Id>>)
        requires
            hud_wf(old(self)@),
        ensures
            hud_wf(final(self)@),
            (final(self)@, effects_view(effects@)) == step_demo_loader_toggle(old(self)@, fresh, now),
    {
        reveal(step_demo_loader_toggle);
        let none: Vec<Effect<Id>> = Vec::new();
        assert(effects_view(none@) =~= Seq::<EffectView<Id>>::empty());
        if self.demo_loader.is_some() {
            self.demo_loader = None;
        } else {
            self.demo_loader = Some(DemoLoader::new(self.gif_frame_count, self.svg_frame_count));
        }
        none
    }

    /// Handles the message `DemoLoaderChange`.
    fn on_demo_loader_change(&mut self, fresh: Id, now: Clock) -> (effects: Vec<Effect<Id>>)
        requires
            hud_wf(old(self)@),
        ensures
            hud_wf(final(self)@),
            (final(self)@, effects_view(effects@)) == step_demo_loader_change(old(self)@, fresh, now),
    {
        reveal(step_demo_loader_change);
        let none: Vec<Effect<Id>> = Vec::new();
        assert(effects_view(none@) =~= Seq::<EffectView<Id>>::empty());
        match &mut self.demo_loader {
            Some(l) => l.cycle_style(),
            None => {
                self.demo_loader = Some(DemoLoader::new(self.gif_frame_count, self.svg_frame_count));
            },
        }
        none
    }

    /// Handles the message `FontChange`.
    fn on_font_change(&mut self, fresh: Id, now: Clock) -> (effects: Vec<Effect<Id>>)
        requires
            hud_wf(old(self)@),
        ensures
            hud_wf(final(self)@),
            (final(self)@, effects_view(effects@)) == step_font_change(old(self)@, fresh, now),
    {
        reveal(step_font_change);
        let none: Vec<Effect<Id>> = Vec::new();
        assert(effects_view(none@) =~= Seq::<EffectView<Id>>::empty());
        self.font_index = (self.font_index + 1) % self.font_count;
        none
    }

    /// Handles the message `Tick`.
    fn on_tick(&mut self, fresh: Id, now: Clock) -> (effects: Vec<Effect<Id>>)
        requires
            hud_wf(old(self)@),
        ensures
            hud_wf(final(self)@),
            (final(self)@, effects_view(effects@)) == step_tick(old(self)@, fresh, now),
    {
        reveal(step_tick);
        let none: Vec<Effect<Id>> = Vec::new();
        assert(effects_view(none@) =~= Seq::<EffectView<Id>>::empty());
        match &mut self.demo_loader {
            Some(l) => {
                let _count = l.frame_count();
                l.tick();
            },
            None => {},
        }
        match &mut self.demo_claude {
            Some(w) => w.tick(now),
            None => {},
        }
        match &mut self.claude {
            Some(w) => w.tick(now),
            None => {},
        }
        none
    }

    /// Handles the message `WatcherEvent`.
    fn on_watcher_event(&mut self, tagged: TaggedEvent, fresh: Id, now: Clock) -> (effects: Vec<Effect<Id>>)
        requires
            hud_wf(old(self)@),
        ensures
            hud_wf(final(self)@),
            (final(self)@, effects_view(effects@)) == step_watcher_event(old(self)@, tagged@, fresh, now),
    {
        reveal(step_watcher_event);
        let none: Vec<Effect<Id>> = Vec::new();
        assert(effects_view(none@) =~= Seq::<EffectView<Id>>::empty());
        match &mut self.claude {
            Some(w) => w.process_event(tagged, now),
            None => {},
        }
        none
    }

    /// Handles the message `CopySessionId`.
    fn on_copy_session_id(&mut self, uuid: String, fresh: Id, now: Clock) -> (effects: Vec<Effect<Id>>)
        requires
            hud_wf(old(self)@),
        ensures
            hud_wf(final(self)@),
            (final(self)@, effects_view(effects@)) == step_copy_session_id(old(self)@, uuid@, fresh, now),
    {
        reveal(step_copy_session_id);
        let mut e: Vec<Effect<Id>> = Vec::new();
        e.push(Effect::Copy(uuid));
        assert(effects_view(e@) =~= seq![EffectView::Copy(uuid@)]);
        e
    }

    /// Handles the message `ThemeSet`.
    fn on_theme_set(&mut self, mode: ThemeMode, fresh: Id, now: Clock) -> (effects: Vec<Effect<Id>>)
        requires
            hud_wf(old(self)@),
        ensures
            hud_wf(final(self)@),
            (final(self)@, effects_view(effects@)) == step_theme_set(old(self)@, mode, fresh, now),
    {
        reveal(step_theme_set);
        let none: Vec<Effect<Id>> = Vec::new();
        assert(effects_view(none@) =~= Seq::<EffectView<Id>>::empty());
        self.theme_mode = mode;
        if mode == ThemeMode::Adaptive {
            self.backdrop = true;
        }
        match fixed_dark(mode) {
            Some(d) => {
                self.dark = d;
                none
            },
            None => {
                let mut e: Vec<Effect<Id>> = Vec::new();
                e.push(Effect::ProbeSystemTheme);
                assert(effects_view(e@) =~= seq![EffectView::<Id>::ProbeSystemTheme]);
                e
            },
        }
    }

    /// Handles the message `ThemeToggle`.
    fn on_theme_toggle(&mut self, fresh: Id, now: Clock) -> (effects: Vec<Effect<Id>>)
        requires
            hud_wf(old(self)@),
        ensures
            hud_wf(final(self)@),
            (final(self)@, effects_view(effects@)) == step_theme_toggle(old(self)@, fresh, now),
    {
        reveal(step_theme_toggle);
        let none: Vec<Effect<Id>> = Vec::new();
        assert(effects_view(none@) =~= Seq::<EffectView<Id>>::empty());
        self.dark = !self.dark;
        none
    }

    /// Handles the message `ThemeRefresh`.
    fn on_theme_refresh(&mut self, fresh: Id, now: Clock) -> (effects: Vec<Effect<Id>>)
        requires
            hud_wf(old(self)@),
        ensures
            hud_wf(final(self)@),
            (final(self)@, effects_view(effects@)) == step_theme_refresh(old(self)@, fresh, now),
    {
        reveal(step_theme_refresh);
        let none: Vec<Effect<Id>> = Vec::new();
        assert(effects_view(none@) =~= Seq::<EffectView<Id>>::empty());
        match self.theme_mode {
            ThemeMode::Auto => {
                let mut e: Vec<Effect<Id>> = Vec::new();
                e.push(Effect::ProbeSystemTheme);
                assert(effects_view(e@) =~= seq![EffectView::<Id>::ProbeSystemTheme]);
                e
            },
            ThemeMode::Adaptive => {
                let mut e: Vec<Effect<Id>> = Vec::new();
                e.push(Effect::SampleBackground);
                assert(effects_view(e@) =~= seq![EffectView::<Id>::SampleBackground]);
                e
            },
            _ => none,
        }
    }

    /// Handles the message `BackdropToggle`.
    fn on_backdrop_toggle(&mut self, fresh: Id, now: Clock) -> (effects: Vec<Effect<Id>>)
        requires
            hud_wf(old(self)@),
        ensures
            hud_wf(final(self)@),
            (final(self)@, effects_view(effects@)) == step_backdrop_toggle(old(self)@, fresh, now),
    {
        reveal(step_backdrop_toggle);
        let none: Vec<Effect<Id>> = Vec::new();
        assert(effects_view(none@) =~= Seq::<EffectView<Id>>::empty());
        self.backdrop = !self.backdrop;
        none
    }

    /// Handles the message `ShellEvent`.
    fn on_shell_event(&mut self, event: ShellEvent, fresh: Id, now: Clock) -> (effects: Vec<Effect<Id>>)
        requires
            hud_wf(old(self)@),
        ensures
            hud_wf(final(self)@),
            (final(self)@, effects_view(effects@)) == step_shell_event(old(self)@, event@, fresh, now),
    {
        reveal(step_shell_event);
        let none: Vec<Effect<Id>> = Vec::new();
        assert(effects_view(none@) =~= Seq::<EffectView<Id>>::empty());
        match &mut self.shells {
            Some(s) => s.apply_event(&event, now),
            None => {},
        }
        none
    }

    /// Handles the message `ShellToggle`.
    fn on_shell_toggle(&mut self, fresh: Id, now: Clock) -> (effects: Vec<Effect<Id>>)
        requires
            hud_wf(old(self)@),
        ensures
            hud_wf(final(self)@),
            (final(self)@, effects_view(effects@)) == step_shell_toggle(old(self)@, fresh, now),
    {
        reveal(step_shell_toggle);
        let none: Vec<Effect<Id>> = Vec::new();
        assert(effects_view(none@) =~= Seq::<EffectView<Id>>::empty());
        if self.shells.is_some() {
            self.shells = None;
        } else {
            self.shells = Some(ShellState::default());
        }
        none
    }

    /// Handles the message `SetAttention`.
    fn on_set_attention(&mut self, id: String, value: bool, fresh: Id, now: Clock) -> (effects: Vec<Effect<Id>>)
        requires
            hud_wf(old(self)@),
        ensures
            hud_wf(final(self)@),
            (final(self)@, effects_view(effects@)) == step_set_attention(old(self)@, id@, value, fresh, now),
    {
        reveal(step_set_attention);
        let ghost h0 = self@;
        let none: Vec<Effect<Id>> = Vec::new();
        assert(effects_view(none@) =~= Seq::<EffectView<Id>>::empty());
        match &mut self.claude {
            Some(w) => match find_session(&w.sessions, id.as_str()) {
                Some(k) => {
                    w.sessions[k].needs_attention = value;
                    assert(sessions_view(w.sessions@) =~= attention_set(
                        h0.claude->0,
                        id@,
                        value,
                    ).sessions);
                },
                None => {},
            },
            None => {},
        }
        none
    }

    /// Applies one message at `now`; `fresh` is the id for a surface the message opens.
    /// Returns the actions the display must perform, in order.
    pub fn update(&mut self, msg: HudMsg, fresh: Id, now: Clock) -> (effects: Vec<Effect<Id>>)
        requires
            hud_wf(old(self)@),
        ensures
            hud_wf(final(self)@),
            (final(self)@, effects_view(effects@)) == hud_step(old(self)@, msg@, fresh, now),
    {
        match msg {
            HudMsg::ToggleVisibility => self.on_toggle_visibility(fresh, now),
            HudMsg::ToggleFocus => self.on_toggle_focus(fresh, now),
            HudMsg::OpenSessionModal(idx) => self.on_open_session_modal(idx, fresh, now),
            HudMsg::CloseModal => self.on_close_modal(fresh, now),
            HudMsg::ScreenCycle(outputs) => self.on_screen_cycle(outputs, fresh, now),
            HudMsg::ScreenSet(name) => self.on_screen_set(name, fresh, now),
            HudMsg::OpenArchiveModal => self.on_open_archive_modal(fresh, now),
            HudMsg::CloseArchiveModal => self.on_close_archive_modal(fresh, now),
            HudMsg::DemoClaudeToggle => self.on_demo_claude_toggle(fresh, now),
            HudMsg::ClaudeLiveToggle => self.on_claude_live_toggle(fresh, now),
            HudMsg::SelectActivity(i) => self.on_select_activity(i, fresh, now),
            HudMsg::HoverSession(i) => self.on_hover_session(i, fresh, now),
            HudMsg::UnhoverSession(i) => self.on_unhover_session(i, fresh, now),
            HudMsg::HoverEntry(i) => self.on_hover_entry(i, fresh, now),
            HudMsg::UnhoverEntry(i) => self.on_unhover_entry(i, fresh, now),
            HudMsg::HoverArchive => self.on_hover_archive(fresh, now),
            HudMsg::UnhoverArchive => self.on_unhover_archive(fresh, now),
            HudMsg::SelectArchivedSession(i) => self.on_select_archived_session(i, fresh, now),
            HudMsg::HoverArchivedSession(i) => self.on_hover_archived_session(i, fresh, now),
            HudMsg::UnhoverArchivedSession(i) => self.on_unhover_archived_session(i, fresh, now),
            HudMsg::SelectArchivedEntry(i) => self.on_select_archived_entry(i, fresh, now),
            HudMsg::HoverArchivedEntry(i) => self.on_hover_archived_entry(i, fresh, now),
            HudMsg::UnhoverArchivedEntry(i) => self.on_unhover_archived_entry(i, fresh, now),
            HudMsg::DemoLoaderToggle => self.on_demo_loader_toggle(fresh, now),
            HudMsg::DemoLoaderChange => self.on_demo_loader_change(fresh, now),
            HudMsg::FontChange => self.on_font_change(fresh, now),
            HudMsg::Tick => self.on_tick(fresh, now),
            HudMsg::WatcherEvent(tagged) => self.on_watcher_event(tagged, fresh, now),
            HudMsg::CopySessionId(uuid) => self.on_copy_session_id(uuid, fresh, now),
            HudMsg::ThemeSet(mode) => self.on_theme_set(mode, fresh, now),
            HudMsg::ThemeToggle => self.on_theme_toggle(fresh, now),
            HudMsg::ThemeRefresh => self.on_theme_refresh(fresh, now),
            HudMsg::BackdropToggle => self.on_backdrop_toggle(fresh, now),
            HudMsg::ShellEvent(event) => self.on_shell_event(event, fresh, now),
            HudMsg::ShellToggle => self.on_shell_toggle(fresh, now),
            HudMsg::SetAttention(id, value) => self.on_set_attention(id, value, fresh, now),
        }
    }
}

/// Pointer messages (selecting and hovering) act only on what the pointer is over: they
/// ask for no outside action, and leave the mode, the surfaces, the widgets, the theme,
/// the loader, the font and which modal shows which session as they were.
pub proof fn lemma_pointer_msgs_are_local<Id>(h: HudView<Id>, m: MsgView, fresh: Id, now: Clock)
    requires
        is_pointer_msg(m),
    ensures
        ({
            let (h2, fx) = hud_step(h, m, fresh, now);
            &&& fx.len() == 0
            &&& h2.mode == h.mode
            &&& h2.surface_id == h.surface_id
            &&& h2.claude == h.claude
            &&& h2.demo_claude == h.demo_claude
            &&& h2.shells == h.shells
            &&& h2.demo_loader == h.demo_loader
            &&& h2.font_index == h.font_index
            &&& h2.theme_mode == h.theme_mode
            &&& h2.dark == h.dark
            &&& h2.backdrop == h.backdrop
            &&& h2.target_output == h.target_output
            &&& match (h.modal, h2.modal) {
                (Some(a), Some(b)) => a.surface_id == b.surface_id && a.session_index
                    == b.session_index,
                (None, None) => true,
                _ => false,
            }
            &&& match (h.archive_modal, h2.archive_modal) {
                (Some(a), Some(b)) => a.surface_id == b.surface_id,
                (None, None) => true,
                _ => false,
            }
        }),
{
    reveal(step_select_activity);
    reveal(step_hover_session);
    reveal(step_unhover_session);
    reveal(step_hover_entry);
    reveal(step_unhover_entry);
    reveal(step_hover_archive);
    reveal(step_unhover_archive);
    reveal(step_select_archived_session);
    reveal(step_hover_archived_session);
    reveal(step_unhover_archived_session);
    reveal(step_select_archived_entry);
    reveal(step_hover_archived_entry);
    reveal(step_unhover_archived_entry);
}

/// `BackdropToggle` flips the backdrop and nothing else: it asks for no outside action,
/// and sending it twice gives back the state it started from.
pub proof fn lemma_backdrop_toggle_flips<Id>(h: HudView<Id>, fresh: Id, now: Clock)
    ensures
        hud_step(h, MsgView::BackdropToggle, fresh, now).0.backdrop == !h.backdrop,
        hud_step(h, MsgView::BackdropToggle, fresh, now).1.len() == 0,
        (HudView { backdrop: h.backdrop, ..hud_step(h, MsgView::BackdropToggle, fresh, now).0 }) == h,
        hud_step(hud_step(h, MsgView::BackdropToggle, fresh, now).0, MsgView::BackdropToggle, fresh, now).0
            == h,
{
    reveal(step_backdrop_toggle);
}

} // verus!
