//! Loader animations: text frame sets, the demo loader's frame counter, and the
//! frames shown for each tool category.
use vstd::prelude::*;
use crate::events::ToolCategory;

verus! {

/// The animation style of the demo loader.
#[derive(Debug, Clone, Copy, PartialEq, Eq, Structural)]
pub enum LoaderStyle {
    Braille,
    Bounce,
    Pipe,
    Gif,
    Svg,
}

/// The views of a list of frames.
pub open spec fn frames_view(f: Seq<&'static str>) -> Seq<Seq<char>> {
    f.map_values(|s: &'static str| s@)
}

/// The braille spinner frames.
pub open spec fn braille_spec() -> Seq<Seq<char>> {
    seq!["⠋"@, "⠙"@, "⠹"@, "⠸"@, "⠼"@, "⠴"@, "⠦"@, "⠧"@, "⠇"@, "⠏"@]
}

/// The text frames of each style (none for the image styles).
pub open spec fn text_frames_of(style: LoaderStyle) -> Seq<Seq<char>> {
    match style {
        LoaderStyle::Braille => braille_spec(),
        LoaderStyle::Bounce => seq![
            "▁"@,
            "▂"@,
            "▃"@,
            "▄"@,
            "▅"@,
            "▆"@,
            "▇"@,
            "█"@,
            "▇"@,
            "▆"@,
            "▅"@,
            "▄"@,
            "▃"@,
            "▂"@,
        ],
        LoaderStyle::Pipe => seq!["|"@, "/"@, "-"@, "\\"@],
        LoaderStyle::Gif | LoaderStyle::Svg => seq![],
    }
}

/// The braille spinner frames.
pub fn braille_frames() -> (r: &'static [&'static str])
    ensures
        frames_view(r@) == braille_spec(),
{
    let r: &'static [&'static str] = &["⠋", "⠙", "⠹", "⠸", "⠼", "⠴", "⠦", "⠧", "⠇", "⠏"];
    assert(frames_view(r@) =~= braille_spec());
    r
}

/// The frame shown at step `n`: frames repeat in order.
pub fn frame_at(frames: &'static [&'static str], n: usize) -> (r: &'static str)
    requires
        frames@.len() > 0,
    ensures
        r == frames@[(n as int) % (frames@.len() as int)],
{
    frames[n % frames.len()]
}

/// The style after `style` in the cycle Braille, Bounce, Pipe, Gif, Svg.
pub open spec fn next_style(style: LoaderStyle) -> LoaderStyle {
    match style {
        LoaderStyle::Braille => LoaderStyle::Bounce,
        LoaderStyle::Bounce => LoaderStyle::Pipe,
        LoaderStyle::Pipe => LoaderStyle::Gif,
        LoaderStyle::Gif => LoaderStyle::Svg,
        LoaderStyle::Svg => LoaderStyle::Braille,
    }
}

/// The name of each style.
pub open spec fn label_of(style: LoaderStyle) -> Seq<char> {
    match style {
        LoaderStyle::Braille => "braille"@,
        LoaderStyle::Bounce => "bounce"@,
        LoaderStyle::Pipe => "pipe"@,
        LoaderStyle::Gif => "gif"@,
        LoaderStyle::Svg => "svg"@,
    }
}

impl LoaderStyle {
    /// The text frames of this style (empty for the image styles).
    pub fn text_frames(self) -> (r: &'static [&'static str])
        ensures
            frames_view(r@) == text_frames_of(self),
    {
        match self {
            LoaderStyle::Braille => braille_frames(),
            LoaderStyle::Bounce => {
                let r: &'static [&'static str] = &[
                    "▁",
                    "▂",
                    "▃",
                    "▄",
                    "▅",
                    "▆",
                    "▇",
                    "█",
                    "▇",
                    "▆",
                    "▅",
                    "▄",
                    "▃",
                    "▂",
                ];
                assert(frames_view(r@) =~= text_frames_of(self));
                r
            },
            LoaderStyle::Pipe => {
                let r: &'static [&'static str] = &["|", "/", "-", "\\"];
                assert(frames_view(r@) =~= text_frames_of(self));
                r
            },
            LoaderStyle::Gif | LoaderStyle::Svg => {
                let r: &'static [&'static str] = &[];
                assert(frames_view(r@) =~= text_frames_of(self));
                r
            },
        }
    }

    /// The name of this style.
    pub fn label(self) -> (r: &'static str)
        ensures
            r@ == label_of(self),
    {
        match self {
            LoaderStyle::Braille => "braille",
            LoaderStyle::Bounce => "bounce",
            LoaderStyle::Pipe => "pipe",
            LoaderStyle::Gif => "gif",
            LoaderStyle::Svg => "svg",
        }
    }

    /// The next style in the cycle.
    pub fn next(self) -> (r: LoaderStyle)
        ensures
            r == next_style(self),
    {
        match self {
            LoaderStyle::Braille => LoaderStyle::Bounce,
            LoaderStyle::Bounce => LoaderStyle::Pipe,
            LoaderStyle::Pipe => LoaderStyle::Gif,
            LoaderStyle::Gif => LoaderStyle::Svg,
            LoaderStyle::Svg => LoaderStyle::Braille,
        }
    }
}

/// Cycling five times through the styles comes back to the start, and no fewer
/// steps do.
pub proof fn lemma_next_style_cycle(style: LoaderStyle)
    ensures
        next_style(next_style(next_style(next_style(next_style(style))))) == style,
        next_style(style) != style,
        next_style(next_style(style)) != style,
        next_style(next_style(next_style(style))) != style,
        next_style(next_style(next_style(next_style(style)))) != style,
{
}

/// The demo loader's animation position. The image frames themselves live with the
/// display; this keeps how many there are.
pub struct DemoLoader {
    pub style: LoaderStyle,
    pub frame: usize,
    pub gif_frame_count: usize,
    pub svg_frame_count: usize,
}

/// How many frames a style shows: its text frames, or at least one image frame.
pub open spec fn frame_count_of(l: DemoLoader) -> nat {
    match l.style {
        LoaderStyle::Braille | LoaderStyle::Bounce | LoaderStyle::Pipe => text_frames_of(
            l.style,
        ).len(),
        LoaderStyle::Gif => if l.gif_frame_count == 0 {
            1
        } else {
            l.gif_frame_count as nat
        },
        LoaderStyle::Svg => if l.svg_frame_count == 0 {
            1
        } else {
            l.svg_frame_count as nat
        },
    }
}

impl DemoLoader {
    /// A braille loader at its first frame, with the given numbers of image frames.
    pub fn new(gif_frame_count: usize, svg_frame_count: usize) -> (r: Self)
        ensures
            r.style == LoaderStyle::Braille,
            r.frame == 0,
            r.gif_frame_count == gif_frame_count,
            r.svg_frame_count == svg_frame_count,
    {
        DemoLoader { style: LoaderStyle::Braille, frame: 0, gif_frame_count, svg_frame_count }
    }

    /// How many frames the current style shows.
    pub fn frame_count(&self) -> (r: usize)
        ensures
            r == frame_count_of(*self),
            r > 0,
    {
        match self.style {
            LoaderStyle::Braille | LoaderStyle::Bounce | LoaderStyle::Pipe => {
                let f = self.style.text_frames();
                assert(f@.len() == frames_view(f@).len());
                assert(text_frames_of(self.style).len() > 0);
                f.len()
            },
            LoaderStyle::Gif => {
                if self.gif_frame_count == 0 {
                    1
                } else {
                    self.gif_frame_count
                }
            },
            LoaderStyle::Svg => {
                if self.svg_frame_count == 0 {
                    1
                } else {
                    self.svg_frame_count
                }
            },
        }
    }

    /// Advance to the next frame, wrapping around.
    pub fn tick(&mut self)
        requires
            old(self).frame < usize::MAX,
        ensures
            final(self).frame == (old(self).frame + 1) % (frame_count_of(*old(self)) as int),
            final(self).style == old(self).style,
            final(self).gif_frame_count == old(self).gif_frame_count,
            final(self).svg_frame_count == old(self).svg_frame_count,
    {
        self.frame = (self.frame + 1) % self.frame_count();
    }

    /// Switch to the next style, at its first frame.
    pub fn cycle_style(&mut self)
        ensures
            final(self).style == next_style(old(self).style),
            final(self).frame == 0,
            final(self).gif_frame_count == old(self).gif_frame_count,
            final(self).svg_frame_count == old(self).svg_frame_count,
    {
        self.style = self.style.next();
        self.frame = 0;
    }
}

/// The frames shown for a tool of each category.
pub open spec fn tool_frames_of(category: ToolCategory) -> Seq<Seq<char>> {
    match category {
        ToolCategory::Reading => seq!["◉"@, "◎"@, "○"@, "◎"@],
        ToolCategory::Writing => seq!["✎"@, "✏"@, "✐"@, "✎"@],
        ToolCategory::Running => seq!["⚙"@, "⚙︎"@, "⚙"@, "⚙︎"@],
        ToolCategory::Thinking => seq!["◐"@, "◓"@, "◑"@, "◒"@],
        ToolCategory::Spawning => seq!["◇"@, "◆"@, "◇"@, "◆"@],
        ToolCategory::Web => seq!["◌"@, "◍"@, "●"@, "◍"@],
        ToolCategory::Mcp => seq!["⚡"@, "✦"@, "⚡"@, "✦"@],
        ToolCategory::Awaiting => seq!["❯"@, "❯❯"@, "❯❯❯"@, "❯❯"@],
        ToolCategory::Unknown => braille_spec(),
    }
}

/// The frames shown for a tool of `category`.
pub fn tool_state_frames(category: ToolCategory) -> (r: &'static [&'static str])
    ensures
        frames_view(r@) == tool_frames_of(category),
        r@.len() > 0,
{
    let r: &'static [&'static str] = match category {
        ToolCategory::Reading => &["◉", "◎", "○", "◎"],
        ToolCategory::Writing => &["✎", "✏", "✐", "✎"],
        ToolCategory::Running => &["⚙", "⚙︎", "⚙", "⚙︎"],
        ToolCategory::Thinking => &["◐", "◓", "◑", "◒"],
        ToolCategory::Spawning => &["◇", "◆", "◇", "◆"],
        ToolCategory::Web => &["◌", "◍", "●", "◍"],
        ToolCategory::Mcp => &["⚡", "✦", "⚡", "✦"],
        ToolCategory::Awaiting => &["❯", "❯❯", "❯❯❯", "❯❯"],
        ToolCategory::Unknown => braille_frames(),
    };
    assert(frames_view(r@) =~= tool_frames_of(category));
    r
}

} // verus!
