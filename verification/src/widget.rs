//! The overlay's side of a frame: the state it shares with the renderer and
//! the decisions round building its panel.
//!
//! A colour channel or an alpha is held as the bit pattern of a 32-bit
//! IEEE-754 number. Of the numbers from zero to one the patterns rise with the
//! numbers, so "between zero and one" is a bound on the pattern.

use vstd::prelude::*;

verus! {

/// The bit pattern of the number zero.
pub const UNIT_ZERO: u32 = 0x0000_0000;

/// The bit pattern of the number one.
pub const UNIT_ONE: u32 = 0x3F80_0000;

/// The red channel of the background a new overlay starts with: 57 / 255.
pub const DEFAULT_RED: u32 = 0x3E64_E4E5;

/// The green channel of that background: 197 / 255.
pub const DEFAULT_GREEN: u32 = 0x3F45_C5C6;

/// The blue channel of that background: 187 / 255.
pub const DEFAULT_BLUE: u32 = 0x3F3B_BBBC;

/// Whether the pattern is that of a number from zero to one, both included.
pub open spec fn in_unit_interval(bits: u32) -> bool {
    bits <= UNIT_ONE
}

/// Why the platform bridge could not prepare a frame for the overlay.
#[derive(Clone, Copy, Debug, PartialEq, Eq, Structural)]
pub enum ExternalError {
    /// The platform does not offer the operation.
    NotSupported,
    /// The platform ignored the request.
    Ignored,
    /// The operating system reported an error.
    Os,
}

/// What the overlay and the renderer share.
#[derive(Clone, Copy, Debug, PartialEq, Eq)]
pub struct WidgetState {
    /// Whether the pointer is over the panel or one of its items.
    pub is_hovered: bool,
    /// The alpha of the panel's own background.
    pub inner_window_background_alpha: u32,
    /// Red, green, blue and alpha of the colour the frame is cleared with.
    pub background_color: [u32; 4],
}

impl WidgetState {
    /// Every channel and the panel's alpha lie between zero and one.
    pub open spec fn well_formed(&self) -> bool {
        &&& in_unit_interval(self.inner_window_background_alpha)
        &&& forall|c: int| 0 <= c < 4 ==> in_unit_interval(#[trigger] self.background_color[c])
    }

    /// The state of a new overlay.
    pub open spec fn initial() -> WidgetState {
        WidgetState {
            is_hovered: false,
            inner_window_background_alpha: UNIT_ZERO,
            background_color: [DEFAULT_RED, DEFAULT_GREEN, DEFAULT_BLUE, UNIT_ONE],
        }
    }
}

/// What the panel reports once it has been built for a frame.
#[derive(Clone, Copy, Debug, PartialEq, Eq)]
pub struct PanelInteraction {
    /// Whether the pointer is over the panel itself.
    pub window_hovered: bool,
    /// Whether the pointer is over any item of the panel.
    pub any_item_hovered: bool,
    /// The colour editor's four channels as the user left them.
    pub background_color: [u32; 4],
    /// The slider's value as the user left it.
    pub inner_window_background_alpha: u32,
}

impl PanelInteraction {
    /// Every value that the controls report lies between zero and one.
    pub open spec fn well_formed(&self) -> bool {
        &&& in_unit_interval(self.inner_window_background_alpha)
        &&& forall|c: int| 0 <= c < 4 ==> in_unit_interval(#[trigger] self.background_color[c])
    }
}

/// One thing on the panel, built in the order of the list it stands in.
#[derive(Clone, Copy, Debug, PartialEq, Eq)]
pub enum PanelItem {
    /// A menu of the menu bar, with one entry that does nothing.
    Menu { label: &'static str, entry: &'static str },
    /// A line of text.
    Text(&'static str),
    /// A button that does nothing.
    Button(&'static str),
    /// The next item stays on the line of the last.
    SameLine,
    /// A line across the panel.
    Separator,
    /// The editor of the four channels of the background colour.
    ColorEdit(&'static str),
    /// The slider of the alpha of the panel's background, from zero to one.
    AlphaSlider(&'static str),
}

/// What is on the panel: the menus "File" and "Help", three buttons in one
/// line, and below a separator the editor of the background colour and the
/// slider of the panel's alpha.
pub open spec fn panel_items() -> Seq<PanelItem> {
    seq![
        PanelItem::Menu { label: "File", entry: "Exit" },
        PanelItem::Menu { label: "Help", entry: "Copyright" },
        PanelItem::Text("Button"),
        PanelItem::Button("X"),
        PanelItem::SameLine,
        PanelItem::Button("Y"),
        PanelItem::SameLine,
        PanelItem::Button("Z"),
        PanelItem::Separator,
        PanelItem::Text("Background"),
        PanelItem::ColorEdit("Color"),
        PanelItem::AlphaSlider("Inner Alpha"),
    ]
}

/// What the panel is built from in one frame.
#[derive(Clone, Copy, Debug, PartialEq, Eq)]
pub struct PanelLayout {
    /// Where the panel's corner sits, across and down.
    pub position: [u32; 2],
    /// Whether the user can resize the panel.
    pub resizable: bool,
    /// Whether the panel has a menu bar.
    pub menu_bar: bool,
    /// The panel's width in quarters of a pixel.
    pub width_quarters: u32,
    /// The panel's height in pixels.
    pub height: u32,
    /// The alpha of the panel's background.
    pub background_alpha: u32,
    /// What the colour editor shows.
    pub background_color: [u32; 4],
}

/// The overlay: the size of the window it is drawn into and the shared state.
#[derive(Clone, Copy, Debug)]
pub struct Widget {
    window_width: u32,
    window_height: u32,
    state: WidgetState,
}

impl Widget {
    /// The shared state.
    pub closed spec fn state(&self) -> WidgetState {
        self.state
    }

    /// The width of the window in pixels.
    pub closed spec fn window_width(&self) -> u32 {
        self.window_width
    }

    /// The height of the window in pixels.
    pub closed spec fn window_height(&self) -> u32 {
        self.window_height
    }

    /// The panel of a frame: at the origin, not resizable, with a menu bar, a
    /// quarter of the window wide, as high as the window, showing the state
    /// as it is.
    pub open spec fn layout(&self) -> PanelLayout {
        PanelLayout {
            position: [UNIT_ZERO, UNIT_ZERO],
            resizable: false,
            menu_bar: true,
            width_quarters: self.window_width(),
            height: self.window_height(),
            background_alpha: self.state().inner_window_background_alpha,
            background_color: self.state().background_color,
        }
    }

    /// An overlay for a window of the given inner size, in its initial state.
    pub fn new(window_width: u32, window_height: u32) -> (widget: Widget)
        ensures
            widget.state() == WidgetState::initial(),
            widget.window_width() == window_width,
            widget.window_height() == window_height,
            widget.state().well_formed(),
    {
        let background_color: [u32; 4] = [DEFAULT_RED, DEFAULT_GREEN, DEFAULT_BLUE, UNIT_ONE];
        let state = WidgetState {
            is_hovered: false,
            inner_window_background_alpha: UNIT_ZERO,
            background_color,
        };
        assert(state.background_color =~= WidgetState::initial().background_color);
        Widget { window_width, window_height, state }
    }

    /// The colour the next frame is cleared with.
    pub fn background_color(&self) -> (color: [u32; 4])
        ensures
            color == self.state().background_color,
    {
        self.state.background_color
    }

    /// Whether the pointer was over the panel when it was last built.
    pub fn is_hovered(&self) -> (hovered: bool)
        ensures
            hovered == self.state().is_hovered,
    {
        self.state.is_hovered
    }

    /// Takes the window's new inner size. The shared state stays.
    pub fn resize(&mut self, width: u32, height: u32)
        ensures
            final(self).window_width() == width,
            final(self).window_height() == height,
            final(self).state() == old(self).state(),
    {
        self.window_width = width;
        self.window_height = height;
    }

    /// Decides whether the panel is built in this frame. Where the platform
    /// bridge prepared the frame, the panel is built from the returned
    /// layout; where it failed, for whatever reason, the overlay is left out
    /// of this frame.
    pub fn draw(&self, prepared: Result<(), ExternalError>) -> (panel: Option<PanelLayout>)
        ensures
            prepared.is_ok() ==> panel == Some(self.layout()),
            prepared.is_err() ==> panel.is_none(),
    {
        match prepared {
            Ok(_) => {
                let position: [u32; 2] = [UNIT_ZERO, UNIT_ZERO];
                assert(position =~= self.layout().position);
                Some(
                    PanelLayout {
                        position,
                        resizable: false,
                        menu_bar: true,
                        width_quarters: self.window_width,
                        height: self.window_height,
                        background_alpha: self.state.inner_window_background_alpha,
                        background_color: self.state.background_color,
                    },
                )
            },
            Err(_) => None,
        }
    }

    /// Lists what is on the panel, in the order in which it is built.
    pub fn items() -> (items: Vec<PanelItem>)
        ensures
            items@ == panel_items(),
    {
        let mut items: Vec<PanelItem> = Vec::new();
        items.push(PanelItem::Menu { label: "File", entry: "Exit" });
        items.push(PanelItem::Menu { label: "Help", entry: "Copyright" });
        items.push(PanelItem::Text("Button"));
        items.push(PanelItem::Button("X"));
        items.push(PanelItem::SameLine);
        items.push(PanelItem::Button("Y"));
        items.push(PanelItem::SameLine);
        items.push(PanelItem::Button("Z"));
        items.push(PanelItem::Separator);
        items.push(PanelItem::Text("Background"));
        items.push(PanelItem::ColorEdit("Color"));
        items.push(PanelItem::AlphaSlider("Inner Alpha"));
        assert(items@ =~= panel_items());
        items
    }

    /// Takes what the panel reported after it was built: the colour and the
    /// alpha as edited, and the hover flag, set where the pointer is over the
    /// panel or over any of its items. The window's size stays.
    pub fn finish_draw(&mut self, interaction: PanelInteraction)
        ensures
            final(self).state().is_hovered == (interaction.window_hovered
                || interaction.any_item_hovered),
            final(self).state().background_color == interaction.background_color,
            final(self).state().inner_window_background_alpha
                == interaction.inner_window_background_alpha,
            final(self).window_width() == old(self).window_width(),
            final(self).window_height() == old(self).window_height(),
            interaction.well_formed() ==> final(self).state().well_formed(),
    {
        self.state.is_hovered = interaction.window_hovered || interaction.any_item_hovered;
        self.state.background_color = interaction.background_color;
        self.state.inner_window_background_alpha = interaction.inner_window_background_alpha;
    }
}

} // verus!
