//! The appearance of a time picker.
//!
//! The host toolkit measures colour channels and lengths in floating-point
//! units. Here both are kept in whole thousandths of that unit: a channel
//! ranges over `0..=1000`, and a length of one host unit is `1000`. The
//! shell around the library divides by `1000` when it hands a value to the
//! host renderer.

use vstd::prelude::*;

verus! {

/// A colour channel at full intensity, in thousandths.
pub const CHANNEL_MAX: u16 = 1000;

/// An opaque colour, each channel in thousandths of full intensity.
#[derive(Clone, Copy, Debug, PartialEq, Eq, Structural)]
pub struct Color {
    /// The red channel.
    pub r: u16,
    /// The green channel.
    pub g: u16,
    /// The blue channel.
    pub b: u16,
    /// The alpha channel: `0` is fully transparent, `CHANNEL_MAX` opaque.
    pub a: u16,
}

/// The colour white.
pub open spec fn white() -> Color {
    Color { r: CHANNEL_MAX, g: CHANNEL_MAX, b: CHANNEL_MAX, a: CHANNEL_MAX }
}

/// The colour black.
pub open spec fn black() -> Color {
    Color { r: 0, g: 0, b: 0, a: CHANNEL_MAX }
}

impl Color {
    /// Every channel stays within the unit range.
    pub open spec fn wf(self) -> bool {
        &&& self.r <= CHANNEL_MAX
        &&& self.g <= CHANNEL_MAX
        &&& self.b <= CHANNEL_MAX
        &&& self.a <= CHANNEL_MAX
    }

    /// An opaque colour from its three channels.
    pub fn from_rgb(r: u16, g: u16, b: u16) -> (c: Color)
        requires
            r <= CHANNEL_MAX,
            g <= CHANNEL_MAX,
            b <= CHANNEL_MAX,
        ensures
            c == (Color { r, g, b, a: CHANNEL_MAX }),
            c.wf(),
    {
        Color { r, g, b, a: CHANNEL_MAX }
    }

    /// The colour white.
    pub fn white() -> (c: Color)
        ensures
            c == white(),
    {
        Color { r: CHANNEL_MAX, g: CHANNEL_MAX, b: CHANNEL_MAX, a: CHANNEL_MAX }
    }

    /// The colour black.
    pub fn black() -> (c: Color)
        ensures
            c == black(),
    {
        Color { r: 0, g: 0, b: 0, a: CHANNEL_MAX }
    }
}

/// The background of a widget.
#[derive(Clone, Copy, Debug, PartialEq, Eq, Structural)]
pub enum Background {
    /// A single colour filling the widget.
    Color(Color),
}

impl Background {
    /// The colour of the background stays within the unit range.
    pub open spec fn wf(self) -> bool {
        match self {
            Background::Color(c) => c.wf(),
        }
    }
}

/// The appearance of a time picker.
#[derive(Clone, Copy, Debug, PartialEq, Eq, Structural)]
pub struct Appearance {
    /// The background of the time picker.
    pub background: Background,
    /// The border radius of the time picker, in thousandths of a host unit.
    pub border_radius: u32,
    /// The border width of the time picker, in thousandths of a host unit.
    pub border_width: u32,
    /// The border colour of the time picker.
    pub border_color: Color,
    /// The text colour of the time picker.
    pub text_color: Color,
    /// The colour of the numbers on the clock face.
    pub clock_number_color: Color,
    /// The background of the numbers on the clock face.
    pub clock_number_background: Color,
    /// The colour of the dots on the clock face.
    pub clock_dots_color: Color,
    /// The colour of the hands of the clock.
    pub clock_hand_color: Color,
    /// The width of the hands of the clock, in thousandths of a host unit.
    pub clock_hand_width: u32,
}

impl Appearance {
    /// Every colour of the appearance stays within the unit range.
    pub open spec fn wf(self) -> bool {
        &&& self.background.wf()
        &&& self.border_color.wf()
        &&& self.text_color.wf()
        &&& self.clock_number_color.wf()
        &&& self.clock_number_background.wf()
        &&& self.clock_dots_color.wf()
        &&& self.clock_hand_color.wf()
    }
}

/// A set of appearances for a time picker, one per interaction state.
/// Every appearance a style sheet hands out keeps its colours within the
/// unit range.
pub trait StyleSheet {
    /// The appearance of a time picker at rest.
    fn active(&self) -> (a: Appearance)
        ensures
            a.wf(),
    ;

    /// The appearance of a time picker with a selected element.
    fn selected(&self) -> (a: Appearance)
        ensures
            a.wf(),
    ;

    /// The appearance of a time picker with a hovered element.
    fn hovered(&self) -> (a: Appearance)
        ensures
            a.wf(),
    ;

    /// The appearance of a focused time picker.
    fn focused(&self) -> (a: Appearance)
        ensures
            a.wf(),
    ;
}

/// The light grey of the clock dots and hands.
pub open spec fn light_grey() -> Color {
    Color { r: 870, g: 870, b: 870, a: CHANNEL_MAX }
}

/// The mid grey of a focused border.
pub open spec fn mid_grey() -> Color {
    Color { r: 500, g: 500, b: 500, a: CHANNEL_MAX }
}

/// What [`Default`] shows at rest: a white picker with black text and
/// numbers, light grey dots and hands, and a thin black border rounded by
/// fifteen host units.
pub open spec fn default_active() -> Appearance {
    Appearance {
        background: Background::Color(white()),
        border_radius: 15000,
        border_width: 1000,
        border_color: black(),
        text_color: black(),
        clock_number_color: black(),
        clock_number_background: white(),
        clock_dots_color: light_grey(),
        clock_hand_color: light_grey(),
        clock_hand_width: 1000,
    }
}

/// What [`Default`] shows for a selected or hovered element: the appearance
/// at rest with the number background turned light grey.
pub open spec fn default_highlighted() -> Appearance {
    Appearance { clock_number_background: light_grey(), ..default_active() }
}

/// What [`Default`] shows when focused: the appearance at rest with the
/// border turned mid grey.
pub open spec fn default_focused() -> Appearance {
    Appearance { border_color: mid_grey(), ..default_active() }
}

/// The default style of a time picker.
#[derive(Clone, Copy, Debug)]
pub struct Default;

impl StyleSheet for Default {
    fn active(&self) -> (a: Appearance)
        ensures
            a == default_active(),
    {
        Appearance {
            background: Background::Color(Color::white()),
            border_radius: 15000,
            border_width: 1000,
            border_color: Color::black(),
            text_color: Color::black(),
            clock_number_color: Color::black(),
            clock_number_background: Color::white(),
            clock_dots_color: Color::from_rgb(870, 870, 870),
            clock_hand_color: Color::from_rgb(870, 870, 870),
            clock_hand_width: 1000,
        }
    }

    fn selected(&self) -> (a: Appearance)
        ensures
            a == default_highlighted(),
    {
        Appearance { clock_number_background: Color::from_rgb(870, 870, 870), ..self.active() }
    }

    fn hovered(&self) -> (a: Appearance)
        ensures
            a == default_highlighted(),
    {
        Appearance { clock_number_background: Color::from_rgb(870, 870, 870), ..self.active() }
    }

    fn focused(&self) -> (a: Appearance)
        ensures
            a == default_focused(),
    {
        Appearance { border_color: Color::from_rgb(500, 500, 500), ..self.active() }
    }
}

} // verus!
