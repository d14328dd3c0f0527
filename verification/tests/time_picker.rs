use iced_aw::style::time_picker::{Appearance, Background, Color, StyleSheet, CHANNEL_MAX};

#[test]
fn a_channel_ranges_over_a_thousand_steps() {
    assert_eq!(CHANNEL_MAX, 1000);
}

#[test]
fn from_rgb_gives_an_opaque_colour() {
    let c = Color::from_rgb(870, 870, 870);
    assert_eq!(c, Color { r: 870, g: 870, b: 870, a: 1000 });
}

#[test]
fn white_and_black_are_the_extremes() {
    assert_eq!(Color::white(), Color { r: 1000, g: 1000, b: 1000, a: 1000 });
    assert_eq!(Color::black(), Color { r: 0, g: 0, b: 0, a: 1000 });
}

#[test]
fn the_default_sheet_at_rest() {
    let a = iced_aw::style::time_picker::Default.active();
    assert_eq!(a.background, Background::Color(Color { r: 1000, g: 1000, b: 1000, a: 1000 }));
    assert_eq!(a.border_radius, 15000);
    assert_eq!(a.border_width, 1000);
    assert_eq!(a.border_color, Color { r: 0, g: 0, b: 0, a: 1000 });
    assert_eq!(a.text_color, Color { r: 0, g: 0, b: 0, a: 1000 });
    assert_eq!(a.clock_number_color, Color { r: 0, g: 0, b: 0, a: 1000 });
    assert_eq!(a.clock_number_background, Color { r: 1000, g: 1000, b: 1000, a: 1000 });
    assert_eq!(a.clock_dots_color, Color { r: 870, g: 870, b: 870, a: 1000 });
    assert_eq!(a.clock_hand_color, Color { r: 870, g: 870, b: 870, a: 1000 });
    assert_eq!(a.clock_hand_width, 1000);
}

#[test]
fn selection_only_tints_the_number_background() {
    let active = iced_aw::style::time_picker::Default.active();
    let selected = iced_aw::style::time_picker::Default.selected();
    assert_eq!(selected.clock_number_background, Color { r: 870, g: 870, b: 870, a: 1000 });
    let rest = Appearance { clock_number_background: active.clock_number_background, ..selected };
    assert_eq!(rest, active);
}

#[test]
fn hovering_only_tints_the_number_background() {
    let active = iced_aw::style::time_picker::Default.active();
    let hovered = iced_aw::style::time_picker::Default.hovered();
    assert_eq!(hovered.clock_number_background, Color { r: 870, g: 870, b: 870, a: 1000 });
    let rest = Appearance { clock_number_background: active.clock_number_background, ..hovered };
    assert_eq!(rest, active);
}

#[test]
fn hovering_and_selection_look_the_same() {
    assert_eq!(iced_aw::style::time_picker::Default.hovered(), iced_aw::style::time_picker::Default.selected());
}

#[test]
fn focus_only_greys_the_border() {
    let active = iced_aw::style::time_picker::Default.active();
    let focused = iced_aw::style::time_picker::Default.focused();
    assert_eq!(focused.border_color, Color { r: 500, g: 500, b: 500, a: 1000 });
    let rest = Appearance { border_color: active.border_color, ..focused };
    assert_eq!(rest, active);
}
