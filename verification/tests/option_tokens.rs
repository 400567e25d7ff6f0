//! The option enumerations: rendering to tokens, reading tokens back, the
//! case-insensitive fallback to defaults.

use fzf_wrapped::options::Border;
use fzf_wrapped::options::Color;
use fzf_wrapped::options::Layout;
use fzf_wrapped::options::Scheme;

#[test]
fn scheme_round_trips() {
    for v in [Scheme::Default, Scheme::Path, Scheme::History] {
        assert_eq!(Scheme::from(v.to_string()), v);
    }
}

#[test]
fn color_round_trips() {
    for v in [Color::Dark, Color::Light, Color::Sixteen, Color::Bw] {
        assert_eq!(Color::from(v.to_string()), v);
    }
}

#[test]
fn layout_round_trips() {
    for v in [Layout::Default, Layout::Reverse, Layout::ReverseList] {
        assert_eq!(Layout::from(v.to_string()), v);
    }
}

#[test]
fn border_round_trips() {
    for v in [
        Border::NoBorder,
        Border::Rounded,
        Border::Sharp,
        Border::Horizontal,
        Border::Vertical,
        Border::Top,
        Border::Bottom,
        Border::Left,
        Border::Right,
    ] {
        assert_eq!(Border::from(v.to_string()), v);
    }
}

#[test]
fn tokens_are_the_documented_strings() {
    assert_eq!(Scheme::Path.to_string(), "path");
    assert_eq!(Color::Sixteen.to_string(), "16");
    assert_eq!(Layout::ReverseList.to_string(), "reverse-list");
    assert_eq!(Border::NoBorder.to_string(), "none");
    assert_eq!(Border::Rounded.to_string(), "rounded");
}

#[test]
fn parsing_ignores_ascii_case() {
    assert_eq!(Scheme::from("PATH".to_string()), Scheme::Path);
    assert_eq!(Scheme::from("HiStOrY".to_string()), Scheme::History);
    assert_eq!(Color::from("Light".to_string()), Color::Light);
    assert_eq!(Layout::from("Reverse-List".to_string()), Layout::ReverseList);
    assert_eq!(Border::from("ROUNDED".to_string()), Border::Rounded);
}

#[test]
fn sixteen_parses_under_both_spellings() {
    assert_eq!(Color::from("16".to_string()), Color::Sixteen);
    assert_eq!(Color::from("sixteen".to_string()), Color::Sixteen);
}

#[test]
fn unrecognized_tokens_fall_back_to_defaults() {
    assert_eq!(Scheme::from("unheard-of".to_string()), Scheme::Default);
    assert_eq!(Color::from("mauve".to_string()), Color::Dark);
    assert_eq!(Layout::from("sideways".to_string()), Layout::Default);
    assert_eq!(Border::from("dotted".to_string()), Border::NoBorder);
    assert_eq!(Scheme::from("".to_string()), Scheme::Default);
}

#[test]
fn defaults_are_the_documented_values() {
    assert_eq!(Scheme::default(), Scheme::Default);
    assert_eq!(Color::default(), Color::Dark);
    assert_eq!(Layout::default(), Layout::Default);
    assert_eq!(Border::default(), Border::NoBorder);
}
