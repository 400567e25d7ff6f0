//! The builder: chaining, defaults, and the infallible build.

use fzf_wrapped::Fzf;
use fzf_wrapped::FzfBuilder;
use fzf_wrapped::options::Border;
use fzf_wrapped::options::Color;
use fzf_wrapped::options::Layout;
use fzf_wrapped::options::Scheme;

#[test]
fn fzf_builder_works_as_expected() {
    let _ = Fzf::builder().build();
}

#[test]
fn lib_builder_works_as_expected() {
    let _ = Fzf::builder().build();
}

#[test]
fn default_snapshot_has_documented_defaults() {
    let fzf = Fzf::default();
    assert_eq!(fzf.scheme, Scheme::Default);
    assert_eq!(fzf.layout, Layout::Default);
    assert_eq!(fzf.border, Border::NoBorder);
    assert_eq!(fzf.color, Color::Dark);
    assert_eq!(fzf.prompt, "> ");
    assert_eq!(fzf.pointer, ">");
    assert_eq!(fzf.border_label, "");
    assert_eq!(fzf.header, "");
    assert_eq!(fzf.tabstop, 8);
    assert!(!fzf.literal);
    assert!(!fzf.track);
    assert!(!fzf.tac);
    assert!(!fzf.disabled);
    assert!(!fzf.no_mouse);
    assert!(!fzf.cycle);
    assert!(!fzf.keep_right);
    assert!(!fzf.no_hscroll);
    assert!(!fzf.filepath_word);
    assert!(!fzf.no_separator);
    assert!(!fzf.no_scrollbar);
    assert!(!fzf.header_first);
    assert!(!fzf.ansi);
    assert!(!fzf.no_bold);
    assert!(fzf.custom_args.is_empty());
}

#[test]
fn builder_default_equals_fzf_builder() {
    let a = FzfBuilder::default().build();
    let b = Fzf::builder().build();
    assert_eq!(a.scheme, b.scheme);
    assert_eq!(a.prompt, b.prompt);
    assert_eq!(a.tabstop, b.tabstop);
}

#[test]
fn setters_store_their_values() {
    let fzf = Fzf::builder()
        .scheme(Scheme::Path)
        .literal(true)
        .track(true)
        .tac(true)
        .disabled(true)
        .no_mouse(true)
        .cycle(true)
        .keep_right(true)
        .no_hscroll(true)
        .filepath_word(true)
        .layout(Layout::ReverseList)
        .border(Border::Sharp)
        .border_label("label")
        .no_separator(true)
        .no_scrollbar(true)
        .prompt("? ")
        .pointer("->")
        .header("heading")
        .header_first(true)
        .ansi(true)
        .tabstop(4)
        .color(Color::Bw)
        .no_bold(true)
        .custom_args(vec!["--height=10".to_string()])
        .build();
    assert_eq!(fzf.scheme, Scheme::Path);
    assert!(fzf.literal);
    assert!(fzf.track);
    assert!(fzf.tac);
    assert!(fzf.disabled);
    assert!(fzf.no_mouse);
    assert!(fzf.cycle);
    assert!(fzf.keep_right);
    assert!(fzf.no_hscroll);
    assert!(fzf.filepath_word);
    assert_eq!(fzf.layout, Layout::ReverseList);
    assert_eq!(fzf.border, Border::Sharp);
    assert_eq!(fzf.border_label, "label");
    assert!(fzf.no_separator);
    assert!(fzf.no_scrollbar);
    assert_eq!(fzf.prompt, "? ");
    assert_eq!(fzf.pointer, "->");
    assert_eq!(fzf.header, "heading");
    assert!(fzf.header_first);
    assert!(fzf.ansi);
    assert_eq!(fzf.tabstop, 4);
    assert_eq!(fzf.color, Color::Bw);
    assert!(fzf.no_bold);
    assert_eq!(fzf.custom_args, vec!["--height=10".to_string()]);
}
