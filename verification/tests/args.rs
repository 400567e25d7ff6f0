//! The argument mapping: order, boolean flags, the header token, extra raw
//! arguments, and the full scenario of a decorated finder.

use fzf_wrapped::Fzf;
use fzf_wrapped::options::Border;
use fzf_wrapped::options::Color;
use fzf_wrapped::options::Layout;
use fzf_wrapped::options::Scheme;

fn as_strs(args: &[String]) -> Vec<&str> {
    args.iter().map(|s| s.as_str()).collect()
}

#[test]
fn default_snapshot_generates_exactly_the_value_tokens() {
    let fzf = Fzf::default();
    let args = fzf.all_args();
    assert_eq!(
        as_strs(&args),
        vec![
            "--scheme=default",
            "--layout=default",
            "--border=none",
            "--border-label=",
            "--prompt=> ",
            "--pointer=>",
            "--tabstop=8",
            "--color=dark",
        ]
    );
}

#[test]
fn argument_mapping_is_deterministic() {
    let fzf = Fzf::builder()
        .scheme(Scheme::History)
        .cycle(true)
        .header("pick")
        .custom_args(vec!["--height=10".to_string()])
        .build();
    let first = fzf.all_args();
    let second = fzf.all_args();
    assert_eq!(first, second);
}

#[test]
fn true_flag_appears_exactly_once_false_not_at_all() {
    let fzf = Fzf::builder().literal(true).cycle(true).build();
    let args = fzf.all_args();
    assert_eq!(args.iter().filter(|a| a.as_str() == "--literal").count(), 1);
    assert_eq!(args.iter().filter(|a| a.as_str() == "--cycle").count(), 1);
    assert_eq!(args.iter().filter(|a| a.as_str() == "--tac").count(), 0);
    assert_eq!(args.iter().filter(|a| a.as_str() == "--no-bold").count(), 0);
}

#[test]
fn every_boolean_flag_has_its_own_token() {
    let fzf = Fzf::builder()
        .literal(true)
        .track(true)
        .tac(true)
        .disabled(true)
        .no_mouse(true)
        .cycle(true)
        .keep_right(true)
        .no_hscroll(true)
        .filepath_word(true)
        .no_separator(true)
        .no_scrollbar(true)
        .header_first(true)
        .ansi(true)
        .no_bold(true)
        .build();
    let args = fzf.all_args();
    for flag in [
        "--literal",
        "--track",
        "--tac",
        "--disabled",
        "--no-mouse",
        "--cycle",
        "--keep-right",
        "--no-hscroll",
        "--filepath-word",
        "--no-separator",
        "--no-scrollbar",
        "--header-first",
        "--ansi",
        "--no-bold",
    ] {
        assert_eq!(args.iter().filter(|a| a.as_str() == flag).count(), 1);
    }
}

#[test]
fn header_token_present_iff_header_nonempty() {
    let without = Fzf::default().all_args();
    assert!(!without.iter().any(|a| a.starts_with("--header=")));

    let with = Fzf::builder().header("Pick one").build().all_args();
    assert_eq!(
        with.iter().filter(|a| a.as_str() == "--header=Pick one").count(),
        1
    );
}

#[test]
fn custom_args_come_last_in_caller_order() {
    let fzf = Fzf::builder()
        .custom_args(vec![
            "--height=10".to_string(),
            "--margin=1".to_string(),
            "--info=hidden".to_string(),
        ])
        .build();
    let args = fzf.all_args();
    let n = args.len();
    assert_eq!(args[n - 3], "--height=10");
    assert_eq!(args[n - 2], "--margin=1");
    assert_eq!(args[n - 1], "--info=hidden");
    let generated = fzf.get_fzf_args();
    assert_eq!(&args[..n - 3], &generated[..]);
}

#[test]
fn decorated_finder_scenario() {
    let fzf = Fzf::builder()
        .layout(Layout::Reverse)
        .border(Border::Rounded)
        .border_label("Favourite Colour")
        .header("Pick one")
        .header_first(true)
        .custom_args(vec!["--height=10".to_string()])
        .build();
    let args = fzf.all_args();
    let strs = as_strs(&args);
    assert!(strs.contains(&"--layout=reverse"));
    assert!(strs.contains(&"--border=rounded"));
    assert!(strs.contains(&"--border-label=Favourite Colour"));
    assert!(strs.contains(&"--header=Pick one"));
    assert!(strs.contains(&"--header-first"));
    assert_eq!(strs.last(), Some(&"--height=10"));
}

#[test]
fn tabstop_renders_in_decimal() {
    for (value, token) in [
        (0u8, "--tabstop=0"),
        (7, "--tabstop=7"),
        (10, "--tabstop=10"),
        (100, "--tabstop=100"),
        (255, "--tabstop=255"),
    ] {
        let args = Fzf::builder().tabstop(value).build().all_args();
        assert_eq!(args.iter().filter(|a| a.as_str() == token).count(), 1);
    }
}

#[test]
fn enumerated_values_render_their_tokens() {
    let args = Fzf::builder()
        .scheme(Scheme::History)
        .layout(Layout::ReverseList)
        .border(Border::Horizontal)
        .color(Color::Sixteen)
        .build()
        .all_args();
    let strs = as_strs(&args);
    assert!(strs.contains(&"--scheme=history"));
    assert!(strs.contains(&"--layout=reverse-list"));
    assert!(strs.contains(&"--border=horizontal"));
    assert!(strs.contains(&"--color=16"));
}
