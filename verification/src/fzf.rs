//! The configuration snapshot for the external fuzzy finder and its builder,
//! together with the mapping from a snapshot to the command-line argument
//! list the finder is launched with.

use vstd::prelude::*;

use crate::options::Border;
use crate::options::Color;
use crate::options::Layout;
use crate::options::Scheme;
use crate::text::dec_digits;
use crate::text::dec_string;

verus! {

/// The character views of a sequence of strings.
pub open spec fn views_of(ss: Seq<String>) -> Seq<Seq<char>> {
    ss.map_values(|s: String| s@)
}

/// The token list a boolean option contributes: its bare flag when the
/// option is on, nothing when it is off.
pub open spec fn opt_flag(on: bool, tok: Seq<char>) -> Seq<Seq<char>> {
    if on {
        seq![tok]
    } else {
        Seq::empty()
    }
}

/// An immutable configuration snapshot: every recognized option with its
/// value, plus free-form extra arguments appended verbatim.  Every field has
/// a default, so a snapshot is always constructible without input.
pub struct Fzf {
    /// Additional arguments that have no predefined option of their own.
    pub custom_args: Vec<String>,
    /// Scoring scheme.
    pub scheme: Scheme,
    /// Do not normalize latin script letters before matching.
    pub literal: bool,
    /// Track the current selection when the result is updated.
    pub track: bool,
    /// Reverse the order of the input.
    pub tac: bool,
    /// Do not perform search.
    pub disabled: bool,
    /// Disable mouse.
    pub no_mouse: bool,
    /// Enable cyclic scroll.
    pub cycle: bool,
    /// Keep the right end of the line visible on overflow.
    pub keep_right: bool,
    /// Disable horizontal scroll.
    pub no_hscroll: bool,
    /// Make word-wise movements respect path separators.
    pub filepath_word: bool,
    /// Layout to display the finder with.
    pub layout: Layout,
    /// Border to draw around the finder.
    pub border: Border,
    /// Label to print on the border.
    pub border_label: String,
    /// Hide the info line separator.
    pub no_separator: bool,
    /// Hide the scrollbar.
    pub no_scrollbar: bool,
    /// Input prompt.
    pub prompt: String,
    /// Pointer to the current line.
    pub pointer: String,
    /// Text to print as header; an empty text prints no header at all.
    pub header: String,
    /// Print the header before the prompt line.
    pub header_first: bool,
    /// Enable processing of ANSI color codes.
    pub ansi: bool,
    /// Number of spaces for a tab character.
    pub tabstop: u8,
    /// Colour theme.
    pub color: Color,
    /// Do not use bold text.
    pub no_bold: bool,
}

impl Fzf {
    /// Whether this snapshot holds the default value of every option.
    pub open spec fn is_default(self) -> bool {
        &&& self.custom_args@ == Seq::<String>::empty()
        &&& self.scheme == Scheme::Default
        &&& self.literal == false
        &&& self.track == false
        &&& self.tac == false
        &&& self.disabled == false
        &&& self.no_mouse == false
        &&& self.cycle == false
        &&& self.keep_right == false
        &&& self.no_hscroll == false
        &&& self.filepath_word == false
        &&& self.layout == Layout::Default
        &&& self.border == Border::NoBorder
        &&& self.border_label@ == Seq::<char>::empty()
        &&& self.no_separator == false
        &&& self.no_scrollbar == false
        &&& self.prompt@ == "> "@
        &&& self.pointer@ == ">"@
        &&& self.header@ == Seq::<char>::empty()
        &&& self.header_first == false
        &&& self.ansi == false
        &&& self.tabstop == 8
        &&& self.color == Color::Dark
        &&& self.no_bold == false
    }

    /// Creates a builder holding the default value of every option.
    pub fn builder() -> (r: FzfBuilder)
        ensures
            r.cfg.is_default(),
    {
        FzfBuilder { cfg: Fzf::default() }
    }

    /// The tokens the search options generate.
    pub open spec fn search_args(self) -> Seq<Seq<char>> {
        seq![ "--scheme="@ + self.scheme.token() ] + opt_flag(self.literal, "--literal"@)
            + opt_flag(self.track, "--track"@) + opt_flag(self.tac, "--tac"@) + opt_flag(
            self.disabled,
            "--disabled"@,
        )
    }

    /// The tokens the interface options generate.
    pub open spec fn interface_args(self) -> Seq<Seq<char>> {
        opt_flag(self.no_mouse, "--no-mouse"@) + opt_flag(self.cycle, "--cycle"@) + opt_flag(
            self.keep_right,
            "--keep-right"@,
        ) + opt_flag(self.no_hscroll, "--no-hscroll"@) + opt_flag(
            self.filepath_word,
            "--filepath-word"@,
        )
    }

    /// The tokens the layout options generate.  The header token is omitted
    /// entirely when the header text is empty.
    pub open spec fn layout_args(self) -> Seq<Seq<char>> {
        seq![ "--layout="@ + self.layout.token() ] + seq![ "--border="@ + self.border.token() ]
            + seq![ "--border-label="@ + self.border_label@ ] + opt_flag(
            self.no_separator,
            "--no-separator"@,
        ) + opt_flag(self.no_scrollbar, "--no-scrollbar"@) + seq![ "--prompt="@ + self.prompt@ ]
            + seq![ "--pointer="@ + self.pointer@ ] + opt_flag(
            self.header@.len() > 0,
            "--header="@ + self.header@,
        ) + opt_flag(self.header_first, "--header-first"@)
    }

    /// The tokens the display options generate.
    pub open spec fn display_args(self) -> Seq<Seq<char>> {
        opt_flag(self.ansi, "--ansi"@) + seq![ "--tabstop="@ + dec_digits(self.tabstop as int) ]
            + seq![ "--color="@ + self.color.token() ] + opt_flag(self.no_bold, "--no-bold"@)
    }

    /// The argument tokens generated from the recognized options, in their
    /// fixed order: search, interface, layout and display options.
    /// Value-bearing options always contribute a `--name=value` token —
    /// except the header, whose token is omitted entirely when the header
    /// text is empty — and boolean options contribute their bare flag
    /// exactly when they are on.
    pub open spec fn generated_args(self) -> Seq<Seq<char>> {
        self.search_args() + self.interface_args() + self.layout_args() + self.display_args()
    }

    /// The full argument list: the generated tokens followed by the extra
    /// raw arguments, verbatim and in the caller's order.
    pub open spec fn full_args(self) -> Seq<Seq<char>> {
        self.generated_args() + views_of(self.custom_args@)
    }

    /// Builds the tokens of the search options.
    fn build_search_args(&self) -> (r: Vec<String>)
        ensures
            views_of(r@) == self.search_args(),
    {
        let mut args: Vec<String> = Vec::new();
        proof {
            assert(views_of(args@) =~= Seq::<Seq<char>>::empty());
        }
        let scheme = self.scheme.to_string();
        push_value(&mut args, "--scheme=", scheme.as_str());
        proof {
            assert(views_of(args@) =~= seq![ "--scheme="@ + self.scheme.token() ]);
        }
        push_flag(&mut args, "--literal", self.literal);
        push_flag(&mut args, "--track", self.track);
        push_flag(&mut args, "--tac", self.tac);
        push_flag(&mut args, "--disabled", self.disabled);
        args
    }

    /// Builds the tokens of the interface options.
    fn build_interface_args(&self) -> (r: Vec<String>)
        ensures
            views_of(r@) == self.interface_args(),
    {
        let mut args: Vec<String> = Vec::new();
        proof {
            assert(views_of(args@) =~= Seq::<Seq<char>>::empty());
        }
        push_flag(&mut args, "--no-mouse", self.no_mouse);
        proof {
            assert(Seq::<Seq<char>>::empty() + opt_flag(self.no_mouse, "--no-mouse"@) =~= opt_flag(
                self.no_mouse,
                "--no-mouse"@,
            ));
        }
        push_flag(&mut args, "--cycle", self.cycle);
        push_flag(&mut args, "--keep-right", self.keep_right);
        push_flag(&mut args, "--no-hscroll", self.no_hscroll);
        push_flag(&mut args, "--filepath-word", self.filepath_word);
        args
    }

    /// Builds the tokens of the layout options.
    fn build_layout_args(&self) -> (r: Vec<String>)
        ensures
            views_of(r@) == self.layout_args(),
    {
        let mut args: Vec<String> = Vec::new();
        proof {
            assert(views_of(args@) =~= Seq::<Seq<char>>::empty());
        }
        let layout = self.layout.to_string();
        push_value(&mut args, "--layout=", layout.as_str());
        proof {
            assert(views_of(args@) =~= seq![ "--layout="@ + self.layout.token() ]);
        }
        let border = self.border.to_string();
        push_value(&mut args, "--border=", border.as_str());
        push_value(&mut args, "--border-label=", self.border_label.as_str());
        push_flag(&mut args, "--no-separator", self.no_separator);
        push_flag(&mut args, "--no-scrollbar", self.no_scrollbar);
        push_value(&mut args, "--prompt=", self.prompt.as_str());
        push_value(&mut args, "--pointer=", self.pointer.as_str());
        if !self.header.as_str().is_empty() {
            push_value(&mut args, "--header=", self.header.as_str());
        }
        push_flag(&mut args, "--header-first", self.header_first);
        args
    }

    /// Builds the tokens of the display options.
    fn build_display_args(&self) -> (r: Vec<String>)
        ensures
            views_of(r@) == self.display_args(),
    {
        let mut args: Vec<String> = Vec::new();
        proof {
            assert(views_of(args@) =~= Seq::<Seq<char>>::empty());
        }
        push_flag(&mut args, "--ansi", self.ansi);
        proof {
            assert(Seq::<Seq<char>>::empty() + opt_flag(self.ansi, "--ansi"@) =~= opt_flag(
                self.ansi,
                "--ansi"@,
            ));
        }
        let tabstop = dec_string(self.tabstop);
        push_value(&mut args, "--tabstop=", tabstop.as_str());
        let color = self.color.to_string();
        push_value(&mut args, "--color=", color.as_str());
        push_flag(&mut args, "--no-bold", self.no_bold);
        args
    }

    /// Builds the argument tokens generated from the recognized options.
    pub fn get_fzf_args(&self) -> (r: Vec<String>)
        ensures
            views_of(r@) == self.generated_args(),
    {
        let mut args = self.build_search_args();
        let mut interface = self.build_interface_args();
        let ghost before_interface = args@;
        let ghost interface_part = interface@;
        args.append(&mut interface);
        proof {
            lemma_views_of_add(before_interface, interface_part);
        }
        let mut layout = self.build_layout_args();
        let ghost before_layout = args@;
        let ghost layout_part = layout@;
        args.append(&mut layout);
        proof {
            lemma_views_of_add(before_layout, layout_part);
        }
        let mut display = self.build_display_args();
        let ghost before_display = args@;
        let ghost display_part = display@;
        args.append(&mut display);
        proof {
            lemma_views_of_add(before_display, display_part);
        }
        args
    }

    /// Builds the full argument list handed to the finder: the generated
    /// tokens first, then the extra raw arguments in the caller's order.
    pub fn all_args(&self) -> (r: Vec<String>)
        ensures
            views_of(r@) == self.full_args(),
    {
        let mut args = self.get_fzf_args();
        proof {
            assert(views_of(self.custom_args@.subrange(0, 0)) =~= Seq::<Seq<char>>::empty());
            assert(views_of(args@) =~= self.generated_args() + views_of(
                self.custom_args@.subrange(0, 0),
            ));
        }
        let mut i: usize = 0;
        while i < self.custom_args.len()
            invariant
                0 <= i <= self.custom_args@.len(),
                views_of(args@) == self.generated_args() + views_of(
                    self.custom_args@.subrange(0, i as int),
                ),
            decreases self.custom_args@.len() - i,
        {
            args.push(self.custom_args[i].clone());
            proof {
                let cs = self.custom_args@;
                let done = cs.subrange(0, i as int);
                assert(cs.subrange(0, i as int + 1) =~= done.push(cs[i as int]));
                assert(views_of(done.push(cs[i as int])) =~= views_of(done) + seq![cs[i as int]@]);
                assert(views_of(args@) =~= (self.generated_args() + views_of(done)) + seq![
                    cs[i as int]@,
                ]);
                assert(self.generated_args() + views_of(cs.subrange(0, i as int + 1)) =~= (
                self.generated_args() + views_of(done)) + seq![cs[i as int]@]);
            }
            i = i + 1;
        }
        proof {
            assert(self.custom_args@.subrange(0, self.custom_args@.len() as int)
                =~= self.custom_args@);
        }
        args
    }
}

/// How many entries of the token list `ts` are the token `t`.
pub open spec fn occurrences(ts: Seq<Seq<char>>, t: Seq<char>) -> int
    decreases ts.len(),
{
    if ts.len() == 0 {
        0
    } else {
        (if ts[0] == t {
            1int
        } else {
            0int
        }) + occurrences(ts.drop_first(), t)
    }
}

pub broadcast proof fn lemma_occurrences_add(a: Seq<Seq<char>>, b: Seq<Seq<char>>, t: Seq<char>)
    ensures
        #[trigger] occurrences(a + b, t) == occurrences(a, t) + occurrences(b, t),
    decreases a.len(),
{
    if a.len() == 0 {
        assert(a + b =~= b);
    } else {
        assert((a + b).drop_first() =~= a.drop_first() + b);
        lemma_occurrences_add(a.drop_first(), b, t);
    }
}

pub broadcast proof fn lemma_occurrences_single(x: Seq<char>, t: Seq<char>)
    ensures
        #[trigger] occurrences(seq![x], t) == if x == t {
            1int
        } else {
            0int
        },
{
    reveal_with_fuel(occurrences, 2);
    assert(seq![x].drop_first() =~= Seq::<Seq<char>>::empty());
}

pub broadcast proof fn lemma_occurrences_opt_flag(on: bool, tok: Seq<char>, t: Seq<char>)
    ensures
        #[trigger] occurrences(opt_flag(on, tok), t) == if on && tok == t {
            1int
        } else {
            0int
        },
{
    lemma_occurrences_single(tok, t);
}

/// A value token `name + value` can never be the bare flag `flag`, because
/// `name` contains `=` and `flag` does not.
proof fn lemma_value_ne_flag(name: Seq<char>, value: Seq<char>, flag: Seq<char>, j: int)
    requires
        0 <= j < name.len(),
        name[j] == '=',
        forall|i: int| 0 <= i < flag.len() ==> flag[i] != '=',
    ensures
        name + value != flag,
{
    if name + value == flag {
        assert(flag[j] == (name + value)[j]);
        assert((name + value)[j] == name[j]);
    }
}

proof fn lemma_search_occurrences(c: Fzf, f: Seq<char>)
    requires
        forall|i: int| 0 <= i < f.len() ==> f[i] != '=',
    ensures
        occurrences(c.search_args(), f) == (if c.literal && f == "--literal"@ {
            1int
        } else {
            0int
        }) + (if c.track && f == "--track"@ {
            1int
        } else {
            0int
        }) + (if c.tac && f == "--tac"@ {
            1int
        } else {
            0int
        }) + (if c.disabled && f == "--disabled"@ {
            1int
        } else {
            0int
        }),
{
    reveal_strlit("--scheme=");
    lemma_value_ne_flag("--scheme="@, c.scheme.token(), f, 8);
    let s1 = seq![ "--scheme="@ + c.scheme.token() ];
    let s2 = opt_flag(c.literal, "--literal"@);
    let s3 = opt_flag(c.track, "--track"@);
    let s4 = opt_flag(c.tac, "--tac"@);
    let s5 = opt_flag(c.disabled, "--disabled"@);
    lemma_occurrences_add(s1, s2, f);
    lemma_occurrences_add(s1 + s2, s3, f);
    lemma_occurrences_add(s1 + s2 + s3, s4, f);
    lemma_occurrences_add(s1 + s2 + s3 + s4, s5, f);
    lemma_occurrences_single("--scheme="@ + c.scheme.token(), f);
    lemma_occurrences_opt_flag(c.literal, "--literal"@, f);
    lemma_occurrences_opt_flag(c.track, "--track"@, f);
    lemma_occurrences_opt_flag(c.tac, "--tac"@, f);
    lemma_occurrences_opt_flag(c.disabled, "--disabled"@, f);
}

proof fn lemma_interface_occurrences(c: Fzf, f: Seq<char>)
    ensures
        occurrences(c.interface_args(), f) == (if c.no_mouse && f == "--no-mouse"@ {
            1int
        } else {
            0int
        }) + (if c.cycle && f == "--cycle"@ {
            1int
        } else {
            0int
        }) + (if c.keep_right && f == "--keep-right"@ {
            1int
        } else {
            0int
        }) + (if c.no_hscroll && f == "--no-hscroll"@ {
            1int
        } else {
            0int
        }) + (if c.filepath_word && f == "--filepath-word"@ {
            1int
        } else {
            0int
        }),
{
    let s1 = opt_flag(c.no_mouse, "--no-mouse"@);
    let s2 = opt_flag(c.cycle, "--cycle"@);
    let s3 = opt_flag(c.keep_right, "--keep-right"@);
    let s4 = opt_flag(c.no_hscroll, "--no-hscroll"@);
    let s5 = opt_flag(c.filepath_word, "--filepath-word"@);
    lemma_occurrences_add(s1, s2, f);
    lemma_occurrences_add(s1 + s2, s3, f);
    lemma_occurrences_add(s1 + s2 + s3, s4, f);
    lemma_occurrences_add(s1 + s2 + s3 + s4, s5, f);
    lemma_occurrences_opt_flag(c.no_mouse, "--no-mouse"@, f);
    lemma_occurrences_opt_flag(c.cycle, "--cycle"@, f);
    lemma_occurrences_opt_flag(c.keep_right, "--keep-right"@, f);
    lemma_occurrences_opt_flag(c.no_hscroll, "--no-hscroll"@, f);
    lemma_occurrences_opt_flag(c.filepath_word, "--filepath-word"@, f);
}

proof fn lemma_layout_occurrences(c: Fzf, f: Seq<char>)
    requires
        forall|i: int| 0 <= i < f.len() ==> f[i] != '=',
    ensures
        occurrences(c.layout_args(), f) == (if c.no_separator && f == "--no-separator"@ {
            1int
        } else {
            0int
        }) + (if c.no_scrollbar && f == "--no-scrollbar"@ {
            1int
        } else {
            0int
        }) + (if c.header_first && f == "--header-first"@ {
            1int
        } else {
            0int
        }),
{
    reveal_strlit("--layout=");
    reveal_strlit("--border=");
    reveal_strlit("--border-label=");
    reveal_strlit("--prompt=");
    reveal_strlit("--pointer=");
    reveal_strlit("--header=");
    lemma_value_ne_flag("--layout="@, c.layout.token(), f, 8);
    lemma_value_ne_flag("--border="@, c.border.token(), f, 8);
    lemma_value_ne_flag("--border-label="@, c.border_label@, f, 14);
    lemma_value_ne_flag("--prompt="@, c.prompt@, f, 8);
    lemma_value_ne_flag("--pointer="@, c.pointer@, f, 9);
    lemma_value_ne_flag("--header="@, c.header@, f, 8);
    let s1 = seq![ "--layout="@ + c.layout.token() ];
    let s2 = seq![ "--border="@ + c.border.token() ];
    let s3 = seq![ "--border-label="@ + c.border_label@ ];
    let s4 = opt_flag(c.no_separator, "--no-separator"@);
    let s5 = opt_flag(c.no_scrollbar, "--no-scrollbar"@);
    let s6 = seq![ "--prompt="@ + c.prompt@ ];
    let s7 = seq![ "--pointer="@ + c.pointer@ ];
    let s8 = opt_flag(c.header@.len() > 0, "--header="@ + c.header@);
    let s9 = opt_flag(c.header_first, "--header-first"@);
    lemma_occurrences_add(s1, s2, f);
    lemma_occurrences_add(s1 + s2, s3, f);
    lemma_occurrences_add(s1 + s2 + s3, s4, f);
    lemma_occurrences_add(s1 + s2 + s3 + s4, s5, f);
    lemma_occurrences_add(s1 + s2 + s3 + s4 + s5, s6, f);
    lemma_occurrences_add(s1 + s2 + s3 + s4 + s5 + s6, s7, f);
    lemma_occurrences_add(s1 + s2 + s3 + s4 + s5 + s6 + s7, s8, f);
    lemma_occurrences_add(s1 + s2 + s3 + s4 + s5 + s6 + s7 + s8, s9, f);
    lemma_occurrences_single("--layout="@ + c.layout.token(), f);
    lemma_occurrences_single("--border="@ + c.border.token(), f);
    lemma_occurrences_single("--border-label="@ + c.border_label@, f);
    lemma_occurrences_single("--prompt="@ + c.prompt@, f);
    lemma_occurrences_single("--pointer="@ + c.pointer@, f);
    lemma_occurrences_opt_flag(c.no_separator, "--no-separator"@, f);
    lemma_occurrences_opt_flag(c.no_scrollbar, "--no-scrollbar"@, f);
    lemma_occurrences_opt_flag(c.header@.len() > 0, "--header="@ + c.header@, f);
    lemma_occurrences_opt_flag(c.header_first, "--header-first"@, f);
}

proof fn lemma_display_occurrences(c: Fzf, f: Seq<char>)
    requires
        forall|i: int| 0 <= i < f.len() ==> f[i] != '=',
    ensures
        occurrences(c.display_args(), f) == (if c.ansi && f == "--ansi"@ {
            1int
        } else {
            0int
        }) + (if c.no_bold && f == "--no-bold"@ {
            1int
        } else {
            0int
        }),
{
    reveal_strlit("--tabstop=");
    reveal_strlit("--color=");
    lemma_value_ne_flag("--tabstop="@, dec_digits(c.tabstop as int), f, 9);
    lemma_value_ne_flag("--color="@, c.color.token(), f, 7);
    let s1 = opt_flag(c.ansi, "--ansi"@);
    let s2 = seq![ "--tabstop="@ + dec_digits(c.tabstop as int) ];
    let s3 = seq![ "--color="@ + c.color.token() ];
    let s4 = opt_flag(c.no_bold, "--no-bold"@);
    lemma_occurrences_add(s1, s2, f);
    lemma_occurrences_add(s1 + s2, s3, f);
    lemma_occurrences_add(s1 + s2 + s3, s4, f);
    lemma_occurrences_opt_flag(c.ansi, "--ansi"@, f);
    lemma_occurrences_single("--tabstop="@ + dec_digits(c.tabstop as int), f);
    lemma_occurrences_single("--color="@ + c.color.token(), f);
    lemma_occurrences_opt_flag(c.no_bold, "--no-bold"@, f);
}

/// A token occurs in the generated list as often as it occurs in the four
/// option sections together.
proof fn lemma_occurrences_sections(c: Fzf, f: Seq<char>)
    ensures
        occurrences(c.generated_args(), f) == occurrences(c.search_args(), f) + occurrences(
            c.interface_args(),
            f,
        ) + occurrences(c.layout_args(), f) + occurrences(c.display_args(), f),
{
    lemma_occurrences_add(c.search_args(), c.interface_args(), f);
    lemma_occurrences_add(c.search_args() + c.interface_args(), c.layout_args(), f);
    lemma_occurrences_add(
        c.search_args() + c.interface_args() + c.layout_args(),
        c.display_args(),
        f,
    );
}

/// Ground facts about the fourteen bare flag tokens: their lengths, and
/// that the tokens of equal length differ.  Together these make any two
/// distinct flag tokens provably different.
proof fn lemma_flag_token_facts()
    ensures
        "--literal"@.len() == 9,
        "--track"@.len() == 7,
        "--tac"@.len() == 5,
        "--disabled"@.len() == 10,
        "--no-mouse"@.len() == 10,
        "--cycle"@.len() == 7,
        "--keep-right"@.len() == 12,
        "--no-hscroll"@.len() == 12,
        "--filepath-word"@.len() == 15,
        "--no-separator"@.len() == 14,
        "--no-scrollbar"@.len() == 14,
        "--header-first"@.len() == 14,
        "--ansi"@.len() == 6,
        "--no-bold"@.len() == 9,
        "--literal"@ != "--no-bold"@,
        "--track"@ != "--cycle"@,
        "--disabled"@ != "--no-mouse"@,
        "--keep-right"@ != "--no-hscroll"@,
        "--no-separator"@ != "--no-scrollbar"@,
        "--no-separator"@ != "--header-first"@,
        "--no-scrollbar"@ != "--header-first"@,
{
    reveal_strlit("--literal");
    reveal_strlit("--track");
    reveal_strlit("--tac");
    reveal_strlit("--disabled");
    reveal_strlit("--no-mouse");
    reveal_strlit("--cycle");
    reveal_strlit("--keep-right");
    reveal_strlit("--no-hscroll");
    reveal_strlit("--filepath-word");
    reveal_strlit("--no-separator");
    reveal_strlit("--no-scrollbar");
    reveal_strlit("--header-first");
    reveal_strlit("--ansi");
    reveal_strlit("--no-bold");
    assert("--literal"@[2] != "--no-bold"@[2]);
    assert("--track"@[2] != "--cycle"@[2]);
    assert("--disabled"@[2] != "--no-mouse"@[2]);
    assert("--keep-right"@[2] != "--no-hscroll"@[2]);
    assert("--no-separator"@[6] != "--no-scrollbar"@[6]);
    assert("--no-separator"@[2] != "--header-first"@[2]);
    assert("--no-scrollbar"@[2] != "--header-first"@[2]);
}

/// How often a token without `=` occurs in the generated list: once for
/// each boolean option that is on and whose flag it is, and never anywhere
/// else — no value-bearing token can collide with it.
#[verifier::spinoff_prover]
#[verifier::rlimit(100)]
proof fn lemma_eqless_occurrences(c: Fzf, f: Seq<char>)
    requires
        forall|i: int| 0 <= i < f.len() ==> f[i] != '=',
    ensures
        occurrences(c.generated_args(), f) == (if c.literal && f == "--literal"@ {
            1int
        } else {
            0int
        }) + (if c.track && f == "--track"@ {
            1int
        } else {
            0int
        }) + (if c.tac && f == "--tac"@ {
            1int
        } else {
            0int
        }) + (if c.disabled && f == "--disabled"@ {
            1int
        } else {
            0int
        }) + (if c.no_mouse && f == "--no-mouse"@ {
            1int
        } else {
            0int
        }) + (if c.cycle && f == "--cycle"@ {
            1int
        } else {
            0int
        }) + (if c.keep_right && f == "--keep-right"@ {
            1int
        } else {
            0int
        }) + (if c.no_hscroll && f == "--no-hscroll"@ {
            1int
        } else {
            0int
        }) + (if c.filepath_word && f == "--filepath-word"@ {
            1int
        } else {
            0int
        }) + (if c.no_separator && f == "--no-separator"@ {
            1int
        } else {
            0int
        }) + (if c.no_scrollbar && f == "--no-scrollbar"@ {
            1int
        } else {
            0int
        }) + (if c.header_first && f == "--header-first"@ {
            1int
        } else {
            0int
        }) + (if c.ansi && f == "--ansi"@ {
            1int
        } else {
            0int
        }) + (if c.no_bold && f == "--no-bold"@ {
            1int
        } else {
            0int
        }),
{
    lemma_occurrences_sections(c, f);
    lemma_search_occurrences(c, f);
    lemma_interface_occurrences(c, f);
    lemma_layout_occurrences(c, f);
    lemma_display_occurrences(c, f);
}

/// Each boolean option contributes its bare flag token to the generated
/// argument list exactly once when it is on, and not at all when it is off,
/// whatever the rest of the snapshot holds: a `false` value never appears
/// in the list in any form.
#[verifier::spinoff_prover]
#[verifier::rlimit(100)]
pub proof fn lemma_flag_occurrences(c: Fzf)
    ensures
        occurrences(c.generated_args(), "--literal"@) == (if c.literal {
            1int
        } else {
            0int
        }),
        occurrences(c.generated_args(), "--track"@) == (if c.track {
            1int
        } else {
            0int
        }),
        occurrences(c.generated_args(), "--tac"@) == (if c.tac {
            1int
        } else {
            0int
        }),
        occurrences(c.generated_args(), "--disabled"@) == (if c.disabled {
            1int
        } else {
            0int
        }),
        occurrences(c.generated_args(), "--no-mouse"@) == (if c.no_mouse {
            1int
        } else {
            0int
        }),
        occurrences(c.generated_args(), "--cycle"@) == (if c.cycle {
            1int
        } else {
            0int
        }),
        occurrences(c.generated_args(), "--keep-right"@) == (if c.keep_right {
            1int
        } else {
            0int
        }),
        occurrences(c.generated_args(), "--no-hscroll"@) == (if c.no_hscroll {
            1int
        } else {
            0int
        }),
        occurrences(c.generated_args(), "--filepath-word"@) == (if c.filepath_word {
            1int
        } else {
            0int
        }),
        occurrences(c.generated_args(), "--no-separator"@) == (if c.no_separator {
            1int
        } else {
            0int
        }),
        occurrences(c.generated_args(), "--no-scrollbar"@) == (if c.no_scrollbar {
            1int
        } else {
            0int
        }),
        occurrences(c.generated_args(), "--header-first"@) == (if c.header_first {
            1int
        } else {
            0int
        }),
        occurrences(c.generated_args(), "--ansi"@) == (if c.ansi {
            1int
        } else {
            0int
        }),
        occurrences(c.generated_args(), "--no-bold"@) == (if c.no_bold {
            1int
        } else {
            0int
        }),
{
    reveal_strlit("--literal");
    reveal_strlit("--track");
    reveal_strlit("--tac");
    reveal_strlit("--disabled");
    reveal_strlit("--no-mouse");
    reveal_strlit("--cycle");
    reveal_strlit("--keep-right");
    reveal_strlit("--no-hscroll");
    reveal_strlit("--filepath-word");
    reveal_strlit("--no-separator");
    reveal_strlit("--no-scrollbar");
    reveal_strlit("--header-first");
    reveal_strlit("--ansi");
    reveal_strlit("--no-bold");
    lemma_flag_token_facts();
    assert(forall|i: int| 0 <= i < "--literal"@.len() ==> "--literal"@[i] != '=');
    lemma_eqless_occurrences(c, "--literal"@);
    assert(forall|i: int| 0 <= i < "--track"@.len() ==> "--track"@[i] != '=');
    lemma_eqless_occurrences(c, "--track"@);
    assert(forall|i: int| 0 <= i < "--tac"@.len() ==> "--tac"@[i] != '=');
    lemma_eqless_occurrences(c, "--tac"@);
    assert(forall|i: int| 0 <= i < "--disabled"@.len() ==> "--disabled"@[i] != '=');
    lemma_eqless_occurrences(c, "--disabled"@);
    assert(forall|i: int| 0 <= i < "--no-mouse"@.len() ==> "--no-mouse"@[i] != '=');
    lemma_eqless_occurrences(c, "--no-mouse"@);
    assert(forall|i: int| 0 <= i < "--cycle"@.len() ==> "--cycle"@[i] != '=');
    lemma_eqless_occurrences(c, "--cycle"@);
    assert(forall|i: int| 0 <= i < "--keep-right"@.len() ==> "--keep-right"@[i] != '=');
    lemma_eqless_occurrences(c, "--keep-right"@);
    assert(forall|i: int| 0 <= i < "--no-hscroll"@.len() ==> "--no-hscroll"@[i] != '=');
    lemma_eqless_occurrences(c, "--no-hscroll"@);
    assert(forall|i: int| 0 <= i < "--filepath-word"@.len() ==> "--filepath-word"@[i] != '=');
    lemma_eqless_occurrences(c, "--filepath-word"@);
    assert(forall|i: int| 0 <= i < "--no-separator"@.len() ==> "--no-separator"@[i] != '=');
    lemma_eqless_occurrences(c, "--no-separator"@);
    assert(forall|i: int| 0 <= i < "--no-scrollbar"@.len() ==> "--no-scrollbar"@[i] != '=');
    lemma_eqless_occurrences(c, "--no-scrollbar"@);
    assert(forall|i: int| 0 <= i < "--header-first"@.len() ==> "--header-first"@[i] != '=');
    lemma_eqless_occurrences(c, "--header-first"@);
    assert(forall|i: int| 0 <= i < "--ansi"@.len() ==> "--ansi"@[i] != '=');
    lemma_eqless_occurrences(c, "--ansi"@);
    assert(forall|i: int| 0 <= i < "--no-bold"@.len() ==> "--no-bold"@[i] != '=');
    lemma_eqless_occurrences(c, "--no-bold"@);
}

/// Whether two snapshots agree on every option: on each enumerated and
/// boolean value, on the text of every string option, and on the text of
/// every extra raw argument.
pub open spec fn same_snapshot(a: Fzf, b: Fzf) -> bool {
    &&& views_of(a.custom_args@) == views_of(b.custom_args@)
    &&& a.scheme == b.scheme
    &&& a.literal == b.literal
    &&& a.track == b.track
    &&& a.tac == b.tac
    &&& a.disabled == b.disabled
    &&& a.no_mouse == b.no_mouse
    &&& a.cycle == b.cycle
    &&& a.keep_right == b.keep_right
    &&& a.no_hscroll == b.no_hscroll
    &&& a.filepath_word == b.filepath_word
    &&& a.layout == b.layout
    &&& a.border == b.border
    &&& a.border_label@ == b.border_label@
    &&& a.no_separator == b.no_separator
    &&& a.no_scrollbar == b.no_scrollbar
    &&& a.prompt@ == b.prompt@
    &&& a.pointer@ == b.pointer@
    &&& a.header@ == b.header@
    &&& a.header_first == b.header_first
    &&& a.ansi == b.ansi
    &&& a.tabstop == b.tabstop
    &&& a.color == b.color
    &&& a.no_bold == b.no_bold
}

/// Argument mapping is deterministic: any two snapshots that agree on
/// every option — in particular, one unchanged snapshot mapped twice —
/// generate identical argument lists.
pub proof fn lemma_args_deterministic(a: Fzf, b: Fzf)
    requires
        same_snapshot(a, b),
    ensures
        a.full_args() == b.full_args(),
{
}

/// The header token is present in the generated argument list exactly when
/// the header text is non-empty — and then exactly once.  No other option,
/// whatever its value, can produce that token.
#[verifier::spinoff_prover]
#[verifier::rlimit(100)]
pub proof fn lemma_header_token(c: Fzf)
    ensures
        occurrences(c.generated_args(), "--header="@ + c.header@) == (if c.header@.len() > 0 {
            1int
        } else {
            0int
        }),
{
    reveal_strlit("--scheme=");
    reveal_strlit("--layout=");
    reveal_strlit("--border=");
    reveal_strlit("--border-label=");
    reveal_strlit("--prompt=");
    reveal_strlit("--pointer=");
    reveal_strlit("--header=");
    reveal_strlit("--tabstop=");
    reveal_strlit("--color=");
    reveal_strlit("--literal");
    reveal_strlit("--track");
    reveal_strlit("--tac");
    reveal_strlit("--disabled");
    reveal_strlit("--no-mouse");
    reveal_strlit("--cycle");
    reveal_strlit("--keep-right");
    reveal_strlit("--no-hscroll");
    reveal_strlit("--filepath-word");
    reveal_strlit("--no-separator");
    reveal_strlit("--no-scrollbar");
    reveal_strlit("--header-first");
    reveal_strlit("--ansi");
    reveal_strlit("--no-bold");
    lemma_flag_token_facts();
    let t = "--header="@ + c.header@;
    assert(t.len() >= 9);
    assert(t[2] == 'h');
    assert(t[8] == '=');
    assert("--literal"@[2] == 'l');
    assert("--disabled"@[2] == 'd');
    assert("--no-mouse"@[2] == 'n');
    assert("--keep-right"@[2] == 'k');
    assert("--no-hscroll"@[2] == 'n');
    assert("--filepath-word"@[2] == 'f');
    assert("--no-separator"@[2] == 'n');
    assert("--no-scrollbar"@[2] == 'n');
    assert("--header-first"@[8] == '-');
    assert("--no-bold"@[2] == 'n');
    assert("--scheme="@.len() == 9 && "--scheme="@[2] == 's');
    assert("--layout="@.len() == 9 && "--layout="@[2] == 'l');
    assert("--border="@.len() == 9 && "--border="@[2] == 'b');
    assert("--border-label="@.len() == 15 && "--border-label="@[2] == 'b');
    assert("--prompt="@.len() == 9 && "--prompt="@[2] == 'p');
    assert("--pointer="@.len() == 10 && "--pointer="@[2] == 'p');
    assert("--tabstop="@.len() == 10 && "--tabstop="@[2] == 't');
    assert("--color="@.len() == 8 && "--color="@[2] == 'c');
    lemma_occurrences_sections(c, t);
    let s1 = seq![ "--scheme="@ + c.scheme.token() ];
    let s2 = opt_flag(c.literal, "--literal"@);
    let s3 = opt_flag(c.track, "--track"@);
    let s4 = opt_flag(c.tac, "--tac"@);
    let s5 = opt_flag(c.disabled, "--disabled"@);
    lemma_occurrences_add(s1, s2, t);
    lemma_occurrences_add(s1 + s2, s3, t);
    lemma_occurrences_add(s1 + s2 + s3, s4, t);
    lemma_occurrences_add(s1 + s2 + s3 + s4, s5, t);
    lemma_occurrences_single("--scheme="@ + c.scheme.token(), t);
    lemma_occurrences_opt_flag(c.literal, "--literal"@, t);
    lemma_occurrences_opt_flag(c.track, "--track"@, t);
    lemma_occurrences_opt_flag(c.tac, "--tac"@, t);
    lemma_occurrences_opt_flag(c.disabled, "--disabled"@, t);
    assert(occurrences(c.search_args(), t) == 0);
    let i1 = opt_flag(c.no_mouse, "--no-mouse"@);
    let i2 = opt_flag(c.cycle, "--cycle"@);
    let i3 = opt_flag(c.keep_right, "--keep-right"@);
    let i4 = opt_flag(c.no_hscroll, "--no-hscroll"@);
    let i5 = opt_flag(c.filepath_word, "--filepath-word"@);
    lemma_occurrences_add(i1, i2, t);
    lemma_occurrences_add(i1 + i2, i3, t);
    lemma_occurrences_add(i1 + i2 + i3, i4, t);
    lemma_occurrences_add(i1 + i2 + i3 + i4, i5, t);
    lemma_occurrences_opt_flag(c.no_mouse, "--no-mouse"@, t);
    lemma_occurrences_opt_flag(c.cycle, "--cycle"@, t);
    lemma_occurrences_opt_flag(c.keep_right, "--keep-right"@, t);
    lemma_occurrences_opt_flag(c.no_hscroll, "--no-hscroll"@, t);
    lemma_occurrences_opt_flag(c.filepath_word, "--filepath-word"@, t);
    assert(occurrences(c.interface_args(), t) == 0);
    let l1 = seq![ "--layout="@ + c.layout.token() ];
    let l2 = seq![ "--border="@ + c.border.token() ];
    let l3 = seq![ "--border-label="@ + c.border_label@ ];
    let l4 = opt_flag(c.no_separator, "--no-separator"@);
    let l5 = opt_flag(c.no_scrollbar, "--no-scrollbar"@);
    let l6 = seq![ "--prompt="@ + c.prompt@ ];
    let l7 = seq![ "--pointer="@ + c.pointer@ ];
    let l8 = opt_flag(c.header@.len() > 0, "--header="@ + c.header@);
    let l9 = opt_flag(c.header_first, "--header-first"@);
    lemma_occurrences_add(l1, l2, t);
    lemma_occurrences_add(l1 + l2, l3, t);
    lemma_occurrences_add(l1 + l2 + l3, l4, t);
    lemma_occurrences_add(l1 + l2 + l3 + l4, l5, t);
    lemma_occurrences_add(l1 + l2 + l3 + l4 + l5, l6, t);
    lemma_occurrences_add(l1 + l2 + l3 + l4 + l5 + l6, l7, t);
    lemma_occurrences_add(l1 + l2 + l3 + l4 + l5 + l6 + l7, l8, t);
    lemma_occurrences_add(l1 + l2 + l3 + l4 + l5 + l6 + l7 + l8, l9, t);
    lemma_occurrences_single("--layout="@ + c.layout.token(), t);
    lemma_occurrences_single("--border="@ + c.border.token(), t);
    lemma_occurrences_single("--border-label="@ + c.border_label@, t);
    lemma_occurrences_single("--prompt="@ + c.prompt@, t);
    lemma_occurrences_single("--pointer="@ + c.pointer@, t);
    lemma_occurrences_opt_flag(c.no_separator, "--no-separator"@, t);
    lemma_occurrences_opt_flag(c.no_scrollbar, "--no-scrollbar"@, t);
    lemma_occurrences_opt_flag(c.header@.len() > 0, "--header="@ + c.header@, t);
    lemma_occurrences_opt_flag(c.header_first, "--header-first"@, t);
    assert(occurrences(c.layout_args(), t) == (if c.header@.len() > 0 {
        1int
    } else {
        0int
    }));
    let d1 = opt_flag(c.ansi, "--ansi"@);
    let d2 = seq![ "--tabstop="@ + dec_digits(c.tabstop as int) ];
    let d3 = seq![ "--color="@ + c.color.token() ];
    let d4 = opt_flag(c.no_bold, "--no-bold"@);
    lemma_occurrences_add(d1, d2, t);
    lemma_occurrences_add(d1 + d2, d3, t);
    lemma_occurrences_add(d1 + d2 + d3, d4, t);
    lemma_occurrences_opt_flag(c.ansi, "--ansi"@, t);
    lemma_occurrences_single("--tabstop="@ + dec_digits(c.tabstop as int), t);
    lemma_occurrences_single("--color="@ + c.color.token(), t);
    lemma_occurrences_opt_flag(c.no_bold, "--no-bold"@, t);
    assert(occurrences(c.display_args(), t) == 0);
}

/// The character views of concatenated string lists are the concatenated
/// views.
proof fn lemma_views_of_add(a: Seq<String>, b: Seq<String>)
    ensures
        views_of(a + b) == views_of(a) + views_of(b),
{
    assert(views_of(a + b) =~= views_of(a) + views_of(b));
}

/// Appends the single token `name` followed immediately by `value`.
fn push_value(args: &mut Vec<String>, name: &str, value: &str)
    ensures
        views_of(final(args)@) == views_of(old(args)@) + seq![name@ + value@],
{
    let mut tok = String::from_str(name);
    tok.append(value);
    args.push(tok);
    proof {
        assert(views_of(args@) =~= views_of(old(args)@) + seq![name@ + value@]);
    }
}

/// Appends the bare flag `name` when `on` holds; appends nothing otherwise.
fn push_flag(args: &mut Vec<String>, name: &str, on: bool)
    ensures
        views_of(final(args)@) == views_of(old(args)@) + opt_flag(on, name@),
{
    if on {
        args.push(String::from_str(name));
    }
    proof {
        assert(views_of(args@) =~= views_of(old(args)@) + opt_flag(on, name@));
    }
}

impl Default for Fzf {
    /// The snapshot with every option at its default.
    fn default() -> (r: Fzf)
        ensures
            r.is_default(),
    {
        let r = Fzf {
            custom_args: Vec::new(),
            scheme: Scheme::Default,
            literal: false,
            track: false,
            tac: false,
            disabled: false,
            no_mouse: false,
            cycle: false,
            keep_right: false,
            no_hscroll: false,
            filepath_word: false,
            layout: Layout::Default,
            border: Border::NoBorder,
            border_label: String::new(),
            no_separator: false,
            no_scrollbar: false,
            prompt: String::from_str("> "),
            pointer: String::from_str(">"),
            header: String::new(),
            header_first: false,
            ansi: false,
            tabstop: 8,
            color: Color::Dark,
            no_bold: false,
        };
        r
    }
}

/// Accumulates option values and produces an immutable snapshot.  Every
/// setter stores the value and hands the builder back for chaining; the
/// final `build` cannot fail, because every field has a default.
pub struct FzfBuilder {
    /// The snapshot under construction.
    pub cfg: Fzf,
}

impl Default for FzfBuilder {
    /// A builder holding the default value of every option.
    fn default() -> (r: FzfBuilder)
        ensures
            r.cfg.is_default(),
    {
        Fzf::builder()
    }
}

impl FzfBuilder {
    /// Produces the finished snapshot.
    pub fn build(self) -> (r: Fzf)
        ensures
            r == self.cfg,
    {
        self.cfg
    }

    /// Sets the additional raw arguments that have no predefined option.
    pub fn custom_args(self, args: Vec<String>) -> (r: FzfBuilder)
        ensures
            r.cfg == (Fzf { custom_args: args, ..self.cfg }),
    {
        FzfBuilder { cfg: Fzf { custom_args: args, ..self.cfg } }
    }

    /// Sets the scoring scheme.
    pub fn scheme(self, scheme: Scheme) -> (r: FzfBuilder)
        ensures
            r.cfg == (Fzf { scheme, ..self.cfg }),
    {
        FzfBuilder { cfg: Fzf { scheme, ..self.cfg } }
    }

    /// Sets whether latin script letters are left unnormalized.
    pub fn literal(self, literal: bool) -> (r: FzfBuilder)
        ensures
            r.cfg == (Fzf { literal, ..self.cfg }),
    {
        FzfBuilder { cfg: Fzf { literal, ..self.cfg } }
    }

    /// Sets whether the current selection is tracked across updates.
    pub fn track(self, track: bool) -> (r: FzfBuilder)
        ensures
            r.cfg == (Fzf { track, ..self.cfg }),
    {
        FzfBuilder { cfg: Fzf { track, ..self.cfg } }
    }

    /// Sets whether the order of the input is reversed.
    pub fn tac(self, tac: bool) -> (r: FzfBuilder)
        ensures
            r.cfg == (Fzf { tac, ..self.cfg }),
    {
        FzfBuilder { cfg: Fzf { tac, ..self.cfg } }
    }

    /// Sets whether search is disabled.
    pub fn disabled(self, disabled: bool) -> (r: FzfBuilder)
        ensures
            r.cfg == (Fzf { disabled, ..self.cfg }),
    {
        FzfBuilder { cfg: Fzf { disabled, ..self.cfg } }
    }

    /// Sets whether the mouse is disabled.
    pub fn no_mouse(self, no_mouse: bool) -> (r: FzfBuilder)
        ensures
            r.cfg == (Fzf { no_mouse, ..self.cfg }),
    {
        FzfBuilder { cfg: Fzf { no_mouse, ..self.cfg } }
    }

    /// Sets whether scrolling is cyclic.
    pub fn cycle(self, cycle: bool) -> (r: FzfBuilder)
        ensures
            r.cfg == (Fzf { cycle, ..self.cfg }),
    {
        FzfBuilder { cfg: Fzf { cycle, ..self.cfg } }
    }

    /// Sets whether the right end of the line is kept visible on overflow.
    pub fn keep_right(self, keep_right: bool) -> (r: FzfBuilder)
        ensures
            r.cfg == (Fzf { keep_right, ..self.cfg }),
    {
        FzfBuilder { cfg: Fzf { keep_right, ..self.cfg } }
    }

    /// Sets whether horizontal scroll is disabled.
    pub fn no_hscroll(self, no_hscroll: bool) -> (r: FzfBuilder)
        ensures
            r.cfg == (Fzf { no_hscroll, ..self.cfg }),
    {
        FzfBuilder { cfg: Fzf { no_hscroll, ..self.cfg } }
    }

    /// Sets whether word-wise movements respect path separators.
    pub fn filepath_word(self, filepath_word: bool) -> (r: FzfBuilder)
        ensures
            r.cfg == (Fzf { filepath_word, ..self.cfg }),
    {
        FzfBuilder { cfg: Fzf { filepath_word, ..self.cfg } }
    }

    /// Sets the layout.
    pub fn layout(self, layout: Layout) -> (r: FzfBuilder)
        ensures
            r.cfg == (Fzf { layout, ..self.cfg }),
    {
        FzfBuilder { cfg: Fzf { layout, ..self.cfg } }
    }

    /// Sets the border style.
    pub fn border(self, border: Border) -> (r: FzfBuilder)
        ensures
            r.cfg == (Fzf { border, ..self.cfg }),
    {
        FzfBuilder { cfg: Fzf { border, ..self.cfg } }
    }

    /// Sets the label printed on the border.
    pub fn border_label(self, border_label: &str) -> (r: FzfBuilder)
        ensures
            r.cfg == (Fzf { border_label: r.cfg.border_label, ..self.cfg }),
            r.cfg.border_label@ == border_label@,
    {
        FzfBuilder { cfg: Fzf { border_label: border_label.to_owned(), ..self.cfg } }
    }

    /// Sets whether the info line separator is hidden.
    pub fn no_separator(self, no_separator: bool) -> (r: FzfBuilder)
        ensures
            r.cfg == (Fzf { no_separator, ..self.cfg }),
    {
        FzfBuilder { cfg: Fzf { no_separator, ..self.cfg } }
    }

    /// Sets whether the scrollbar is hidden.
    pub fn no_scrollbar(self, no_scrollbar: bool) -> (r: FzfBuilder)
        ensures
            r.cfg == (Fzf { no_scrollbar, ..self.cfg }),
    {
        FzfBuilder { cfg: Fzf { no_scrollbar, ..self.cfg } }
    }

    /// Sets the input prompt.
    pub fn prompt(self, prompt: &str) -> (r: FzfBuilder)
        ensures
            r.cfg == (Fzf { prompt: r.cfg.prompt, ..self.cfg }),
            r.cfg.prompt@ == prompt@,
    {
        FzfBuilder { cfg: Fzf { prompt: prompt.to_owned(), ..self.cfg } }
    }

    /// Sets the pointer to the current line.
    pub fn pointer(self, pointer: &str) -> (r: FzfBuilder)
        ensures
            r.cfg == (Fzf { pointer: r.cfg.pointer, ..self.cfg }),
            r.cfg.pointer@ == pointer@,
    {
        FzfBuilder { cfg: Fzf { pointer: pointer.to_owned(), ..self.cfg } }
    }

    /// Sets the header text.
    pub fn header(self, header: &str) -> (r: FzfBuilder)
        ensures
            r.cfg == (Fzf { header: r.cfg.header, ..self.cfg }),
            r.cfg.header@ == header@,
    {
        FzfBuilder { cfg: Fzf { header: header.to_owned(), ..self.cfg } }
    }

    /// Sets whether the header is printed before the prompt line.
    pub fn header_first(self, header_first: bool) -> (r: FzfBuilder)
        ensures
            r.cfg == (Fzf { header_first, ..self.cfg }),
    {
        FzfBuilder { cfg: Fzf { header_first, ..self.cfg } }
    }

    /// Sets whether ANSI color codes are processed.
    pub fn ansi(self, ansi: bool) -> (r: FzfBuilder)
        ensures
            r.cfg == (Fzf { ansi, ..self.cfg }),
    {
        FzfBuilder { cfg: Fzf { ansi, ..self.cfg } }
    }

    /// Sets the number of spaces for a tab character.
    pub fn tabstop(self, tabstop: u8) -> (r: FzfBuilder)
        ensures
            r.cfg == (Fzf { tabstop, ..self.cfg }),
    {
        FzfBuilder { cfg: Fzf { tabstop, ..self.cfg } }
    }

    /// Sets the colour theme.
    pub fn color(self, color: Color) -> (r: FzfBuilder)
        ensures
            r.cfg == (Fzf { color, ..self.cfg }),
    {
        FzfBuilder { cfg: Fzf { color, ..self.cfg } }
    }

    /// Sets whether bold text is avoided.
    pub fn no_bold(self, no_bold: bool) -> (r: FzfBuilder)
        ensures
            r.cfg == (Fzf { no_bold, ..self.cfg }),
    {
        FzfBuilder { cfg: Fzf { no_bold, ..self.cfg } }
    }
}

} // verus!
