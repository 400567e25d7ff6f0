//! The enumerated option values the finder understands: scoring scheme,
//! colour theme, layout and border style.  Each value maps to a fixed
//! command-line token, and each can be read back from a string token,
//! case-insensitively, falling back to the type's default when the string is
//! not recognized.

use vstd::prelude::*;

use crate::text::ci_matches;
use crate::text::ci_eq;
use crate::text::lowers_to;

verus! {

/// The scoring schemes the finder can use.
#[derive(Debug, Clone, Copy, PartialEq, Eq, PartialOrd, Ord, Hash, Structural)]
pub enum Scheme {
    Default,
    Path,
    History,
}

/// The colour themes the finder can use.
#[derive(Debug, Clone, Copy, PartialEq, Eq, PartialOrd, Ord, Hash, Structural)]
pub enum Color {
    Dark,
    Light,
    Sixteen,
    Bw,
}

/// The layouts the finder can be displayed with.
#[derive(Debug, Clone, Copy, PartialEq, Eq, PartialOrd, Ord, Hash, Structural)]
pub enum Layout {
    Default,
    Reverse,
    ReverseList,
}

/// The borders that can be drawn around the finder.
#[derive(Debug, Clone, Copy, PartialEq, Eq, PartialOrd, Ord, Hash, Structural)]
pub enum Border {
    NoBorder,
    Rounded,
    Sharp,
    Horizontal,
    Vertical,
    Top,
    Bottom,
    Left,
    Right,
}

impl Scheme {
    /// The fixed command-line token for this value.
    pub open spec fn token(self) -> Seq<char> {
        match self {
            Scheme::Default => "default"@,
            Scheme::Path => "path"@,
            Scheme::History => "history"@,
        }
    }

    /// The value a string token reads back as: the named value on a
    /// case-insensitive match, the default otherwise.
    pub open spec fn from_text(s: Seq<char>) -> Scheme {
        if ci_matches(s, "default"@) {
            Scheme::Default
        } else if ci_matches(s, "path"@) {
            Scheme::Path
        } else if ci_matches(s, "history"@) {
            Scheme::History
        } else {
            Scheme::Default
        }
    }

    /// Renders this value as its command-line token.
    pub fn to_string(&self) -> (r: String)
        ensures
            r@ == self.token(),
    {
        match self {
            Scheme::Default => String::from_str("default"),
            Scheme::Path => String::from_str("path"),
            Scheme::History => String::from_str("history"),
        }
    }
}

impl Default for Scheme {
    /// The default scoring scheme.
    fn default() -> (r: Self)
        ensures
            r == Scheme::Default,
    {
        Scheme::Default
    }
}

impl Color {
    /// The fixed command-line token for this value.
    pub open spec fn token(self) -> Seq<char> {
        match self {
            Color::Dark => "dark"@,
            Color::Light => "light"@,
            Color::Sixteen => "16"@,
            Color::Bw => "bw"@,
        }
    }

    /// The value a string token reads back as: the named value on a
    /// case-insensitive match (`Sixteen` under either of its spellings), the
    /// default otherwise.
    pub open spec fn from_text(s: Seq<char>) -> Color {
        if ci_matches(s, "dark"@) {
            Color::Dark
        } else if ci_matches(s, "light"@) {
            Color::Light
        } else if ci_matches(s, "16"@) || ci_matches(s, "sixteen"@) {
            Color::Sixteen
        } else if ci_matches(s, "bw"@) {
            Color::Bw
        } else {
            Color::Dark
        }
    }

    /// Renders this value as its command-line token.
    pub fn to_string(&self) -> (r: String)
        ensures
            r@ == self.token(),
    {
        match self {
            Color::Dark => String::from_str("dark"),
            Color::Light => String::from_str("light"),
            Color::Sixteen => String::from_str("16"),
            Color::Bw => String::from_str("bw"),
        }
    }
}

impl Default for Color {
    /// The default colour theme.
    fn default() -> (r: Self)
        ensures
            r == Color::Dark,
    {
        Color::Dark
    }
}

impl vstd::std_specs::convert::FromSpecImpl<String> for Color {
    open spec fn obeys_from_spec() -> bool {
        true
    }

    open spec fn from_spec(v: String) -> Color {
        Color::from_text(v@)
    }
}

impl From<String> for Color {
    /// Reads a string token back, case-insensitively; an unrecognized token
    /// falls back to the default.
    fn from(value: String) -> (r: Color)
        ensures
            r == Color::from_text(value@),
    {
        if ci_eq(value.as_str(), "dark") {
            Color::Dark
        } else if ci_eq(value.as_str(), "light") {
            Color::Light
        } else if ci_eq(value.as_str(), "16") {
            Color::Sixteen
        } else if ci_eq(value.as_str(), "sixteen") {
            Color::Sixteen
        } else if ci_eq(value.as_str(), "bw") {
            Color::Bw
        } else {
            Color::Dark
        }
    }
}

impl Layout {
    /// The fixed command-line token for this value.
    pub open spec fn token(self) -> Seq<char> {
        match self {
            Layout::Default => "default"@,
            Layout::Reverse => "reverse"@,
            Layout::ReverseList => "reverse-list"@,
        }
    }

    /// The value a string token reads back as: the named value on a
    /// case-insensitive match, the default otherwise.
    pub open spec fn from_text(s: Seq<char>) -> Layout {
        if ci_matches(s, "default"@) {
            Layout::Default
        } else if ci_matches(s, "reverse"@) {
            Layout::Reverse
        } else if ci_matches(s, "reverse-list"@) {
            Layout::ReverseList
        } else {
            Layout::Default
        }
    }

    /// Renders this value as its command-line token.
    pub fn to_string(&self) -> (r: String)
        ensures
            r@ == self.token(),
    {
        match self {
            Layout::Default => String::from_str("default"),
            Layout::Reverse => String::from_str("reverse"),
            Layout::ReverseList => String::from_str("reverse-list"),
        }
    }
}

impl Default for Layout {
    /// The default layout.
    fn default() -> (r: Self)
        ensures
            r == Layout::Default,
    {
        Layout::Default
    }
}

impl vstd::std_specs::convert::FromSpecImpl<String> for Layout {
    open spec fn obeys_from_spec() -> bool {
        true
    }

    open spec fn from_spec(v: String) -> Layout {
        Layout::from_text(v@)
    }
}

impl From<String> for Layout {
    /// Reads a string token back, case-insensitively; an unrecognized token
    /// falls back to the default.
    fn from(value: String) -> (r: Layout)
        ensures
            r == Layout::from_text(value@),
    {
        if ci_eq(value.as_str(), "default") {
            Layout::Default
        } else if ci_eq(value.as_str(), "reverse") {
            Layout::Reverse
        } else if ci_eq(value.as_str(), "reverse-list") {
            Layout::ReverseList
        } else {
            Layout::Default
        }
    }
}

impl Border {
    /// The fixed command-line token for this value.
    pub open spec fn token(self) -> Seq<char> {
        match self {
            Border::NoBorder => "none"@,
            Border::Rounded => "rounded"@,
            Border::Sharp => "sharp"@,
            Border::Horizontal => "horizontal"@,
            Border::Vertical => "vertical"@,
            Border::Top => "top"@,
            Border::Bottom => "bottom"@,
            Border::Left => "left"@,
            Border::Right => "right"@,
        }
    }

    /// The value a string token reads back as: the named value on a
    /// case-insensitive match, the default otherwise.
    pub open spec fn from_text(s: Seq<char>) -> Border {
        if ci_matches(s, "none"@) {
            Border::NoBorder
        } else if ci_matches(s, "rounded"@) {
            Border::Rounded
        } else if ci_matches(s, "sharp"@) {
            Border::Sharp
        } else if ci_matches(s, "horizontal"@) {
            Border::Horizontal
        } else if ci_matches(s, "vertical"@) {
            Border::Vertical
        } else if ci_matches(s, "top"@) {
            Border::Top
        } else if ci_matches(s, "bottom"@) {
            Border::Bottom
        } else if ci_matches(s, "left"@) {
            Border::Left
        } else if ci_matches(s, "right"@) {
            Border::Right
        } else {
            Border::NoBorder
        }
    }

    /// Renders this value as its command-line token.
    pub fn to_string(&self) -> (r: String)
        ensures
            r@ == self.token(),
    {
        match self {
            Border::NoBorder => String::from_str("none"),
            Border::Rounded => String::from_str("rounded"),
            Border::Sharp => String::from_str("sharp"),
            Border::Horizontal => String::from_str("horizontal"),
            Border::Vertical => String::from_str("vertical"),
            Border::Top => String::from_str("top"),
            Border::Bottom => String::from_str("bottom"),
            Border::Left => String::from_str("left"),
            Border::Right => String::from_str("right"),
        }
    }
}

impl Default for Border {
    /// The default border: none at all.
    fn default() -> (r: Self)
        ensures
            r == Border::NoBorder,
    {
        Border::NoBorder
    }
}

impl vstd::std_specs::convert::FromSpecImpl<String> for Border {
    open spec fn obeys_from_spec() -> bool {
        true
    }

    open spec fn from_spec(v: String) -> Border {
        Border::from_text(v@)
    }
}

impl From<String> for Border {
    /// Reads a string token back, case-insensitively; an unrecognized token
    /// falls back to the default.
    fn from(value: String) -> (r: Border)
        ensures
            r == Border::from_text(value@),
    {
        if ci_eq(value.as_str(), "none") {
            Border::NoBorder
        } else if ci_eq(value.as_str(), "rounded") {
            Border::Rounded
        } else if ci_eq(value.as_str(), "sharp") {
            Border::Sharp
        } else if ci_eq(value.as_str(), "horizontal") {
            Border::Horizontal
        } else if ci_eq(value.as_str(), "vertical") {
            Border::Vertical
        } else if ci_eq(value.as_str(), "top") {
            Border::Top
        } else if ci_eq(value.as_str(), "bottom") {
            Border::Bottom
        } else if ci_eq(value.as_str(), "left") {
            Border::Left
        } else if ci_eq(value.as_str(), "right") {
            Border::Right
        } else {
            Border::NoBorder
        }
    }
}

impl vstd::std_specs::convert::FromSpecImpl<String> for Scheme {
    open spec fn obeys_from_spec() -> bool {
        true
    }

    open spec fn from_spec(v: String) -> Scheme {
        Scheme::from_text(v@)
    }
}

impl From<String> for Scheme {
    /// Reads a string token back, case-insensitively; an unrecognized token
    /// falls back to the default.
    fn from(value: String) -> (r: Scheme)
        ensures
            r == Scheme::from_text(value@),
    {
        if ci_eq(value.as_str(), "default") {
            Scheme::Default
        } else if ci_eq(value.as_str(), "path") {
            Scheme::Path
        } else if ci_eq(value.as_str(), "history") {
            Scheme::History
        } else {
            Scheme::Default
        }
    }
}

/// An unrecognized scheme token reads back as the default scheme, never as
/// an error.
pub proof fn lemma_scheme_fallback(s: Seq<char>)
    requires
        !ci_matches(s, "default"@),
        !ci_matches(s, "path"@),
        !ci_matches(s, "history"@),
    ensures
        Scheme::from_text(s) == Scheme::Default,
{
}

/// An unrecognized colour token reads back as the default theme, never as
/// an error.
pub proof fn lemma_color_fallback(s: Seq<char>)
    requires
        !ci_matches(s, "dark"@),
        !ci_matches(s, "light"@),
        !ci_matches(s, "16"@),
        !ci_matches(s, "sixteen"@),
        !ci_matches(s, "bw"@),
    ensures
        Color::from_text(s) == Color::Dark,
{
}

/// An unrecognized layout token reads back as the default layout, never as
/// an error.
pub proof fn lemma_layout_fallback(s: Seq<char>)
    requires
        !ci_matches(s, "default"@),
        !ci_matches(s, "reverse"@),
        !ci_matches(s, "reverse-list"@),
    ensures
        Layout::from_text(s) == Layout::Default,
{
}

/// An unrecognized border token reads back as the default border, never as
/// an error.
pub proof fn lemma_border_fallback(s: Seq<char>)
    requires
        !ci_matches(s, "none"@),
        !ci_matches(s, "rounded"@),
        !ci_matches(s, "sharp"@),
        !ci_matches(s, "horizontal"@),
        !ci_matches(s, "vertical"@),
        !ci_matches(s, "top"@),
        !ci_matches(s, "bottom"@),
        !ci_matches(s, "left"@),
        !ci_matches(s, "right"@),
    ensures
        Border::from_text(s) == Border::NoBorder,
{
}

/// Round trip for scoring schemes: a value rendered as its token always
/// reads back as the same value.
pub proof fn lemma_scheme_round_trip(v: Scheme)
    ensures
        Scheme::from_text(v.token()) == v,
{
    reveal_strlit("default");
    reveal_strlit("path");
    reveal_strlit("history");
    if v == Scheme::History {
        assert(!lowers_to("history"@[0], "default"@[0]));
    }
}

/// Round trip for colour themes: a value rendered as its token always reads
/// back as the same value.
pub proof fn lemma_color_round_trip(v: Color)
    ensures
        Color::from_text(v.token()) == v,
{
    reveal_strlit("dark");
    reveal_strlit("light");
    reveal_strlit("16");
    reveal_strlit("sixteen");
    reveal_strlit("bw");
    if v == Color::Bw {
        assert(!lowers_to("bw"@[0], "16"@[0]));
    }
}

/// Round trip for layouts: a value rendered as its token always reads back
/// as the same value.
pub proof fn lemma_layout_round_trip(v: Layout)
    ensures
        Layout::from_text(v.token()) == v,
{
    reveal_strlit("default");
    reveal_strlit("reverse");
    reveal_strlit("reverse-list");
    if v == Layout::Reverse {
        assert(!lowers_to("reverse"@[0], "default"@[0]));
    }
}

/// Round trip for borders: a value rendered as its token always reads back
/// as the same value.
pub proof fn lemma_border_round_trip(v: Border)
    ensures
        Border::from_text(v.token()) == v,
{
    reveal_strlit("none");
    reveal_strlit("rounded");
    reveal_strlit("sharp");
    reveal_strlit("horizontal");
    reveal_strlit("vertical");
    reveal_strlit("top");
    reveal_strlit("bottom");
    reveal_strlit("left");
    reveal_strlit("right");
    if v == Border::Left {
        assert(!lowers_to("left"@[0], "none"@[0]));
    }
    if v == Border::Right {
        assert(!lowers_to("right"@[0], "sharp"@[0]));
    }
}

} // verus!
