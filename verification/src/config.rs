//! Output options for a renderer of differences between two values.
//!
//! A [`Config`] is a plain record: labels for the two sides, the markers that
//! open each kind of line, and the styles the lines are drawn in. It is built
//! with its defaults, changed field by field where the caller wishes, and
//! handed to the renderer by value.

use vstd::prelude::*;
use vstd::std_specs::cmp::PartialEqSpecImpl;

use crate::style::{Color, Style};
use crate::text::{label_view, same_label, same_text};

verus! {

/// The pair of markers that open the lines only one side has.
#[derive(Clone, Copy, Debug, PartialEq, Eq, Structural)]
pub enum DiffStyle {
    /// `<` for the left side, `>` for the right.
    Arrow,
    /// `-` for the left side, `+` for the right.
    Git,
}

/// Build toggle: whether a fresh configuration labels the two sides by the
/// source text of the arguments.
pub const LABELS: bool = false;

/// Build toggle: the marker pair of a fresh configuration.
pub const DIFF_STYLE: DiffStyle = DiffStyle::Arrow;

impl DiffStyle {
    /// The character that opens a line only the left side has.
    pub open spec fn left_marker(self) -> char {
        match self {
            DiffStyle::Arrow => '<',
            DiffStyle::Git => '-',
        }
    }

    /// The character that opens a line only the right side has.
    pub open spec fn right_marker(self) -> char {
        match self {
            DiffStyle::Arrow => '>',
            DiffStyle::Git => '+',
        }
    }

    /// The prefix of a line only the left side has: the left marker alone.
    pub fn prefix_left(self) -> (p: &'static str)
        ensures
            p@ == seq![self.left_marker()],
    {
        proof {
            reveal_strlit("<");
            reveal_strlit("-");
        }
        match self {
            DiffStyle::Arrow => "<",
            DiffStyle::Git => "-",
        }
    }

    /// The prefix of a line only the right side has: the right marker alone.
    pub fn prefix_right(self) -> (p: &'static str)
        ensures
            p@ == seq![self.right_marker()],
    {
        proof {
            reveal_strlit(">");
            reveal_strlit("+");
        }
        match self {
            DiffStyle::Arrow => ">",
            DiffStyle::Git => "+",
        }
    }
}

/// A collection of properties that customise the rendered output.
#[derive(Clone, Copy, Debug)]
pub struct Config {
    /// Label the two sides by the source text of the arguments, where that
    /// is possible.
    pub auto_label: bool,
    /// Label of the left side when none was found.
    pub default_label_left: &'static str,
    /// Label of the right side when none was found.
    pub default_label_right: &'static str,
    /// Prefix of a line that both sides have.
    pub prefix: &'static str,
    /// Prefix of a line that only the left side has.
    pub prefix_left: &'static str,
    /// Prefix of a line that only the right side has.
    pub prefix_right: &'static str,
    /// Style of the output as a whole.
    pub style: Style,
    /// Style of a line that only the left side has.
    pub style_left: Style,
    /// Style of a line that only the right side has.
    pub style_right: Style,
    /// Style of the differing part within a left line.
    pub style_left_diff: Style,
    /// Style of the differing part within a right line.
    pub style_right_diff: Style,
    /// Label found for the left side, if any. Filled in by the renderer's
    /// front end; callers have no reason to set it.
    pub _maybe_label_left: Option<&'static str>,
    /// Label found for the right side, if any. Filled in by the renderer's
    /// front end; callers have no reason to set it.
    pub _maybe_label_right: Option<&'static str>,
}

/// What a [`Config`] holds, with each text as its sequence of characters.
pub struct ConfigView {
    pub auto_label: bool,
    pub default_label_left: Seq<char>,
    pub default_label_right: Seq<char>,
    pub prefix: Seq<char>,
    pub prefix_left: Seq<char>,
    pub prefix_right: Seq<char>,
    pub style: Style,
    pub style_left: Style,
    pub style_right: Style,
    pub style_left_diff: Style,
    pub style_right_diff: Style,
    pub maybe_label_left: Option<Seq<char>>,
    pub maybe_label_right: Option<Seq<char>>,
}

impl View for Config {
    type V = ConfigView;

    open spec fn view(&self) -> ConfigView {
        ConfigView {
            auto_label: self.auto_label,
            default_label_left: self.default_label_left@,
            default_label_right: self.default_label_right@,
            prefix: self.prefix@,
            prefix_left: self.prefix_left@,
            prefix_right: self.prefix_right@,
            style: self.style,
            style_left: self.style_left,
            style_right: self.style_right,
            style_left_diff: self.style_left_diff,
            style_right_diff: self.style_right_diff,
            maybe_label_left: label_view(self._maybe_label_left),
            maybe_label_right: label_view(self._maybe_label_right),
        }
    }
}

impl Config {
    /// The contents of a fresh configuration under the given toggles.
    ///
    /// Lines of one side are red on the left and green on the right; the
    /// differing part within such a line is bold on the dark shade of the
    /// same colour (palette entries 52 and 22).
    pub open spec fn default_view(auto_label: bool, diff_style: DiffStyle) -> ConfigView {
        ConfigView {
            auto_label,
            default_label_left: seq!['l', 'e', 'f', 't'],
            default_label_right: seq!['r', 'i', 'g', 'h', 't'],
            prefix: seq![' '],
            prefix_left: seq![diff_style.left_marker()],
            prefix_right: seq![diff_style.right_marker()],
            style: Style { foreground: None, background: None, is_bold: false },
            style_left: Style { foreground: Some(Color::Red), background: None, is_bold: false },
            style_right: Style {
                foreground: Some(Color::Green),
                background: None,
                is_bold: false,
            },
            style_left_diff: Style {
                foreground: Some(Color::Red),
                background: Some(Color::Fixed(52)),
                is_bold: true,
            },
            style_right_diff: Style {
                foreground: Some(Color::Green),
                background: Some(Color::Fixed(22)),
                is_bold: true,
            },
            maybe_label_left: None,
            maybe_label_right: None,
        }
    }

    /// A fresh configuration as a build with the given toggles makes it.
    pub fn with_toggles(auto_label: bool, diff_style: DiffStyle) -> (c: Config)
        ensures
            c@ == Config::default_view(auto_label, diff_style),
            c.auto_label == auto_label,
            c.prefix@ == seq![' '],
            diff_style == DiffStyle::Git ==> c.prefix_left@ == seq!['-'] && c.prefix_right@
                == seq!['+'],
            diff_style == DiffStyle::Arrow ==> c.prefix_left@ == seq!['<'] && c.prefix_right@
                == seq!['>'],
            c._maybe_label_left is None,
            c._maybe_label_right is None,
    {
        proof {
            reveal_strlit("left");
            reveal_strlit("right");
            reveal_strlit(" ");
        }
        let c = Config {
            auto_label,
            default_label_left: "left",
            default_label_right: "right",
            prefix: " ",
            prefix_left: diff_style.prefix_left(),
            prefix_right: diff_style.prefix_right(),
            style: Style::default(),
            style_left: Color::Red.normal(),
            style_right: Color::Green.normal(),
            style_left_diff: Color::Red.on(Color::Fixed(52)).bold(),
            style_right_diff: Color::Green.on(Color::Fixed(22)).bold(),
            _maybe_label_left: None,
            _maybe_label_right: None,
        };
        proof {
            // Equal characters at equal lengths make equal texts.
            let d = Config::default_view(auto_label, diff_style);
            assert(c@.default_label_left =~= d.default_label_left);
            assert(c@.default_label_right =~= d.default_label_right);
            assert(c@.prefix =~= d.prefix);
            assert(c@.prefix_left =~= d.prefix_left);
            assert(c@.prefix_right =~= d.prefix_right);
        }
        c
    }

    /// A configuration with the defaults of this build.
    pub fn new() -> (c: Config)
        ensures
            c@ == Config::default_view(LABELS, DIFF_STYLE),
            c.auto_label == LABELS,
            c.prefix@ == seq![' '],
            DIFF_STYLE == DiffStyle::Git ==> c.prefix_left@ == seq!['-'] && c.prefix_right@
                == seq!['+'],
            DIFF_STYLE == DiffStyle::Arrow ==> c.prefix_left@ == seq!['<'] && c.prefix_right@
                == seq!['>'],
            c._maybe_label_left is None,
            c._maybe_label_right is None,
    {
        Config::default()
    }
}

impl Default for Config {
    /// The defaults of this build: [`LABELS`] and [`DIFF_STYLE`].
    fn default() -> (c: Config)
        ensures
            c@ == Config::default_view(LABELS, DIFF_STYLE),
            c.auto_label == LABELS,
            c.prefix@ == seq![' '],
            DIFF_STYLE == DiffStyle::Git ==> c.prefix_left@ == seq!['-'] && c.prefix_right@
                == seq!['+'],
            DIFF_STYLE == DiffStyle::Arrow ==> c.prefix_left@ == seq!['<'] && c.prefix_right@
                == seq!['>'],
            c._maybe_label_left is None,
            c._maybe_label_right is None,
    {
        Config::with_toggles(LABELS, DIFF_STYLE)
    }
}

impl PartialEq for Config {
    /// Field by field, each text by its characters.
    fn eq(&self, other: &Config) -> (r: bool) {
        self.auto_label == other.auto_label
            && same_text(self.default_label_left, other.default_label_left)
            && same_text(self.default_label_right, other.default_label_right)
            && same_text(self.prefix, other.prefix)
            && same_text(self.prefix_left, other.prefix_left)
            && same_text(self.prefix_right, other.prefix_right)
            && self.style == other.style
            && self.style_left == other.style_left
            && self.style_right == other.style_right
            && self.style_left_diff == other.style_left_diff
            && self.style_right_diff == other.style_right_diff
            && same_label(self._maybe_label_left, other._maybe_label_left)
            && same_label(self._maybe_label_right, other._maybe_label_right)
    }
}

impl PartialEqSpecImpl for Config {
    open spec fn obeys_eq_spec() -> bool {
        true
    }

    /// Two configurations are equal when they hold the same flag, the same
    /// styles and, text for text, the same characters.
    open spec fn eq_spec(&self, other: &Config) -> bool {
        self@ == other@
    }
}

} // verus!
