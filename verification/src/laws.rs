//! What holds of every configuration, whichever way it was reached.

use vstd::prelude::*;
use vstd::std_specs::cmp::PartialEqSpec;

use crate::config::Config;
use crate::style::Style;

verus! {

/// Names one field of a [`Config`].
pub enum ConfigField {
    AutoLabel,
    DefaultLabelLeft,
    DefaultLabelRight,
    Prefix,
    PrefixLeft,
    PrefixRight,
    Style,
    StyleLeft,
    StyleRight,
    StyleLeftDiff,
    StyleRightDiff,
    MaybeLabelLeft,
    MaybeLabelRight,
}

impl Config {
    /// Whether `self` and `other` hold the same value in every field but
    /// `field`, of which nothing is said.
    pub open spec fn agrees_outside(self, other: Config, field: ConfigField) -> bool {
        &&& field is AutoLabel || self.auto_label == other.auto_label
        &&& field is DefaultLabelLeft || self.default_label_left == other.default_label_left
        &&& field is DefaultLabelRight || self.default_label_right == other.default_label_right
        &&& field is Prefix || self.prefix == other.prefix
        &&& field is PrefixLeft || self.prefix_left == other.prefix_left
        &&& field is PrefixRight || self.prefix_right == other.prefix_right
        &&& field is Style || self.style == other.style
        &&& field is StyleLeft || self.style_left == other.style_left
        &&& field is StyleRight || self.style_right == other.style_right
        &&& field is StyleLeftDiff || self.style_left_diff == other.style_left_diff
        &&& field is StyleRightDiff || self.style_right_diff == other.style_right_diff
        &&& field is MaybeLabelLeft || self._maybe_label_left == other._maybe_label_left
        &&& field is MaybeLabelRight || self._maybe_label_right == other._maybe_label_right
    }
}

/// Construction is deterministic: whatever two calls of [`Config::new`] or
/// of `Config::default` return, the two results compare equal.
pub proof fn lemma_default_is_deterministic(a: Config, b: Config)
    requires
        call_ensures(Config::new, (), a) || call_ensures(Config::default, (), a),
        call_ensures(Config::new, (), b) || call_ensures(Config::default, (), b),
    ensures
        a.eq_spec(&b),
        a@ == b@,
{
}

/// Comparison of configurations is an equivalence: every configuration
/// equals itself, and equality may be turned round and chained.
pub proof fn lemma_eq_is_equivalence(a: Config, b: Config, c: Config)
    ensures
        a.eq_spec(&a),
        a.eq_spec(&b) == b.eq_spec(&a),
        a.eq_spec(&b) && b.eq_spec(&c) ==> a.eq_spec(&c),
{
}

/// Replacing one field of a configuration, whichever it is and whatever the
/// new value, leaves the other twelve as they were. Starting from a fresh
/// configuration, every field but the replaced one therefore still holds its
/// default.
pub proof fn lemma_override_is_local(
    base: Config,
    flag: bool,
    text: &'static str,
    style: Style,
    label: Option<&'static str>,
)
    ensures
        (Config { auto_label: flag, ..base }).agrees_outside(base, ConfigField::AutoLabel),
        (Config { default_label_left: text, ..base }).agrees_outside(
            base,
            ConfigField::DefaultLabelLeft,
        ),
        (Config { default_label_right: text, ..base }).agrees_outside(
            base,
            ConfigField::DefaultLabelRight,
        ),
        (Config { prefix: text, ..base }).agrees_outside(base, ConfigField::Prefix),
        (Config { prefix_left: text, ..base }).agrees_outside(base, ConfigField::PrefixLeft),
        (Config { prefix_right: text, ..base }).agrees_outside(base, ConfigField::PrefixRight),
        (Config { style, ..base }).agrees_outside(base, ConfigField::Style),
        (Config { style_left: style, ..base }).agrees_outside(base, ConfigField::StyleLeft),
        (Config { style_right: style, ..base }).agrees_outside(base, ConfigField::StyleRight),
        (Config { style_left_diff: style, ..base }).agrees_outside(
            base,
            ConfigField::StyleLeftDiff,
        ),
        (Config { style_right_diff: style, ..base }).agrees_outside(
            base,
            ConfigField::StyleRightDiff,
        ),
        (Config { _maybe_label_left: label, ..base }).agrees_outside(
            base,
            ConfigField::MaybeLabelLeft,
        ),
        (Config { _maybe_label_right: label, ..base }).agrees_outside(
            base,
            ConfigField::MaybeLabelRight,
        ),
{
}

} // verus!
