//! Style configuration of a numeric column: the override record, the record of
//! defaults, the fully resolved record, and the rules that move between them.
use vstd::prelude::*;

use crate::delta::{diff_field, diff_pair, merge_field, strip_field};

verus! {

/// How the text of a numeric cell is coloured.
#[derive(Clone, Copy, Debug, PartialEq, Eq, Structural)]
pub enum NumberForegroundMode {
    Disabled,
    Color,
    Bar,
}

/// How the background of a numeric cell is painted.
#[derive(Clone, Copy, Debug, PartialEq, Eq, Structural)]
pub enum NumberBackgroundMode {
    Disabled,
    Color,
    Gradient,
    Pulse,
}

impl NumberForegroundMode {
    pub open spec fn spec_needs_gradient(&self) -> bool {
        *self == NumberForegroundMode::Bar
    }

    /// Whether this mode draws a bar scaled against a gradient magnitude.
    #[verifier::when_used_as_spec(spec_needs_gradient)]
    pub fn needs_gradient(&self) -> (r: bool)
        ensures
            r == self.spec_needs_gradient(),
    {
        match self {
            NumberForegroundMode::Bar => true,
            _ => false,
        }
    }

    pub fn is_enabled(&self) -> (r: bool)
        ensures
            r == (*self != NumberForegroundMode::Disabled),
    {
        match self {
            NumberForegroundMode::Disabled => false,
            _ => true,
        }
    }
}

impl Default for NumberForegroundMode {
    fn default() -> (r: NumberForegroundMode)
        ensures
            r == NumberForegroundMode::Color,
    {
        NumberForegroundMode::Color
    }
}

impl NumberBackgroundMode {
    pub open spec fn spec_needs_gradient(&self) -> bool {
        *self == NumberBackgroundMode::Gradient
    }

    /// Whether this mode shades cells against a gradient magnitude.
    #[verifier::when_used_as_spec(spec_needs_gradient)]
    pub fn needs_gradient(&self) -> (r: bool)
        ensures
            r == self.spec_needs_gradient(),
    {
        match self {
            NumberBackgroundMode::Gradient => true,
            _ => false,
        }
    }

    pub fn is_disabled(&self) -> (r: bool)
        ensures
            r == (*self == NumberBackgroundMode::Disabled),
    {
        match self {
            NumberBackgroundMode::Disabled => true,
            _ => false,
        }
    }
}

impl Default for NumberBackgroundMode {
    fn default() -> (r: NumberBackgroundMode)
        ensures
            r == NumberBackgroundMode::Disabled,
    {
        NumberBackgroundMode::Disabled
    }
}

/// The user's overrides for a numeric column. An absent field inherits its
/// default. A gradient magnitude is held as the bit pattern of the IEEE-754
/// double it stands for.
#[derive(Clone, Debug)]
pub struct NumberColumnStyleConfig {
    pub fixed: Option<u32>,
    pub number_fg_mode: NumberForegroundMode,
    pub number_bg_mode: NumberBackgroundMode,
    pub pos_fg_color: Option<String>,
    pub neg_fg_color: Option<String>,
    pub pos_bg_color: Option<String>,
    pub neg_bg_color: Option<String>,
    pub fg_gradient: Option<u64>,
    pub bg_gradient: Option<u64>,
}

/// The computed fallback for every overridable field of a numeric column.
#[derive(Clone, Debug)]
pub struct NumberColumnStyleDefaultConfig {
    pub fixed: u32,
    pub pos_fg_color: String,
    pub neg_fg_color: String,
    pub pos_bg_color: String,
    pub neg_bg_color: String,
    pub fg_gradient: u64,
    pub bg_gradient: u64,
}

/// A numeric column's style with every field resolved.
#[derive(Clone, Debug)]
pub struct ResolvedNumberStyle {
    pub fixed: u32,
    pub number_fg_mode: NumberForegroundMode,
    pub number_bg_mode: NumberBackgroundMode,
    pub pos_fg_color: String,
    pub neg_fg_color: String,
    pub pos_bg_color: String,
    pub neg_bg_color: String,
    pub fg_gradient: u64,
    pub bg_gradient: u64,
}

pub ghost struct NumberStyleConfigView {
    pub fixed: Option<u32>,
    pub number_fg_mode: NumberForegroundMode,
    pub number_bg_mode: NumberBackgroundMode,
    pub pos_fg_color: Option<Seq<char>>,
    pub neg_fg_color: Option<Seq<char>>,
    pub pos_bg_color: Option<Seq<char>>,
    pub neg_bg_color: Option<Seq<char>>,
    pub fg_gradient: Option<u64>,
    pub bg_gradient: Option<u64>,
}

pub ghost struct NumberStyleDefaultsView {
    pub fixed: u32,
    pub pos_fg_color: Seq<char>,
    pub neg_fg_color: Seq<char>,
    pub pos_bg_color: Seq<char>,
    pub neg_bg_color: Seq<char>,
    pub fg_gradient: u64,
    pub bg_gradient: u64,
}

pub ghost struct ResolvedNumberStyleView {
    pub fixed: u32,
    pub number_fg_mode: NumberForegroundMode,
    pub number_bg_mode: NumberBackgroundMode,
    pub pos_fg_color: Seq<char>,
    pub neg_fg_color: Seq<char>,
    pub pos_bg_color: Seq<char>,
    pub neg_bg_color: Seq<char>,
    pub fg_gradient: u64,
    pub bg_gradient: u64,
}

impl View for NumberColumnStyleConfig {
    type V = NumberStyleConfigView;

    open spec fn view(&self) -> NumberStyleConfigView {
        NumberStyleConfigView {
            fixed: self.fixed,
            number_fg_mode: self.number_fg_mode,
            number_bg_mode: self.number_bg_mode,
            pos_fg_color: self.pos_fg_color.deep_view(),
            neg_fg_color: self.neg_fg_color.deep_view(),
            pos_bg_color: self.pos_bg_color.deep_view(),
            neg_bg_color: self.neg_bg_color.deep_view(),
            fg_gradient: self.fg_gradient,
            bg_gradient: self.bg_gradient,
        }
    }
}

impl View for NumberColumnStyleDefaultConfig {
    type V = NumberStyleDefaultsView;

    open spec fn view(&self) -> NumberStyleDefaultsView {
        NumberStyleDefaultsView {
            fixed: self.fixed,
            pos_fg_color: self.pos_fg_color@,
            neg_fg_color: self.neg_fg_color@,
            pos_bg_color: self.pos_bg_color@,
            neg_bg_color: self.neg_bg_color@,
            fg_gradient: self.fg_gradient,
            bg_gradient: self.bg_gradient,
        }
    }
}

impl View for ResolvedNumberStyle {
    type V = ResolvedNumberStyleView;

    open spec fn view(&self) -> ResolvedNumberStyleView {
        ResolvedNumberStyleView {
            fixed: self.fixed,
            number_fg_mode: self.number_fg_mode,
            number_bg_mode: self.number_bg_mode,
            pos_fg_color: self.pos_fg_color@,
            neg_fg_color: self.neg_fg_color@,
            pos_bg_color: self.pos_bg_color@,
            neg_bg_color: self.neg_bg_color@,
            fg_gradient: self.fg_gradient,
            bg_gradient: self.bg_gradient,
        }
    }
}

/// Every field takes its override when there is one, its default otherwise.
pub open spec fn merge_spec(c: NumberStyleConfigView, d: NumberStyleDefaultsView) -> ResolvedNumberStyleView {
    ResolvedNumberStyleView {
        fixed: merge_field(c.fixed, d.fixed),
        number_fg_mode: c.number_fg_mode,
        number_bg_mode: c.number_bg_mode,
        pos_fg_color: merge_field(c.pos_fg_color, d.pos_fg_color),
        neg_fg_color: merge_field(c.neg_fg_color, d.neg_fg_color),
        pos_bg_color: merge_field(c.pos_bg_color, d.pos_bg_color),
        neg_bg_color: merge_field(c.neg_bg_color, d.neg_bg_color),
        fg_gradient: merge_field(c.fg_gradient, d.fg_gradient),
        bg_gradient: merge_field(c.bg_gradient, d.bg_gradient),
    }
}

/// The minimal overrides that reproduce `e`: a field equal to its default is
/// dropped, and each positive/negative colour pair is dropped or kept whole.
pub open spec fn diff_spec(e: ResolvedNumberStyleView, d: NumberStyleDefaultsView) -> NumberStyleConfigView {
    let fg = diff_pair((e.pos_fg_color, e.neg_fg_color), (d.pos_fg_color, d.neg_fg_color));
    let bg = diff_pair((e.pos_bg_color, e.neg_bg_color), (d.pos_bg_color, d.neg_bg_color));
    NumberStyleConfigView {
        fixed: diff_field(e.fixed, d.fixed),
        number_fg_mode: e.number_fg_mode,
        number_bg_mode: e.number_bg_mode,
        pos_fg_color: fg.0,
        neg_fg_color: fg.1,
        pos_bg_color: bg.0,
        neg_bg_color: bg.1,
        fg_gradient: diff_field(e.fg_gradient, d.fg_gradient),
        bg_gradient: diff_field(e.bg_gradient, d.bg_gradient),
    }
}

/// The overrides of `c` with every field that equals its default removed.
pub open spec fn strip_spec(c: NumberStyleConfigView, d: NumberStyleDefaultsView) -> NumberStyleConfigView {
    NumberStyleConfigView {
        fixed: strip_field(c.fixed, d.fixed),
        number_fg_mode: c.number_fg_mode,
        number_bg_mode: c.number_bg_mode,
        pos_fg_color: strip_field(c.pos_fg_color, d.pos_fg_color),
        neg_fg_color: strip_field(c.neg_fg_color, d.neg_fg_color),
        pos_bg_color: strip_field(c.pos_bg_color, d.pos_bg_color),
        neg_bg_color: strip_field(c.neg_bg_color, d.neg_bg_color),
        fg_gradient: strip_field(c.fg_gradient, d.fg_gradient),
        bg_gradient: strip_field(c.bg_gradient, d.bg_gradient),
    }
}

/// The overrides that the owner of a numeric column is told about.
pub open spec fn delta_spec(c: NumberStyleConfigView, d: NumberStyleDefaultsView) -> NumberStyleConfigView {
    diff_spec(merge_spec(c, d), d)
}

/// Within each colour pair, both members resolve to their defaults or neither does.
pub open spec fn pairs_agree(c: NumberStyleConfigView, d: NumberStyleDefaultsView) -> bool {
    let e = merge_spec(c, d);
    &&& (e.pos_fg_color == d.pos_fg_color) == (e.neg_fg_color == d.neg_fg_color)
    &&& (e.pos_bg_color == d.pos_bg_color) == (e.neg_bg_color == d.neg_bg_color)
}

/// Resolving overrides against their defaults and taking the delta again
/// yields the overrides with every field that equals its default removed,
/// provided each colour pair resolves to its defaults as a whole or not at all.
pub proof fn lemma_delta_strips_defaults(c: NumberStyleConfigView, d: NumberStyleDefaultsView)
    requires
        pairs_agree(c, d),
    ensures
        diff_spec(merge_spec(c, d), d) == strip_spec(c, d),
{
}

/// Taking the delta of a delta changes nothing.
pub proof fn lemma_delta_idempotent(c: NumberStyleConfigView, d: NumberStyleDefaultsView)
    ensures
        delta_spec(delta_spec(c, d), d) == delta_spec(c, d),
{
}

/// A colour pair leaves the delta as a unit: both overrides are absent when
/// both members resolve to their defaults, and both are present, holding the
/// resolved colours, when either member differs.
pub proof fn lemma_pair_collapse(c: NumberStyleConfigView, d: NumberStyleDefaultsView)
    ensures
        ({
            let e = merge_spec(c, d);
            let r = delta_spec(c, d);
            &&& (e.pos_fg_color == d.pos_fg_color && e.neg_fg_color == d.neg_fg_color) ==> (
            r.pos_fg_color is None && r.neg_fg_color is None)
            &&& !(e.pos_fg_color == d.pos_fg_color && e.neg_fg_color == d.neg_fg_color) ==> (
            r.pos_fg_color == Some(e.pos_fg_color) && r.neg_fg_color == Some(e.neg_fg_color))
            &&& (e.pos_bg_color == d.pos_bg_color && e.neg_bg_color == d.neg_bg_color) ==> (
            r.pos_bg_color is None && r.neg_bg_color is None)
            &&& !(e.pos_bg_color == d.pos_bg_color && e.neg_bg_color == d.neg_bg_color) ==> (
            r.pos_bg_color == Some(e.pos_bg_color) && r.neg_bg_color == Some(e.neg_bg_color))
        }),
{
}

pub(crate) fn merge_color(c: &Option<String>, d: &String) -> (r: String)
    ensures
        r@ == merge_field(c.deep_view(), d@),
{
    match c {
        Some(v) => v.clone(),
        None => d.clone(),
    }
}

pub(crate) fn merge_gradient(c: Option<u64>, d: u64) -> (r: u64)
    ensures
        r == merge_field(c, d),
{
    match c {
        Some(v) => v,
        None => d,
    }
}

fn diff_u64(e: u64, d: u64) -> (r: Option<u64>)
    ensures
        r == diff_field(e, d),
{
    if e == d {
        None
    } else {
        Some(e)
    }
}

fn diff_color_pair(pos: &String, neg: &String, dpos: &String, dneg: &String) -> (r: (Option<String>, Option<String>))
    ensures
        (r.0.deep_view(), r.1.deep_view()) == diff_pair((pos@, neg@), (dpos@, dneg@)),
{
    if *pos == *dpos && *neg == *dneg {
        (None, None)
    } else {
        (Some(pos.clone()), Some(neg.clone()))
    }
}

/// Resolves every field of `config` against `defaults`.
pub fn merge(config: &NumberColumnStyleConfig, defaults: &NumberColumnStyleDefaultConfig) -> (r: ResolvedNumberStyle)
    ensures
        r@ == merge_spec(config@, defaults@),
{
    let fixed = match config.fixed {
        Some(v) => v,
        None => defaults.fixed,
    };
    ResolvedNumberStyle {
        fixed,
        number_fg_mode: config.number_fg_mode,
        number_bg_mode: config.number_bg_mode,
        pos_fg_color: merge_color(&config.pos_fg_color, &defaults.pos_fg_color),
        neg_fg_color: merge_color(&config.neg_fg_color, &defaults.neg_fg_color),
        pos_bg_color: merge_color(&config.pos_bg_color, &defaults.pos_bg_color),
        neg_bg_color: merge_color(&config.neg_bg_color, &defaults.neg_bg_color),
        fg_gradient: merge_gradient(config.fg_gradient, defaults.fg_gradient),
        bg_gradient: merge_gradient(config.bg_gradient, defaults.bg_gradient),
    }
}

/// The minimal overrides that reproduce `effective` against `defaults`.
pub fn diff_against_default(effective: &ResolvedNumberStyle, defaults: &NumberColumnStyleDefaultConfig) -> (r: NumberColumnStyleConfig)
    ensures
        r@ == diff_spec(effective@, defaults@),
{
    let fixed = if effective.fixed == defaults.fixed {
        None
    } else {
        Some(effective.fixed)
    };
    let fg = diff_color_pair(&effective.pos_fg_color, &effective.neg_fg_color, &defaults.pos_fg_color, &defaults.neg_fg_color);
    let bg = diff_color_pair(&effective.pos_bg_color, &effective.neg_bg_color, &defaults.pos_bg_color, &defaults.neg_bg_color);
    NumberColumnStyleConfig {
        fixed,
        number_fg_mode: effective.number_fg_mode,
        number_bg_mode: effective.number_bg_mode,
        pos_fg_color: fg.0,
        neg_fg_color: fg.1,
        pos_bg_color: bg.0,
        neg_bg_color: bg.1,
        fg_gradient: diff_u64(effective.fg_gradient, defaults.fg_gradient),
        bg_gradient: diff_u64(effective.bg_gradient, defaults.bg_gradient),
    }
}

/// The overrides of `config` in their minimal form: what the owner of the
/// column is told after every edit.
pub fn delta(config: &NumberColumnStyleConfig, defaults: &NumberColumnStyleDefaultConfig) -> (r: NumberColumnStyleConfig)
    ensures
        r@ == delta_spec(config@, defaults@),
{
    let e = merge(config, defaults);
    diff_against_default(&e, defaults)
}

} // verus!
