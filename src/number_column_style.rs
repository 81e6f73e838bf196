//! The editor state behind a numeric column's style controls: it rebuilds its
//! resolved UI values from the overrides and defaults it is given, applies one
//! edit at a time, and reports the resulting overrides in minimal form.
use vstd::prelude::*;

use crate::delta::{copy_opt_string, merge_field};
use crate::number_style::{
    NumberBackgroundMode, NumberColumnStyleConfig, NumberColumnStyleDefaultConfig,
    NumberForegroundMode, NumberStyleConfigView, NumberStyleDefaultsView, delta,
    delta_spec, merge_color, merge_gradient, merge_spec,
};

verus! {

/// The largest number of decimal places a column may show.
pub const MAX_FIXED: u32 = 15;

pub open spec fn is_ascii_digit(c: char) -> bool {
    '0' <= c && c <= '9'
}

/// The number written by a string of decimal digits.
pub open spec fn digits_value(s: Seq<char>) -> nat
    decreases s.len(),
{
    if s.len() == 0 {
        0
    } else {
        digits_value(s.drop_last()) * 10 + ((s.last() as int) - ('0' as int)) as nat
    }
}

/// The digits of an unsigned decimal literal, past an optional leading `+`.
pub open spec fn unsigned_digits(s: Seq<char>) -> Seq<char> {
    if s.len() > 0 && s[0] == '+' {
        s.drop_first()
    } else {
        s
    }
}

/// What reading `s` as a `u32` gives: an optional `+` and at least one ASCII
/// digit, with a value that fits; nothing otherwise.
pub open spec fn parse_u32_spec(s: Seq<char>) -> Option<u32> {
    let b = unsigned_digits(s);
    if b.len() > 0 && (forall|i: int| 0 <= i < b.len() ==> is_ascii_digit(#[trigger] b[i]))
        && digits_value(b) <= u32::MAX {
        Some(digits_value(b) as u32)
    } else {
        None
    }
}

/// Relies on `<u32 as FromStr>::from_str`, which accepts an optional `+`
/// followed by ASCII digits whose value fits in a `u32`, and rejects anything
/// else (an empty string, a sign alone, whitespace, overflow).
#[verifier::external_body]
fn parse_u32(s: &str) -> (r: Option<u32>)
    ensures
        r == parse_u32_spec(s@),
{
    s.parse::<u32>().ok()
}

/// A gradient magnitude as typed by the user, already read as a number where
/// it could be (as the bit pattern of an IEEE-754 double).
#[derive(Clone, Copy, Debug, PartialEq, Eq, Structural)]
pub enum GradientInput {
    Value(u64),
    Empty,
    Invalid,
}

/// One edit to a numeric column's style. A `bool` side is `true` for the
/// foreground and `false` for the background.
#[derive(Debug)]
pub enum NumberColumnStyleMsg {
    Reset(NumberColumnStyleConfig, NumberColumnStyleDefaultConfig),
    FixedChanged(String),
    ForeEnabledChanged(bool),
    BackEnabledChanged(bool),
    PosColorChanged(bool, String),
    NegColorChanged(bool, String),
    NumberForeModeChanged(NumberForegroundMode),
    NumberBackModeChanged(NumberBackgroundMode),
    GradientChanged(bool, GradientInput),
}

pub ghost enum NumberColumnStyleMsgView {
    Reset(NumberStyleConfigView, NumberStyleDefaultsView),
    FixedChanged(Seq<char>),
    ForeEnabledChanged(bool),
    BackEnabledChanged(bool),
    PosColorChanged(bool, Seq<char>),
    NegColorChanged(bool, Seq<char>),
    NumberForeModeChanged(NumberForegroundMode),
    NumberBackModeChanged(NumberBackgroundMode),
    GradientChanged(bool, GradientInput),
}

impl View for NumberColumnStyleMsg {
    type V = NumberColumnStyleMsgView;

    open spec fn view(&self) -> NumberColumnStyleMsgView {
        match self {
            NumberColumnStyleMsg::Reset(c, d) => NumberColumnStyleMsgView::Reset(c@, d@),
            NumberColumnStyleMsg::FixedChanged(s) => NumberColumnStyleMsgView::FixedChanged(s@),
            NumberColumnStyleMsg::ForeEnabledChanged(b) => NumberColumnStyleMsgView::ForeEnabledChanged(*b),
            NumberColumnStyleMsg::BackEnabledChanged(b) => NumberColumnStyleMsgView::BackEnabledChanged(*b),
            NumberColumnStyleMsg::PosColorChanged(side, s) => NumberColumnStyleMsgView::PosColorChanged(*side, s@),
            NumberColumnStyleMsg::NegColorChanged(side, s) => NumberColumnStyleMsgView::NegColorChanged(*side, s@),
            NumberColumnStyleMsg::NumberForeModeChanged(m) => NumberColumnStyleMsgView::NumberForeModeChanged(*m),
            NumberColumnStyleMsg::NumberBackModeChanged(m) => NumberColumnStyleMsgView::NumberBackModeChanged(*m),
            NumberColumnStyleMsg::GradientChanged(side, g) => NumberColumnStyleMsgView::GradientChanged(*side, *g),
        }
    }
}

/// The editor's private UI state: the overrides being edited and the resolved
/// value behind each control.
#[derive(Debug)]
pub struct NumberColumnStyle {
    config: NumberColumnStyleConfig,
    fg_mode: NumberForegroundMode,
    bg_mode: NumberBackgroundMode,
    pos_fg_color: String,
    neg_fg_color: String,
    pos_bg_color: String,
    neg_bg_color: String,
    fg_gradient: u64,
    bg_gradient: u64,
}

pub ghost struct NumberColumnStyleView {
    pub config: NumberStyleConfigView,
    pub fg_mode: NumberForegroundMode,
    pub bg_mode: NumberBackgroundMode,
    pub pos_fg_color: Seq<char>,
    pub neg_fg_color: Seq<char>,
    pub pos_bg_color: Seq<char>,
    pub neg_bg_color: Seq<char>,
    pub fg_gradient: u64,
    pub bg_gradient: u64,
}

impl View for NumberColumnStyle {
    type V = NumberColumnStyleView;

    closed spec fn view(&self) -> NumberColumnStyleView {
        NumberColumnStyleView {
            config: self.config@,
            fg_mode: self.fg_mode,
            bg_mode: self.bg_mode,
            pos_fg_color: self.pos_fg_color@,
            neg_fg_color: self.neg_fg_color@,
            pos_bg_color: self.pos_bg_color@,
            neg_bg_color: self.neg_bg_color@,
            fg_gradient: self.fg_gradient,
            bg_gradient: self.bg_gradient,
        }
    }
}

/// The state rebuilt from overrides and defaults. An enabled mode gets its
/// resolved colours written into the overrides; a disabled foreground shows
/// its default mode as the one to pick.
pub open spec fn reset_spec(c: NumberStyleConfigView, d: NumberStyleDefaultsView) -> NumberColumnStyleView {
    let e = merge_spec(c, d);
    let fg_on = c.number_fg_mode != NumberForegroundMode::Disabled;
    let bg_on = c.number_bg_mode != NumberBackgroundMode::Disabled;
    NumberColumnStyleView {
        config: NumberStyleConfigView {
            pos_fg_color: if fg_on { Some(e.pos_fg_color) } else { c.pos_fg_color },
            neg_fg_color: if fg_on { Some(e.neg_fg_color) } else { c.neg_fg_color },
            pos_bg_color: if bg_on { Some(e.pos_bg_color) } else { c.pos_bg_color },
            neg_bg_color: if bg_on { Some(e.neg_bg_color) } else { c.neg_bg_color },
            ..c
        },
        fg_mode: if fg_on { c.number_fg_mode } else { NumberForegroundMode::Color },
        bg_mode: c.number_bg_mode,
        pos_fg_color: e.pos_fg_color,
        neg_fg_color: e.neg_fg_color,
        pos_bg_color: e.pos_bg_color,
        neg_bg_color: e.neg_bg_color,
        fg_gradient: e.fg_gradient,
        bg_gradient: e.bg_gradient,
    }
}

/// The precision override that typed text asks for: a number other than the
/// default, capped at `MAX_FIXED`; zero for an empty field; no override for the
/// default itself or for text that is not a number.
pub open spec fn fixed_input_spec(text: Seq<char>, default_fixed: u32) -> Option<u32> {
    match parse_u32_spec(text) {
        Some(x) => if x != default_fixed {
            Some(if x < MAX_FIXED { x } else { MAX_FIXED })
        } else {
            None
        },
        None => if text.len() == 0 { Some(0) } else { None },
    }
}

/// The state after one edit, and whether the controls must be redrawn.
pub open spec fn update_spec(s: NumberColumnStyleView, d: NumberStyleDefaultsView, m: NumberColumnStyleMsgView) -> (NumberColumnStyleView, bool) {
    let c = s.config;
    match m {
        NumberColumnStyleMsgView::Reset(nc, nd) => (reset_spec(nc, nd), true),
        NumberColumnStyleMsgView::FixedChanged(text) => (
            NumberColumnStyleView { config: NumberStyleConfigView { fixed: fixed_input_spec(text, d.fixed), ..c }, ..s },
            true,
        ),
        NumberColumnStyleMsgView::ForeEnabledChanged(on) => {
            let config = if on {
                NumberStyleConfigView {
                    number_fg_mode: if s.fg_mode == NumberForegroundMode::Disabled { NumberForegroundMode::Color } else { s.fg_mode },
                    pos_fg_color: Some(s.pos_fg_color),
                    neg_fg_color: Some(s.neg_fg_color),
                    fg_gradient: if s.fg_mode.spec_needs_gradient() { Some(s.fg_gradient) } else { None },
                    ..c
                }
            } else {
                NumberStyleConfigView {
                    number_fg_mode: NumberForegroundMode::Disabled,
                    pos_fg_color: None,
                    neg_fg_color: None,
                    fg_gradient: None,
                    ..c
                }
            };
            (NumberColumnStyleView { config, ..s }, true)
        },
        NumberColumnStyleMsgView::BackEnabledChanged(on) => {
            let config = if on {
                NumberStyleConfigView {
                    number_bg_mode: if s.bg_mode == NumberBackgroundMode::Disabled { NumberBackgroundMode::Color } else { s.bg_mode },
                    pos_bg_color: Some(s.pos_bg_color),
                    neg_bg_color: Some(s.neg_bg_color),
                    bg_gradient: if s.bg_mode.spec_needs_gradient() { Some(s.bg_gradient) } else { None },
                    ..c
                }
            } else {
                NumberStyleConfigView {
                    number_bg_mode: NumberBackgroundMode::Disabled,
                    pos_bg_color: None,
                    neg_bg_color: None,
                    bg_gradient: None,
                    ..c
                }
            };
            (NumberColumnStyleView { config, ..s }, true)
        },
        NumberColumnStyleMsgView::PosColorChanged(side, v) => if side {
            (NumberColumnStyleView { pos_fg_color: v, config: NumberStyleConfigView { pos_fg_color: Some(v), ..c }, ..s }, false)
        } else {
            (NumberColumnStyleView { pos_bg_color: v, config: NumberStyleConfigView { pos_bg_color: Some(v), ..c }, ..s }, false)
        },
        NumberColumnStyleMsgView::NegColorChanged(side, v) => if side {
            (NumberColumnStyleView { neg_fg_color: v, config: NumberStyleConfigView { neg_fg_color: Some(v), ..c }, ..s }, false)
        } else {
            (NumberColumnStyleView { neg_bg_color: v, config: NumberStyleConfigView { neg_bg_color: Some(v), ..c }, ..s }, false)
        },
        NumberColumnStyleMsgView::NumberForeModeChanged(mode) => (
            NumberColumnStyleView {
                fg_mode: mode,
                config: NumberStyleConfigView {
                    number_fg_mode: mode,
                    fg_gradient: if mode.spec_needs_gradient() { Some(s.fg_gradient) } else { None },
                    ..c
                },
                ..s
            },
            true,
        ),
        NumberColumnStyleMsgView::NumberBackModeChanged(mode) => (
            NumberColumnStyleView {
                bg_mode: mode,
                config: NumberStyleConfigView {
                    number_bg_mode: mode,
                    bg_gradient: if mode.spec_needs_gradient() { Some(s.bg_gradient) } else { None },
                    ..c
                },
                ..s
            },
            true,
        ),
        NumberColumnStyleMsgView::GradientChanged(side, input) => {
            let dg = if side { d.fg_gradient } else { d.bg_gradient };
            let (value, over) = match input {
                GradientInput::Value(x) => (x, Some(x)),
                GradientInput::Empty => (dg, Some(dg)),
                GradientInput::Invalid => (dg, None),
            };
            if side {
                (NumberColumnStyleView { fg_gradient: value, config: NumberStyleConfigView { fg_gradient: over, ..c }, ..s }, false)
            } else {
                (NumberColumnStyleView { bg_gradient: value, config: NumberStyleConfigView { bg_gradient: over, ..c }, ..s }, false)
            }
        },
    }
}

/// `n` zeros.
pub open spec fn zeros(n: nat) -> Seq<char> {
    Seq::new(n, |i: int| '0')
}

/// The precision hint for `n` decimal places, e.g. `Prec 0.001` for three.
pub open spec fn fixed_text_spec(n: u32) -> Seq<char> {
    "Prec "@ + if n > 0 {
        "0."@ + zeros((n - 1) as nat) + "1"@
    } else {
        "1"@
    }
}

/// What one edit produced: whether to redraw, and the overrides to hand to
/// the column's owner, if the edit changed them.
#[derive(Debug)]
pub struct NumberStyleUpdate {
    pub rerender: bool,
    pub changed: Option<NumberColumnStyleConfig>,
}

impl NumberColumnStyle {
    /// Rebuilds the editor's state from `config` and `defaults`, dropping any
    /// edit that was not yet handed on.
    pub fn reset(config: &NumberColumnStyleConfig, defaults: &NumberColumnStyleDefaultConfig) -> (r: NumberColumnStyle)
        ensures
            r@ == reset_spec(config@, defaults@),
    {
        let pos_fg_color = merge_color(&config.pos_fg_color, &defaults.pos_fg_color);
        let neg_fg_color = merge_color(&config.neg_fg_color, &defaults.neg_fg_color);
        let pos_bg_color = merge_color(&config.pos_bg_color, &defaults.pos_bg_color);
        let neg_bg_color = merge_color(&config.neg_bg_color, &defaults.neg_bg_color);
        let fg_on = config.number_fg_mode.is_enabled();
        let bg_on = !config.number_bg_mode.is_disabled();
        let fg_mode = if fg_on {
            config.number_fg_mode
        } else {
            NumberForegroundMode::default()
        };
        let new_config = NumberColumnStyleConfig {
            fixed: config.fixed,
            number_fg_mode: config.number_fg_mode,
            number_bg_mode: config.number_bg_mode,
            pos_fg_color: if fg_on { Some(pos_fg_color.clone()) } else { copy_opt_string(&config.pos_fg_color) },
            neg_fg_color: if fg_on { Some(neg_fg_color.clone()) } else { copy_opt_string(&config.neg_fg_color) },
            pos_bg_color: if bg_on { Some(pos_bg_color.clone()) } else { copy_opt_string(&config.pos_bg_color) },
            neg_bg_color: if bg_on { Some(neg_bg_color.clone()) } else { copy_opt_string(&config.neg_bg_color) },
            fg_gradient: config.fg_gradient,
            bg_gradient: config.bg_gradient,
        };
        NumberColumnStyle {
            config: new_config,
            fg_mode,
            bg_mode: config.number_bg_mode,
            pos_fg_color,
            neg_fg_color,
            pos_bg_color,
            neg_bg_color,
            fg_gradient: merge_gradient(config.fg_gradient, defaults.fg_gradient),
            bg_gradient: merge_gradient(config.bg_gradient, defaults.bg_gradient),
        }
    }

    /// The editor as first shown for `config` and `defaults`.
    pub fn create(config: &NumberColumnStyleConfig, defaults: &NumberColumnStyleDefaultConfig) -> (r: NumberColumnStyle)
        ensures
            r@ == reset_spec(config@, defaults@),
    {
        NumberColumnStyle::reset(config, defaults)
    }

    /// The owner pushed new overrides and defaults: the state is rebuilt from
    /// them, and the controls are redrawn.
    pub fn changed(&mut self, config: &NumberColumnStyleConfig, defaults: &NumberColumnStyleDefaultConfig) -> (r: bool)
        ensures
            final(self)@ == reset_spec(config@, defaults@),
            r,
    {
        *self = NumberColumnStyle::reset(config, defaults);
        true
    }

    fn fixed_input(text: &String, default_fixed: u32) -> (r: Option<u32>)
        ensures
            r == fixed_input_spec(text@, default_fixed),
    {
        match parse_u32(text.as_str()) {
            Some(x) => if x != default_fixed {
                Some(if x < MAX_FIXED { x } else { MAX_FIXED })
            } else {
                None
            },
            None => if text.as_str().is_empty() { Some(0) } else { None },
        }
    }

    /// Applies one edit. Every edit but `Reset` hands the owner the new
    /// overrides in their minimal form against `defaults`.
    pub fn update(&mut self, defaults: &NumberColumnStyleDefaultConfig, msg: NumberColumnStyleMsg) -> (r: NumberStyleUpdate)
        ensures
            final(self)@ == update_spec(old(self)@, defaults@, msg@).0,
            r.rerender == update_spec(old(self)@, defaults@, msg@).1,
            msg is Reset ==> r.changed is None,
            !(msg is Reset) ==> (r.changed matches Some(c) && c@ == delta_spec(final(self)@.config, defaults@)),
    {
        let rerender = match msg {
            NumberColumnStyleMsg::Reset(config, default_config) => {
                *self = NumberColumnStyle::reset(&config, &default_config);
                return NumberStyleUpdate { rerender: true, changed: None };
            },
            NumberColumnStyleMsg::FixedChanged(text) => {
                self.config.fixed = NumberColumnStyle::fixed_input(&text, defaults.fixed);
                true
            },
            NumberColumnStyleMsg::ForeEnabledChanged(on) => {
                if on {
                    self.config.number_fg_mode = match self.fg_mode {
                        NumberForegroundMode::Disabled => NumberForegroundMode::default(),
                        x => x,
                    };
                    self.config.pos_fg_color = Some(self.pos_fg_color.clone());
                    self.config.neg_fg_color = Some(self.neg_fg_color.clone());
                    self.config.fg_gradient = if self.fg_mode.needs_gradient() {
                        Some(self.fg_gradient)
                    } else {
                        None
                    };
                } else {
                    self.config.number_fg_mode = NumberForegroundMode::Disabled;
                    self.config.pos_fg_color = None;
                    self.config.neg_fg_color = None;
                    self.config.fg_gradient = None;
                }
                true
            },
            NumberColumnStyleMsg::BackEnabledChanged(on) => {
                if on {
                    self.config.number_bg_mode = match self.bg_mode {
                        NumberBackgroundMode::Disabled => NumberBackgroundMode::Color,
                        x => x,
                    };
                    self.config.pos_bg_color = Some(self.pos_bg_color.clone());
                    self.config.neg_bg_color = Some(self.neg_bg_color.clone());
                    self.config.bg_gradient = if self.bg_mode.needs_gradient() {
                        Some(self.bg_gradient)
                    } else {
                        None
                    };
                } else {
                    self.config.number_bg_mode = NumberBackgroundMode::Disabled;
                    self.config.pos_bg_color = None;
                    self.config.neg_bg_color = None;
                    self.config.bg_gradient = None;
                }
                true
            },
            NumberColumnStyleMsg::PosColorChanged(side, val) => {
                if side {
                    self.config.pos_fg_color = Some(val.clone());
                    self.pos_fg_color = val;
                } else {
                    self.config.pos_bg_color = Some(val.clone());
                    self.pos_bg_color = val;
                }
                false
            },
            NumberColumnStyleMsg::NegColorChanged(side, val) => {
                if side {
                    self.config.neg_fg_color = Some(val.clone());
                    self.neg_fg_color = val;
                } else {
                    self.config.neg_bg_color = Some(val.clone());
                    self.neg_bg_color = val;
                }
                false
            },
            NumberColumnStyleMsg::NumberForeModeChanged(mode) => {
                self.fg_mode = mode;
                self.config.number_fg_mode = mode;
                self.config.fg_gradient = if mode.needs_gradient() {
                    Some(self.fg_gradient)
                } else {
                    None
                };
                true
            },
            NumberColumnStyleMsg::NumberBackModeChanged(mode) => {
                self.bg_mode = mode;
                self.config.number_bg_mode = mode;
                self.config.bg_gradient = if mode.needs_gradient() {
                    Some(self.bg_gradient)
                } else {
                    None
                };
                true
            },
            NumberColumnStyleMsg::GradientChanged(side, input) => {
                let dg = if side { defaults.fg_gradient } else { defaults.bg_gradient };
                let (value, over) = match input {
                    GradientInput::Value(x) => (x, Some(x)),
                    GradientInput::Empty => (dg, Some(dg)),
                    GradientInput::Invalid => (dg, None),
                };
                if side {
                    self.fg_gradient = value;
                    self.config.fg_gradient = over;
                } else {
                    self.bg_gradient = value;
                    self.config.bg_gradient = over;
                }
                false
            },
        };
        let changed = self.dispatch_config(defaults);
        NumberStyleUpdate { rerender, changed: Some(changed) }
    }

    /// A human readable precision hint for the resolved number of decimal places.
    pub fn make_fixed_text(&self, defaults: &NumberColumnStyleDefaultConfig) -> (r: String)
        ensures
            r@ == fixed_text_spec(merge_field(self@.config.fixed, defaults@.fixed)),
    {
        let n = match self.config.fixed {
            Some(x) => x,
            None => defaults.fixed,
        };
        let mut text = String::from_str("Prec ");
        if n > 0 {
            text.append("0.");
            let mut i: u32 = 1;
            while i < n
                invariant
                    1 <= i <= n,
                    text@ == "Prec "@ + "0."@ + zeros((i - 1) as nat),
                decreases n - i,
            {
                text.append("0");
                proof {
                    reveal_strlit("0");
                    assert(zeros(i as nat) =~= zeros((i - 1) as nat) + "0"@);
                    assert(text@ =~= "Prec "@ + "0."@ + zeros(i as nat));
                }
                i = i + 1;
            }
            text.append("1");
        } else {
            text.append("1");
        }
        text
    }

    /// The overrides as edited so far.
    pub fn config(&self) -> (r: &NumberColumnStyleConfig)
        ensures
            r@ == self@.config,
    {
        &self.config
    }

    /// The foreground mode the controls show.
    pub fn fg_mode(&self) -> (r: NumberForegroundMode)
        ensures
            r == self@.fg_mode,
    {
        self.fg_mode
    }

    /// The background mode the controls show.
    pub fn bg_mode(&self) -> (r: NumberBackgroundMode)
        ensures
            r == self@.bg_mode,
    {
        self.bg_mode
    }

    /// The resolved gradient magnitude of the foreground (`true`) or the
    /// background (`false`).
    pub fn gradient(&self, side: bool) -> (r: u64)
        ensures
            r == if side { self@.fg_gradient } else { self@.bg_gradient },
    {
        if side { self.fg_gradient } else { self.bg_gradient }
    }

    /// The overrides to hand to the column's owner: the edited record in its
    /// minimal form against `defaults`.
    pub fn dispatch_config(&self, defaults: &NumberColumnStyleDefaultConfig) -> (r: NumberColumnStyleConfig)
        ensures
            r@ == delta_spec(self@.config, defaults@),
    {
        delta(&self.config, defaults)
    }
}

} // verus!
