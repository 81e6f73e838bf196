//! Style configuration of a text column and the editor state behind its
//! controls.
use vstd::prelude::*;

use crate::delta::{copy_opt_string, diff_field, merge_field};

verus! {

/// How the text of a cell is set.
#[derive(Clone, Copy, Debug, PartialEq, Eq, Structural)]
pub enum FormatMode {
    Link,
    Bold,
    Italics,
}

impl Default for FormatMode {
    fn default() -> (r: FormatMode)
        ensures
            r == FormatMode::Link,
    {
        FormatMode::Link
    }
}

/// Which part of a cell the column's colour is applied to.
#[derive(Clone, Copy, Debug, PartialEq, Eq, Structural)]
pub enum StringColorMode {
    Foreground,
    Background,
    Series,
}

impl Default for StringColorMode {
    fn default() -> (r: StringColorMode)
        ensures
            r == StringColorMode::Foreground,
    {
        StringColorMode::Foreground
    }
}

/// The user's overrides for a text column. An absent format or colour mode is
/// switched off; an absent colour inherits its default.
#[derive(Clone, Debug)]
pub struct StringColumnStyleConfig {
    pub format: Option<FormatMode>,
    pub string_color_mode: Option<StringColorMode>,
    pub color: Option<String>,
}

/// The computed fallback for a text column's colour.
#[derive(Clone, Debug)]
pub struct StringColumnStyleDefaultConfig {
    pub color: String,
}

pub ghost struct StringStyleConfigView {
    pub format: Option<FormatMode>,
    pub string_color_mode: Option<StringColorMode>,
    pub color: Option<Seq<char>>,
}

impl View for StringColumnStyleConfig {
    type V = StringStyleConfigView;

    open spec fn view(&self) -> StringStyleConfigView {
        StringStyleConfigView {
            format: self.format,
            string_color_mode: self.string_color_mode,
            color: self.color.deep_view(),
        }
    }
}

/// The overrides of a text column in minimal form: a colour equal to its
/// default is dropped.
pub open spec fn string_delta_spec(c: StringStyleConfigView, d: Seq<char>) -> StringStyleConfigView {
    StringStyleConfigView { color: diff_field(merge_field(c.color, d), d), ..c }
}

/// One edit to a text column's style.
#[derive(Debug)]
pub enum StringColumnStyleMsg {
    Reset(StringColumnStyleConfig),
    FormatEnabled(bool),
    FormatChanged(FormatMode),
    ColorModeEnabled(bool),
    ColorModeChanged(StringColorMode),
    ColorChanged(String),
}

pub ghost enum StringColumnStyleMsgView {
    Reset(StringStyleConfigView),
    FormatEnabled(bool),
    FormatChanged(FormatMode),
    ColorModeEnabled(bool),
    ColorModeChanged(StringColorMode),
    ColorChanged(Seq<char>),
}

impl View for StringColumnStyleMsg {
    type V = StringColumnStyleMsgView;

    open spec fn view(&self) -> StringColumnStyleMsgView {
        match self {
            StringColumnStyleMsg::Reset(c) => StringColumnStyleMsgView::Reset(c@),
            StringColumnStyleMsg::FormatEnabled(b) => StringColumnStyleMsgView::FormatEnabled(*b),
            StringColumnStyleMsg::FormatChanged(f) => StringColumnStyleMsgView::FormatChanged(*f),
            StringColumnStyleMsg::ColorModeEnabled(b) => StringColumnStyleMsgView::ColorModeEnabled(*b),
            StringColumnStyleMsg::ColorModeChanged(m) => StringColumnStyleMsgView::ColorModeChanged(*m),
            StringColumnStyleMsg::ColorChanged(s) => StringColumnStyleMsgView::ColorChanged(s@),
        }
    }
}

/// The overrides after one edit.
pub open spec fn string_update_spec(c: StringStyleConfigView, m: StringColumnStyleMsgView) -> StringStyleConfigView {
    match m {
        StringColumnStyleMsgView::Reset(nc) => nc,
        StringColumnStyleMsgView::FormatEnabled(on) => StringStyleConfigView {
            format: if on { Some(FormatMode::Link) } else { None },
            ..c
        },
        StringColumnStyleMsgView::FormatChanged(f) => StringStyleConfigView { format: Some(f), ..c },
        StringColumnStyleMsgView::ColorModeEnabled(on) => if on {
            StringStyleConfigView { string_color_mode: Some(StringColorMode::Foreground), ..c }
        } else {
            StringStyleConfigView { string_color_mode: None, color: None, ..c }
        },
        StringColumnStyleMsgView::ColorModeChanged(mode) => StringStyleConfigView { string_color_mode: Some(mode), ..c },
        StringColumnStyleMsgView::ColorChanged(v) => StringStyleConfigView { color: Some(v), ..c },
    }
}

/// The editor state of a text column: the overrides being edited.
#[derive(Debug)]
pub struct StringColumnStyle {
    config: StringColumnStyleConfig,
}

impl View for StringColumnStyle {
    type V = StringStyleConfigView;

    closed spec fn view(&self) -> StringStyleConfigView {
        self.config@
    }
}

fn copy_string_config(c: &StringColumnStyleConfig) -> (r: StringColumnStyleConfig)
    ensures
        r@ == c@,
{
    StringColumnStyleConfig { format: c.format, string_color_mode: c.string_color_mode, color: copy_opt_string(&c.color) }
}

impl StringColumnStyle {
    /// The editor as first shown for `config`.
    pub fn create(config: &StringColumnStyleConfig) -> (r: StringColumnStyle)
        ensures
            r@ == config@,
    {
        StringColumnStyle { config: copy_string_config(config) }
    }

    /// The overrides as edited so far.
    pub fn config(&self) -> (r: &StringColumnStyleConfig)
        ensures
            r@ == self@,
    {
        &self.config
    }

    /// The overrides to hand to the column's owner, in minimal form against
    /// `defaults`.
    pub fn dispatch_config(&self, defaults: &StringColumnStyleDefaultConfig) -> (r: StringColumnStyleConfig)
        ensures
            r@ == string_delta_spec(self@, defaults.color@),
    {
        let color = match &self.config.color {
            Some(c) => if *c == defaults.color {
                None
            } else {
                Some(c.clone())
            },
            None => None,
        };
        StringColumnStyleConfig { format: self.config.format, string_color_mode: self.config.string_color_mode, color }
    }

    /// Applies one edit and reports whether to redraw (always) and the
    /// overrides to hand on (for every edit but `Reset`).
    pub fn update(&mut self, defaults: &StringColumnStyleDefaultConfig, msg: StringColumnStyleMsg) -> (r: (
        bool,
        Option<StringColumnStyleConfig>,
    ))
        ensures
            final(self)@ == string_update_spec(old(self)@, msg@),
            r.0,
            msg is Reset ==> r.1 is None,
            !(msg is Reset) ==> (r.1 matches Some(c) && c@ == string_delta_spec(final(self)@, defaults.color@)),
    {
        match msg {
            StringColumnStyleMsg::Reset(config) => {
                self.config = config;
                return (true, None);
            },
            StringColumnStyleMsg::FormatEnabled(on) => {
                self.config.format = if on {
                    Some(FormatMode::default())
                } else {
                    None
                };
            },
            StringColumnStyleMsg::FormatChanged(f) => {
                self.config.format = Some(f);
            },
            StringColumnStyleMsg::ColorModeEnabled(on) => {
                if on {
                    self.config.string_color_mode = Some(StringColorMode::default());
                } else {
                    self.config.string_color_mode = None;
                    self.config.color = None;
                }
            },
            StringColumnStyleMsg::ColorModeChanged(mode) => {
                self.config.string_color_mode = Some(mode);
            },
            StringColumnStyleMsg::ColorChanged(color) => {
                self.config.color = Some(color);
            },
        }
        (true, Some(self.dispatch_config(defaults)))
    }

    /// The colour control of the row for `mode`: the resolved colour when
    /// `mode` is the active colour mode, nothing when the row shows its title
    /// alone.
    pub fn color_select_row(&self, defaults: &StringColumnStyleDefaultConfig, mode: StringColorMode) -> (r: Option<String>)
        ensures
            self@.string_color_mode == Some(mode) ==> (r matches Some(c) && c@ == merge_field(self@.color, defaults.color@)),
            self@.string_color_mode != Some(mode) ==> r is None,
    {
        match self.config.string_color_mode {
            Some(x) => if x == mode {
                Some(
                    match &self.config.color {
                        Some(c) => c.clone(),
                        None => defaults.color.clone(),
                    },
                )
            } else {
                None
            },
            None => None,
        }
    }
}

} // verus!
