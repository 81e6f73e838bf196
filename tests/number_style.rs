use perspective_viewer::number_column_style::{
    GradientInput, NumberColumnStyle, NumberColumnStyleMsg,
};
use perspective_viewer::number_style::{
    delta, diff_against_default, merge, NumberBackgroundMode, NumberColumnStyleConfig,
    NumberColumnStyleDefaultConfig, NumberForegroundMode,
};

fn defaults() -> NumberColumnStyleDefaultConfig {
    NumberColumnStyleDefaultConfig {
        fixed: 2,
        pos_fg_color: "#338DCD".to_string(),
        neg_fg_color: "#FF5942".to_string(),
        pos_bg_color: "#338DCD".to_string(),
        neg_bg_color: "#FF5942".to_string(),
        fg_gradient: 100.0f64.to_bits(),
        bg_gradient: 50.0f64.to_bits(),
    }
}

fn empty_config() -> NumberColumnStyleConfig {
    NumberColumnStyleConfig {
        fixed: None,
        number_fg_mode: NumberForegroundMode::Color,
        number_bg_mode: NumberBackgroundMode::Disabled,
        pos_fg_color: None,
        neg_fg_color: None,
        pos_bg_color: None,
        neg_bg_color: None,
        fg_gradient: None,
        bg_gradient: None,
    }
}

fn s(x: &str) -> Option<String> {
    Some(x.to_string())
}

#[test]
fn merge_takes_overrides_then_defaults() {
    let mut c = empty_config();
    c.fixed = Some(4);
    c.neg_fg_color = s("#000000");
    let e = merge(&c, &defaults());
    assert_eq!(e.fixed, 4);
    assert_eq!(e.pos_fg_color, "#338DCD");
    assert_eq!(e.neg_fg_color, "#000000");
    assert_eq!(e.fg_gradient, 100.0f64.to_bits());
}

#[test]
fn diff_drops_fields_at_default() {
    let mut c = empty_config();
    c.fixed = Some(2);
    c.fg_gradient = Some(100.0f64.to_bits());
    c.bg_gradient = Some(7.5f64.to_bits());
    let r = diff_against_default(&merge(&c, &defaults()), &defaults());
    assert_eq!(r.fixed, None);
    assert_eq!(r.fg_gradient, None);
    assert_eq!(r.bg_gradient, Some(7.5f64.to_bits()));
}

#[test]
fn linked_pair_with_one_change_keeps_both() {
    let mut c = empty_config();
    c.pos_fg_color = s("#123456");
    let r = delta(&c, &defaults());
    assert_eq!(r.pos_fg_color, s("#123456"));
    assert_eq!(r.neg_fg_color, s("#FF5942"));
    assert_eq!(r.pos_bg_color, None);
    assert_eq!(r.neg_bg_color, None);
}

#[test]
fn linked_pair_at_defaults_collapses() {
    let mut c = empty_config();
    c.pos_bg_color = s("#338DCD");
    c.neg_bg_color = s("#FF5942");
    let r = delta(&c, &defaults());
    assert_eq!(r.pos_bg_color, None);
    assert_eq!(r.neg_bg_color, None);
}

#[test]
fn delta_strips_overrides_equal_to_default_and_is_idempotent() {
    let mut c = empty_config();
    c.fixed = Some(2);
    c.pos_fg_color = s("#111111");
    c.neg_fg_color = s("#222222");
    c.fg_gradient = Some(3.0f64.to_bits());
    c.bg_gradient = Some(50.0f64.to_bits());
    let once = delta(&c, &defaults());
    assert_eq!(once.fixed, None);
    assert_eq!(once.pos_fg_color, s("#111111"));
    assert_eq!(once.neg_fg_color, s("#222222"));
    assert_eq!(once.fg_gradient, Some(3.0f64.to_bits()));
    assert_eq!(once.bg_gradient, None);
    let twice = delta(&once, &defaults());
    assert_eq!(twice.fixed, once.fixed);
    assert_eq!(twice.pos_fg_color, once.pos_fg_color);
    assert_eq!(twice.neg_fg_color, once.neg_fg_color);
    assert_eq!(twice.fg_gradient, once.fg_gradient);
    assert_eq!(twice.bg_gradient, once.bg_gradient);
}

#[test]
fn reset_resolves_colors_of_enabled_modes() {
    let mut c = empty_config();
    c.number_fg_mode = NumberForegroundMode::Bar;
    let st = NumberColumnStyle::reset(&c, &defaults());
    assert_eq!(st.fg_mode(), NumberForegroundMode::Bar);
    assert_eq!(st.config().pos_fg_color, s("#338DCD"));
    assert_eq!(st.config().neg_fg_color, s("#FF5942"));
    assert_eq!(st.config().pos_bg_color, None);
    assert_eq!(st.gradient(true), 100.0f64.to_bits());
}

#[test]
fn reset_of_disabled_foreground_shows_color_mode() {
    let mut c = empty_config();
    c.number_fg_mode = NumberForegroundMode::Disabled;
    let st = NumberColumnStyle::create(&c, &defaults());
    assert_eq!(st.fg_mode(), NumberForegroundMode::Color);
    assert_eq!(st.config().pos_fg_color, None);
    assert_eq!(st.bg_mode(), NumberBackgroundMode::Disabled);
}

#[test]
fn fixed_input_parses_clamps_and_falls_back() {
    let d = defaults();
    let mut st = NumberColumnStyle::create(&empty_config(), &d);
    let r = st.update(&d, NumberColumnStyleMsg::FixedChanged("4".to_string()));
    assert!(r.rerender);
    assert_eq!(st.config().fixed, Some(4));
    assert_eq!(r.changed.unwrap().fixed, Some(4));
    st.update(&d, NumberColumnStyleMsg::FixedChanged("+7".to_string()));
    assert_eq!(st.config().fixed, Some(7));
    st.update(&d, NumberColumnStyleMsg::FixedChanged("40".to_string()));
    assert_eq!(st.config().fixed, Some(15));
    st.update(&d, NumberColumnStyleMsg::FixedChanged("2".to_string()));
    assert_eq!(st.config().fixed, None);
    st.update(&d, NumberColumnStyleMsg::FixedChanged("".to_string()));
    assert_eq!(st.config().fixed, Some(0));
    st.update(&d, NumberColumnStyleMsg::FixedChanged("x1".to_string()));
    assert_eq!(st.config().fixed, None);
    st.update(&d, NumberColumnStyleMsg::FixedChanged("-1".to_string()));
    assert_eq!(st.config().fixed, None);
}

#[test]
fn fixed_text_hint() {
    let d = defaults();
    let mut st = NumberColumnStyle::create(&empty_config(), &d);
    assert_eq!(st.make_fixed_text(&d), "Prec 0.01");
    st.update(&d, NumberColumnStyleMsg::FixedChanged("3".to_string()));
    assert_eq!(st.make_fixed_text(&d), "Prec 0.001");
    st.update(&d, NumberColumnStyleMsg::FixedChanged("0".to_string()));
    assert_eq!(st.make_fixed_text(&d), "Prec 1");
}

#[test]
fn foreground_toggle_writes_and_clears_overrides() {
    let d = defaults();
    let mut c = empty_config();
    c.number_fg_mode = NumberForegroundMode::Bar;
    c.fg_gradient = Some(9.0f64.to_bits());
    let mut st = NumberColumnStyle::create(&c, &d);
    let r = st.update(&d, NumberColumnStyleMsg::ForeEnabledChanged(false));
    assert!(r.rerender);
    assert_eq!(st.config().number_fg_mode, NumberForegroundMode::Disabled);
    assert_eq!(st.config().pos_fg_color, None);
    assert_eq!(st.config().fg_gradient, None);
    let r = st.update(&d, NumberColumnStyleMsg::ForeEnabledChanged(true));
    assert_eq!(st.config().number_fg_mode, NumberForegroundMode::Bar);
    assert_eq!(st.config().fg_gradient, Some(9.0f64.to_bits()));
    let out = r.changed.unwrap();
    assert_eq!(out.pos_fg_color, None);
    assert_eq!(out.neg_fg_color, None);
    assert_eq!(out.fg_gradient, Some(9.0f64.to_bits()));
}

#[test]
fn background_enable_picks_color_mode() {
    let d = defaults();
    let mut st = NumberColumnStyle::create(&empty_config(), &d);
    st.update(&d, NumberColumnStyleMsg::BackEnabledChanged(true));
    assert_eq!(st.config().number_bg_mode, NumberBackgroundMode::Color);
    assert_eq!(st.config().pos_bg_color, s("#338DCD"));
    st.update(&d, NumberColumnStyleMsg::NumberBackModeChanged(NumberBackgroundMode::Gradient));
    assert_eq!(st.config().bg_gradient, Some(50.0f64.to_bits()));
    st.update(&d, NumberColumnStyleMsg::NumberBackModeChanged(NumberBackgroundMode::Pulse));
    assert_eq!(st.config().bg_gradient, None);
}

#[test]
fn color_edits_do_not_redraw_and_report_pairs() {
    let d = defaults();
    let mut st = NumberColumnStyle::create(&empty_config(), &d);
    let r = st.update(&d, NumberColumnStyleMsg::NegColorChanged(true, "#000000".to_string()));
    assert!(!r.rerender);
    let out = r.changed.unwrap();
    assert_eq!(out.neg_fg_color, s("#000000"));
    assert_eq!(out.pos_fg_color, s("#338DCD"));
    let r = st.update(&d, NumberColumnStyleMsg::NegColorChanged(true, "#FF5942".to_string()));
    let out = r.changed.unwrap();
    assert_eq!(out.neg_fg_color, None);
    assert_eq!(out.pos_fg_color, None);
    st.update(&d, NumberColumnStyleMsg::PosColorChanged(false, "#ABCDEF".to_string()));
    assert_eq!(st.config().pos_bg_color, s("#ABCDEF"));
}

#[test]
fn gradient_input_cases() {
    let d = defaults();
    let mut st = NumberColumnStyle::create(&empty_config(), &d);
    let r = st.update(&d, NumberColumnStyleMsg::GradientChanged(true, GradientInput::Value(12.0f64.to_bits())));
    assert!(!r.rerender);
    assert_eq!(st.gradient(true), 12.0f64.to_bits());
    assert_eq!(st.config().fg_gradient, Some(12.0f64.to_bits()));
    st.update(&d, NumberColumnStyleMsg::GradientChanged(true, GradientInput::Empty));
    assert_eq!(st.gradient(true), 100.0f64.to_bits());
    assert_eq!(st.config().fg_gradient, Some(100.0f64.to_bits()));
    st.update(&d, NumberColumnStyleMsg::GradientChanged(false, GradientInput::Invalid));
    assert_eq!(st.gradient(false), 50.0f64.to_bits());
    assert_eq!(st.config().bg_gradient, None);
}

#[test]
fn reset_message_rebuilds_without_dispatch() {
    let d = defaults();
    let mut st = NumberColumnStyle::create(&empty_config(), &d);
    st.update(&d, NumberColumnStyleMsg::FixedChanged("5".to_string()));
    let r = st.update(&d, NumberColumnStyleMsg::Reset(empty_config(), defaults()));
    assert!(r.rerender);
    assert!(r.changed.is_none());
    assert_eq!(st.config().fixed, None);
    let mut c = empty_config();
    c.fixed = Some(1);
    assert!(st.changed(&c, &d));
    assert_eq!(st.config().fixed, Some(1));
}
