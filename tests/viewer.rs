use perspective_viewer::draw_lock::Admission;
use perspective_viewer::viewer::{
    reset_theme_choice, teardown_outcome, ExportMethod, TableAccess, TeardownStep,
    PerspectiveViewerElement, ViewerError,
};
use perspective_viewer::viewer_config::{
    Filter, OptionalUpdate, Sort, ViewConfigUpdate, ViewerConfigEncoding, ViewerConfigUpdate,
};

fn controller() -> PerspectiveViewerElement {
    PerspectiveViewerElement::new("Datagrid".to_string(), 800, 600)
}

fn no_view_change() -> ViewConfigUpdate {
    ViewConfigUpdate {
        group_by: None,
        split_by: None,
        columns: None,
        filter: None,
        sort: None,
        expressions: None,
        aggregates: None,
    }
}

fn strings(xs: &[&str]) -> Vec<String> {
    xs.iter().map(|x| x.to_string()).collect()
}

fn lock(v: &mut PerspectiveViewerElement) -> Admission {
    let a = v.submit().unwrap();
    assert!(a.start_now);
    a
}

#[test]
fn restore_example_then_save_json() {
    let mut v = controller();
    let mut view_config = no_view_change();
    view_config.columns = Some(strings(&["a", "b"]));
    let update = ViewerConfigUpdate {
        plugin: OptionalUpdate::Update("X".to_string()),
        plugin_config: None,
        settings: OptionalUpdate::Missing,
        theme: OptionalUpdate::Missing,
        view_config,
    };
    assert!(v.plugin_will_change(&update.plugin));
    let plan = v.restore(update).unwrap();
    assert_eq!(plan.theme, None);
    assert!(!plan.restyle);
    assert!(plan.plugin_changed);
    let (enc, saved) = v.save(&Some("json".to_string())).unwrap();
    assert_eq!(enc, ViewerConfigEncoding::Json);
    assert_eq!(saved.plugin, "X");
    assert_eq!(saved.view_config.columns, strings(&["a", "b"]));
    assert_eq!(saved.theme, None);
}

#[test]
fn restore_then_save_round_trip() {
    let mut v = controller();
    let mut view_config = no_view_change();
    view_config.columns = Some(strings(&["x", "y"]));
    view_config.group_by = Some(strings(&["g"]));
    view_config.filter = Some(vec![Filter { column: "x".to_string(), op: ">".to_string(), value: "1".to_string() }]);
    view_config.sort = Some(vec![Sort { column: "y".to_string(), direction: "desc".to_string() }]);
    view_config.expressions = Some(strings(&["\"x\" + 1"]));
    let update = ViewerConfigUpdate {
        plugin: OptionalUpdate::Update("Datagrid".to_string()),
        plugin_config: Some("{\"scroll\":0}".to_string()),
        settings: OptionalUpdate::Update(true),
        theme: OptionalUpdate::Missing,
        view_config,
    };
    let plan = v.restore(update).unwrap();
    assert!(!plan.plugin_changed);
    assert!(plan.settings);
    let (_, first) = v.save(&None).unwrap();
    assert_eq!(first.view_config.columns, strings(&["x", "y"]));
    assert_eq!(first.view_config.group_by, strings(&["g"]));
    assert_eq!(first.view_config.filter[0].op, ">");
    assert_eq!(first.view_config.sort[0].direction, "desc");
    assert_eq!(first.plugin_config, "{\"scroll\":0}");
    assert!(first.settings);

    let again = ViewerConfigUpdate {
        plugin: OptionalUpdate::Update(first.plugin.clone()),
        plugin_config: Some(first.plugin_config.clone()),
        settings: OptionalUpdate::Update(first.settings),
        theme: OptionalUpdate::SetDefault,
        view_config: ViewConfigUpdate {
            group_by: Some(first.view_config.group_by.clone()),
            split_by: Some(first.view_config.split_by.clone()),
            columns: Some(first.view_config.columns.clone()),
            filter: Some(first.view_config.filter.clone()),
            sort: Some(first.view_config.sort.clone()),
            expressions: Some(first.view_config.expressions.clone()),
            aggregates: Some(first.view_config.aggregates.clone()),
        },
    };
    let plan = v.restore(again).unwrap();
    assert_eq!(plan.theme, None);
    assert!(!plan.plugin_changed);
    let (_, second) = v.save(&Some("string".to_string())).unwrap();
    assert_eq!(second.plugin, first.plugin);
    assert_eq!(second.view_config.columns, first.view_config.columns);
    assert_eq!(second.view_config.expressions, first.view_config.expressions);
    assert_eq!(second.plugin_config, first.plugin_config);
}

#[test]
fn theme_change_detected_by_name() {
    let mut v = controller();
    let mut update = ViewerConfigUpdate {
        plugin: OptionalUpdate::Missing,
        plugin_config: None,
        settings: OptionalUpdate::Missing,
        theme: OptionalUpdate::Update("Pro Dark".to_string()),
        view_config: no_view_change(),
    };
    let plan = v.restore(update.clone()).unwrap();
    assert_eq!(plan.theme, Some(Some("Pro Dark".to_string())));
    assert!(plan.restyle);
    let plan = v.restore(update.clone()).unwrap();
    assert_eq!(plan.theme, None);
    update.theme = OptionalUpdate::SetDefault;
    let plan = v.restore(update.clone()).unwrap();
    assert_eq!(plan.theme, Some(None));
    let plan = v.restore(update).unwrap();
    assert_eq!(plan.theme, None);
}

#[test]
fn save_rejects_unknown_format() {
    let v = controller();
    assert_eq!(
        v.save(&Some("yaml".to_string())).unwrap_err(),
        ViewerError::Decode("yaml".to_string())
    );
    assert_eq!(v.save(&Some("arraybuffer".to_string())).unwrap().0, ViewerConfigEncoding::ArrayBuffer);
}

#[test]
fn delete_twice_fails_the_second_time() {
    let mut v = controller();
    let a = lock(&mut v);
    let steps = v.delete(a.ticket).unwrap();
    assert_eq!(
        steps,
        vec![
            TeardownStep::DetachResizeObserver,
            TeardownStep::Renderer,
            TeardownStep::Session,
            TeardownStep::Root
        ]
    );
    assert!(!v.auto_size_enabled());
    assert_eq!(v.release(a.ticket), None);
    let b = lock(&mut v);
    assert_eq!(v.delete(b.ticket).unwrap_err(), ViewerError::AlreadyDeleted);
    assert!(v.is_deleted());
    assert_eq!(v.save(&None).unwrap_err(), ViewerError::AlreadyDeleted);
}

#[test]
fn teardown_reports_every_failure() {
    assert_eq!(teardown_outcome(Ok(()), Ok(true), Ok(())), Ok(true));
    assert_eq!(
        teardown_outcome(Err("renderer".to_string()), Ok(true), Ok(())),
        Err(ViewerError::Teardown(vec!["renderer".to_string()]))
    );
    assert_eq!(
        teardown_outcome(Err("renderer".to_string()), Err("session".to_string()), Err("root".to_string())),
        Err(ViewerError::Teardown(strings(&["renderer", "session", "root"])))
    );
}

#[test]
fn table_requests() {
    let mut v = controller();
    assert_eq!(v.get_table(None), Err(ViewerError::NoTable));
    assert_eq!(v.get_table(Some(false)), Err(ViewerError::NoTable));
    assert_eq!(v.get_table(Some(true)), Ok(TableAccess::AwaitLoad));
    assert_eq!(v.flush(), Ok(TableAccess::AwaitLoad));
    assert_eq!(v.get_view(), Err(ViewerError::NoTable));
    assert_eq!(v.load(false), Err(ViewerError::NoTable));
    assert_eq!(v.load(true), Ok(()));
    assert_eq!(v.get_table(None), Ok(TableAccess::Ready));
    assert_eq!(v.get_view(), Ok(()));
}

#[test]
fn manual_resize_disables_auto_size_once() {
    let mut v = controller();
    let first = v.resize(None).unwrap();
    assert!(first.warn);
    assert!(first.detach_observer);
    assert!(!v.auto_size_enabled());
    let second = v.resize(Some(false)).unwrap();
    assert!(!second.warn);
    let act = v.set_auto_size(true, 10, 10).unwrap();
    assert!(!act.detach_observer);
    assert!(act.attach_observer);
    let forced = v.resize(Some(true)).unwrap();
    assert!(!forced.warn);
    assert!(v.auto_size_enabled());
}

#[test]
fn auto_size_toggles_and_routes_samples() {
    let mut v = controller();
    assert!(v.on_resize(&vec![(801, 600)], true));
    assert!(!v.on_redraw_complete());
    let act = v.set_auto_size(true, 5, 5).unwrap();
    assert!(act.detach_observer);
    let act = v.set_auto_size(false, 0, 0).unwrap();
    assert!(act.detach_observer);
    assert!(!act.attach_observer);
    let act = v.set_auto_size(false, 0, 0).unwrap();
    assert!(!act.detach_observer);
    assert!(!v.on_resize(&vec![(1, 1)], true));
}

#[test]
fn settings_panel_toggle_and_copy_method() {
    let mut v = controller();
    assert_eq!(v.toggle_config(None), Ok(true));
    assert_eq!(v.toggle_config(None), Ok(false));
    assert_eq!(v.toggle_config(Some(true)), Ok(true));
    assert_eq!(v.copy(Some(true)), Ok(ExportMethod::CsvAll));
    assert_eq!(v.copy(None), Ok(ExportMethod::Csv));
}

#[test]
fn reset_keeps_expressions_unless_asked() {
    let mut v = controller();
    let mut view_config = no_view_change();
    view_config.columns = Some(strings(&["a"]));
    view_config.expressions = Some(strings(&["1 + 1"]));
    v.restore(ViewerConfigUpdate {
        plugin: OptionalUpdate::Missing,
        plugin_config: None,
        settings: OptionalUpdate::Missing,
        theme: OptionalUpdate::Missing,
        view_config,
    })
    .unwrap();
    assert_eq!(v.reset(None), Ok(false));
    let (_, saved) = v.save(&None).unwrap();
    assert!(saved.view_config.columns.is_empty());
    assert_eq!(saved.view_config.expressions, strings(&["1 + 1"]));
    assert_eq!(v.reset(Some(true)), Ok(true));
    let (_, saved) = v.save(&None).unwrap();
    assert!(saved.view_config.expressions.is_empty());
}

#[test]
fn plugin_reset_to_default() {
    let mut v = controller();
    assert!(!v.plugin_will_change(&OptionalUpdate::SetDefault));
    assert!(!v.plugin_will_change(&OptionalUpdate::Missing));
    let mut update = ViewerConfigUpdate {
        plugin: OptionalUpdate::Update("Y Line".to_string()),
        plugin_config: None,
        settings: OptionalUpdate::SetDefault,
        theme: OptionalUpdate::Missing,
        view_config: no_view_change(),
    };
    v.restore(update.clone()).unwrap();
    update.plugin = OptionalUpdate::SetDefault;
    assert!(v.plugin_will_change(&update.plugin));
    let plan = v.restore(update).unwrap();
    assert!(plan.plugin_changed);
    assert_eq!(v.save(&None).unwrap().1.plugin, "Datagrid");
}

#[test]
fn theme_kept_only_if_still_listed() {
    let themes = strings(&["Pro Light", "Pro Dark"]);
    assert_eq!(reset_theme_choice(&Some("Pro Dark".to_string()), &themes), Some("Pro Dark".to_string()));
    assert_eq!(reset_theme_choice(&Some("Vaporwave".to_string()), &themes), None);
    assert_eq!(reset_theme_choice(&None, &themes), None);
}
