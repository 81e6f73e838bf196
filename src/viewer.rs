//! The viewer controller: the long-lived object behind a hosted viewer
//! element. It decides every command against its own state (live or deleted,
//! table loaded, auto-size, effective configuration) and says what the host
//! must do; the host performs the work and reports back.
use vstd::prelude::*;

use crate::delta::copy_opt_string;
use crate::draw_lock::{Admission, DrawLock, DrawLockView};
use crate::resize::{CoalescerView, ResizeCoalescer};
use crate::viewer_config::{
    OptionalUpdate, ViewConfig, ViewConfigView, ViewerConfig, copy_strings, full_update, ViewerConfigEncoding, ViewerConfigUpdate,
    ViewerConfigUpdateView, ViewerConfigView, apply_view_update, encoding_spec,
    keep_or, parse_encoding,
};

verus! {

/// What a command can fail with.
#[derive(Clone, Debug, PartialEq, Eq)]
pub enum ViewerError {
    /// The command needs a loaded table and none is there or awaited.
    NoTable,
    /// The viewer was deleted.
    AlreadyDeleted,
    /// A payload or format name could not be read; holds the offending text.
    Decode(String),
    /// A confirmation the command waited for was abandoned.
    Cancelled,
    /// A collaborator failed; holds its message.
    HostApi(String),
    /// One or more teardown steps failed; holds their messages in order.
    Teardown(Vec<String>),
}

/// How a request for the table is answered.
#[derive(Clone, Copy, Debug, PartialEq, Eq, Structural)]
pub enum TableAccess {
    /// The table is loaded.
    Ready,
    /// No table yet: wait for the next load.
    AwaitLoad,
}

/// What the clipboard receives: the view's rows, or every row of the table.
#[derive(Clone, Copy, Debug, PartialEq, Eq, Structural)]
pub enum ExportMethod {
    Csv,
    CsvAll,
}

/// One step of tearing a viewer down.
#[derive(Clone, Copy, Debug, PartialEq, Eq, Structural)]
pub enum TeardownStep {
    DetachResizeObserver,
    Renderer,
    Session,
    Root,
}

/// What the host does for a `restore`: set the theme when `theme` holds the
/// new name (`None` inside for the default), refresh column defaults when
/// the plugin changed, post the panel state, draw, and restyle once more when
/// `restyle` says so.
#[derive(Clone, Debug)]
pub struct RestorePlan {
    pub theme: Option<Option<String>>,
    pub plugin_changed: bool,
    pub settings: bool,
    pub restyle: bool,
}

/// What the host does for a `resize`: warn that auto-size was switched off,
/// detach the resize observer, and resize in every case.
#[derive(Clone, Copy, Debug, PartialEq, Eq, Structural)]
pub struct ResizeAction {
    pub warn: bool,
    pub detach_observer: bool,
}

/// What the host does for `set_auto_size`: detach the observer it had, attach
/// a new one.
#[derive(Clone, Copy, Debug, PartialEq, Eq, Structural)]
pub struct AutoSizeAction {
    pub detach_observer: bool,
    pub attach_observer: bool,
}

/// The controller. A deleted controller refuses every command.
#[derive(Debug)]
pub struct PerspectiveViewerElement {
    deleted: bool,
    has_table: bool,
    resize: ResizeCoalescer,
    lock: DrawLock,
    default_plugin: String,
    config: ViewerConfig,
}

pub ghost struct ControllerView {
    pub deleted: bool,
    pub has_table: bool,
    pub resize: CoalescerView,
    pub lock: DrawLockView,
    pub default_plugin: Seq<char>,
    pub config: ViewerConfigView,
}

impl View for PerspectiveViewerElement {
    type V = ControllerView;

    closed spec fn view(&self) -> ControllerView {
        ControllerView {
            deleted: self.deleted,
            has_table: self.has_table,
            resize: self.resize@,
            lock: self.lock@,
            default_plugin: self.default_plugin@,
            config: self.config@,
        }
    }
}

impl ControllerView {
    pub open spec fn wf(self) -> bool {
        &&& self.resize.wf()
        &&& self.lock.wf()
        &&& self.deleted ==> !self.resize.armed
    }
}

/// The theme to switch to, if any: a reset to the default only when a theme
/// is set, a name only when it differs from the current one.
pub open spec fn theme_change(cur: Option<Seq<char>>, u: OptionalUpdate<Seq<char>>) -> Option<Option<Seq<char>>> {
    match u {
        OptionalUpdate::SetDefault => if cur is Some { Some(None) } else { None },
        OptionalUpdate::Update(x) => if cur != Some(x) { Some(Some(x)) } else { None },
        OptionalUpdate::Missing => None,
    }
}

/// The plugin that an update selects.
pub open spec fn plugin_target(cur: Seq<char>, default_plugin: Seq<char>, u: OptionalUpdate<Seq<char>>) -> Seq<char> {
    match u {
        OptionalUpdate::SetDefault => default_plugin,
        OptionalUpdate::Update(x) => x,
        OptionalUpdate::Missing => cur,
    }
}

/// The panel state that an update selects; the default is closed.
pub open spec fn settings_target(cur: bool, u: OptionalUpdate<bool>) -> bool {
    match u {
        OptionalUpdate::SetDefault => false,
        OptionalUpdate::Update(x) => x,
        OptionalUpdate::Missing => cur,
    }
}

/// The effective configuration after `restore(u)`.
pub open spec fn restore_config(c: ViewerConfigView, default_plugin: Seq<char>, u: ViewerConfigUpdateView) -> ViewerConfigView {
    ViewerConfigView {
        plugin: plugin_target(c.plugin, default_plugin, u.plugin),
        plugin_config: keep_or(u.plugin_config, c.plugin_config),
        settings: settings_target(c.settings, u.settings),
        theme: match theme_change(c.theme, u.theme) {
            Some(t) => t,
            None => c.theme,
        },
        view_config: apply_view_update(c.view_config, u.view_config),
    }
}

/// Every failure message of a teardown, in step order.
pub open spec fn teardown_errors(renderer: Result<(), String>, session: Result<bool, String>, root: Result<(), String>) -> Seq<String> {
    let a = match renderer {
        Err(m) => seq![m],
        Ok(_) => Seq::empty(),
    };
    let b = match session {
        Err(m) => seq![m],
        Ok(_) => Seq::empty(),
    };
    let c = match root {
        Err(m) => seq![m],
        Ok(_) => Seq::empty(),
    };
    a + b + c
}

/// The steps of a teardown: the resize observer when attached, then the
/// renderer, the session and the root, all of them in every case.
pub open spec fn teardown_steps(observer_attached: bool) -> Seq<TeardownStep> {
    (if observer_attached { seq![TeardownStep::DetachResizeObserver] } else { Seq::empty() }) + seq![
        TeardownStep::Renderer,
        TeardownStep::Session,
        TeardownStep::Root,
    ]
}

fn push_error(errors: &mut Vec<String>, r: &Result<(), String>)
    ensures
        final(errors)@ == old(errors)@ + match r {
            Err(m) => seq![*m],
            Ok(_) => Seq::<String>::empty(),
        },
{
    if let Err(m) = r {
        errors.push(m.clone());
    }
    proof {
        assert(final(errors)@ =~= old(errors)@ + match r {
            Err(m) => seq![*m],
            Ok(_) => Seq::<String>::empty(),
        });
    }
}

/// The outcome of a teardown from the outcome of each step: the session's
/// answer when every step succeeded, otherwise every failure together. No
/// failure hides another.
pub fn teardown_outcome(renderer: Result<(), String>, session: Result<bool, String>, root: Result<(), String>) -> (r: Result<bool, ViewerError>)
    ensures
        teardown_errors(renderer, session, root).len() == 0 ==> r == Ok::<bool, ViewerError>(session->Ok_0),
        teardown_errors(renderer, session, root).len() > 0 ==> (r matches Err(ViewerError::Teardown(ms))
            && ms@ == teardown_errors(renderer, session, root)),
{
    let mut errors: Vec<String> = Vec::new();
    push_error(&mut errors, &renderer);
    let session_unit: Result<(), String> = match &session {
        Ok(_) => Ok(()),
        Err(m) => Err(m.clone()),
    };
    push_error(&mut errors, &session_unit);
    push_error(&mut errors, &root);
    proof {
        assert(errors@ =~= teardown_errors(renderer, session, root));
    }
    if errors.len() == 0 {
        match session {
            Ok(b) => Ok(b),
            Err(_) => Err(ViewerError::Teardown(errors)),
        }
    } else {
        Err(ViewerError::Teardown(errors))
    }
}

/// A delete: the first one on a live viewer marks it deleted, disarms
/// auto-size and returns the full list of teardown steps; on a deleted one it
/// changes nothing and returns `None`, which the controller reports as
/// `AlreadyDeleted`.
pub open spec fn delete_spec(s: ControllerView) -> (ControllerView, Option<Seq<TeardownStep>>) {
    if s.deleted {
        (s, None)
    } else {
        (
            ControllerView {
                deleted: true,
                resize: CoalescerView { armed: false, in_flight: false, pending: false, ..s.resize },
                ..s
            },
            Some(teardown_steps(s.resize.armed)),
        )
    }
}

impl PerspectiveViewerElement {
    /// A live controller with no table, auto-size on for an element of
    /// `width` by `height`, the lock free, and the configuration of a fresh
    /// viewer: plugin `default_plugin` with no configuration of its own, the
    /// panel closed, the default theme and the empty query.
    pub fn new(default_plugin: String, width: i32, height: i32) -> (r: PerspectiveViewerElement)
        ensures
            r@.wf(),
            !r@.deleted,
            !r@.has_table,
            r@.resize == (CoalescerView { armed: true, width, height, in_flight: false, pending: false }),
            r@.lock.holder is None,
            r@.lock.queue.len() == 0,
            r@.default_plugin == default_plugin@,
            r@.config.plugin == default_plugin@,
            r@.config.plugin_config.len() == 0,
            !r@.config.settings,
            r@.config.theme is None,
            r@.config.view_config == ViewConfig::empty_spec(),
    {
        let plugin = default_plugin.clone();
        PerspectiveViewerElement {
            deleted: false,
            has_table: false,
            resize: ResizeCoalescer::subscribe(width, height),
            lock: DrawLock::new(),
            default_plugin,
            config: ViewerConfig {
                plugin,
                plugin_config: String::new(),
                settings: false,
                theme: None,
                view_config: ViewConfig::empty(),
            },
        }
    }

    pub fn is_deleted(&self) -> (r: bool)
        ensures
            r == self@.deleted,
    {
        self.deleted
    }

    /// Whether auto-size observes the element.
    pub fn auto_size_enabled(&self) -> (r: bool)
        ensures
            r == self@.resize.armed,
    {
        self.resize.is_armed()
    }

    /// Admits a state-mutating operation to the draw lock.
    pub fn submit(&mut self) -> (r: Option<Admission>)
        requires
            old(self)@.wf(),
        ensures
            final(self)@.wf(),
            final(self)@ == (ControllerView { lock: final(self)@.lock, ..old(self)@ }),
            old(self)@.lock.next_ticket == u64::MAX ==> r is None && final(self)@ == old(self)@,
            old(self)@.lock.next_ticket < u64::MAX ==> r == Some(old(self)@.lock.submit().1)
                && final(self)@.lock == old(self)@.lock.submit().0,
    {
        self.lock.submit()
    }

    /// The operation holding the lock finished, successfully or not; returns
    /// the one that starts now, if any waited.
    pub fn release(&mut self, ticket: u64) -> (r: Option<u64>)
        requires
            old(self)@.wf(),
            old(self)@.lock.holder == Some(ticket),
        ensures
            final(self)@.wf(),
            final(self)@ == (ControllerView { lock: final(self)@.lock, ..old(self)@ }),
            (final(self)@.lock, r) == old(self)@.lock.release(),
    {
        self.lock.release(ticket)
    }

    /// Whether `ticket` holds the draw lock.
    pub fn holds_lock(&self, ticket: u64) -> (r: bool)
        ensures
            r == (self@.lock.holder == Some(ticket)),
    {
        match self.lock.holder() {
            Some(h) => h == ticket,
            None => false,
        }
    }

    /// The table promised to `load` was resolved (`table_resolved`) or not.
    pub fn load(&mut self, table_resolved: bool) -> (r: Result<(), ViewerError>)
        ensures
            old(self)@.deleted ==> r == Err::<(), ViewerError>(ViewerError::AlreadyDeleted) && final(self)@ == old(self)@,
            !old(self)@.deleted && !table_resolved ==> r == Err::<(), ViewerError>(ViewerError::NoTable) && final(self)@ == old(self)@,
            !old(self)@.deleted && table_resolved ==> r is Ok && final(self)@ == (ControllerView { has_table: true, ..old(self)@ }),
    {
        if self.deleted {
            Err(ViewerError::AlreadyDeleted)
        } else if !table_resolved {
            Err(ViewerError::NoTable)
        } else {
            self.has_table = true;
            Ok(())
        }
    }

    /// How a request for the table is answered: at once when loaded, after
    /// the next load when the caller asks to wait, `NoTable` otherwise.
    pub fn get_table(&self, wait_for_table: Option<bool>) -> (r: Result<TableAccess, ViewerError>)
        ensures
            self@.deleted ==> r == Err::<TableAccess, ViewerError>(ViewerError::AlreadyDeleted),
            !self@.deleted && self@.has_table ==> r == Ok::<TableAccess, ViewerError>(TableAccess::Ready),
            !self@.deleted && !self@.has_table && wait_for_table == Some(true) ==> r == Ok::<TableAccess, ViewerError>(TableAccess::AwaitLoad),
            !self@.deleted && !self@.has_table && wait_for_table != Some(true) ==> r == Err::<TableAccess, ViewerError>(ViewerError::NoTable),
    {
        if self.deleted {
            Err(ViewerError::AlreadyDeleted)
        } else if self.has_table {
            Ok(TableAccess::Ready)
        } else {
            match wait_for_table {
                Some(true) => Ok(TableAccess::AwaitLoad),
                _ => Err(ViewerError::NoTable),
            }
        }
    }

    /// Whether the view can be handed out: it exists once a table is loaded.
    pub fn get_view(&self) -> (r: Result<(), ViewerError>)
        ensures
            self@.deleted ==> r == Err::<(), ViewerError>(ViewerError::AlreadyDeleted),
            !self@.deleted && !self@.has_table ==> r == Err::<(), ViewerError>(ViewerError::NoTable),
            !self@.deleted && self@.has_table ==> r is Ok,
    {
        if self.deleted {
            Err(ViewerError::AlreadyDeleted)
        } else if !self.has_table {
            Err(ViewerError::NoTable)
        } else {
            Ok(())
        }
    }

    /// A flush waits for the table when none is loaded yet, then draws.
    pub fn flush(&self) -> (r: Result<TableAccess, ViewerError>)
        ensures
            self@.deleted ==> r == Err::<TableAccess, ViewerError>(ViewerError::AlreadyDeleted),
            !self@.deleted && self@.has_table ==> r == Ok::<TableAccess, ViewerError>(TableAccess::Ready),
            !self@.deleted && !self@.has_table ==> r == Ok::<TableAccess, ViewerError>(TableAccess::AwaitLoad),
    {
        self.get_table(Some(true))
    }

    /// Whether restoring `plugin` would switch the active plugin, so that the
    /// caller can fill in the new plugin's column defaults first.
    pub fn plugin_will_change(&self, plugin: &OptionalUpdate<String>) -> (r: bool)
        ensures
            r == (plugin_target(self@.config.plugin, self@.default_plugin, crate::viewer_config::string_update_view(*plugin)) != self@.config.plugin),
    {
        match plugin {
            OptionalUpdate::SetDefault => !(self.default_plugin == self.config.plugin),
            OptionalUpdate::Update(x) => !(*x == self.config.plugin),
            OptionalUpdate::Missing => false,
        }
    }

    /// Applies a full or partial configuration and says what the host must
    /// do for it.
    pub fn restore(&mut self, update: ViewerConfigUpdate) -> (r: Result<RestorePlan, ViewerError>)
        ensures
            old(self)@.deleted ==> r is Err && r->Err_0 == ViewerError::AlreadyDeleted && final(self)@ == old(self)@,
            !old(self)@.deleted ==> final(self)@ == (ControllerView {
                config: restore_config(old(self)@.config, old(self)@.default_plugin, update@),
                ..old(self)@
            }),
            !old(self)@.deleted ==> (r matches Ok(p) && p.theme.deep_view() == theme_change(old(self)@.config.theme, update@.theme)
                && p.restyle == (p.theme is Some)
                && p.plugin_changed == (final(self)@.config.plugin != old(self)@.config.plugin)
                && p.settings == final(self)@.config.settings),
    {
        if self.deleted {
            return Err(ViewerError::AlreadyDeleted);
        }
        let ViewerConfigUpdate { plugin, plugin_config, settings, theme, view_config } = update;
        let theme_plan: Option<Option<String>> = match theme {
            OptionalUpdate::SetDefault => if self.config.theme.is_some() {
                Some(None)
            } else {
                None
            },
            OptionalUpdate::Update(x) => {
                let same = match &self.config.theme {
                    Some(t) => *t == x,
                    None => false,
                };
                if same {
                    None
                } else {
                    Some(Some(x))
                }
            },
            OptionalUpdate::Missing => None,
        };
        if let Some(t) = &theme_plan {
            self.config.theme = copy_opt_string(t);
        }
        let target = match plugin {
            OptionalUpdate::SetDefault => self.default_plugin.clone(),
            OptionalUpdate::Update(x) => x,
            OptionalUpdate::Missing => self.config.plugin.clone(),
        };
        let plugin_changed = !(target == self.config.plugin);
        self.config.plugin = target;
        if let Some(pc) = plugin_config {
            self.config.plugin_config = pc;
        }
        self.config.settings = match settings {
            OptionalUpdate::SetDefault => false,
            OptionalUpdate::Update(x) => x,
            OptionalUpdate::Missing => self.config.settings,
        };
        self.config.view_config.apply(view_config);
        let restyle = theme_plan.is_some();
        Ok(RestorePlan { theme: theme_plan, plugin_changed, settings: self.config.settings, restyle })
    }

    /// Reads back the effective configuration, to be encoded as `format`
    /// asks (`json` when absent). Does not take the draw lock.
    pub fn save(&self, format: &Option<String>) -> (r: Result<(ViewerConfigEncoding, ViewerConfig), ViewerError>)
        ensures
            self@.deleted ==> r is Err && r->Err_0 == ViewerError::AlreadyDeleted,
            !self@.deleted && encoding_spec(format.deep_view()) is None ==> (r matches Err(ViewerError::Decode(m))
                && Some(m@) == format.deep_view()),
            !self@.deleted && encoding_spec(format.deep_view()) is Some ==> (r matches Ok((e, c))
                && Some(e) == encoding_spec(format.deep_view()) && c@ == self@.config),
    {
        if self.deleted {
            return Err(ViewerError::AlreadyDeleted);
        }
        match parse_encoding(format) {
            Ok(e) => Ok((e, self.config.copy())),
            Err(m) => Err(ViewerError::Decode(m)),
        }
    }

    /// What to copy to the clipboard: every row when `flat`, the view's rows
    /// otherwise.
    pub fn copy(&self, flat: Option<bool>) -> (r: Result<ExportMethod, ViewerError>)
        ensures
            self@.deleted ==> r == Err::<ExportMethod, ViewerError>(ViewerError::AlreadyDeleted),
            !self@.deleted && flat == Some(true) ==> r == Ok::<ExportMethod, ViewerError>(ExportMethod::CsvAll),
            !self@.deleted && flat != Some(true) ==> r == Ok::<ExportMethod, ViewerError>(ExportMethod::Csv),
    {
        if self.deleted {
            return Err(ViewerError::AlreadyDeleted);
        }
        match flat {
            Some(true) => Ok(ExportMethod::CsvAll),
            _ => Ok(ExportMethod::Csv),
        }
    }
    /// Resets the view query to the empty one, keeping the computed
    /// expressions unless `reset_expressions` asks to clear them too.
    /// Returns whether expressions were cleared.
    pub fn reset(&mut self, reset_expressions: Option<bool>) -> (r: Result<bool, ViewerError>)
        ensures
            old(self)@.deleted ==> r == Err::<bool, ViewerError>(ViewerError::AlreadyDeleted) && final(self)@ == old(self)@,
            !old(self)@.deleted ==> r == Ok::<bool, ViewerError>(reset_expressions == Some(true)),
            !old(self)@.deleted ==> final(self)@ == (ControllerView {
                config: ViewerConfigView {
                    view_config: ViewConfigView {
                        expressions: if reset_expressions == Some(true) {
                            Seq::empty()
                        } else {
                            old(self)@.config.view_config.expressions
                        },
                        ..ViewConfig::empty_spec()
                    },
                    ..old(self)@.config
                },
                ..old(self)@
            }),
    {
        if self.deleted {
            return Err(ViewerError::AlreadyDeleted);
        }
        let all = match reset_expressions {
            Some(true) => true,
            _ => false,
        };
        let mut fresh = ViewConfig::empty();
        if !all {
            fresh.expressions = copy_strings(&self.config.view_config.expressions);
        }
        self.config.view_config = fresh;
        Ok(all)
    }

    /// A resize asked for by the host page. Unless `force`d, it is taken as a
    /// manual override: auto-size, if on, is switched off for good (until
    /// turned on again), with a warning. The host resizes in every case.
    pub fn resize(&mut self, force: Option<bool>) -> (r: Result<ResizeAction, ViewerError>)
        requires
            old(self)@.wf(),
        ensures
            final(self)@.wf(),
            old(self)@.deleted ==> r == Err::<ResizeAction, ViewerError>(ViewerError::AlreadyDeleted) && final(self)@ == old(self)@,
            !old(self)@.deleted ==> ({
                let off = force != Some(true) && old(self)@.resize.armed;
                &&& r == Ok::<ResizeAction, ViewerError>(ResizeAction { warn: off, detach_observer: off })
                &&& off ==> final(self)@ == (ControllerView {
                    resize: CoalescerView { armed: false, in_flight: false, pending: false, ..old(self)@.resize },
                    ..old(self)@
                })
                &&& !off ==> final(self)@ == old(self)@
            }),
    {
        if self.deleted {
            return Err(ViewerError::AlreadyDeleted);
        }
        let forced = match force {
            Some(true) => true,
            _ => false,
        };
        if !forced && self.resize.is_armed() {
            self.resize.unsubscribe();
            Ok(ResizeAction { warn: true, detach_observer: true })
        } else {
            Ok(ResizeAction { warn: false, detach_observer: false })
        }
    }

    /// Turns auto-size on, observing an element of `width` by `height` from
    /// now, or off. Turning it on replaces any observer already attached.
    pub fn set_auto_size(&mut self, autosize: bool, width: i32, height: i32) -> (r: Result<AutoSizeAction, ViewerError>)
        requires
            old(self)@.wf(),
        ensures
            final(self)@.wf(),
            old(self)@.deleted ==> r == Err::<AutoSizeAction, ViewerError>(ViewerError::AlreadyDeleted) && final(self)@ == old(self)@,
            !old(self)@.deleted ==> r == Ok::<AutoSizeAction, ViewerError>(AutoSizeAction {
                detach_observer: old(self)@.resize.armed,
                attach_observer: autosize,
            }),
            !old(self)@.deleted && autosize ==> final(self)@ == (ControllerView {
                resize: CoalescerView { armed: true, width, height, in_flight: false, pending: false },
                ..old(self)@
            }),
            !old(self)@.deleted && !autosize ==> final(self)@ == (ControllerView {
                resize: CoalescerView { armed: false, in_flight: false, pending: false, ..old(self)@.resize },
                ..old(self)@
            }),
    {
        if self.deleted {
            return Err(ViewerError::AlreadyDeleted);
        }
        let detach = self.resize.unsubscribe();
        if autosize {
            self.resize = ResizeCoalescer::subscribe(width, height);
        }
        Ok(AutoSizeAction { detach_observer: detach, attach_observer: autosize })
    }

    /// Size notifications from the resize observer; returns whether to ask
    /// for a redraw now.
    pub fn on_resize(&mut self, sizes: &Vec<(i32, i32)>, visible: bool) -> (r: bool)
        requires
            old(self)@.wf(),
        ensures
            final(self)@.wf(),
            final(self)@ == (ControllerView { resize: old(self)@.resize.run(sizes@, visible).0, ..old(self)@ }),
            r == (old(self)@.resize.run(sizes@, visible).1 > 0),
    {
        self.resize.on_resize(sizes, visible)
    }

    /// A redraw asked for by auto-size finished; returns whether to ask for
    /// another.
    pub fn on_redraw_complete(&mut self) -> (r: bool)
        requires
            old(self)@.wf(),
        ensures
            final(self)@.wf(),
            final(self)@ == (ControllerView { resize: old(self)@.resize.redraw_done().0, ..old(self)@ }),
            r == old(self)@.resize.redraw_done().1,
    {
        self.resize.on_redraw_complete()
    }

    /// Opens or closes the settings panel: to `force` when given, to the
    /// other state otherwise. Returns the new state.
    pub fn toggle_config(&mut self, force: Option<bool>) -> (r: Result<bool, ViewerError>)
        ensures
            old(self)@.deleted ==> r == Err::<bool, ViewerError>(ViewerError::AlreadyDeleted) && final(self)@ == old(self)@,
            !old(self)@.deleted ==> ({
                let open = match force {
                    Some(b) => b,
                    None => !old(self)@.config.settings,
                };
                &&& r == Ok::<bool, ViewerError>(open)
                &&& final(self)@ == (ControllerView { config: ViewerConfigView { settings: open, ..old(self)@.config }, ..old(self)@ })
            }),
    {
        if self.deleted {
            return Err(ViewerError::AlreadyDeleted);
        }
        let open = match force {
            Some(b) => b,
            None => !self.config.settings,
        };
        self.config.settings = open;
        Ok(open)
    }

    /// Deletes the viewer, while `ticket` holds the draw lock so that no draw
    /// is in flight. Returns every teardown step for the host to run, each
    /// independently of how the others went; a second delete fails with
    /// `AlreadyDeleted`.
    pub fn delete(&mut self, ticket: u64) -> (r: Result<Vec<TeardownStep>, ViewerError>)
        requires
            old(self)@.wf(),
            old(self)@.lock.holder == Some(ticket),
        ensures
            final(self)@.wf(),
            final(self)@ == delete_spec(old(self)@).0,
            delete_spec(old(self)@).1 is None ==> r is Err && r->Err_0 == ViewerError::AlreadyDeleted,
            delete_spec(old(self)@).1 matches Some(steps) ==> (r matches Ok(v) && v@ == steps),
    {
        if self.deleted {
            return Err(ViewerError::AlreadyDeleted);
        }
        let attached = self.resize.unsubscribe();
        self.deleted = true;
        let mut steps: Vec<TeardownStep> = Vec::new();
        if attached {
            steps.push(TeardownStep::DetachResizeObserver);
        }
        steps.push(TeardownStep::Renderer);
        steps.push(TeardownStep::Session);
        steps.push(TeardownStep::Root);
        proof {
            assert(steps@ =~= teardown_steps(attached));
        }
        Ok(steps)
    }
}

/// Whether `themes` lists the theme named `t`.
pub open spec fn has_theme(themes: Seq<String>, t: Seq<char>) -> bool {
    exists|i: int| 0 <= i < themes.len() && (#[trigger] themes[i])@ == t
}

/// The theme to keep after the list of available themes is replaced: the
/// current one if the new list still has it, the default otherwise.
pub fn reset_theme_choice(current: &Option<String>, themes: &Vec<String>) -> (r: Option<String>)
    ensures
        r.deep_view() == (match current.deep_view() {
            Some(t) => if has_theme(themes@, t) {
                Some(t)
            } else {
                None
            },
            None => None,
        }),
{
    match current {
        None => None,
        Some(t) => {
            let mut i: usize = 0;
            while i < themes.len()
                invariant
                    0 <= i <= themes@.len(),
                    forall|j: int| 0 <= j < i ==> (#[trigger] themes@[j])@ != t@,
                    (*current).deep_view() == Some(t@),
                decreases themes@.len() - i,
            {
                if themes[i] == *t {
                    let found = t.clone();
                    proof {
                        assert(themes@[i as int]@ == t@);
                    }
                    return Some(found);
                }
                i = i + 1;
            }
            None
        },
    }
}

/// Restoring a whole configuration and saving at once gives back that
/// configuration field for field, whatever the viewer held before; and
/// restoring what was just saved changes neither the theme nor the plugin.
pub proof fn lemma_restore_then_save(cur: ViewerConfigView, default_plugin: Seq<char>, c: ViewerConfigView)
    ensures
        restore_config(cur, default_plugin, full_update(c)) == c,
        theme_change(c.theme, full_update(c).theme) is None,
        plugin_target(c.plugin, default_plugin, full_update(c).plugin) == c.plugin,
{
    assert(apply_view_update(cur.view_config, full_update(c).view_config) == c.view_config);
}

/// Deleting twice: the first delete of a live viewer returns every teardown
/// step (renderer, session and root, whatever their outcome), the second
/// fails with nothing changed.
pub proof fn lemma_delete_twice(s: ControllerView)
    requires
        !s.deleted,
    ensures
        ({
            let (s1, first) = delete_spec(s);
            let (s2, second) = delete_spec(s1);
            &&& first matches Some(steps) && steps.contains(TeardownStep::Renderer)
                && steps.contains(TeardownStep::Session) && steps.contains(TeardownStep::Root)
            &&& second is None
            &&& s2 == s1
        }),
{
    let steps = teardown_steps(s.resize.armed);
    let k: int = if s.resize.armed { 1 } else { 0 };
    assert(steps[k] == TeardownStep::Renderer);
    assert(steps[k + 1] == TeardownStep::Session);
    assert(steps[k + 2] == TeardownStep::Root);
}

} // verus!
