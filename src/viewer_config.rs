//! The viewer's persisted configuration: the effective record that `save`
//! reads back, the partial update that `restore` applies, and the wire
//! encodings a saved record may take.
use vstd::prelude::*;

use crate::delta::copy_opt_string;

verus! {

/// A three-way override: keep the current value, reset it to its default, or
/// set it.
#[derive(Clone, Debug, PartialEq, Eq)]
pub enum OptionalUpdate<T> {
    SetDefault,
    Missing,
    Update(T),
}

/// One filter clause: a column, a comparison operator and an operand.
#[derive(Clone, Debug)]
pub struct Filter {
    pub column: String,
    pub op: String,
    pub value: String,
}

/// One sort clause: a column and a direction (`asc`, `desc`, ...).
#[derive(Clone, Debug)]
pub struct Sort {
    pub column: String,
    pub direction: String,
}

/// The aggregate function applied to a column.
#[derive(Clone, Debug)]
pub struct Aggregate {
    pub column: String,
    pub method: String,
}

/// The query behind the view: which columns are shown, how rows are grouped,
/// split, filtered and sorted, the computed expressions and the aggregates.
#[derive(Clone, Debug)]
pub struct ViewConfig {
    pub group_by: Vec<String>,
    pub split_by: Vec<String>,
    pub columns: Vec<String>,
    pub filter: Vec<Filter>,
    pub sort: Vec<Sort>,
    pub expressions: Vec<String>,
    pub aggregates: Vec<Aggregate>,
}

/// A partial view query: an absent field keeps its current value.
#[derive(Clone, Debug)]
pub struct ViewConfigUpdate {
    pub group_by: Option<Vec<String>>,
    pub split_by: Option<Vec<String>>,
    pub columns: Option<Vec<String>>,
    pub filter: Option<Vec<Filter>>,
    pub sort: Option<Vec<Sort>>,
    pub expressions: Option<Vec<String>>,
    pub aggregates: Option<Vec<Aggregate>>,
}

/// The effective configuration of a viewer, as `save` reports it. `theme` is
/// `None` for the default theme; `plugin_config` is the active plugin's own
/// configuration text, empty when it has none.
#[derive(Clone, Debug)]
pub struct ViewerConfig {
    pub plugin: String,
    pub plugin_config: String,
    pub settings: bool,
    pub theme: Option<String>,
    pub view_config: ViewConfig,
}

/// A full or partial configuration for `restore`.
#[derive(Clone, Debug)]
pub struct ViewerConfigUpdate {
    pub plugin: OptionalUpdate<String>,
    pub plugin_config: Option<String>,
    pub settings: OptionalUpdate<bool>,
    pub theme: OptionalUpdate<String>,
    pub view_config: ViewConfigUpdate,
}

pub ghost struct ViewConfigView {
    pub group_by: Seq<String>,
    pub split_by: Seq<String>,
    pub columns: Seq<String>,
    pub filter: Seq<Filter>,
    pub sort: Seq<Sort>,
    pub expressions: Seq<String>,
    pub aggregates: Seq<Aggregate>,
}

pub ghost struct ViewConfigUpdateView {
    pub group_by: Option<Seq<String>>,
    pub split_by: Option<Seq<String>>,
    pub columns: Option<Seq<String>>,
    pub filter: Option<Seq<Filter>>,
    pub sort: Option<Seq<Sort>>,
    pub expressions: Option<Seq<String>>,
    pub aggregates: Option<Seq<Aggregate>>,
}

pub ghost struct ViewerConfigView {
    pub plugin: Seq<char>,
    pub plugin_config: Seq<char>,
    pub settings: bool,
    pub theme: Option<Seq<char>>,
    pub view_config: ViewConfigView,
}

pub ghost struct ViewerConfigUpdateView {
    pub plugin: OptionalUpdate<Seq<char>>,
    pub plugin_config: Option<Seq<char>>,
    pub settings: OptionalUpdate<bool>,
    pub theme: OptionalUpdate<Seq<char>>,
    pub view_config: ViewConfigUpdateView,
}

pub open spec fn vec_view<T>(v: Option<Vec<T>>) -> Option<Seq<T>> {
    match v {
        Some(x) => Some(x@),
        None => None,
    }
}

pub open spec fn string_update_view(u: OptionalUpdate<String>) -> OptionalUpdate<Seq<char>> {
    match u {
        OptionalUpdate::SetDefault => OptionalUpdate::SetDefault,
        OptionalUpdate::Missing => OptionalUpdate::Missing,
        OptionalUpdate::Update(s) => OptionalUpdate::Update(s@),
    }
}

impl View for ViewConfig {
    type V = ViewConfigView;

    open spec fn view(&self) -> ViewConfigView {
        ViewConfigView {
            group_by: self.group_by@,
            split_by: self.split_by@,
            columns: self.columns@,
            filter: self.filter@,
            sort: self.sort@,
            expressions: self.expressions@,
            aggregates: self.aggregates@,
        }
    }
}

impl View for ViewConfigUpdate {
    type V = ViewConfigUpdateView;

    open spec fn view(&self) -> ViewConfigUpdateView {
        ViewConfigUpdateView {
            group_by: vec_view(self.group_by),
            split_by: vec_view(self.split_by),
            columns: vec_view(self.columns),
            filter: vec_view(self.filter),
            sort: vec_view(self.sort),
            expressions: vec_view(self.expressions),
            aggregates: vec_view(self.aggregates),
        }
    }
}

impl View for ViewerConfig {
    type V = ViewerConfigView;

    open spec fn view(&self) -> ViewerConfigView {
        ViewerConfigView {
            plugin: self.plugin@,
            plugin_config: self.plugin_config@,
            settings: self.settings,
            theme: self.theme.deep_view(),
            view_config: self.view_config@,
        }
    }
}

impl View for ViewerConfigUpdate {
    type V = ViewerConfigUpdateView;

    open spec fn view(&self) -> ViewerConfigUpdateView {
        ViewerConfigUpdateView {
            plugin: string_update_view(self.plugin),
            plugin_config: self.plugin_config.deep_view(),
            settings: self.settings,
            theme: string_update_view(self.theme),
            view_config: self.view_config@,
        }
    }
}

/// An absent field of the update keeps the current value.
pub open spec fn keep_or<T>(u: Option<T>, cur: T) -> T {
    match u {
        Some(v) => v,
        None => cur,
    }
}

/// The view query after a partial update.
pub open spec fn apply_view_update(cur: ViewConfigView, u: ViewConfigUpdateView) -> ViewConfigView {
    ViewConfigView {
        group_by: keep_or(u.group_by, cur.group_by),
        split_by: keep_or(u.split_by, cur.split_by),
        columns: keep_or(u.columns, cur.columns),
        filter: keep_or(u.filter, cur.filter),
        sort: keep_or(u.sort, cur.sort),
        expressions: keep_or(u.expressions, cur.expressions),
        aggregates: keep_or(u.aggregates, cur.aggregates),
    }
}

/// The update that sets every field of the view query to `c`.
pub open spec fn full_view_update(c: ViewConfigView) -> ViewConfigUpdateView {
    ViewConfigUpdateView {
        group_by: Some(c.group_by),
        split_by: Some(c.split_by),
        columns: Some(c.columns),
        filter: Some(c.filter),
        sort: Some(c.sort),
        expressions: Some(c.expressions),
        aggregates: Some(c.aggregates),
    }
}

/// The update that restores the whole configuration `c`.
pub open spec fn full_update(c: ViewerConfigView) -> ViewerConfigUpdateView {
    ViewerConfigUpdateView {
        plugin: OptionalUpdate::Update(c.plugin),
        plugin_config: Some(c.plugin_config),
        settings: OptionalUpdate::Update(c.settings),
        theme: match c.theme {
            Some(t) => OptionalUpdate::Update(t),
            None => OptionalUpdate::SetDefault,
        },
        view_config: full_view_update(c.view_config),
    }
}

pub fn copy_strings(v: &Vec<String>) -> (r: Vec<String>)
    ensures
        r@ == v@,
{
    let mut r: Vec<String> = Vec::new();
    let mut i: usize = 0;
    while i < v.len()
        invariant
            0 <= i <= v@.len(),
            r@ == v@.subrange(0, i as int),
        decreases v@.len() - i,
    {
        r.push(v[i].clone());
        proof {
            assert(r@ =~= v@.subrange(0, i as int + 1));
        }
        i = i + 1;
    }
    proof {
        assert(v@.subrange(0, v@.len() as int) =~= v@);
    }
    r
}

pub fn copy_filters(v: &Vec<Filter>) -> (r: Vec<Filter>)
    ensures
        r@ == v@,
{
    let mut r: Vec<Filter> = Vec::new();
    let mut i: usize = 0;
    while i < v.len()
        invariant
            0 <= i <= v@.len(),
            r@ == v@.subrange(0, i as int),
        decreases v@.len() - i,
    {
        let f = &v[i];
        r.push(Filter { column: f.column.clone(), op: f.op.clone(), value: f.value.clone() });
        proof {
            assert(r@ =~= v@.subrange(0, i as int + 1));
        }
        i = i + 1;
    }
    proof {
        assert(v@.subrange(0, v@.len() as int) =~= v@);
    }
    r
}

pub fn copy_sorts(v: &Vec<Sort>) -> (r: Vec<Sort>)
    ensures
        r@ == v@,
{
    let mut r: Vec<Sort> = Vec::new();
    let mut i: usize = 0;
    while i < v.len()
        invariant
            0 <= i <= v@.len(),
            r@ == v@.subrange(0, i as int),
        decreases v@.len() - i,
    {
        let s = &v[i];
        r.push(Sort { column: s.column.clone(), direction: s.direction.clone() });
        proof {
            assert(r@ =~= v@.subrange(0, i as int + 1));
        }
        i = i + 1;
    }
    proof {
        assert(v@.subrange(0, v@.len() as int) =~= v@);
    }
    r
}

pub fn copy_aggregates(v: &Vec<Aggregate>) -> (r: Vec<Aggregate>)
    ensures
        r@ == v@,
{
    let mut r: Vec<Aggregate> = Vec::new();
    let mut i: usize = 0;
    while i < v.len()
        invariant
            0 <= i <= v@.len(),
            r@ == v@.subrange(0, i as int),
        decreases v@.len() - i,
    {
        let a = &v[i];
        r.push(Aggregate { column: a.column.clone(), method: a.method.clone() });
        proof {
            assert(r@ =~= v@.subrange(0, i as int + 1));
        }
        i = i + 1;
    }
    proof {
        assert(v@.subrange(0, v@.len() as int) =~= v@);
    }
    r
}

impl ViewConfig {
    pub open spec fn empty_spec() -> ViewConfigView {
        ViewConfigView {
            group_by: Seq::empty(),
            split_by: Seq::empty(),
            columns: Seq::empty(),
            filter: Seq::empty(),
            sort: Seq::empty(),
            expressions: Seq::empty(),
            aggregates: Seq::empty(),
        }
    }

    /// The empty query: every column of the table, ungrouped and unsorted.
    pub fn empty() -> (r: ViewConfig)
        ensures
            r@ == ViewConfig::empty_spec(),
    {
        let r = ViewConfig {
            group_by: Vec::new(),
            split_by: Vec::new(),
            columns: Vec::new(),
            filter: Vec::new(),
            sort: Vec::new(),
            expressions: Vec::new(),
            aggregates: Vec::new(),
        };
        proof {
            assert(r@ =~= ViewConfig::empty_spec());
        }
        r
    }

    /// A copy with the same contents.
    pub fn copy(&self) -> (r: ViewConfig)
        ensures
            r@ == self@,
    {
        ViewConfig {
            group_by: copy_strings(&self.group_by),
            split_by: copy_strings(&self.split_by),
            columns: copy_strings(&self.columns),
            filter: copy_filters(&self.filter),
            sort: copy_sorts(&self.sort),
            expressions: copy_strings(&self.expressions),
            aggregates: copy_aggregates(&self.aggregates),
        }
    }

    /// Applies a partial update in place: each field present in `update`
    /// replaces the current one.
    pub fn apply(&mut self, update: ViewConfigUpdate)
        ensures
            final(self)@ == apply_view_update(old(self)@, update@),
    {
        if let Some(v) = update.group_by {
            self.group_by = v;
        }
        if let Some(v) = update.split_by {
            self.split_by = v;
        }
        if let Some(v) = update.columns {
            self.columns = v;
        }
        if let Some(v) = update.filter {
            self.filter = v;
        }
        if let Some(v) = update.sort {
            self.sort = v;
        }
        if let Some(v) = update.expressions {
            self.expressions = v;
        }
        if let Some(v) = update.aggregates {
            self.aggregates = v;
        }
    }
}

impl ViewerConfig {
    /// A copy with the same contents.
    pub fn copy(&self) -> (r: ViewerConfig)
        ensures
            r@ == self@,
    {
        ViewerConfig {
            plugin: self.plugin.clone(),
            plugin_config: self.plugin_config.clone(),
            settings: self.settings,
            theme: copy_opt_string(&self.theme),
            view_config: self.view_config.copy(),
        }
    }
}

/// The wire forms a saved configuration may take.
#[derive(Clone, Copy, Debug, PartialEq, Eq, Structural)]
pub enum ViewerConfigEncoding {
    Json,
    String,
    ArrayBuffer,
}

/// The encoding a format name asks for: `json`, `string` or `arraybuffer`;
/// no name means `json`.
pub open spec fn encoding_spec(format: Option<Seq<char>>) -> Option<ViewerConfigEncoding> {
    match format {
        None => Some(ViewerConfigEncoding::Json),
        Some(f) => if f == "json"@ {
            Some(ViewerConfigEncoding::Json)
        } else if f == "string"@ {
            Some(ViewerConfigEncoding::String)
        } else if f == "arraybuffer"@ {
            Some(ViewerConfigEncoding::ArrayBuffer)
        } else {
            None
        },
    }
}

/// Reads a format name; an unknown one is a decode error, reported with the
/// name itself.
pub fn parse_encoding(format: &Option<String>) -> (r: Result<ViewerConfigEncoding, String>)
    ensures
        encoding_spec(format.deep_view()) matches Some(e) ==> r == Ok::<ViewerConfigEncoding, String>(e),
        encoding_spec(format.deep_view()) is None ==> (r matches Err(m) && Some(m@) == format.deep_view()),
{
    match format {
        None => Ok(ViewerConfigEncoding::Json),
        Some(f) => {
            if *f == String::from_str("json") {
                Ok(ViewerConfigEncoding::Json)
            } else if *f == String::from_str("string") {
                Ok(ViewerConfigEncoding::String)
            } else if *f == String::from_str("arraybuffer") {
                Ok(ViewerConfigEncoding::ArrayBuffer)
            } else {
                Err(f.clone())
            }
        },
    }
}

} // verus!
