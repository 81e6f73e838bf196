//! The controller layer behind an embeddable data-visualization element.
//!
//! - `delta`: field-level rules for resolving overrides against defaults and
//!   reducing them back to their minimal form.
//! - `number_style`, `number_column_style`: a numeric column's style record
//!   and the editor state behind its controls.
//! - `string_column_style`: the same for a text column.
//! - `draw_lock`: the first-in first-out lock that serializes every
//!   state-mutating operation.
//! - `resize`: the coalescer between the host's size notifications and
//!   redraws.
//! - `viewer_config`, `viewer`: the persisted configuration and the
//!   controller that decides every command of the element.
pub mod delta;
pub mod draw_lock;
pub mod number_column_style;
pub mod number_style;
pub mod resize;
pub mod string_column_style;
pub mod viewer;
pub mod viewer_config;
