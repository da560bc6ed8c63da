//! A stateful table for terminal user interfaces, with the key map that
//! drives it.
//!
//! Rows are shown through the [`tabular::Tabular`] capability. A
//! [`stateful_table::StatefulTable`] draws each row once, measures the columns
//! by their content, keeps a cursor over rows and columns, sorts stably by the
//! selected column, and finds the row or column under the pointer. Beside it
//! stand the rules of the status line, of the dock and of the stack of views.
//!
//! Terminal types do not appear here, but for styles and frames, which are
//! carried to the renderer as they are. Events, rectangles and constraints are
//! plain values of this crate.

pub mod columns;
pub mod display;
pub mod dock;
pub mod event;
pub mod geometry;
pub mod indexed_row;
pub mod keymap;
pub mod laws;
pub mod selection;
pub mod sorting;
pub mod stateful_table;
pub mod status_line;
pub mod table_keymap;
pub mod table_style;
pub mod tabular;
pub mod text;
pub mod view_stack;
