//! A virtualization and interaction engine for a scrollable two-dimensional
//! grid: it decides which rows and columns are on screen, where each visible
//! cell lies, and how drags on the headers resize or reorder an axis.
//!
//! The engine draws nothing and reads no input. A host tells it where the
//! table is and what the pointer did, and draws what the engine lays out.
//!
//! All lengths are whole layout units. A cell size is a `u32`, the padding
//! around a cell and the grab radius of a resize handle are `u16`, what the
//! host measures on the screen is an `i64`, and every coordinate that the
//! engine computes is an `i128`: wide enough for the sum of all cell sizes of
//! an axis of any length, so that no layout can overflow.
//!
//! The modules, leaves first:
//!
//! - [`index`]: cell addresses, table dimensions, actions, kinds of cells;
//! - [`geometry`]: points, stretches and rectangles;
//! - [`ordering`]: the permutation of an axis and `apply_reordering`;
//! - [`sizing`]: the parameters of rows and columns and the store of sizes;
//! - [`axis`]: the model of an axis that the contracts speak of;
//! - [`window`]: the windower, which finds the position under an offset;
//! - [`drag`]: the resize and reorder drag controllers;
//! - [`track`], [`plan`], [`grid`], [`frame`], [`content`]: the layout walker,
//!   from one axis to the cells of a frame;
//! - [`source`]: what a data source has to offer;
//! - [`table`]: the table, its state, and the steps of a frame.

pub mod axis;
pub mod content;
pub mod drag;
pub mod frame;
pub mod geometry;
pub mod grid;
pub mod index;
pub mod ordering;
pub mod plan;
pub mod sizing;
pub mod source;
pub mod table;
pub mod track;
pub mod window;

pub use index::{Action, CellIndex, TableDimensions};
pub use ordering::apply_reordering;
pub use sizing::AxisParameters;
pub use source::{DeferredTableDataSource, SimpleTupleRenderer};
pub use table::DeferredTable;
