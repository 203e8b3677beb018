//! Discrete core of a replay solver for a two-mode rhythm platformer.
//!
//! - `catalog`: object ids to categories and hitbox sizes; what touching a
//!   category does.
//! - `level`: level data decoding and the split into object records.
//! - `object`: the properties that an object is built from.
//! - `spatial_grid`: a uniform cell index of objects' cell rectangles.
//! - `state`: modes, actions, the press automaton, tick costs and the
//!   closed-set state key.
//! - `closed`, `open_set`, `path`: the search's closed set, its priority
//!   queue, and the arena of node links with path reconstruction.
//! - `session`: the bookkeeping of one search over those parts.
//!
//! Physics and collision run on floating point and live in the application.

pub mod catalog;
pub mod closed;
pub mod level;
pub mod object;
pub mod open_set;
pub mod path;
pub mod session;
pub mod spatial_grid;
pub mod state;
