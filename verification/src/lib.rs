//! A parametric generator for the printable parts of a tricopter frame.
//!
//! Builders turn named dimensions into trees of geometric operations:
//! primitive shapes, boolean combinations, rigid transforms, extrusions and
//! outline offsets. The trees are plain values; evaluating them into solids
//! is left to a renderer.
//!
//! All dimensions are whole numbers: lengths in tenths of a micrometre,
//! angles in thousandths of a degree (see [`units`]).
//!
//! - [`geometry`] holds the tree and its mathematical view, [`solid`] what a
//!   tree covers, whatever the renderer.
//! - [`placement`] places copies of an object by a pattern, [`walls`] builds
//!   walls of even thickness, [`plates`] assembles parts and clips them to
//!   the print envelope.
//! - [`body`], [`fasteners`], [`canopy`] and [`side_plate`] build the frame;
//!   [`boards`] and [`servo`] build what is mounted on it.
//! - [`params`] resolves and checks parameter sets, [`declarations`] lists
//!   the parameters of each component.
//! - [`scene`] collects the parts of one run and frames the history log.

pub mod boards;
pub mod body;
pub mod canopy;
pub mod declarations;
pub mod fasteners;
pub mod geometry;
pub mod params;
pub mod placement;
pub mod plates;
pub mod scene;
pub mod servo;
pub mod side_plate;
pub mod solid;
pub mod units;
pub mod walls;
