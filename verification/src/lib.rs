//! Pointer input for GUI panels placed in 3D space.
//!
//! A panel is a flat rectangle somewhere in a 3D scene, with a GUI drawn on
//! it. Mice, tracked hands and tracked controllers point at it. This library
//! decides, frame by frame, which of them drive a panel (`capture`), where on
//! the panel each points (`surface`), and which pointer events the GUI of the
//! panel gets: moves, presses, releases and scroll (`window`). It keeps the
//! last state of each source (`table`) so that a button gives one press and
//! one release however long it is held, and so that a source that vanishes
//! with the button down is released.
//!
//! Nothing here is a float. Lengths are whole nanometres, texture coordinates
//! whole millionths, everything else whole thousandths.

pub mod capture;
pub mod events;
pub mod forward;
pub mod frame_laws;
pub mod geometry;
pub mod source;
pub mod spawn;
pub mod surface;
pub mod table;
pub mod window;
pub mod window_mesh;

pub use spawn::SpawnSpatialEguiWindowCommand;
pub use surface::SpatialEguiWindowPhysicalSize;
