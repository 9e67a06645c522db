//! Interactive core of a 3D scene editor: the active-selection state machine
//! with its event router and highlight-extent resolver, and the orbit / pan /
//! zoom camera rig.
//!
//! Geometry (transforms, vectors, meshes) belongs to the host engine. The
//! library is generic over those values and decides what happens to them; the
//! one scalar it owns, the orbit radius, is held in fixed point.

pub mod extent;
pub mod selection;
pub mod camera;
pub mod ui;
