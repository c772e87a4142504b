//! Orientation algebra of an axis-aligned cube.
//!
//! The library knows the six face normals of a cube ([`Direction`]), the
//! eight reflections across its coordinate axes ([`Flip`]), its 24
//! rotations ([`Rotation`]) and the 192 combinations of a rotation with a
//! reflection ([`Orientation`]), each of which fits into one byte. It
//! composes and inverts them, turns and reflects points, and says how the
//! UV plane of a face is carried along when the cube is reoriented
//! ([`orient_table`]).
//!
//! # Packed values
//!
//! | value | byte | layout |
//! |---|---|---|
//! | `Direction` | 0 to 5 | `PosY`, `PosX`, `PosZ`, `NegY`, `NegX`, `NegZ` |
//! | `Flip` | 0 to 7 | bit 0 is X, bit 1 is Y, bit 2 is Z |
//! | `Rotation` | 0 to 23 | bits 0 and 1 are the angle, the bits above the up direction |
//! | `Orientation` | 0 to 191 | bits 0 to 2 are the flip, the bits above the rotation |
//!
//! # What is proved
//!
//! Every function states what it returns, and none of them can fail at run
//! time. The tables that answer the queries on rotations are checked
//! against one description of a turned cube ([`frame`]). Beyond that the
//! library proves what holds between its functions:
//!
//! - flips form a commutative group in which every element undoes itself
//!   ([`flip`]);
//! - rotations and orientations compose as the maps of faces that they
//!   are, `source_face` undoes `reface`, `deorient` undoes `reorient`,
//!   and the inverse undoes the orientation ([`rotation_laws`],
//!   [`orientation_laws`]);
//! - quarter turns about a face close after four applications and thirds
//!   of a turn about a corner after three ([`rotation_laws`]);
//! - the four orientations that stand for one symmetry of the cube have
//!   one canonical value ([`orientation_laws`]);
//! - both ways to step through the orientations visit all 192
//!   ([`orientation_laws`]);
//! - the two UV maps of an orientation and a face undo each other, and
//!   they say where the points of the face go when the cube is
//!   reoriented ([`orient_table`]).

pub mod axis;
pub mod cardinal;
pub mod coord;
pub mod direction;
pub mod faces;
pub mod flip;
pub mod frame;
pub mod orient_table;
pub mod orientation;
pub mod orientation_laws;
pub mod packing;
pub mod polarity;
pub mod rotation;
pub mod rotation_laws;

pub use axis::Axis;
pub use cardinal::Cardinal;
pub use direction::Direction;
pub use faces::Faces;
pub use flip::Flip;
pub use orientation::Orientation;
pub use packing::{pack_flip_and_rotation, unpack_flip_and_rotation, wrap_angle};
pub use polarity::Pol;
pub use rotation::Rotation;
