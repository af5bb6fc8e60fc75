//! Commonly used items.

pub use crate::coordinate::axial::Axial;
pub use crate::coordinate::cube::Cube;
pub use crate::coordinate::double::Double;
pub use crate::coordinate::offset::Offset;
pub use crate::coordinate::{CoordError, CoordResult, CoordSys, MultiCoord};
pub use crate::hexgrid::{Compass, GridError, HexGrid, Parity, Tilt};
