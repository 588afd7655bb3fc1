//! Safe, verified core of a translation layer over a native 3D-asset
//! importer: owned value types for colors, vectors, matrices and bounding
//! boxes, a pair of conversion traits, generic extraction routines that turn
//! already-bounded native data into owned collections, and the error type
//! shared by every consumer of the scene graph.

pub mod convert;
pub mod errors;
pub mod types;
pub mod utils;

pub use convert::ConvertFrom;
pub use convert::ConvertInto;
pub use errors::RussimpError;
pub use errors::Russult;
pub use types::AABB;
pub use types::Color3D;
pub use types::Color4D;
pub use types::Vector2D;
