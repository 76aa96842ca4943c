//! The core of a game engine's resource loading: a layered, read-only
//! virtual file system that presents an ordered list of content providers as
//! one namespace, and the canonical form of the legacy paths that name
//! resources in it. Beside it stand the small computations of the program's
//! start and of its frame loop.

pub mod driver;
pub mod error;
pub mod fs;
pub mod launch;
pub mod path;
pub mod sequence;
pub mod text;
pub mod timer;
