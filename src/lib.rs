//! Pre-flight checks and build planning for a single-cell quantification
//! workflow that drives three external tools.

pub mod text;
pub mod version;
pub mod preflight;
pub mod plan;
