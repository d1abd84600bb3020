//! Client-side checking of certified HTTP assets, and the static asset
//! table that serves them.

pub mod assets;
pub mod bindings;
pub mod certification;
pub mod laws;
