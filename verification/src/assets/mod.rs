//! Asset handles, the per-type asset container and the image data types.
pub mod handle;
pub mod slots;
pub mod storage;
pub mod texture;
pub mod terrain;
pub mod heightmap;
