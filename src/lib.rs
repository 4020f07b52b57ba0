pub mod camera;
pub mod color;
pub mod raster;
