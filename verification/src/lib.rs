//! Escape-time fractal kernels: a palette/configuration provider for a
//! Mandelbulb renderer and the integer core of a 2D Mandelbrot rasterizer.

pub mod palette;
pub mod raster;
