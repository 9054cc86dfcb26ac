//! Verified core of a framebuffer GUI presenter: pixel formats and blitting,
//! refresh pacing, rasterizer bookkeeping and log-line formatting.
pub mod bench;
pub mod color;
pub mod coverage;
pub mod fan;
pub mod fan_probe;
pub mod fbdev;
pub mod mesh;
pub mod offenders;
pub mod pacing;
pub mod primitive_stats;
pub mod ranked_offenders;
pub mod raster;
pub mod raster_stats;
pub mod renderer_stats;
pub mod text;
