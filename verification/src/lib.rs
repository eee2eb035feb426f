//! Painting a raster image onto an IPv6 pixel canvas.
//!
//! Every pixel becomes one ICMPv6 Echo Request whose destination address
//! carries the pixel's coordinates and colour in its low 64 bits.

pub mod address;
pub mod checksum;
pub mod clock;
pub mod config;
pub mod hue;
pub mod packet;
pub mod raster;
pub mod source;
pub mod stats;
pub mod transmit;
