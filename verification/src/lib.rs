//! Extraction of still-frame thumbnails from video at requested timestamps.
//!
//! The core pipeline demultiplexes a container, decodes video packets,
//! locates the frame whose presentation time reaches a requested offset,
//! rescales it to an RGB raster, and encodes the result as a JPEG.
//! The demuxer/decoder capability is driven by the host; its observations
//! enter the library as plain data, and everything the library decides or
//! computes about them is verified.

pub mod errors;
pub mod timebase;
pub mod raster;
pub mod locator;
pub mod convert;
pub mod encode;
pub mod pipeline;
pub mod dataurl;
