//! Scene construction for a rotating-mirror volumetric display emulator: the
//! four-color pyramid test volume, the per-angle scene cache, the view transform
//! plan and the drawing plan of a frame, each with its proved contract.

pub mod cache;
pub mod frame;
pub mod geometry;
pub mod projection;
pub mod surface;
