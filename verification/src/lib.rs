//! Host-side arithmetic of a pseudo-spectral vorticity solver on a periodic
//! square grid: buffer sizes, the layout of discrete wave numbers, the packing
//! of a coloured field into raw video frames, and the order in which the
//! device steps of one time step are issued.

pub mod encoder;
pub mod frame;
pub mod grid;
pub mod schedule;
pub mod spectrum;
