//! A grazing simulation: hoppers roam a walled field, eat grass, grow and
//! multiply. This library holds the rules of the simulation as integer
//! models; drawing, timing and the random draws are left to the host.

pub mod belly;
pub mod feeding;
pub mod arena;
pub mod chart;
pub mod cadence;
