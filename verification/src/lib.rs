//! Performance of an idealized single-spool turbojet.
//!
//! One evaluation takes six numbers (compressor pressure ratio, turbine inlet
//! temperature, the efficiencies of compressor, turbine and nozzle, and the
//! combustor pressure ratio) through inlet, compressor, combustor, turbine and
//! nozzle, and gives exhaust velocity and specific thrust, or the error of the
//! first validity gate that refuses.
//!
//! Numbers are IEEE 754 binary64, held by their encodings (`binary64`).  The
//! gates decide on the encodings, proved against the numbers they denote.  The
//! arithmetic between the gates is asked of a function that the caller hands
//! in (`arithmetic`); each quantity is proved to be a value of its formula
//! (`formulas`) under that function, whatever it answers.

pub mod arithmetic;
pub mod binary64;
pub mod constants;
pub mod cycle;
pub mod error;
pub mod formulas;
pub mod gates;

pub use crate::arithmetic::Operation;
pub use crate::binary64::Binary64;
pub use crate::cycle::evaluate_performance;
pub use crate::error::CycleError;
