//! Exact rational arithmetic on a bounded signed integer domain, and a
//! stepped ballistic drift simulator built on top of it, for an optical
//! sight that must run without floating point or heap allocation.

pub mod arith;
pub mod ballistic_calculator;
pub mod encoder;
pub mod formatting;
pub mod fraction;
pub mod fraction_laws;
pub mod physics;
pub mod settings;
pub mod sight;
