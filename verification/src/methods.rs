//! The builtin method registry: named function tables that calls dispatch
//! into, in a fixed precedence order.

pub mod alias;
pub mod array;
pub mod cores;
pub mod math;
pub mod string;
