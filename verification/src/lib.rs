//! Addition and multiplication behind one capability, used in two ways:
//! through a trait object, where the operation is found when the call is
//! made, and through a type parameter, where it is fixed when the caller is
//! compiled.
//!
//! The library owns the operations' tokens and the shape of the line that
//! reports an equation. The arithmetic is the caller's, on its own number
//! type: operands and result reach the library as text that the caller has
//! rendered, and the line comes back as a `String` for the caller to print.

pub mod line;
pub mod operation;

pub use line::{dynamic_line, static_line};
pub use operation::{Add, Mul, Operation};
