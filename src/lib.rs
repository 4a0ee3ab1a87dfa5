//! Static soundness checks for a declarative description of tasks, the
//! resources they share, and the interrupts that dispatch them.

pub mod model;
pub mod diagnostic;
pub mod check;
pub mod laws;
pub mod samples;
