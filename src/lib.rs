//! Interface composition and delegation: from an interface declaration, the
//! augmented interface whose methods forward to a pluggable backing
//! implementation, the boundary entry points of a target type, and the
//! nesting of decorator chains that composition directives resolve to.

pub mod model;
pub mod signature;
pub mod synth;
pub mod chain;
pub mod dispatch;
pub mod directive;
pub mod example;
