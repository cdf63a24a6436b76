//! A table-driven rule that flags calls to intrinsics which have a stabilized
//! replacement in the standard library.
//!
//! The rule has two parts. [`table`] holds the fixed mapping from an
//! intrinsic's bare name to the guidance that names its replacement.
//! [`matcher`] decides, for one call expression, whether its resolved callee
//! is a listed member of the `intrinsics` namespace, and builds the diagnostic.

pub mod matcher;
pub mod table;
pub mod text;
