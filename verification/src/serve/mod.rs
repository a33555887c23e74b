//! What a controlling application can ask of a running installation.

pub mod req;

pub use req::{Request, Spec};
