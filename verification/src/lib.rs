pub mod arguments;
pub mod backend;
pub mod bridge;
pub mod error;
pub mod laws;
pub mod model;
pub mod runtime;
pub mod text;

pub use crate::backend::Backend;
pub use crate::bridge::MatplotlibNative;
pub use crate::error::{BridgeError, Cause};
