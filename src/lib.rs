//! A precision-adapting module wrapper: a module whose parameters are kept at a
//! backend's full-precision counterpart is presented to traversals, device
//! placement and serialization as if it were native to the backend itself.

pub mod tensor;
pub mod bridge;
pub mod traversal;
pub mod module;
pub mod adaptor;
pub mod laws;
pub mod logging;
