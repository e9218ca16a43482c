//! The names that most callers need.

pub use crate::export::ErrorCode;
pub use crate::gltf::GLTF;
pub use crate::node::Node;
pub use crate::scene::Scene;
