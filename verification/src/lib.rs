//! Node-side upgrade controller: reconciles the local checkpoint with the
//! versioned cluster registry and decides, step by step, whether the node
//! joins a subnet, leaves it, keeps its replica version or switches to another.

pub mod instructions;
pub mod types;
pub mod registry;
pub mod subnet;
pub mod release;
pub mod upgrade;
pub mod guarantees;
