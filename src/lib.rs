//! Block resource admission control: per-class weight and length budgets,
//! the validate / pre-dispatch / post-dispatch protocol, and priorities.

pub mod dispatch;
pub mod consumed;
pub mod limits;
pub mod priority;
pub mod check;
pub mod laws;
