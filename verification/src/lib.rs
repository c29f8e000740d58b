//! Verified core of a minimal real-time rendering loop: vertex attribute
//! layouts, the GPU command plans of a geometry buffer, the per-frame
//! operation sequence and the loop's two-state machine.

pub mod command;
pub mod frame;
pub mod input;
pub mod layout;
pub mod pacing;
pub mod render_loop;
pub mod vertex;
