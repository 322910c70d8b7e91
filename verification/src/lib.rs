//! A verified model of a small tower scene: a camera, a ground plane, a
//! light, and a tower that periodically fires short-lived bullets.
//!
//! The scene state lives in [`scene::World`]; time advances one frame at a
//! time through [`frame::tick_frame`], which runs the tower firing system and
//! the bullet lifetime system and applies their spawns and removals at the
//! end of the frame. The laws module states and proves the global properties
//! of the simulation: firing cadence, bullet expiry, stuttering frames, and
//! the independence of the two per-frame systems.

pub mod frame;
pub mod laws;
pub mod scene;
pub mod timer;
