//! Core of a real-time renderer: a tick-based task scheduler for the logic
//! thread, a command channel towards the render thread, the render thread's
//! geometry registry and per-frame state machine, and the pause/stop protocol
//! between the two threads.

pub mod geometry_id;
pub mod scheduler;
pub mod scheduler_laws;
pub mod channel;
pub mod registry;
pub mod command;
pub mod frame;
pub mod control;
pub mod fps_counter;
pub mod texture;
pub mod pressed_keys;
pub mod sg;
pub mod input;
pub mod core_loop;
