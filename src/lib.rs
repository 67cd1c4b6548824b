//! A staged, event-driven frame loop for a small 2D game: a fixed sequence of
//! stages, systems registered into them by plugins, and a world of resources,
//! entities and event queues that the systems share during a frame.
pub mod stage;
pub mod event;
pub mod world;
pub mod system;
pub mod game;
pub mod plugins;
pub mod laws;
