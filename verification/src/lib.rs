//! The core of a chat client for a platform with a REST interface and a
//! realtime hub: the session with the platform, the caches that the
//! interface reads, the backend that carries the interface's commands out
//! one at a time, and the bridge that takes the backend's events into the
//! state of the interface.
//!
//! Nothing here touches the network. The backend says what is to be sent
//! (`backend::Action`) and is told what came back (`backend::Event`); the
//! program around the library does the sending.

pub mod api;
pub mod backend;
pub mod bridge;
pub mod cache;
pub mod client;
pub mod digest;
pub mod hub;
pub mod picture;
pub mod presence;
pub mod store;
pub mod tags;
pub mod text;
pub mod time;
