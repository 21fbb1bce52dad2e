//! Startup logic of a desktop shell that hosts a local web server in a native
//! window: where the bundled server lives, how it is launched, how long the
//! shell waits for it, and what the window is told once the wait is over.
//!
//! The crate holds decisions only. Spawning, connecting, sleeping and window
//! handling are done by the host program, which reports each result back as an
//! event and receives the next action in return.

pub mod bootstrapper;
pub mod endpoint;
pub mod launch;
pub mod opener;
pub mod runs;
pub mod text;
