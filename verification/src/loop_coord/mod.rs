//! Loop context coordinator: sessions, their storage locations, tick
//! decisions and the signals handed back to the agent.

pub mod artifact;
pub mod config;
pub mod session;
pub mod signals;
pub mod tick;
pub mod watch;

pub use artifact::session_dir;
pub use session::{begin_session, LoopSession};
pub use tick::{loop_end, resolve_active_files, LoopEndResponse};
