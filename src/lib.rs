//! Status-bar volume indicator: parses the mixer's sink dump, picks the sink
//! to report, renders the status line and decides what the refresh loop does.

pub mod control;
pub mod patterns;
pub mod protocol;
pub mod sink;
pub mod status;
pub mod text;

pub use control::{Config, Coordinator, EventPlan, MixerCommand};
pub use protocol::{Click, Header, Output};
pub use sink::Sink;
pub use status::{get_output, OutputError};
