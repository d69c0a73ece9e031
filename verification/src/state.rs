pub mod launcher;
pub mod launchpad;

pub use launcher::Launcher;
pub use launchpad::{Launchpad, PresaleState};
