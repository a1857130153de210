//! Formatting of a one-shot host report: which sections a command line
//! selects, and the exact text of each section, proved against a
//! mathematical description of that text.

pub mod banner;
pub mod cpu;
pub mod disk;
pub mod memory;
pub mod network;
pub mod section;
pub mod style;
pub mod system;
pub mod text;
pub mod units;
