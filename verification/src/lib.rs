//! Album tagging: the rules behind an interactive tool that tags the audio
//! tracks of an album by running a tagging utility once per file.
//!
//! The library holds every decision of the tool as verified code on plain
//! values. A driver performs the terminal, file and process work and feeds the
//! outcomes back in.

pub mod style;
pub mod text;
pub mod paths;
pub mod metadata;
pub mod tracks;
pub mod genre;
pub mod tagger;
pub mod picker;
pub mod wizard;
