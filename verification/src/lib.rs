//! Media acquisition engine: selects the best-matching stream
//! representation from a list of candidates by quality and codec
//! preference, and plans the download paths — a direct fetch for
//! progressive formats, or the reassembly of a segmented manifest into
//! one playable file.

pub mod acquire;
pub mod errors;
pub mod formats;
pub mod paths;
pub mod pipeline;
pub mod playlist;
pub mod select;
