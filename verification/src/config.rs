//! The configuration the core consumes: worker count, canvas geometry,
//! and the values the surrounding process needs to bring the server up.
//! These arrive already validated; loading them from disk or arguments
//! happens outside this crate.

use vstd::prelude::*;

use crate::canvas::Coord;

verus! {

/// Startup configuration, owned by the embedding process.
#[derive(Clone)]
pub struct Config {
    pub num_io_threads: usize,
    pub image_width: Coord,
    pub image_height: Coord,
    pub listen_addr: String,
    pub gst_window: bool,
    pub record_to_file: Option<String>,
}

} // verus!
