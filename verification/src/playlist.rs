//! A stored list of tracks (the unsaved list, the remote playlist and the
//! scanned folder are each kept as one). Reading and writing the files is
//! the program's job.

use vstd::prelude::*;

use crate::ytdlp::Track;

verus! {

/// A list of tracks as it is stored.
#[derive(Debug)]
pub struct Playlist {
    pub tracks: Vec<Track>,
}

impl Default for Playlist {
    fn default() -> (r: Self)
        ensures
            r.tracks@.len() == 0,
    {
        Playlist { tracks: Vec::new() }
    }
}

} // verus!
