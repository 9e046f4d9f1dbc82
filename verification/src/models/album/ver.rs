//! Versioned wrapper around the album type, one variant per wire layout.

use vstd::prelude::*;
use crate::models::album::Album;

verus! {

/// The known wire layouts of an album document.
#[derive(Debug)]
pub enum AlbumVer {
    AlbumV1(Album),
}

impl Clone for AlbumVer {
    fn clone(&self) -> (r: Self)
        ensures
            r == *self,
    {
        match self {
            AlbumVer::AlbumV1(a) => AlbumVer::AlbumV1(a.clone()),
        }
    }
}

} // verus!
