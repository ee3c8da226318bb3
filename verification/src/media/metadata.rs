use vstd::prelude::*;

verus! {

/// What the tags of a track say about it.
#[derive(PartialEq, Eq, Debug, Clone)]
pub struct Metadata {
    pub name: Option<String>,
    pub artist: Option<String>,
    pub album: Option<String>,
}

impl Default for Metadata {
    /// The metadata of a track without tags.
    fn default() -> (metadata: Self)
        ensures
            metadata.name is None,
            metadata.artist is None,
            metadata.album is None,
    {
        Metadata { name: None, artist: None, album: None }
    }
}

} // verus!
