use crate::media::metadata::Metadata;
use vstd::prelude::*;

verus! {

/// A track as the queue shows it. `I` is the decoded cover image.
#[derive(PartialEq, Eq, Debug, Clone)]
pub struct UIQueueItem<I> {
    pub metadata: Metadata,
    pub file_path: String,
    pub album_art: Option<I>,
}

} // verus!
