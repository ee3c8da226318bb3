use crate::services::mmb::lastfm::Session;
use vstd::prelude::*;

verus! {

/// An encoded image that has arrived and waits to be decoded.
#[derive(Debug, PartialEq)]
pub struct ImageEvent(pub Box<[u8]>);

/// How far the user has come in signing in to last.fm.
#[derive(Debug, PartialEq, Clone)]
pub enum LastFMState {
    Disconnected,
    /// A token has been asked for; the user has yet to confirm it.
    AwaitingFinalization(String),
    Connected(Session),
}

/// The receiver of decoded images: it holds nothing and only passes them
/// on.
#[derive(Debug, PartialEq, Clone)]
pub struct TransferDummy;

/// The paths of the tracks in the queue, in playing order.
#[derive(Debug, PartialEq, Clone)]
pub struct Queue(pub Vec<String>);

} // verus!
