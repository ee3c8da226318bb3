use muzak::services::mmb::lastfm::Session;
use muzak::ui::models::{ImageEvent, LastFMState, Queue, TransferDummy};

#[test]
fn image_event_holds_the_encoded_image() {
    let event = ImageEvent(vec![0x89, 0x50, 0x4e, 0x47].into_boxed_slice());
    assert_eq!(&*event.0, &[0x89, 0x50, 0x4e, 0x47]);
    assert_eq!(event, ImageEvent(vec![0x89, 0x50, 0x4e, 0x47].into_boxed_slice()));
    assert_ne!(event, ImageEvent(Vec::new().into_boxed_slice()));
}

#[test]
fn sign_in_states_differ() {
    let session = Session { name: "listener".to_string(), key: "k".to_string() };
    let connected = LastFMState::Connected(session.clone());
    assert_eq!(connected, LastFMState::Connected(session));
    assert_ne!(connected, LastFMState::Disconnected);
    assert_ne!(LastFMState::AwaitingFinalization("t".to_string()), LastFMState::Disconnected);
    assert_eq!(
        LastFMState::AwaitingFinalization("t".to_string()).clone(),
        LastFMState::AwaitingFinalization("t".to_string())
    );
}

#[test]
fn queue_keeps_the_order_of_its_paths() {
    let queue = Queue(vec!["b.flac".to_string(), "a.flac".to_string()]);
    assert_eq!(queue.0, vec!["b.flac".to_string(), "a.flac".to_string()]);
    assert_eq!(queue.clone(), queue);
    assert_eq!(TransferDummy, TransferDummy.clone());
}
