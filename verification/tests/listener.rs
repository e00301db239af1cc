use reception::listener::{run, ListenerEvent};
use reception::step::Step;

#[test]
fn listener_steps() {
    assert_eq!(run::<u8, String>(ListenerEvent::Accepted), Ok(Step::Continue));
    assert_eq!(run::<u8, String>(ListenerEvent::AcceptFailed("refused".to_owned())), Err("refused".to_owned()));
    assert_eq!(run::<u8, String>(ListenerEvent::ClientReady(3u8)), Ok(Step::Item(3u8)));
    assert_eq!(run::<u8, String>(ListenerEvent::ClientsExhausted), Ok(Step::Break));
}
