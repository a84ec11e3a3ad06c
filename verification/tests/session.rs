use hub::address::{IpAddress, SocketAddress};
use hub::channel::{ChannelMessage, Event};
use hub::hub::{Hub, HubAction, OpenError, Progress};
use hub::spoke::{Dial, DialError, DialProgress, DialStage, Spoke, SpokeAction};

fn address(port: u16) -> SocketAddress {
    SocketAddress { ip: IpAddress::V6([0; 16]), port, flowinfo: 0, scope_id: 0 }
}

/// Lets a hub and a spoke open a channel over a connection on which nothing fails.
fn meet(hub: &mut Hub, spoke: &Spoke, chan_type: ChannelMessage) -> (Progress, DialProgress) {
    let mut at_hub = Progress::Pending(hub.start_opening());
    let dial = Dial { addr: spoke.tunnel_addr, chan_type, stage: DialStage::Dialing };
    let mut at_spoke = DialProgress::Pending(dial);
    let mut to_hub: Vec<ChannelMessage> = Vec::new();
    let mut to_spoke: Vec<ChannelMessage> = Vec::new();
    loop {
        let mut moved = false;
        let hub_is_done = !matches!(at_hub, Progress::Pending(_));
        at_spoke = match at_spoke {
            DialProgress::Pending(dial) => {
                let event = match dial.action() {
                    SpokeAction::Receive if !to_spoke.is_empty() => {
                        Some(Event::Received(to_spoke.remove(0)))
                    }
                    SpokeAction::Receive if hub_is_done => Some(Event::Closed),
                    SpokeAction::Receive => None,
                    SpokeAction::Send(message) => {
                        to_hub.push(message);
                        Some(Event::Done)
                    }
                    _ => Some(Event::Done),
                };
                match event {
                    Some(event) => {
                        moved = true;
                        spoke.open_chan_retry(dial, event)
                    }
                    None => DialProgress::Pending(dial),
                }
            }
            done => done,
        };
        let spoke_is_done = !matches!(at_spoke, DialProgress::Pending(_));
        at_hub = match at_hub {
            Progress::Pending(opening) => {
                let event = match hub.opening_action(&opening) {
                    HubAction::Receive if !to_hub.is_empty() => {
                        Some(Event::Received(to_hub.remove(0)))
                    }
                    HubAction::Receive if spoke_is_done => Some(Event::Closed),
                    HubAction::Receive => None,
                    HubAction::Send(message) => {
                        to_spoke.push(message);
                        Some(Event::Done)
                    }
                    _ => Some(Event::Done),
                };
                match event {
                    Some(event) => {
                        moved = true;
                        hub.open_chan(opening, event)
                    }
                    None => Progress::Pending(opening),
                }
            }
            done => done,
        };
        if !moved {
            return (at_hub, at_spoke);
        }
    }
}

fn hub(key: Option<&str>) -> Hub {
    let exposed = IpAddress::V4([0, 0, 0, 0]);
    Hub::new(exposed, None, vec![address(4242)], key.map(String::from))
}

fn spoke(key: Option<&str>) -> Spoke {
    Spoke::new(vec![address(8080)], vec![address(4242)], key.map(String::from))
}

fn control() -> ChannelMessage {
    ChannelMessage::Control { service_port: 8080 }
}

#[test]
fn parties_without_keys_meet() {
    let mut hub = hub(None);
    let outcome = meet(&mut hub, &spoke(None), control());
    assert_eq!(outcome, (Progress::Opened, DialProgress::Opened));
    assert_eq!(hub.exposed_port, Some(8080));
}

#[test]
fn parties_with_the_same_key_meet() {
    let mut hub = hub(Some("key"));
    let outcome = meet(&mut hub, &spoke(Some("key")), control());
    assert_eq!(outcome, (Progress::Opened, DialProgress::Opened));
    assert_eq!(hub.exposed_port, Some(8080));
    hub.ctrl = true;
    let outcome = meet(&mut hub, &spoke(Some("key")), ChannelMessage::Data);
    assert_eq!(outcome, (Progress::Opened, DialProgress::Opened));
}

#[test]
fn parties_with_different_keys_do_not_meet() {
    let mut hub = hub(Some("key"));
    let outcome = meet(&mut hub, &spoke(Some("another key")), control());
    let expected =
        (Progress::Failed(OpenError::AuthFailed), DialProgress::Failed(DialError::Lost));
    assert_eq!(outcome, expected);
}

#[test]
fn spoke_without_a_key_gives_up_on_the_challenge() {
    let mut hub = hub(Some("key"));
    let outcome = meet(&mut hub, &spoke(None), control());
    let expected =
        (Progress::Failed(OpenError::Reset), DialProgress::Failed(DialError::NotAcked));
    assert_eq!(outcome, expected);
    assert_eq!(hub.exposed_port, Some(8080));
}

#[test]
fn spoke_with_a_key_gives_up_without_a_challenge() {
    let mut hub = hub(None);
    let outcome = meet(&mut hub, &spoke(Some("key")), control());
    assert_eq!(outcome, (Progress::Opened, DialProgress::Failed(DialError::NotAcked)));
}

#[test]
fn data_channel_is_no_control_channel() {
    let mut hub = hub(None);
    let outcome = meet(&mut hub, &spoke(None), ChannelMessage::Data);
    let expected =
        (Progress::Failed(OpenError::WrongChannel), DialProgress::Failed(DialError::Lost));
    assert_eq!(outcome, expected);
}
