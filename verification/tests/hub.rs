use hub::address::{IpAddress, SocketAddress};
use hub::auth::answer_challenge;
use hub::channel::{ChannelMessage, Event};
use hub::hub::{
    Attempt, Hub, HubAction, HubState, OpenError, Opening, Progress, Served, Stage,
    DEFAULT_EXPOSED_PORT,
};

fn address(port: u16) -> SocketAddress {
    SocketAddress { ip: IpAddress::V4([0, 0, 0, 0]), port, flowinfo: 0, scope_id: 0 }
}

fn hub(exposed_port: Option<u16>, key: Option<&str>) -> Hub {
    Hub::new(
        IpAddress::V4([0, 0, 0, 0]),
        exposed_port,
        vec![address(4242), address(4243)],
        key.map(String::from),
    )
}

fn control(service_port: u16) -> Event {
    Event::Received(ChannelMessage::Control { service_port })
}

/// Runs the hub through these events.
fn run(hub: &mut Hub, mut state: HubState, events: Vec<Event>) -> HubState {
    for event in events {
        state = hub.run(state, event);
    }
    state
}

/// A hub that listens for clients, with a spoke whose service is at this port.
fn listening(hub: &mut Hub, service_port: u16) -> HubState {
    let state = hub.start();
    let events =
        vec![Event::Done, Event::Done, control(service_port), Event::Done, Event::Done];
    run(hub, state, events)
}

fn opening(is_tunnel: bool, stage: Stage) -> Opening {
    Opening { is_tunnel, stage }
}

fn challenge() -> Vec<u8> {
    (0..16).collect()
}

#[test]
fn new_hub_takes_the_first_address() {
    let hub = hub(Some(80), Some("key"));
    assert_eq!(hub.tunnel_addr, address(4242));
    assert_eq!(hub.exposed_addr, IpAddress::V4([0, 0, 0, 0]));
    assert_eq!(hub.exposed_port, Some(80));
    assert_eq!(hub.key, Some(String::from("key")));
    assert!(!hub.ctrl);
}

#[test]
fn control_channel_is_opened_without_a_key() {
    let mut hub = hub(None, None);
    let state = hub.start();
    assert_eq!(hub.action(&state), HubAction::BindTunnel { addr: address(4242), timeout_secs: 3 });
    let state = hub.run(state, Event::Done);
    assert_eq!(hub.action(&state), HubAction::AcceptSpoke);
    let state = hub.run(state, Event::Done);
    assert_eq!(hub.action(&state), HubAction::Receive);
    let state = hub.run(state, control(8080));
    assert_eq!(hub.action(&state), HubAction::Send(ChannelMessage::Ack));
    assert!(!hub.ctrl);
    let state = hub.run(state, Event::Done);
    assert_eq!(state, HubState::Exposing);
    assert!(hub.ctrl);
    let expose = HubAction::Expose { ip: IpAddress::V4([0, 0, 0, 0]), port: 8080 };
    assert_eq!(hub.action(&state), expose);
    let state = hub.run(state, Event::Done);
    assert_eq!(hub.action(&state), HubAction::AcceptClient);
}

#[test]
fn set_port_wins_over_the_port_of_the_spoke() {
    let mut hub = hub(Some(80), None);
    let state = hub.start();
    let state =
        run(&mut hub, state, vec![Event::Done, Event::Done, control(8080), Event::Done]);
    let expose = HubAction::Expose { ip: IpAddress::V4([0, 0, 0, 0]), port: 80 };
    assert_eq!(hub.action(&state), expose);
}

#[test]
fn first_spoke_fixes_the_port() {
    let mut hub = hub(None, None);
    let state = listening(&mut hub, 8080);
    // a client comes, and the tunnel address cannot be bound
    let state = run(&mut hub, state, vec![Event::Done, Event::Failed, Event::Done]);
    assert_eq!(state, hub.start());
    let events = vec![Event::Done, Event::Done, control(9090), Event::Done];
    let state = run(&mut hub, state, events);
    let expose = HubAction::Expose { ip: IpAddress::V4([0, 0, 0, 0]), port: 8080 };
    assert_eq!(hub.action(&state), expose);
}

#[test]
fn port_is_kept_from_a_spoke_that_then_fails() {
    let mut hub = hub(None, Some("key"));
    let state = hub.start();
    let events = vec![Event::Done, Event::Done, control(8080), Event::TimedOut];
    let state = run(&mut hub, state, events);
    assert_eq!(state, HubState::Connecting(Attempt::Pausing(OpenError::TimedOut)));
    assert_eq!(hub.exposed_port, Some(8080));
}

#[test]
fn default_port_is_for_a_hub_that_knows_none() {
    let hub = hub(None, None);
    let expose = HubAction::Expose { ip: IpAddress::V4([0, 0, 0, 0]), port: 1337 };
    assert_eq!(hub.action(&HubState::Exposing), expose);
    assert_eq!(DEFAULT_EXPOSED_PORT, 1337);
}

#[test]
fn key_makes_the_hub_challenge_the_spoke() {
    let mut hub = hub(None, Some("key"));
    let state = hub.start();
    let state = run(&mut hub, state, vec![Event::Done, Event::Done, control(8080)]);
    let payload = match hub.action(&state) {
        HubAction::Send(ChannelMessage::Challenge { payload }) => payload,
        _ => panic!("no challenge is sent"),
    };
    assert_eq!(payload.len(), 16);
    assert_eq!(payload[6] & 0xf0, 0x40);
    assert_eq!(payload[8] & 0xc0, 0x80);
    let state = hub.run(state, Event::Done);
    assert_eq!(hub.action(&state), HubAction::Receive);
    let answer = answer_challenge("key", &payload);
    let state = hub.run(state, Event::Received(ChannelMessage::Answer(answer)));
    assert_eq!(hub.action(&state), HubAction::Send(ChannelMessage::Ack));
    let state = hub.run(state, Event::Done);
    assert_eq!(state, HubState::Exposing);
}

#[test]
fn challenges_are_drawn_anew() {
    let mut hub = hub(None, Some("key"));
    let first = hub.open_chan(opening(false, Stage::Greeting), control(1));
    let second = hub.open_chan(opening(false, Stage::Greeting), control(1));
    assert!(matches!(
        &first,
        Progress::Pending(Opening { is_tunnel: false, stage: Stage::Challenging { .. } })
    ));
    assert_ne!(first, second);
}

#[test]
fn wrong_answers_are_refused() {
    let mut hub = hub(None, Some("key"));
    let replies = vec![
        ChannelMessage::Answer(Vec::new()),
        ChannelMessage::Answer(challenge()),
        ChannelMessage::Answer(answer_challenge("key", &[])),
        ChannelMessage::Answer(answer_challenge("another key", &challenge())),
        ChannelMessage::Answer(answer_challenge("", &challenge())),
        ChannelMessage::Challenge { payload: answer_challenge("key", &challenge()) },
        ChannelMessage::Ack,
        ChannelMessage::Data,
        ChannelMessage::Accept,
        ChannelMessage::Control { service_port: 1 },
    ];
    for reply in replies {
        let verifying = opening(true, Stage::Verifying { challenge: challenge() });
        let progress = hub.open_chan_with(verifying, Event::Received(reply), Vec::new());
        assert_eq!(progress, Progress::Failed(OpenError::AuthFailed));
    }
    let right = ChannelMessage::Answer(answer_challenge("key", &challenge()));
    let verifying = opening(true, Stage::Verifying { challenge: challenge() });
    let progress = hub.open_chan_with(verifying, Event::Received(right), Vec::new());
    assert_eq!(progress, Progress::Pending(opening(true, Stage::Acking)));
}

#[test]
fn judgement_depends_on_the_answer_alone() {
    assert_eq!(Hub::judge(false, true), Progress::Pending(opening(false, Stage::Acking)));
    assert_eq!(Hub::judge(true, false), Progress::Failed(OpenError::AuthFailed));
}

#[test]
fn wrong_kind_of_channel_is_refused() {
    let wrong = Progress::Failed(OpenError::WrongChannel);
    let mut hub = hub(None, None);
    let others = || {
        vec![
            ChannelMessage::Ack,
            ChannelMessage::Accept,
            ChannelMessage::Challenge { payload: Vec::new() },
            ChannelMessage::Answer(Vec::new()),
        ]
    };
    for message in others() {
        assert_eq!(hub.greet(false, message, Vec::new()), wrong);
    }
    for message in others() {
        assert_eq!(hub.greet(true, message, Vec::new()), wrong);
    }
    assert_eq!(hub.greet(false, ChannelMessage::Data, Vec::new()), wrong);
    let control = ChannelMessage::Control { service_port: 5 };
    assert_eq!(hub.greet(true, control, Vec::new()), wrong);
    assert_eq!(hub.exposed_port, None);
}

#[test]
fn data_channel_is_opened_for_a_client() {
    let mut hub = hub(None, None);
    let state = listening(&mut hub, 8080);
    let state = hub.run(state, Event::Done);
    assert_eq!(hub.action(&state), HubAction::BindTunnel { addr: address(4242), timeout_secs: 3 });
    let state = hub.run(state, Event::Done);
    assert_eq!(hub.action(&state), HubAction::SendControl(ChannelMessage::Accept));
    let state = hub.run(state, Event::Done);
    assert_eq!(hub.action(&state), HubAction::AcceptSpoke);
    let state = hub.run(state, Event::Done);
    let state = hub.run(state, Event::Received(ChannelMessage::Data));
    assert_eq!(hub.action(&state), HubAction::Send(ChannelMessage::Ack));
    let state = hub.run(state, Event::Done);
    assert_eq!(hub.action(&state), HubAction::StartProxy);
    let state = hub.run(state, Event::Done);
    assert_eq!(state, HubState::Listening);
    assert!(hub.ctrl);
}

#[test]
fn one_spoke_is_accepted_for_a_channel() {
    let mut hub = hub(None, Some("key"));
    let mut state = hub.start();
    let mut accepted = 0;
    for event in vec![Event::Done, Event::Done, control(8080), Event::Done] {
        if hub.action(&state) == HubAction::AcceptSpoke {
            accepted += 1;
        }
        state = hub.run(state, event);
    }
    assert_eq!(accepted, 1);
    assert_eq!(hub.action(&state), HubAction::Receive);
}

#[test]
fn lost_data_channel_is_followed_by_a_new_control_channel() {
    let mut hub = hub(None, None);
    let state = listening(&mut hub, 8080);
    let state = run(&mut hub, state, vec![Event::Done, Event::Done, Event::TimedOut]);
    assert_eq!(state, HubState::Losing(OpenError::TimedOut));
    assert_eq!(hub.action(&state), HubAction::Release);
    assert!(!hub.ctrl);
    let state = hub.run(state, Event::Done);
    let fresh = opening(false, Stage::Binding);
    assert_eq!(state, HubState::Connecting(Attempt::Trying(fresh)));
}

#[test]
fn failed_attempt_is_followed_by_a_pause_and_another() {
    let mut hub = hub(None, None);
    let state = hub.start();
    let state = hub.run(state, Event::Failed);
    assert_eq!(state, HubState::Connecting(Attempt::Pausing(OpenError::Bind)));
    assert_eq!(hub.action(&state), HubAction::Sleep { secs: 3 });
    let state = hub.run(state, Event::Done);
    assert_eq!(state, hub.start());
}

#[test]
fn each_failure_has_its_error() {
    let mut hub = hub(None, None);
    let mut progress = |is_tunnel: bool, stage: Stage, event: Event| {
        hub.open_chan_timeout(opening(is_tunnel, stage), event)
    };
    let failed = Progress::Failed;
    let sent = || Stage::Challenging { challenge: challenge() };
    let due = || Stage::Verifying { challenge: challenge() };
    assert_eq!(progress(false, Stage::Binding, Event::Failed), failed(OpenError::Bind));
    assert_eq!(progress(true, Stage::Announcing, Event::Failed), failed(OpenError::Io));
    assert_eq!(progress(false, Stage::Accepting, Event::Failed), failed(OpenError::Io));
    assert_eq!(progress(false, Stage::Greeting, Event::Failed), failed(OpenError::Io));
    assert_eq!(progress(false, Stage::Greeting, Event::Closed), failed(OpenError::Reset));
    assert_eq!(progress(false, sent(), Event::Failed), failed(OpenError::Io));
    assert_eq!(progress(false, due(), Event::Failed), failed(OpenError::Io));
    assert_eq!(progress(false, due(), Event::Closed), failed(OpenError::Reset));
    assert_eq!(progress(false, Stage::Acking, Event::Failed), failed(OpenError::Io));
    assert_eq!(progress(false, Stage::Acking, Event::TimedOut), failed(OpenError::TimedOut));
}

#[test]
fn events_that_do_not_fit_change_nothing() {
    let mut hub = hub(None, None);
    let state = hub.start();
    let state = run(&mut hub, state, vec![control(1), Event::Closed]);
    assert_eq!(state, hub.start());
    assert_eq!(hub.exposed_port, None);
    let pausing = || HubState::Connecting(Attempt::Pausing(OpenError::Io));
    assert_eq!(hub.run(pausing(), Event::Failed), pausing());
    let progress = hub.open_chan(opening(false, Stage::Acking), Event::TimedOut);
    assert_eq!(progress, Progress::Pending(opening(false, Stage::Acking)));
}

#[test]
fn hub_stops_when_it_cannot_listen_for_clients() {
    let mut hub = hub(None, None);
    assert_eq!(hub.run(HubState::Exposing, Event::Failed), HubState::Stopped);
    assert_eq!(hub.run(HubState::Listening, Event::Failed), HubState::Stopped);
    assert_eq!(hub.run(HubState::Stopped, Event::Done), HubState::Stopped);
    assert_eq!(hub.action(&HubState::Stopped), HubAction::Stop);
}

#[test]
fn hub_errors_have_words() {
    assert_eq!(OpenError::Bind.text(), Some("bind error"));
    assert_eq!(OpenError::Io.text(), None);
    assert_eq!(OpenError::Reset.text(), Some("connection reset by peer"));
    assert_eq!(
        OpenError::WrongChannel.text(),
        Some("wrong type of channel opened between the hub and spoke")
    );
    assert_eq!(OpenError::AuthFailed.text(), Some("auth failed"));
    assert_eq!(
        OpenError::TimedOut.text(),
        Some("timeout establishing connection to the spoke, is the spoke up?")
    );
    assert_eq!(Served::Lost(OpenError::Io).text(), Some("can't open data channel"));
    assert_eq!(Served::Proxied.text(), None);
}
