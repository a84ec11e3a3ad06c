use hub::address::{IpAddress, SocketAddress};
use hub::auth::answer_challenge;
use hub::channel::{ChannelMessage, Event};
use hub::proxy::{proxy, ProxyStage, ProxyStep};
use hub::spoke::{
    AcceptError, AcceptState, AcceptStep, Dial, DialError, DialProgress, DialStage, Spoke,
    SpokeAction, SpokeState,
};

fn address(port: u16) -> SocketAddress {
    SocketAddress { ip: IpAddress::V4([127, 0, 0, 1]), port, flowinfo: 0, scope_id: 0 }
}

fn spoke(key: Option<&str>) -> Spoke {
    Spoke::new(
        vec![address(8080), address(1)],
        vec![address(4242), address(2)],
        key.map(String::from),
    )
}

fn dial(stage: DialStage) -> Dial {
    Dial { addr: address(4242), chan_type: ChannelMessage::Data, stage }
}

fn pending(stage: DialStage) -> DialProgress {
    DialProgress::Pending(dial(stage))
}

fn ack() -> Event {
    Event::Received(ChannelMessage::Ack)
}

fn challenge() -> Event {
    Event::Received(ChannelMessage::Challenge { payload: vec![1, 2, 3] })
}

#[test]
fn new_spoke_takes_the_first_addresses() {
    let spoke = spoke(Some("key"));
    assert_eq!(spoke.local_addr, address(8080));
    assert_eq!(spoke.tunnel_addr, address(4242));
    assert_eq!(spoke.key, Some(String::from("key")));
    assert_eq!(spoke.clone(), spoke);
}

#[test]
fn spoke_names_the_port_of_its_service() {
    let spoke = spoke(None);
    let state = spoke.start();
    assert_eq!(spoke.action(&state), SpokeAction::Connect { addr: address(4242) });
    let state = spoke.run(state, Event::Done);
    let hello = ChannelMessage::Control { service_port: 8080 };
    assert_eq!(spoke.action(&state), SpokeAction::Send(hello));
    let state = spoke.run(state, Event::Done);
    assert_eq!(spoke.action(&state), SpokeAction::Receive);
    let state = spoke.run(state, ack());
    assert_eq!(state, SpokeState::Listening);
    assert_eq!(spoke.action(&state), SpokeAction::Receive);
}

#[test]
fn spoke_with_a_key_answers_the_challenge() {
    let spoke = spoke(Some("key"));
    let state = spoke.start();
    let state = spoke.run(state, Event::Done);
    let state = spoke.run(state, Event::Done);
    let state = spoke.run(state, challenge());
    let answer = ChannelMessage::Answer(answer_challenge("key", &[1, 2, 3]));
    assert_eq!(spoke.action(&state), SpokeAction::Send(answer));
    let state = spoke.run(state, Event::Done);
    let state = spoke.run(state, ack());
    assert_eq!(state, SpokeState::Listening);
}

#[test]
fn spoke_without_a_key_takes_no_challenge() {
    let spoke = spoke(None);
    for stage in [DialStage::AwaitingChallenge, DialStage::AwaitingAck] {
        let progress = spoke.open_chan_retry(dial(stage), challenge());
        assert_eq!(progress, DialProgress::Failed(DialError::NotAcked));
    }
}

#[test]
fn unreachable_hub_is_dialed_again() {
    let spoke = spoke(None);
    let progress = spoke.open_chan_retry(dial(DialStage::Dialing), Event::Failed);
    assert_eq!(progress, pending(DialStage::Pausing));
    assert_eq!(dial(DialStage::Pausing).action(), SpokeAction::Sleep { secs: 3 });
    let progress = spoke.open_chan_retry(dial(DialStage::Pausing), Event::Done);
    assert_eq!(progress, pending(DialStage::Dialing));
}

#[test]
fn each_dial_failure_has_its_error() {
    let spoke = spoke(Some("key"));
    let answering = || DialStage::Answering { key: String::from("key"), payload: vec![1] };
    let cases = vec![
        (DialStage::Declaring, Event::Failed, DialError::Declare),
        (DialStage::AwaitingChallenge, Event::Closed, DialError::Reset),
        (DialStage::AwaitingChallenge, Event::Failed, DialError::Io),
        (DialStage::AwaitingChallenge, ack(), DialError::NotAcked),
        (answering(), Event::Failed, DialError::Reset),
        (DialStage::AwaitingAck, Event::Closed, DialError::Lost),
        (DialStage::AwaitingAck, Event::Failed, DialError::Io),
        (DialStage::AwaitingAck, challenge(), DialError::NotAcked),
    ];
    for (stage, event, error) in cases {
        let progress = spoke.open_chan_retry(dial(stage), event);
        assert_eq!(progress, DialProgress::Failed(error));
    }
}

#[test]
fn dial_ignores_events_that_do_not_fit() {
    let spoke = spoke(None);
    let progress = spoke.open_chan_retry(dial(DialStage::Dialing), ack());
    assert_eq!(progress, pending(DialStage::Dialing));
    let progress = spoke.open_chan_retry(dial(DialStage::AwaitingAck), Event::Done);
    assert_eq!(progress, pending(DialStage::AwaitingAck));
}

#[test]
fn spoke_spawns_a_task_for_each_request() {
    let spoke = spoke(None);
    assert!(Spoke::may_receive(&ChannelMessage::Accept));
    assert!(!Spoke::may_receive(&ChannelMessage::Ack));
    assert!(!Spoke::may_receive(&ChannelMessage::Data));
    let accept = Event::Received(ChannelMessage::Accept);
    let state = spoke.run(SpokeState::Listening, accept);
    assert_eq!(spoke.action(&state), SpokeAction::SpawnAccept);
    assert_eq!(spoke.run(state, Event::Done), SpokeState::Listening);
}

#[test]
fn spoke_reconnects_when_the_hub_is_down_and_stops_when_refused() {
    let spoke = spoke(None);
    let state = spoke.run(SpokeState::Listening, Event::Failed);
    assert_eq!(state, spoke.start());
    let state = spoke.run(SpokeState::Listening, Event::Closed);
    assert_eq!(state, spoke.start());
    assert_eq!(spoke.action(&state), SpokeAction::Connect { addr: address(4242) });
    let state = spoke.run(SpokeState::Connecting(dial(DialStage::AwaitingAck)), Event::Closed);
    assert_eq!(state, SpokeState::Stopped(DialError::Lost));
    assert_eq!(spoke.action(&state), SpokeAction::Stop);
}

#[test]
fn data_channel_goes_from_hub_to_service() {
    let spoke = spoke(None);
    let mut state = spoke.start_accept();
    let mut actions = Vec::new();
    let events = vec![Event::Done, Event::Done, ack(), Event::Done, Event::Done];
    for event in events {
        actions.push(spoke.accept_action(&state));
        state = match spoke.accept(state, event) {
            AcceptStep::Pending(next) => next,
            _ => panic!("the data channel is not done"),
        };
    }
    actions.push(spoke.accept_action(&state));
    assert_eq!(spoke.accept(state, Event::Done), AcceptStep::Closed);
    assert_eq!(
        actions,
        vec![
            SpokeAction::Connect { addr: address(4242) },
            SpokeAction::Send(ChannelMessage::Data),
            SpokeAction::Receive,
            SpokeAction::ConnectService { addr: address(8080) },
            SpokeAction::Flush,
            SpokeAction::Copy,
        ]
    );
}

#[test]
fn each_data_channel_failure_has_its_error() {
    let spoke = spoke(None);
    let refused = AcceptState::Connecting(dial(DialStage::AwaitingAck));
    let error = AcceptError::Open(DialError::NotAcked);
    assert_eq!(spoke.accept(refused, challenge()), AcceptStep::Failed(error));
    let step = spoke.accept(AcceptState::Reaching, Event::Failed);
    assert_eq!(step, AcceptStep::Failed(AcceptError::Service));
    for stage in [ProxyStage::Flushing, ProxyStage::Copying] {
        let step = spoke.accept(AcceptState::Proxying(stage), Event::Failed);
        assert_eq!(step, AcceptStep::Failed(AcceptError::Proxy));
        let step = spoke.accept(AcceptState::Proxying(stage), ack());
        assert_eq!(step, AcceptStep::Pending(AcceptState::Proxying(stage)));
    }
}

#[test]
fn proxy_flushes_before_it_copies() {
    let flushed = proxy(ProxyStage::Flushing, true);
    assert_eq!(flushed, ProxyStep::Continue(ProxyStage::Copying));
    assert_eq!(proxy(ProxyStage::Copying, true), ProxyStep::Closed);
    assert_eq!(proxy(ProxyStage::Flushing, false), ProxyStep::Broken(ProxyStage::Flushing));
    assert_eq!(proxy(ProxyStage::Copying, false), ProxyStep::Broken(ProxyStage::Copying));
}

#[test]
fn spoke_errors_have_words() {
    let refused = "the hub should have acked our request to open a control channel, but it won't";
    assert_eq!(DialError::Declare.text(), Some("failed to open control channel with the hub"));
    assert_eq!(DialError::Reset.text(), Some("connection reset by peer"));
    assert_eq!(DialError::Io.text(), None);
    assert_eq!(DialError::NotAcked.text(), Some(refused));
    assert_eq!(DialError::Lost.text(), Some("connection lost, is the key correct?"));
    assert_eq!(AcceptError::Open(DialError::Io).text(), None);
    assert_eq!(AcceptError::Service.text(), None);
    assert_eq!(AcceptError::Proxy.text(), Some("broken proxy between service and tunnel"));
    let broken = Spoke::control_error(&Event::Failed);
    assert_eq!(broken, Some("control channel error, is the hub up?"));
    assert_eq!(Spoke::control_error(&Event::Closed), Some("connection reset by peer"));
    assert_eq!(Spoke::control_error(&ack()), None);
    let (before, addr, after) = spoke(None).service_error();
    assert_eq!(before, "can't connect to local service ");
    assert_eq!(addr, address(8080));
    assert_eq!(after, ", is the local service up?");
}
