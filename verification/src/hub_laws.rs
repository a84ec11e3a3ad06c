//! What a hub does with each event, what it asks for, and what it does to serve its clients.
use vstd::prelude::*;

use crate::address::{IpAddress, SocketAddress};
use crate::auth::hmac_sha256;
use crate::channel::{ChannelMessage, Content, Event};
use crate::hub::{
    Attempt, Hub, HubAction, HubState, OpenError, Opening, Progress, Served, Stage,
};
use crate::laws::{run_after, Input};

verus! {

/// Whether the hub waits for a message of the spoke at this stage.
pub open spec fn hears(stage: Stage) -> bool {
    stage is Greeting || stage is Verifying
}

/// The channel that a running hub is opening, where it is opening one.
pub open spec fn opening_in(state: HubState) -> Option<Opening> {
    match state {
        HubState::Connecting(Attempt::Trying(opening)) => Some(opening),
        HubState::Serving(opening) => Some(opening),
        _ => None,
    }
}

/// A hub that is set up has no control channel yet, and all else as it was given; of the addresses
/// that the name of the tunnel stands for it has the first.
pub proof fn new_hub_is_as_given(
    exposed_addr: IpAddress,
    exposed_port: Option<u16>,
    tunnel_addrs: Vec<SocketAddress>,
    key: Option<String>,
    hub: Hub,
)
    requires
        call_ensures(Hub::new, (exposed_addr, exposed_port, tunnel_addrs, key), hub),
    ensures
        hub.exposed_addr == exposed_addr,
        hub.exposed_port == exposed_port,
        hub.tunnel_addr == tunnel_addrs@.first(),
        hub.key == key,
        !hub.ctrl,
{
}

/// A hub begins, and begins again, with the binding of its tunnel address: for a data channel
/// where it has a control channel, else for a control channel.
pub proof fn hub_begins_with_the_missing_channel(hub: Hub, opening: Opening, state: HubState)
    ensures
        hub.reconnecting() == HubState::Connecting(
            Attempt::Trying(Opening { is_tunnel: hub.ctrl, stage: Stage::Binding }),
        ),
        call_ensures(Hub::start_opening, (&hub,), opening) ==> opening == (Opening {
            is_tunnel: hub.ctrl,
            stage: Stage::Binding,
        }),
        call_ensures(Hub::start, (&hub,), state) ==> state == HubState::Connecting(
            Attempt::Trying(Opening { is_tunnel: hub.ctrl, stage: Stage::Binding }),
        ),
{
}

/// Once the time of an attempt is over, the attempt has failed for that reason, however far it has
/// come. An attempt at a control channel is then paused; one at a data channel costs the control
/// channel.
pub proof fn attempt_ends_with_its_time(hub: Hub, opening: Opening, fresh: Vec<u8>)
    ensures
        hub.timed_next(opening, Event::TimedOut, fresh) == (
            hub,
            Progress::Failed(OpenError::TimedOut),
        ),
        hub.run_next(
            HubState::Connecting(Attempt::Trying(opening)),
            Event::TimedOut,
            fresh,
        ) == (hub, HubState::Connecting(Attempt::Pausing(OpenError::TimedOut))),
        hub.run_next(HubState::Serving(opening), Event::TimedOut, fresh) == (
            Hub { ctrl: false, ..hub },
            HubState::Losing(OpenError::TimedOut),
        ),
{
}

/// An action that fails ends the attempt that it belongs to, however far that has come; what is
/// told apart is whether the tunnel address could be bound.
pub proof fn attempt_ends_with_a_failed_action(hub: Hub, opening: Opening, fresh: Vec<u8>)
    ensures
        ({
            let error = if opening.stage is Binding {
                OpenError::Bind
            } else {
                OpenError::Io
            };
            &&& hub.timed_next(opening, Event::Failed, fresh) == (hub, Progress::Failed(error))
            &&& hub.run_next(
                HubState::Connecting(Attempt::Trying(opening)),
                Event::Failed,
                fresh,
            ) == (hub, HubState::Connecting(Attempt::Pausing(error)))
            &&& hub.run_next(HubState::Serving(opening), Event::Failed, fresh) == (
                Hub { ctrl: false, ..hub },
                HubState::Losing(error),
            )
        }),
{
}

/// A spoke that closes the channel while the hub waits for its greeting or its answer ends the
/// attempt.
pub proof fn attempt_ends_with_a_closed_channel(hub: Hub, opening: Opening, fresh: Vec<u8>)
    requires
        hears(opening.stage),
    ensures
        hub.timed_next(opening, Event::Closed, fresh) == (hub, Progress::Failed(OpenError::Reset)),
{
}

/// The stages that an action leads on from, each with the one that it leads to. A data channel is
/// asked for over the control channel before the spoke is waited for; a control channel is not.
pub proof fn stages_follow_in_order(hub: Hub, is_tunnel: bool, challenge: Vec<u8>, fresh: Vec<u8>)
    ensures
        hub.timed_next(Opening { is_tunnel: true, stage: Stage::Binding }, Event::Done, fresh) == (
            hub,
            Progress::Pending(Opening { is_tunnel: true, stage: Stage::Announcing }),
        ),
        hub.timed_next(Opening { is_tunnel: false, stage: Stage::Binding }, Event::Done, fresh) == (
            hub,
            Progress::Pending(Opening { is_tunnel: false, stage: Stage::Accepting }),
        ),
        hub.timed_next(Opening { is_tunnel, stage: Stage::Announcing }, Event::Done, fresh) == (
            hub,
            Progress::Pending(Opening { is_tunnel, stage: Stage::Accepting }),
        ),
        hub.timed_next(Opening { is_tunnel, stage: Stage::Accepting }, Event::Done, fresh) == (
            hub,
            Progress::Pending(Opening { is_tunnel, stage: Stage::Greeting }),
        ),
        hub.timed_next(
            Opening { is_tunnel, stage: Stage::Challenging { challenge } },
            Event::Done,
            fresh,
        ) == (
            hub,
            Progress::Pending(Opening { is_tunnel, stage: Stage::Verifying { challenge } }),
        ),
        hub.timed_next(Opening { is_tunnel, stage: Stage::Acking }, Event::Done, fresh) == (
            hub,
            Progress::Opened,
        ),
{
}

/// A spoke is let on exactly if it opens the kind of channel that the hub is opening. Where the
/// hub has a key the spoke is then challenged, with the challenge that was drawn; else the channel
/// is acknowledged. All that the hub learns from a greeting is the port in one for a control
/// channel, and that only where it has none.
pub proof fn greeting_decides(hub: Hub, is_tunnel: bool, greeting: ChannelMessage, fresh: Vec<u8>)
    ensures
        ({
            let opening = Opening { is_tunnel, stage: Stage::Greeting };
            let (after, progress) = hub.timed_next(opening, Event::Received(greeting), fresh);
            let right = (is_tunnel && greeting is Data) || (!is_tunnel && greeting is Control);
            &&& !right ==> progress == Progress::Failed(OpenError::WrongChannel)
            &&& right && hub.key is None ==> progress == Progress::Pending(
                Opening { is_tunnel, stage: Stage::Acking },
            )
            &&& right && hub.key is Some ==> progress == Progress::Pending(
                Opening { is_tunnel, stage: Stage::Challenging { challenge: fresh } },
            )
            &&& !is_tunnel && hub.exposed_port is None && greeting is Control ==> after == Hub {
                exposed_port: Some(greeting->service_port),
                ..hub
            }
            &&& is_tunnel || hub.exposed_port is Some || !(greeting is Control) ==> after == hub
            &&& hub.greeted(opening, greeting, fresh) == (after, progress)
        }),
{
}

/// A reply to a challenge is acknowledged exactly if it is an answer with the HMAC-SHA256 code of
/// that challenge under the bytes of the hub's key. Every other reply, of whatever kind, is an
/// authentication that failed.
pub proof fn answer_decides(
    hub: Hub,
    is_tunnel: bool,
    challenge: Vec<u8>,
    reply: ChannelMessage,
    fresh: Vec<u8>,
)
    ensures
        ({
            let (after, progress) = hub.timed_next(
                Opening { is_tunnel, stage: Stage::Verifying { challenge } },
                Event::Received(reply),
                fresh,
            );
            let right = hub.key matches Some(key) && (reply matches ChannelMessage::Answer(code)
                && code@ == hmac_sha256(vstd::utf8::encode_utf8(key@), challenge@));
            &&& after == hub
            &&& right ==> progress == Progress::Pending(Opening { is_tunnel, stage: Stage::Acking })
            &&& !right ==> progress == Progress::Failed(OpenError::AuthFailed)
        }),
{
}

/// An event that cannot come of what the stage asks for changes nothing. Without a limit on its
/// time, the same events come to the same, but that no time is over.
pub proof fn other_events_leave_a_channel_alone(
    hub: Hub,
    opening: Opening,
    event: Event,
    fresh: Vec<u8>,
)
    ensures
        event is Done && hears(opening.stage) ==> hub.timed_next(opening, event, fresh) == (
            hub,
            Progress::Pending(opening),
        ),
        (event is Closed || event is Received) && !hears(opening.stage) ==> hub.timed_next(
            opening,
            event,
            fresh,
        ) == (hub, Progress::Pending(opening)),
        !(event is TimedOut) ==> hub.opening_next(opening, event, fresh) == hub.timed_next(
            opening,
            event,
            fresh,
        ),
        event is TimedOut ==> hub.opening_next(opening, event, fresh) == (
            hub,
            Progress::Pending(opening),
        ),
{
}

/// An attempt at a control channel goes on while it is under way; once the channel is open, the
/// hub has a control channel and exposes the service; and when the attempt fails, the hub pauses.
pub proof fn control_attempt_leads_on(hub: Hub, opening: Opening, event: Event, fresh: Vec<u8>)
    ensures
        ({
            let (after, progress) = hub.timed_next(opening, event, fresh);
            let trying = Attempt::Trying(opening);
            match progress {
                Progress::Pending(next) => {
                    &&& hub.retry_next(trying, event, fresh) == (after, Some(Attempt::Trying(next)))
                    &&& hub.run_next(HubState::Connecting(trying), event, fresh) == (
                        after,
                        HubState::Connecting(Attempt::Trying(next)),
                    )
                },
                Progress::Opened => {
                    &&& hub.retry_next(trying, event, fresh) == (after, None::<Attempt>)
                    &&& hub.run_next(HubState::Connecting(trying), event, fresh) == (
                        Hub { ctrl: true, ..after },
                        HubState::Exposing,
                    )
                },
                Progress::Failed(error) => {
                    &&& hub.retry_next(trying, event, fresh) == (
                        after,
                        Some(Attempt::Pausing(error)),
                    )
                    &&& hub.run_next(HubState::Connecting(trying), event, fresh) == (
                        after,
                        HubState::Connecting(Attempt::Pausing(error)),
                    )
                },
            }
        }),
{
}

/// Once the pause after a failed attempt is over, the hub tries anew from the beginning, whatever
/// the attempt failed of; nothing else ends the pause.
pub proof fn pause_ends_in_a_new_attempt(hub: Hub, error: OpenError, event: Event, fresh: Vec<u8>)
    ensures
        ({
            let pausing = Attempt::Pausing(error);
            let next = if event is Done {
                Attempt::Trying(Opening { is_tunnel: hub.ctrl, stage: Stage::Binding })
            } else {
                pausing
            };
            &&& hub.retry_next(pausing, event, fresh) == (hub, Some(next))
            &&& hub.run_next(HubState::Connecting(pausing), event, fresh) == (
                hub,
                HubState::Connecting(next),
            )
        }),
{
}

/// Each client is served: when one has connected, the hub sets out for a data channel, whatever
/// its key and its port.
pub proof fn each_client_is_served(hub: Hub, fresh: Vec<u8>)
    ensures
        hub.run_next(HubState::Listening, Event::Done, fresh) == (
            hub,
            HubState::Serving(Opening { is_tunnel: hub.ctrl, stage: Stage::Binding }),
        ),
{
}

/// A client is served until its data channel is open, and then it is proxied; or there is no data
/// channel, and then the hub gives up its control channel for the same reason. There is one
/// attempt.
pub proof fn client_is_proxied_or_lost(hub: Hub, opening: Opening, event: Event, fresh: Vec<u8>)
    ensures
        ({
            let (after, progress) = hub.timed_next(opening, event, fresh);
            match progress {
                Progress::Pending(next) => {
                    &&& hub.serve_next(opening, event, fresh) == (after, Served::Pending(next))
                    &&& hub.run_next(HubState::Serving(opening), event, fresh) == (
                        after,
                        HubState::Serving(next),
                    )
                },
                Progress::Opened => {
                    &&& hub.serve_next(opening, event, fresh) == (after, Served::Proxied)
                    &&& hub.run_next(HubState::Serving(opening), event, fresh) == (
                        after,
                        HubState::Proxying,
                    )
                },
                Progress::Failed(error) => {
                    &&& hub.serve_next(opening, event, fresh) == (after, Served::Lost(error))
                    &&& hub.run_next(HubState::Serving(opening), event, fresh) == (
                        Hub { ctrl: false, ..after },
                        HubState::Losing(error),
                    )
                },
            }
        }),
{
}

/// A hub listens for clients once it has the port for them, and again as soon as a proxy for the
/// last one is started. Where the port is not to be had, or no longer listened at, it stops for
/// good. When it has given up its control channel it sets out for another. Events that cannot come
/// of what it asked for change nothing.
pub proof fn hub_listens_again_and_again(
    hub: Hub,
    error: OpenError,
    event: Event,
    fresh: Vec<u8>,
)
    ensures
        hub.run_next(HubState::Exposing, event, fresh) == (
            hub,
            if event is Done {
                HubState::Listening
            } else if event is Failed {
                HubState::Stopped
            } else {
                HubState::Exposing
            },
        ),
        event is Failed ==> hub.run_next(HubState::Listening, event, fresh) == (
            hub,
            HubState::Stopped,
        ),
        !(event is Failed || event is Done) ==> hub.run_next(HubState::Listening, event, fresh) == (
            hub,
            HubState::Listening,
        ),
        hub.run_next(HubState::Proxying, event, fresh) == (
            hub,
            if event is Done {
                HubState::Listening
            } else {
                HubState::Proxying
            },
        ),
        hub.run_next(HubState::Losing(error), event, fresh) == (
            hub,
            if event is Done {
                HubState::Connecting(
                    Attempt::Trying(Opening { is_tunnel: hub.ctrl, stage: Stage::Binding }),
                )
            } else {
                HubState::Losing(error)
            },
        ),
        hub.run_next(HubState::Stopped, event, fresh) == (hub, HubState::Stopped),
{
}

/// What a hub asks for about a channel, for each action exactly when: it waits for spokes at its
/// own tunnel address, and gives them three seconds from then; over the control channel it asks
/// for data channels; it sends the challenge of the stage and the acknowledgement, and nothing
/// else.
pub proof fn opening_asks_exactly(
    hub: Hub,
    opening: Opening,
    addr: SocketAddress,
    timeout_secs: u64,
    message: ChannelMessage,
)
    ensures
        hub.opening_asks(opening, HubAction::BindTunnel { addr, timeout_secs }) <==> opening.stage
            is Binding && addr == hub.tunnel_addr && timeout_secs == 3,
        hub.opening_asks(opening, HubAction::SendControl(message)) <==> opening.stage is Announcing
            && message is Accept,
        hub.opening_asks(opening, HubAction::AcceptSpoke) <==> opening.stage is Accepting,
        hub.opening_asks(opening, HubAction::Receive) <==> opening.stage is Greeting
            || opening.stage is Verifying,
        hub.opening_asks(opening, HubAction::Send(message)) <==> {
            ||| opening.stage is Acking && message is Ack
            ||| opening.stage matches Stage::Challenging { challenge } && message@
                == (Content::Challenge { payload: challenge@ })
        },
{
}

/// What a running hub asks for about the channel that it is opening is what it asks for about that
/// channel; while it is opening none it asks for nothing of the kind. It never asks for what does
/// not belong to its state: a pause of three seconds between two attempts at a control channel,
/// the port for clients at the address for clients once, then clients one by one.
pub proof fn hub_asks_exactly(
    hub: Hub,
    state: HubState,
    action: HubAction,
    ip: IpAddress,
    port: u16,
    secs: u64,
)
    ensures
        opening_in(state) matches Some(opening) ==> (hub.asks(state, action)
            <==> hub.opening_asks(opening, action)),
        opening_in(state) is None && hub.asks(state, action) ==> !(action is BindTunnel
            || action is SendControl || action is AcceptSpoke || action is Receive
            || action is Send),
        hub.asks(state, HubAction::Sleep { secs }) <==> (state
            matches HubState::Connecting(Attempt::Pausing(_)) && secs == 3),
        hub.asks(state, HubAction::Expose { ip, port }) <==> {
            &&& state is Exposing
            &&& ip == hub.exposed_addr
            &&& hub.exposed_port == Some(port) || (hub.exposed_port is None && port == 1337)
        },
        hub.asks(state, HubAction::AcceptClient) <==> state is Listening,
        hub.asks(state, HubAction::StartProxy) <==> state is Proxying,
        hub.asks(state, HubAction::Release) <==> state is Losing,
        hub.asks(state, HubAction::Stop) <==> state is Stopped,
{
}

/// Whatever happens to a hub, its addresses and its key stay what they were when it was started.
pub proof fn settings_never_change(hub: Hub, inputs: Seq<Input>)
    ensures
        run_after(hub, inputs).0.tunnel_addr == hub.tunnel_addr,
        run_after(hub, inputs).0.exposed_addr == hub.exposed_addr,
        run_after(hub, inputs).0.key == hub.key,
    decreases inputs.len(),
{
    if inputs.len() > 0 {
        settings_never_change(hub, inputs.drop_last());
    }
}

/// Whatever happens to a hub, the only address at which it waits for spokes is the tunnel address
/// that it was set up with, and the only one at which it waits for clients is the one for clients.
pub proof fn hub_keeps_to_its_addresses(hub: Hub, inputs: Seq<Input>, action: HubAction)
    requires
        run_after(hub, inputs).0.asks(run_after(hub, inputs).1, action),
    ensures
        action matches HubAction::BindTunnel { addr, timeout_secs } ==> addr == hub.tunnel_addr
            && timeout_secs == 3,
        action matches HubAction::Expose { ip, port } ==> ip == hub.exposed_addr && (
        hub.exposed_port is Some ==> hub.exposed_port == Some(port)),
{
    settings_never_change(hub, inputs);
    if hub.exposed_port is Some {
        port_stays_as_set(hub, inputs);
    }
}

/// Whatever happens to a hub that was set up with a port, that is its port.
pub proof fn port_stays_as_set(hub: Hub, inputs: Seq<Input>)
    requires
        hub.exposed_port is Some,
    ensures
        run_after(hub, inputs).0.exposed_port == hub.exposed_port,
    decreases inputs.len(),
{
    if inputs.len() > 0 {
        port_stays_as_set(hub, inputs.drop_last());
    }
}

/// What the hub itself asks for is what these laws say that it asks for. So it waits for spokes at
/// its own tunnel address, and exposes the service at its own address for clients.
pub proof fn hub_does_as_asked(
    hub: Hub,
    opening: Opening,
    state: HubState,
    for_channel: HubAction,
    action: HubAction,
)
    requires
        call_ensures(Hub::opening_action, (&hub, &opening), for_channel),
        call_ensures(Hub::action, (&hub, &state), action),
    ensures
        hub.opening_asks(opening, for_channel),
        hub.asks(state, action),
        for_channel matches HubAction::BindTunnel { addr, .. } ==> addr == hub.tunnel_addr,
        action matches HubAction::BindTunnel { addr, .. } ==> addr == hub.tunnel_addr,
        action matches HubAction::Expose { ip, .. } ==> ip == hub.exposed_addr,
{
}

/// A channel moves on as these laws say, with a challenge in the form of a random UUID where one is
/// drawn.
pub proof fn channel_moves_on(hub: &mut Hub, opening: Opening, event: Event, progress: Progress)
    requires
        call_ensures(Hub::open_chan, (hub, opening, event), progress),
    ensures
        exists|fresh: Vec<u8>|
            (*final(hub), progress) == #[trigger] old(hub).opening_next(opening, event, fresh),
        opening.stage is Greeting ==> (progress matches Progress::Pending(next)
            ==> next.stage matches Stage::Challenging { challenge } ==> {
            &&& challenge@.len() == 16
            &&& 0x40 <= challenge@[6] <= 0x4f
            &&& 0x80 <= challenge@[8] <= 0xbf
        }),
{
    let fresh = choose|fresh: Vec<u8>|
        old(hub).opening_step(opening, event, fresh, *final(hub), progress);
    assert((*final(hub), progress) == old(hub).opening_next(opening, event, fresh));
}

/// A channel that has to be open in time moves on as these laws say. Once its time is over it has
/// failed. A challenge that is drawn for it has the form of a random UUID.
pub proof fn channel_in_time_moves_on(
    hub: &mut Hub,
    opening: Opening,
    event: Event,
    progress: Progress,
)
    requires
        call_ensures(Hub::open_chan_timeout, (hub, opening, event), progress),
    ensures
        exists|fresh: Vec<u8>|
            (*final(hub), progress) == #[trigger] old(hub).timed_next(opening, event, fresh),
        event is TimedOut ==> *final(hub) == *old(hub) && progress == Progress::Failed(
            OpenError::TimedOut,
        ),
        opening.stage is Greeting ==> (progress matches Progress::Pending(next)
            ==> next.stage matches Stage::Challenging { challenge } ==> {
            &&& challenge@.len() == 16
            &&& 0x40 <= challenge@[6] <= 0x4f
            &&& 0x80 <= challenge@[8] <= 0xbf
        }),
{
    let fresh = choose|fresh: Vec<u8>|
        old(hub).timed_step(opening, event, fresh, *final(hub), progress);
    assert((*final(hub), progress) == old(hub).timed_next(opening, event, fresh));
}

/// A channel that is tried for moves on as these laws say, with a challenge in the form of a
/// random UUID where one is drawn.
pub proof fn tried_channel_moves_on(
    hub: &mut Hub,
    attempt: Attempt,
    event: Event,
    next: Option<Attempt>,
)
    requires
        call_ensures(Hub::open_chan_retry, (hub, attempt, event), next),
    ensures
        exists|fresh: Vec<u8>|
            (*final(hub), next) == #[trigger] old(hub).retry_next(attempt, event, fresh),
        attempt matches Attempt::Trying(opening) ==> opening.stage is Greeting ==> (next
            matches Some(Attempt::Trying(then)) ==> then.stage matches Stage::Challenging {
            challenge,
        } ==> {
            &&& challenge@.len() == 16
            &&& 0x40 <= challenge@[6] <= 0x4f
            &&& 0x80 <= challenge@[8] <= 0xbf
        }),
{
    let fresh = choose|fresh: Vec<u8>|
        old(hub).retry_step(attempt, event, fresh, *final(hub), next);
    assert((*final(hub), next) == old(hub).retry_next(attempt, event, fresh));
}

/// A client that is served moves on as these laws say, with a challenge in the form of a random
/// UUID where one is drawn.
pub proof fn served_client_moves_on(hub: &mut Hub, opening: Opening, event: Event, served: Served)
    requires
        call_ensures(Hub::handle_server_connection, (hub, opening, event), served),
    ensures
        exists|fresh: Vec<u8>|
            (*final(hub), served) == #[trigger] old(hub).serve_next(opening, event, fresh),
        opening.stage is Greeting ==> (served matches Served::Pending(next)
            ==> next.stage matches Stage::Challenging { challenge } ==> {
            &&& challenge@.len() == 16
            &&& 0x40 <= challenge@[6] <= 0x4f
            &&& 0x80 <= challenge@[8] <= 0xbf
        }),
{
    let fresh = choose|fresh: Vec<u8>|
        old(hub).serve_step(opening, event, fresh, *final(hub), served);
    assert((*final(hub), served) == old(hub).serve_next(opening, event, fresh));
}

/// A running hub moves on as these laws say. It serves each client. A challenge that it draws has
/// the form of a random UUID.
pub proof fn running_hub_moves_on(hub: &mut Hub, state: HubState, event: Event, next: HubState)
    requires
        call_ensures(Hub::run, (hub, state, event), next),
    ensures
        exists|fresh: Vec<u8>|
            (*final(hub), next) == #[trigger] old(hub).run_next(state, event, fresh),
        state is Listening && event is Done ==> *final(hub) == *old(hub) && next
            == HubState::Serving(Opening { is_tunnel: old(hub).ctrl, stage: Stage::Binding }),
        opening_in(state) matches Some(opening) ==> opening.stage is Greeting ==> (opening_in(next)
            matches Some(then) ==> then.stage matches Stage::Challenging { challenge } ==> {
            &&& challenge@.len() == 16
            &&& 0x40 <= challenge@[6] <= 0x4f
            &&& 0x80 <= challenge@[8] <= 0xbf
        }),
{
    let fresh = choose|fresh: Vec<u8>| old(hub).run_step(state, event, fresh, *final(hub), next);
    assert((*final(hub), next) == old(hub).run_next(state, event, fresh));
}

/// A channel moves on as these laws say with the challenge that is given.
pub proof fn channel_moves_on_with_the_given_challenge(
    hub: &mut Hub,
    opening: Opening,
    event: Event,
    fresh: Vec<u8>,
    progress: Progress,
)
    requires
        call_ensures(Hub::open_chan_with, (hub, opening, event, fresh), progress),
    ensures
        (*final(hub), progress) == old(hub).opening_next(opening, event, fresh),
{
}

/// A greeting that is heard by itself comes to what it comes to at the stage where it is waited
/// for.
pub proof fn greeting_by_itself(
    hub: &mut Hub,
    is_tunnel: bool,
    greeting: ChannelMessage,
    fresh: Vec<u8>,
    progress: Progress,
)
    requires
        call_ensures(Hub::greet, (hub, is_tunnel, greeting, fresh), progress),
    ensures
        (*final(hub), progress) == old(hub).timed_next(
            Opening { is_tunnel, stage: Stage::Greeting },
            Event::Received(greeting),
            fresh,
        ),
{
}

/// A right answer is acknowledged, over the same kind of channel; a wrong one is refused.
pub proof fn judgement_follows_the_check(is_tunnel: bool, right: bool, progress: Progress)
    requires
        call_ensures(Hub::judge, (is_tunnel, right), progress),
    ensures
        right ==> progress == Progress::Pending(Opening { is_tunnel, stage: Stage::Acking }),
        !right ==> progress == Progress::Failed(OpenError::AuthFailed),
{
}

/// A hub can be set up with any addresses, if there is one for the tunnel, and takes every event in
/// every state.
pub proof fn hub_takes_every_event(
    hub: &mut Hub,
    exposed_addr: IpAddress,
    exposed_port: Option<u16>,
    tunnel_addrs: Vec<SocketAddress>,
    key: Option<String>,
    opening: Opening,
    attempt: Attempt,
    state: HubState,
    event: Event,
    fresh: Vec<u8>,
)
    ensures
        tunnel_addrs@.len() > 0 ==> call_requires(
            Hub::new,
            (exposed_addr, exposed_port, tunnel_addrs, key),
        ),
        call_requires(Hub::open_chan_with, (hub, opening, event, fresh)),
        call_requires(Hub::open_chan, (hub, opening, event)),
        call_requires(Hub::open_chan_timeout, (hub, opening, event)),
        call_requires(Hub::open_chan_retry, (hub, attempt, event)),
        call_requires(Hub::handle_server_connection, (hub, opening, event)),
        call_requires(Hub::run, (hub, state, event)),
        call_requires(Hub::opening_action, (&*old(hub), &opening)),
        call_requires(Hub::action, (&*old(hub), &state)),
        call_requires(Hub::start, (&*old(hub),)),
{
}

/// Each error of the hub has its own words, but for the failed operation, whose own words say it;
/// and of a client that is lost the same is said whatever the cause.
pub proof fn hub_errors_in_words(
    error: OpenError,
    text: Option<&'static str>,
    served: Served,
    client_text: Option<&'static str>,
)
    requires
        call_ensures(OpenError::text, (&error,), text),
        call_ensures(Served::text, (&served,), client_text),
    ensures
        match error {
            OpenError::Bind => text matches Some(s) && s@ == "bind error"@,
            OpenError::Io => text is None,
            OpenError::Reset => text matches Some(s) && s@ == "connection reset by peer"@,
            OpenError::WrongChannel => text matches Some(s) && s@
                == "wrong type of channel opened between the hub and spoke"@,
            OpenError::AuthFailed => text matches Some(s) && s@ == "auth failed"@,
            OpenError::TimedOut => text matches Some(s) && s@
                == "timeout establishing connection to the spoke, is the spoke up?"@,
        },
        match served {
            Served::Lost(_) => client_text matches Some(s) && s@ == "can't open data channel"@,
            Served::Pending(_) | Served::Proxied => client_text is None,
        },
{
}

/// A client that comes when there is a control channel is served all the way, whatever the key of
/// the hub: the tunnel address is bound, the spoke is told to open a data channel, waited for, and
/// heard; where the hub has a key, challenged, and heard again; then acknowledged, and the client
/// is proxied. The hub is then as it was, and waits for the next client.
pub proof fn client_is_served_all_the_way(hub: Hub, drawn: Vec<u8>, answer: Vec<u8>, none: Vec<u8>)
    requires
        hub.ctrl,
        hub.key matches Some(key) ==> answer@ == hmac_sha256(
            vstd::utf8::encode_utf8(key@),
            drawn@,
        ),
    ensures
        ({
            let (h1, binding) = hub.run_next(HubState::Listening, Event::Done, none);
            let (h2, announcing) = h1.run_next(binding, Event::Done, none);
            let (h3, accepting) = h2.run_next(announcing, Event::Done, none);
            let (h4, greeting) = h3.run_next(accepting, Event::Done, none);
            let (h5, greeted) = h4.run_next(
                greeting,
                Event::Received(ChannelMessage::Data),
                drawn,
            );
            let (h6, verifying) = h5.run_next(greeted, Event::Done, none);
            let (h7, verified) = h6.run_next(
                verifying,
                Event::Received(ChannelMessage::Answer(answer)),
                none,
            );
            let (acked_by, acking) = if hub.key is Some {
                (h7, verified)
            } else {
                (h5, greeted)
            };
            let (h8, proxying) = acked_by.run_next(acking, Event::Done, none);
            let (h9, listening) = h8.run_next(proxying, Event::Done, none);
            &&& hub.asks(HubState::Listening, HubAction::AcceptClient)
            &&& h1.asks(
                binding,
                HubAction::BindTunnel { addr: hub.tunnel_addr, timeout_secs: 3 },
            )
            &&& h2.asks(announcing, HubAction::SendControl(ChannelMessage::Accept))
            &&& h3.asks(accepting, HubAction::AcceptSpoke)
            &&& h4.asks(greeting, HubAction::Receive)
            &&& hub.key is Some ==> {
                &&& h5.asks(greeted, HubAction::Send(ChannelMessage::Challenge { payload: drawn }))
                &&& h6.asks(verifying, HubAction::Receive)
            }
            &&& acked_by.asks(acking, HubAction::Send(ChannelMessage::Ack))
            &&& h8.asks(proxying, HubAction::StartProxy)
            &&& (h9, listening) == (hub, HubState::Listening)
        }),
{
}

/// A hub without a control channel that is reached by a spoke exposes the spoke's service: the
/// tunnel address is bound, the spoke is waited for, and heard; where the hub has a key,
/// challenged, and heard again; then acknowledged. From then on the hub has a control channel, and
/// exposes the service at the port that it was set up with, or else at the one that the spoke has
/// named.
pub proof fn service_of_the_spoke_is_exposed(
    hub: Hub,
    service_port: u16,
    drawn: Vec<u8>,
    answer: Vec<u8>,
    none: Vec<u8>,
)
    requires
        !hub.ctrl,
        hub.key matches Some(key) ==> answer@ == hmac_sha256(
            vstd::utf8::encode_utf8(key@),
            drawn@,
        ),
    ensures
        ({
            let binding = hub.reconnecting();
            let (h1, accepting) = hub.run_next(binding, Event::Done, none);
            let (h2, greeting) = h1.run_next(accepting, Event::Done, none);
            let (h3, greeted) = h2.run_next(
                greeting,
                Event::Received(ChannelMessage::Control { service_port }),
                drawn,
            );
            let (h4, verifying) = h3.run_next(greeted, Event::Done, none);
            let (h5, verified) = h4.run_next(
                verifying,
                Event::Received(ChannelMessage::Answer(answer)),
                none,
            );
            let (acked_by, acking) = if hub.key is Some {
                (h5, verified)
            } else {
                (h3, greeted)
            };
            let (h6, exposing) = acked_by.run_next(acking, Event::Done, none);
            let (h7, listening) = h6.run_next(exposing, Event::Done, none);
            let port = if hub.exposed_port is Some {
                hub.exposed_port->0
            } else {
                service_port
            };
            &&& hub.asks(
                binding,
                HubAction::BindTunnel { addr: hub.tunnel_addr, timeout_secs: 3 },
            )
            &&& h1.asks(accepting, HubAction::AcceptSpoke)
            &&& h2.asks(greeting, HubAction::Receive)
            &&& hub.key is Some ==> {
                &&& h3.asks(greeted, HubAction::Send(ChannelMessage::Challenge { payload: drawn }))
                &&& h4.asks(verifying, HubAction::Receive)
            }
            &&& acked_by.asks(acking, HubAction::Send(ChannelMessage::Ack))
            &&& h6.asks(exposing, HubAction::Expose { ip: hub.exposed_addr, port })
            &&& (h7, listening) == (
                Hub { ctrl: true, exposed_port: Some(port), ..hub },
                HubState::Listening,
            )
        }),
{
}

} // verus!
