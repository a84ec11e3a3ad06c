//! What holds of a hub, and of a spoke, whatever happens to it.
use vstd::prelude::*;

use crate::address::IpAddress;
use crate::auth::right_answer;
use crate::channel::{ChannelMessage, Content, Event, RETRY_PAUSE_SECS};
use crate::hub::{Attempt, Hub, HubAction, HubState, OpenError, Opening, Progress, Stage};
use crate::proxy::ProxyStage;
use crate::spoke::{
    AcceptState, AcceptStep, Dial, DialProgress, DialStage, Spoke, SpokeAction, SpokeState,
};

verus! {

/// One event at the hub, and the challenge that is drawn in case the event calls for one.
pub struct Input {
    pub event: Event,
    pub fresh: Vec<u8>,
}

/// Where hub and channel stand after these inputs.
pub open spec fn opening_after(hub: Hub, opening: Opening, inputs: Seq<Input>) -> (Hub, Progress)
    decreases inputs.len(),
{
    if inputs.len() == 0 {
        (hub, Progress::Pending(opening))
    } else {
        let (hub, progress) = opening_after(hub, opening, inputs.drop_last());
        match progress {
            Progress::Pending(opening) => hub.timed_next(
                opening,
                inputs.last().event,
                inputs.last().fresh,
            ),
            _ => (hub, progress),
        }
    }
}

/// Whether an event brings the greeting of a spoke that opens the right kind of channel.
pub open spec fn greets(is_tunnel: bool, event: Event) -> bool {
    event matches Event::Received(greeting) && if is_tunnel {
        greeting is Data
    } else {
        greeting is Control
    }
}

/// Whether an event brings the right answer to a challenge under the hub's key.
pub open spec fn answers(hub: Hub, event: Event, challenge: Seq<u8>) -> bool {
    &&& hub.key matches Some(key)
    &&& event matches Event::Received(reply)
    &&& reply@ == Content::Answer(right_answer(key@, challenge))
}

/// The port of which the spoke has told the hub in its greeting, where the hub knew none.
pub open spec fn learnt(hub: Hub, event: Event) -> Option<u16> {
    match event {
        Event::Received(ChannelMessage::Control { service_port }) if !hub.ctrl
            && hub.exposed_port is None => Some(service_port),
        _ => hub.exposed_port,
    }
}

/// What the inputs must have been for hub and channel to have come to where they stand.
spec fn explained(before: Hub, inputs: Seq<Input>, hub: Hub, progress: Progress) -> bool {
    &&& hub.key == before.key
    &&& hub.ctrl == before.ctrl
    &&& hub.exposed_addr == before.exposed_addr
    &&& hub.tunnel_addr == before.tunnel_addr
    &&& match progress {
        Progress::Pending(opening) => {
            &&& opening.is_tunnel == before.ctrl
            &&& match opening.stage {
                Stage::Challenging { challenge } | Stage::Verifying { challenge } => exists|i: int|
                    {
                        &&& 0 <= i < inputs.len()
                        &&& greets(before.ctrl, (#[trigger] inputs[i]).event)
                        &&& inputs[i].fresh == challenge
                        &&& hub.exposed_port == learnt(before, inputs[i].event)
                        &&& before.key is Some
                    },
                Stage::Acking => well_opened(before, inputs, hub),
                _ => hub == before,
            }
        },
        Progress::Opened => well_opened(before, inputs, hub),
        Progress::Failed(_) => true,
    }
}

/// Whether the spoke has greeted the hub rightly, and then, where a key is set, answered rightly
/// the challenge that was drawn on the greeting, under that key; and the hub's port is what it
/// was, or what the greeting says.
pub open spec fn well_opened(before: Hub, inputs: Seq<Input>, hub: Hub) -> bool {
    exists|i: int|
        {
            &&& 0 <= i < inputs.len()
            &&& greets(before.ctrl, (#[trigger] inputs[i]).event)
            &&& hub.exposed_port == learnt(before, inputs[i].event)
            &&& before.key is Some ==> exists|j: int|
                i < j < inputs.len() && answers(
                    before,
                    (#[trigger] inputs[j]).event,
                    inputs[i].fresh@,
                )
        }
}

proof fn inputs_explain(hub: Hub, inputs: Seq<Input>)
    ensures
        ({
            let (after, progress) = opening_after(hub, hub.fresh_opening(), inputs);
            explained(hub, inputs, after, progress)
        }),
    decreases inputs.len(),
{
    if inputs.len() > 0 {
        let earlier = inputs.drop_last();
        let last = inputs.last();
        inputs_explain(hub, earlier);
        let (mid, progress) = opening_after(hub, hub.fresh_opening(), earlier);
        assert(forall|i: int| 0 <= i < earlier.len() ==> #[trigger] inputs[i] == earlier[i]);
        assert(inputs[inputs.len() - 1] == last);
        if let Progress::Pending(opening) = progress {
            match opening.stage {
                Stage::Challenging { challenge } | Stage::Verifying { challenge } => {
                    let i = choose|i: int|
                        {
                            &&& 0 <= i < earlier.len()
                            &&& greets(hub.ctrl, (#[trigger] earlier[i]).event)
                            &&& earlier[i].fresh == challenge
                            &&& mid.exposed_port == learnt(hub, earlier[i].event)
                            &&& hub.key is Some
                        };
                    assert(greets(hub.ctrl, inputs[i].event));
                    if answers(hub, last.event, challenge@) {
                        assert(answers(hub, inputs[inputs.len() - 1].event, inputs[i].fresh@));
                    }
                },
                Stage::Acking => {
                    well_opened_extends(hub, earlier, inputs, mid);
                },
                _ => {},
            }
        } else if progress is Opened {
            well_opened_extends(hub, earlier, inputs, mid);
        }
    }
}

proof fn well_opened_extends(before: Hub, earlier: Seq<Input>, inputs: Seq<Input>, hub: Hub)
    requires
        well_opened(before, earlier, hub),
        inputs.len() >= earlier.len(),
        forall|i: int| 0 <= i < earlier.len() ==> #[trigger] inputs[i] == earlier[i],
    ensures
        well_opened(before, inputs, hub),
{
    let i = choose|i: int|
        {
            &&& 0 <= i < earlier.len()
            &&& greets(before.ctrl, (#[trigger] earlier[i]).event)
            &&& hub.exposed_port == learnt(before, earlier[i].event)
            &&& before.key is Some ==> exists|j: int|
                i < j < earlier.len() && answers(
                    before,
                    (#[trigger] earlier[j]).event,
                    earlier[i].fresh@,
                )
        };
    assert(inputs[i] == earlier[i]);
    if before.key is Some {
        let j = choose|j: int|
            i < j < earlier.len() && answers(
                before,
                (#[trigger] earlier[j]).event,
                earlier[i].fresh@,
            );
        assert(inputs[j] == earlier[j]);
    }
}

/// Whatever happens, the hub takes a channel for open only where the spoke has said that it opens
/// that kind of channel, and, where a key is set, has then answered the challenge that was drawn
/// for it with its code under the hub's own key. Nothing about the hub changes meanwhile, but that
/// it learns the port of the service from the spoke's greeting where no port was set.
pub proof fn channel_opens_only_for_the_right_spoke(hub: Hub, inputs: Seq<Input>)
    requires
        opening_after(hub, hub.fresh_opening(), inputs).1 is Opened,
    ensures
        ({
            let after = opening_after(hub, hub.fresh_opening(), inputs).0;
            &&& well_opened(hub, inputs, after)
            &&& after == Hub { exposed_port: after.exposed_port, ..hub }
        }),
{
    inputs_explain(hub, inputs);
}

/// A spoke that does not answer its challenge with the code under the hub's own key is refused, and
/// the hub stays as it is.
pub proof fn wrong_answer_is_refused(
    hub: Hub,
    is_tunnel: bool,
    challenge: Vec<u8>,
    reply: ChannelMessage,
    fresh: Vec<u8>,
)
    requires
        hub.key matches Some(key) ==> reply@ != Content::Answer(right_answer(key@, challenge@)),
    ensures
        hub.timed_next(
            Opening { is_tunnel, stage: Stage::Verifying { challenge } },
            Event::Received(reply),
            fresh,
        ) == (hub, Progress::Failed(OpenError::AuthFailed)),
{
}

/// Whether a spoke has been accepted for a channel that the hub is opening.
pub open spec fn spoke_accepted(stage: Stage) -> bool {
    !(stage is Binding || stage is Announcing || stage is Accepting)
}

/// The hub accepts a connection of a spoke only while it has none for the channel, and once it has
/// one, no step leads back to where it would accept another.
pub proof fn only_one_spoke_is_accepted(
    hub: Hub,
    opening: Opening,
    event: Event,
    fresh: Vec<u8>,
)
    ensures
        hub.opening_asks(opening, HubAction::AcceptSpoke) <==> opening.stage is Accepting,
        spoke_accepted(opening.stage) ==> (hub.timed_next(opening, event, fresh).1
            matches Progress::Pending(next) ==> spoke_accepted(next.stage)),
{
}

/// Whatever happens after a spoke has been accepted for a channel, no second spoke is accepted for
/// it.
pub proof fn no_second_spoke_gets_in(
    hub: Hub,
    opening: Opening,
    earlier: Seq<Input>,
    later: Seq<Input>,
)
    requires
        opening_after(hub, opening, earlier).1 matches Progress::Pending(now) && spoke_accepted(
            now.stage,
        ),
    ensures
        opening_after(hub, opening, earlier + later).1 matches Progress::Pending(then) ==> {
            &&& spoke_accepted(then.stage)
            &&& !opening_after(hub, opening, earlier + later).0.opening_asks(
                then,
                HubAction::AcceptSpoke,
            )
        },
    decreases later.len(),
{
    if later.len() > 0 {
        no_second_spoke_gets_in(hub, opening, earlier, later.drop_last());
        assert((earlier + later).drop_last() =~= earlier + later.drop_last());
    } else {
        assert(earlier + later =~= earlier);
    }
}

/// An attempt to reach the spoke that fails, in whatever way, is followed by a pause, and then by a
/// new attempt.
pub proof fn failed_attempt_is_repeated(hub: Hub, opening: Opening, event: Event, fresh: Vec<u8>)
    requires
        hub.timed_next(opening, event, fresh).1 is Failed,
    ensures
        ({
            let (paused, attempt) = hub.retry_next(Attempt::Trying(opening), event, fresh);
            let error = hub.timed_next(opening, event, fresh).1->Failed_0;
            &&& attempt == Some(Attempt::Pausing(error))
            &&& paused.asks(
                HubState::Connecting(Attempt::Pausing(error)),
                HubAction::Sleep { secs: RETRY_PAUSE_SECS },
            )
            &&& paused.retry_next(Attempt::Pausing(error), Event::Done, fresh) == (
                paused,
                Some(Attempt::Trying(paused.fresh_opening())),
            )
        }),
{
}

/// Where a running hub stands after these inputs.
pub open spec fn run_after(hub: Hub, inputs: Seq<Input>) -> (Hub, HubState)
    decreases inputs.len(),
{
    if inputs.len() == 0 {
        (hub, hub.reconnecting())
    } else {
        let (hub, state) = run_after(hub, inputs.drop_last());
        hub.run_next(state, inputs.last().event, inputs.last().fresh)
    }
}

/// What holds of a running hub between any two events: there is a control channel unless one is
/// being opened or given up, the channel being opened is of the kind that is missing, and the port
/// of the service is known from the moment that a spoke has named it.
pub open spec fn sound(hub: Hub, state: HubState) -> bool {
    match state {
        HubState::Connecting(Attempt::Trying(opening)) => {
            &&& !hub.ctrl
            &&& !opening.is_tunnel
            &&& !(opening.stage is Announcing)
            &&& opening.stage is Challenging || opening.stage is Verifying
                || opening.stage is Acking ==> hub.exposed_port is Some
        },
        HubState::Connecting(Attempt::Pausing(_)) | HubState::Losing(_) => !hub.ctrl,
        HubState::Serving(opening) => {
            &&& hub.ctrl
            &&& hub.exposed_port is Some
            &&& opening.is_tunnel
        },
        HubState::Exposing | HubState::Listening | HubState::Proxying | HubState::Stopped => {
            &&& hub.ctrl
            &&& hub.exposed_port is Some
        },
    }
}

/// Whatever happens to a hub that is started without a control channel, it stays sound. Its
/// addresses and its key never change, and neither does its port once there is one.
pub proof fn running_hub_stays_sound(hub: Hub, inputs: Seq<Input>)
    requires
        !hub.ctrl,
    ensures
        ({
            let (after, state) = run_after(hub, inputs);
            &&& sound(after, state)
            &&& after == Hub { ctrl: after.ctrl, exposed_port: after.exposed_port, ..hub }
            &&& hub.exposed_port is Some ==> after.exposed_port == hub.exposed_port
        }),
    decreases inputs.len(),
{
    if inputs.len() > 0 {
        running_hub_stays_sound(hub, inputs.drop_last());
    }
}

/// The port of a running hub, once there is one, stays the same whatever happens later: a spoke
/// that comes after another does not move the service.
pub proof fn port_never_moves(hub: Hub, earlier: Seq<Input>, later: Seq<Input>)
    requires
        run_after(hub, earlier).0.exposed_port is Some,
    ensures
        run_after(hub, earlier + later).0.exposed_port == run_after(hub, earlier).0.exposed_port,
    decreases later.len(),
{
    if later.len() > 0 {
        port_never_moves(hub, earlier, later.drop_last());
        assert((earlier + later).drop_last() =~= earlier + later.drop_last());
        assert((earlier + later).last() == later.last());
    } else {
        assert(earlier + later =~= earlier);
    }
}

/// A running hub exposes the service at the port that the user has set, or else at the one that a
/// spoke has named; it never falls back to the default.
pub proof fn exposed_port_is_known(hub: Hub, state: HubState, action: HubAction)
    requires
        sound(hub, state),
        hub.asks(state, action),
        action is Expose,
    ensures
        action matches HubAction::Expose { ip, port } && ip == hub.exposed_addr
            && hub.exposed_port == Some(port),
{
}

/// The port in the control greeting that a running hub receives as the input `i` of these, where it
/// receives one there.
pub open spec fn control_heard(hub: Hub, inputs: Seq<Input>, i: int) -> Option<u16> {
    let (now, state) = run_after(hub, inputs.take(i));
    match inputs[i].event {
        Event::Received(ChannelMessage::Control { service_port }) if now.asks(
            state,
            HubAction::Receive,
        ) => Some(service_port),
        _ => None,
    }
}

/// Whether this is the port in the first control greeting that a running hub receives.
pub open spec fn first_heard(hub: Hub, inputs: Seq<Input>, port: u16) -> bool {
    exists|i: int|
        {
            &&& 0 <= i < inputs.len()
            &&& #[trigger] control_heard(hub, inputs, i) == Some(port)
            &&& forall|j: int| 0 <= j < i ==> #[trigger] control_heard(hub, inputs, j) is None
        }
}

/// Where no port is set, the port of a running hub is the one in the first control greeting that it
/// has received from a spoke, and it has none before. So the service is exposed at that port.
pub proof fn port_is_that_of_the_first_spoke(hub: Hub, inputs: Seq<Input>)
    requires
        !hub.ctrl,
        hub.exposed_port is None,
    ensures
        match run_after(hub, inputs).0.exposed_port {
            Some(port) => first_heard(hub, inputs, port),
            None => forall|i: int|
                0 <= i < inputs.len() ==> #[trigger] control_heard(hub, inputs, i) is None,
        },
        forall|ip: IpAddress, port: u16|
            #[trigger] run_after(hub, inputs).0.asks(
                run_after(hub, inputs).1,
                HubAction::Expose { ip, port },
            ) ==> first_heard(hub, inputs, port),
    decreases inputs.len(),
{
    running_hub_stays_sound(hub, inputs);
    if inputs.len() > 0 {
        let earlier = inputs.drop_last();
        let n = inputs.len() - 1;
        running_hub_stays_sound(hub, earlier);
        port_is_that_of_the_first_spoke(hub, earlier);
        assert forall|i: int| 0 <= i < n implies #[trigger] control_heard(hub, inputs, i)
            == control_heard(hub, earlier, i) by {
            assert(inputs.take(i) =~= earlier.take(i));
        }
        assert(inputs.take(n) =~= earlier);
        let before = run_after(hub, earlier).0.exposed_port;
        if before is Some {
            let i = choose|i: int|
                {
                    &&& 0 <= i < earlier.len()
                    &&& #[trigger] control_heard(hub, earlier, i) == before
                    &&& forall|j: int|
                        0 <= j < i ==> #[trigger] control_heard(hub, earlier, j) is None
                };
            assert(control_heard(hub, inputs, i) == before);
        } else {
            assert(control_heard(hub, inputs, n) == run_after(hub, inputs).0.exposed_port);
        }
    }
}

/// A running hub uses the control channel only while there is one, and only to ask for data
/// channels.
pub proof fn control_channel_asks_for_data_channels(hub: Hub, state: HubState, action: HubAction)
    requires
        sound(hub, state),
        hub.asks(state, action),
        action is SendControl,
    ensures
        hub.ctrl,
        action == HubAction::SendControl(ChannelMessage::Accept),
{
}

/// Where no data channel can be opened for a client, the hub gives the control channel up and waits
/// for a spoke to open another one.
pub proof fn lost_data_channel_means_a_new_control_channel(
    hub: Hub,
    opening: Opening,
    event: Event,
    fresh: Vec<u8>,
)
    requires
        hub.timed_next(opening, event, fresh).1 is Failed,
    ensures
        ({
            let (after, state) = hub.run_next(HubState::Serving(opening), event, fresh);
            &&& !after.ctrl
            &&& after.asks(state, HubAction::Release)
            &&& after.run_next(state, Event::Done, fresh) == (
                after,
                HubState::Connecting(
                    Attempt::Trying(Opening { is_tunnel: false, stage: Stage::Binding }),
                ),
            )
        }),
{
}

/// The service is exposed exactly when a control channel has been opened, and a client is proxied
/// exactly when a data channel has been opened for it.
pub proof fn hub_moves_on_with_an_open_channel(
    hub: Hub,
    state: HubState,
    event: Event,
    fresh: Vec<u8>,
)
    ensures
        !(state is Exposing) ==> (hub.run_next(state, event, fresh).1 is Exposing <==> {
            &&& state matches HubState::Connecting(Attempt::Trying(opening))
            &&& hub.timed_next(opening, event, fresh).1 is Opened
        }),
        !(state is Proxying) ==> (hub.run_next(state, event, fresh).1 is Proxying <==> {
            &&& state matches HubState::Serving(opening)
            &&& hub.timed_next(opening, event, fresh).1 is Opened
        }),
{
}

/// A hub stops only because it cannot listen for clients: no spoke can bring it down.
pub proof fn hub_stops_only_for_its_own_port(
    hub: Hub,
    state: HubState,
    event: Event,
    fresh: Vec<u8>,
)
    requires
        !(state is Stopped),
    ensures
        hub.run_next(state, event, fresh).1 is Stopped <==> (event is Failed && (
        state is Exposing || state is Listening)),
{
}

/// Where the spoke's side of a channel stands after these events.
pub open spec fn dial_after(spoke: Spoke, dial: Dial, events: Seq<Event>) -> DialProgress
    decreases events.len(),
{
    if events.len() == 0 {
        DialProgress::Pending(dial)
    } else {
        match dial_after(spoke, dial, events.drop_last()) {
            DialProgress::Pending(dial) => spoke.dial_next(dial, events.last()),
            progress => progress,
        }
    }
}

/// Whether an event brings a challenge.
pub open spec fn brings_challenge(event: Event) -> bool {
    event matches Event::Received(message) && message is Challenge
}

/// Whether an event brings an acknowledgement.
pub open spec fn brings_ack(event: Event) -> bool {
    event matches Event::Received(message) && message is Ack
}

/// Whether, where a key is set, the hub has sent a challenge.
spec fn was_challenged(spoke: Spoke, events: Seq<Event>) -> bool {
    spoke.key is Some ==> exists|i: int|
        0 <= i < events.len() && brings_challenge(#[trigger] events[i])
}

/// Whether the hub has acknowledged the channel, after a challenge where a key is set.
pub open spec fn well_dialed(spoke: Spoke, events: Seq<Event>) -> bool {
    exists|j: int|
        {
            &&& 0 <= j < events.len()
            &&& brings_ack(#[trigger] events[j])
            &&& spoke.key is Some ==> exists|i: int|
                0 <= i < j && brings_challenge(#[trigger] events[i])
        }
}

proof fn events_explain(spoke: Spoke, dial: Dial, events: Seq<Event>)
    requires
        dial.stage is Dialing,
    ensures
        match dial_after(spoke, dial, events) {
            DialProgress::Pending(now) => {
                &&& now.addr == dial.addr
                &&& now.chan_type == dial.chan_type
                &&& now.stage matches DialStage::Answering { key, payload } ==> {
                    &&& spoke.key == Some(key)
                    &&& exists|i: int|
                        0 <= i < events.len() && (#[trigger] events[i]) == Event::Received(
                            ChannelMessage::Challenge { payload },
                        )
                }
                &&& now.stage is AwaitingChallenge ==> spoke.key is Some
                &&& now.stage is Answering || now.stage is AwaitingAck ==> was_challenged(
                    spoke,
                    events,
                )
            },
            DialProgress::Opened => well_dialed(spoke, events),
            DialProgress::Failed(_) => true,
        },
    decreases events.len(),
{
    if events.len() > 0 {
        let earlier = events.drop_last();
        let last = events.last();
        events_explain(spoke, dial, earlier);
        assert(forall|i: int| 0 <= i < earlier.len() ==> #[trigger] events[i] == earlier[i]);
        assert(events[events.len() - 1] == last);
        match dial_after(spoke, dial, earlier) {
            DialProgress::Pending(now) => {
                if spoke.key is Some && was_challenged(spoke, earlier) {
                    let i = choose|i: int|
                        0 <= i < earlier.len() && brings_challenge(#[trigger] earlier[i]);
                    assert(brings_challenge(events[i]));
                }
                if brings_challenge(last) {
                    assert(brings_challenge(events[events.len() - 1]));
                }
                if brings_ack(last) {
                    assert(brings_ack(events[events.len() - 1]));
                }
            },
            DialProgress::Opened => {
                let j = choose|j: int|
                    {
                        &&& 0 <= j < earlier.len()
                        &&& brings_ack(#[trigger] earlier[j])
                        &&& spoke.key is Some ==> exists|i: int|
                            0 <= i < j && brings_challenge(#[trigger] earlier[i])
                    };
                assert(brings_ack(events[j]));
                if spoke.key is Some {
                    let i = choose|i: int| 0 <= i < j && brings_challenge(#[trigger] earlier[i]);
                    assert(brings_challenge(events[i]));
                }
            },
            DialProgress::Failed(_) => {},
        }
    }
}

/// Whatever happens, the spoke takes a channel for open only after the hub has acknowledged it,
/// and, where a key is set, has challenged the spoke before.
pub proof fn channel_opens_only_on_ack(spoke: Spoke, dial: Dial, events: Seq<Event>)
    requires
        dial.stage is Dialing,
        dial_after(spoke, dial, events) is Opened,
    ensures
        well_dialed(spoke, events),
{
    events_explain(spoke, dial, events);
}

/// Whatever happens, the spoke answers only challenges that the hub has sent, and answers them with
/// their code under its own key.
pub proof fn answer_is_under_the_own_key(
    spoke: Spoke,
    dial: Dial,
    events: Seq<Event>,
    answer: ChannelMessage,
)
    requires
        dial.stage is Dialing,
        dial_after(spoke, dial, events) matches DialProgress::Pending(now) && now.stage is Answering
            && now.asks(SpokeAction::Send(answer)),
    ensures
        spoke.key matches Some(key) && exists|i: int|
            {
                &&& 0 <= i < events.len()
                &&& #[trigger] events[i] matches Event::Received(ChannelMessage::Challenge {
                    payload,
                })
                &&& answer@ == Content::Answer(right_answer(key@, payload@))
            },
{
    events_explain(spoke, dial, events);
}

/// A hub that cannot be connected to is tried again after a pause, whatever the spoke has tried
/// before.
pub proof fn unreachable_hub_is_tried_again(spoke: Spoke, dial: Dial)
    requires
        dial.stage is Dialing,
    ensures
        dial_after(spoke, dial, seq![Event::Failed]) == dial.at(DialStage::Pausing),
        dial_after(spoke, dial, seq![Event::Failed, Event::Done]) == DialProgress::Pending(dial),
{
    reveal_with_fuel(dial_after, 3);
    assert(seq![Event::Failed].drop_last() =~= Seq::empty());
    assert(seq![Event::Failed, Event::Done].drop_last() =~= seq![Event::Failed]);
}

/// A spoke starts a task for a data channel each time that the hub asks for one, and never else.
pub proof fn data_channel_only_when_asked_for(spoke: Spoke, state: SpokeState, event: Event)
    requires
        !(state is Spawning),
    ensures
        spoke.run_next(state, event) is Spawning <==> (state is Listening && event
            == Event::Received(ChannelMessage::Accept)),
{
}

/// A spoke stops only where opening the control channel fails. Where an open control channel breaks
/// or ends, because the hub is down, the spoke opens another.
pub proof fn spoke_stops_only_on_refusal(spoke: Spoke, state: SpokeState, event: Event)
    requires
        !(state is Stopped),
    ensures
        spoke.run_next(state, event) is Stopped <==> (state matches SpokeState::Connecting(dial)
            && spoke.dial_next(dial, event) is Failed),
        event is Failed || event is Closed ==> spoke.run_next(SpokeState::Listening, event)
            == SpokeState::Connecting(spoke.control_dial()),
{
}

/// A data channel goes one way: the service is connected to once the hub has acknowledged the
/// channel, what was read from the channel ahead of time goes to the service first, and only then
/// are bytes copied, until both directions have ended.
pub proof fn data_channel_goes_in_order(spoke: Spoke, state: AcceptState, event: Event)
    ensures
        ({
            let step = spoke.accept_next(state, event);
            let reaching = AcceptState::Reaching;
            let flushing = AcceptState::Proxying(ProxyStage::Flushing);
            let copying = AcceptState::Proxying(ProxyStage::Copying);
            &&& step == AcceptStep::Pending(reaching) && state != reaching ==> {
                &&& state matches AcceptState::Connecting(dial)
                &&& dial.stage is AwaitingAck
                &&& brings_ack(event)
            }
            &&& step == AcceptStep::Pending(flushing) && state != flushing ==> state == reaching
                && event is Done
            &&& step == AcceptStep::Pending(copying) && state != copying ==> state == flushing
                && event is Done
            &&& step is Closed ==> state == copying && event is Done
        }),
{
}

} // verus!
