//! What a spoke does with each event, what it asks for, and what it does to connect its hub with
//! its service.
use vstd::prelude::*;

use crate::address::SocketAddress;
use crate::auth::hmac_sha256;
use crate::channel::{ChannelMessage, Content, Event};
use crate::proxy::{proxy, ProxyStage, ProxyStep};
use crate::spoke::{
    AcceptError, AcceptState, AcceptStep, Dial, DialError, DialProgress, DialStage, Spoke,
    SpokeAction, SpokeState,
};

verus! {

/// Whether the spoke waits for a message of the hub at this stage.
pub open spec fn awaits(stage: DialStage) -> bool {
    stage is AwaitingChallenge || stage is AwaitingAck
}

/// A spoke that is set up has the first of the addresses that each of the two names stands for,
/// and the key that it was given; and a copy of a spoke is the same spoke.
pub proof fn new_spoke_is_as_given(
    local_addrs: Vec<SocketAddress>,
    tunnel_addrs: Vec<SocketAddress>,
    key: Option<String>,
    spoke: Spoke,
    copy: Spoke,
)
    requires
        call_ensures(Spoke::new, (local_addrs, tunnel_addrs, key), spoke),
        call_ensures(Spoke::clone, (&spoke,), copy),
    ensures
        spoke.local_addr == local_addrs@.first(),
        spoke.tunnel_addr == tunnel_addrs@.first(),
        spoke.key == key,
        copy == spoke,
{
}

/// A channel is opened to the given address, as a channel of the given kind, and first of all the
/// hub is connected to. A spoke begins with a control channel to its hub, in which it names the
/// port of its own service; a task that serves a data channel begins with that channel, to the
/// same hub.
pub proof fn channels_begin_at_the_hub(
    spoke: Spoke,
    addr: SocketAddress,
    chan_type: ChannelMessage,
    dial: Dial,
    state: SpokeState,
    accept_state: AcceptState,
)
    requires
        call_ensures(Spoke::start_dial, (addr, chan_type), dial),
        call_ensures(Spoke::start, (&spoke,), state),
        call_ensures(Spoke::start_accept, (&spoke,), accept_state),
    ensures
        dial == (Dial { addr, chan_type, stage: DialStage::Dialing }),
        state == SpokeState::Connecting(
            Dial {
                addr: spoke.tunnel_addr,
                chan_type: ChannelMessage::Control { service_port: spoke.local_addr.port },
                stage: DialStage::Dialing,
            },
        ),
        state == SpokeState::Connecting(spoke.control_dial()),
        accept_state == AcceptState::Connecting(
            Dial {
                addr: spoke.tunnel_addr,
                chan_type: ChannelMessage::Data,
                stage: DialStage::Dialing,
            },
        ),
        accept_state == AcceptState::Connecting(spoke.data_dial()),
{
}

/// The stages that an action leads on from, each with the one that it leads to. A spoke with a key
/// waits for a challenge before it waits for the acknowledgement; one without does not.
pub proof fn dial_stages_follow_in_order(
    spoke: Spoke,
    addr: SocketAddress,
    chan_type: ChannelMessage,
    key: String,
    payload: Vec<u8>,
)
    ensures
        spoke.dial_next(Dial { addr, chan_type, stage: DialStage::Dialing }, Event::Done)
            == DialProgress::Pending(Dial { addr, chan_type, stage: DialStage::Declaring }),
        spoke.dial_next(Dial { addr, chan_type, stage: DialStage::Pausing }, Event::Done)
            == DialProgress::Pending(Dial { addr, chan_type, stage: DialStage::Dialing }),
        spoke.key is Some ==> spoke.dial_next(
            Dial { addr, chan_type, stage: DialStage::Declaring },
            Event::Done,
        ) == DialProgress::Pending(Dial { addr, chan_type, stage: DialStage::AwaitingChallenge }),
        spoke.key is None ==> spoke.dial_next(
            Dial { addr, chan_type, stage: DialStage::Declaring },
            Event::Done,
        ) == DialProgress::Pending(Dial { addr, chan_type, stage: DialStage::AwaitingAck }),
        spoke.dial_next(
            Dial { addr, chan_type, stage: DialStage::Answering { key, payload } },
            Event::Done,
        ) == DialProgress::Pending(Dial { addr, chan_type, stage: DialStage::AwaitingAck }),
{
}

/// What an action that fails comes to. A hub that cannot be connected to is tried again after a
/// pause; every later failure ends the channel, with an error that says where.
pub proof fn failed_action_at_the_spoke(spoke: Spoke, dial: Dial)
    ensures
        spoke.dial_next(dial, Event::Failed) == match dial.stage {
            DialStage::Dialing => DialProgress::Pending(
                Dial { addr: dial.addr, chan_type: dial.chan_type, stage: DialStage::Pausing },
            ),
            DialStage::Pausing => DialProgress::Pending(dial),
            DialStage::Declaring => DialProgress::Failed(DialError::Declare),
            DialStage::AwaitingChallenge => DialProgress::Failed(DialError::Io),
            DialStage::Answering { .. } => DialProgress::Failed(DialError::Reset),
            DialStage::AwaitingAck => DialProgress::Failed(DialError::Io),
        },
{
}

/// What a hub that closes the channel, or says something, comes to while the spoke waits for it.
/// Where a challenge is due, only a challenge is taken, and it is answered under the spoke's own
/// key; where an acknowledgement is due, only that is taken, and the channel is open.
pub proof fn word_of_the_hub_decides(
    spoke: Spoke,
    addr: SocketAddress,
    chan_type: ChannelMessage,
    message: ChannelMessage,
)
    ensures
        ({
            let challenged = Dial { addr, chan_type, stage: DialStage::AwaitingChallenge };
            let acked = Dial { addr, chan_type, stage: DialStage::AwaitingAck };
            &&& spoke.dial_next(challenged, Event::Closed) == DialProgress::Failed(DialError::Reset)
            &&& spoke.dial_next(acked, Event::Closed) == DialProgress::Failed(DialError::Lost)
            &&& spoke.key is Some && message is Challenge ==> spoke.dial_next(
                challenged,
                Event::Received(message),
            ) == DialProgress::Pending(
                Dial {
                    addr,
                    chan_type,
                    stage: DialStage::Answering { key: spoke.key->0, payload: message->payload },
                },
            )
            &&& !(spoke.key is Some && message is Challenge) ==> spoke.dial_next(
                challenged,
                Event::Received(message),
            ) == DialProgress::Failed(DialError::NotAcked)
            &&& message is Ack ==> spoke.dial_next(acked, Event::Received(message))
                == DialProgress::Opened
            &&& !(message is Ack) ==> spoke.dial_next(acked, Event::Received(message))
                == DialProgress::Failed(DialError::NotAcked)
        }),
{
}

/// An event that cannot come of what the stage asks for changes nothing.
pub proof fn other_events_leave_a_dial_alone(spoke: Spoke, dial: Dial, event: Event)
    ensures
        event is Done && awaits(dial.stage) ==> spoke.dial_next(dial, event)
            == DialProgress::Pending(dial),
        (event is Closed || event is Received) && !awaits(dial.stage) ==> spoke.dial_next(
            dial,
            event,
        ) == DialProgress::Pending(dial),
        event is TimedOut ==> spoke.dial_next(dial, event) == DialProgress::Pending(dial),
{
}

/// What a spoke asks for about a channel, for each action exactly when: it connects to the address
/// of the channel, or waits three seconds for the next attempt to; it says which kind of channel
/// this is, and answers a challenge with its HMAC-SHA256 code under the bytes of the key; it
/// listens while it waits for the hub. There is nothing else that a channel asks for.
pub proof fn dial_asks_exactly(
    dial: Dial,
    addr: SocketAddress,
    secs: u64,
    message: ChannelMessage,
    action: SpokeAction,
)
    ensures
        dial.asks(SpokeAction::Connect { addr }) <==> dial.stage is Dialing && addr == dial.addr,
        dial.asks(SpokeAction::Sleep { secs }) <==> dial.stage is Pausing && secs == 3,
        dial.asks(SpokeAction::Send(message)) <==> {
            ||| dial.stage is Declaring && message@ == dial.chan_type@
            ||| dial.stage matches DialStage::Answering { key, payload } && (message
                matches ChannelMessage::Answer(code) && code@ == hmac_sha256(
                vstd::utf8::encode_utf8(key@),
                payload@,
            ))
        },
        dial.asks(SpokeAction::Receive) <==> awaits(dial.stage),
        dial.asks(action) ==> (action is Connect || action is Sleep || action is Send
            || action is Receive),
        call_ensures(Dial::action, (&dial,), action) ==> dial.asks(action),
{
}

/// A spoke goes on with its control channel while that is being opened; once it is open it
/// listens; and where it cannot be opened, the spoke stops, for that reason.
pub proof fn control_dial_leads_on(spoke: Spoke, dial: Dial, event: Event)
    ensures
        spoke.run_next(SpokeState::Connecting(dial), event) == match spoke.dial_next(dial, event) {
            DialProgress::Pending(next) => SpokeState::Connecting(next),
            DialProgress::Opened => SpokeState::Listening,
            DialProgress::Failed(error) => SpokeState::Stopped(error),
        },
{
}

/// A spoke that listens starts a task when the hub asks for a data channel, and listens again once
/// the task is started. Where the control channel breaks or ends it opens another, to its hub and
/// with the port of its service. A spoke that has stopped stays so. No other event changes
/// anything.
pub proof fn spoke_listens_again_and_again(spoke: Spoke, event: Event, error: DialError)
    ensures
        spoke.run_next(SpokeState::Listening, event) == match event {
            Event::Received(ChannelMessage::Accept) => SpokeState::Spawning,
            Event::Closed | Event::Failed => SpokeState::Connecting(
                Dial {
                    addr: spoke.tunnel_addr,
                    chan_type: ChannelMessage::Control { service_port: spoke.local_addr.port },
                    stage: DialStage::Dialing,
                },
            ),
            _ => SpokeState::Listening,
        },
        spoke.run_next(SpokeState::Spawning, event) == if event is Done {
            SpokeState::Listening
        } else {
            SpokeState::Spawning
        },
        spoke.run_next(SpokeState::Stopped(error), event) == SpokeState::Stopped(error),
{
}

/// A task goes on with its data channel while that is being opened; once it is open the service is
/// connected to; and where it cannot be opened, the task fails, for that reason.
pub proof fn data_dial_leads_on(spoke: Spoke, dial: Dial, event: Event)
    ensures
        spoke.accept_next(AcceptState::Connecting(dial), event) == match spoke.dial_next(
            dial,
            event,
        ) {
            DialProgress::Pending(next) => AcceptStep::Pending(AcceptState::Connecting(next)),
            DialProgress::Opened => AcceptStep::Pending(AcceptState::Reaching),
            DialProgress::Failed(error) => AcceptStep::Failed(AcceptError::Open(error)),
        },
{
}

/// Once the service is connected to, what was read ahead of time goes to it, then bytes are
/// copied, and when that has ended the task is done. Where one of these fails the task fails, and
/// says whether it was the service that could not be reached. No other event changes anything.
pub proof fn open_data_channel_leads_on(spoke: Spoke, state: AcceptState, event: Event)
    requires
        !(state is Connecting),
    ensures
        spoke.accept_next(AcceptState::Reaching, Event::Done) == AcceptStep::Pending(
            AcceptState::Proxying(ProxyStage::Flushing),
        ),
        spoke.accept_next(AcceptState::Proxying(ProxyStage::Flushing), Event::Done)
            == AcceptStep::Pending(AcceptState::Proxying(ProxyStage::Copying)),
        spoke.accept_next(AcceptState::Proxying(ProxyStage::Copying), Event::Done)
            == AcceptStep::Closed,
        event is Failed ==> spoke.accept_next(state, event) == AcceptStep::Failed(
            if state is Reaching {
                AcceptError::Service
            } else {
                AcceptError::Proxy
            },
        ),
        !(event is Done || event is Failed) ==> spoke.accept_next(state, event)
            == AcceptStep::Pending(state),
{
}

/// A proxied connection is flushed, then copied, then closed; and where a stage goes wrong, the
/// connection broke in that stage.
pub proof fn proxy_goes_in_order(stage: ProxyStage, ok: bool, step: ProxyStep)
    requires
        call_ensures(proxy, (stage, ok), step),
    ensures
        ok && stage is Flushing ==> step == ProxyStep::Continue(ProxyStage::Copying),
        ok && stage is Copying ==> step is Closed,
        !ok ==> step == ProxyStep::Broken(stage),
{
}

/// What a running spoke asks for, for each action exactly when. While its control channel is being
/// opened, that is what the channel asks for.
pub proof fn spoke_asks_exactly(spoke: Spoke, state: SpokeState, action: SpokeAction)
    ensures
        state matches SpokeState::Connecting(dial) ==> (spoke.asks(state, action) <==> dial.asks(
            action,
        )),
        !(state is Connecting) ==> (spoke.asks(state, action) <==> {
            ||| state is Listening && action is Receive
            ||| state is Spawning && action is SpawnAccept
            ||| state is Stopped && action is Stop
        }),
        call_ensures(Spoke::action, (&spoke, &state), action) ==> spoke.asks(state, action),
{
}

/// What a task asks for, for each action exactly when. While its data channel is being opened,
/// that is what the channel asks for. The service that is connected to is always the spoke's own.
pub proof fn task_asks_exactly(
    spoke: Spoke,
    state: AcceptState,
    action: SpokeAction,
    addr: SocketAddress,
)
    ensures
        state matches AcceptState::Connecting(dial) ==> (spoke.accept_asks(state, action)
            <==> dial.asks(action)),
        spoke.accept_asks(state, SpokeAction::ConnectService { addr }) <==> state is Reaching
            && addr == spoke.local_addr,
        spoke.accept_asks(state, SpokeAction::Flush) <==> state == AcceptState::Proxying(
            ProxyStage::Flushing,
        ),
        spoke.accept_asks(state, SpokeAction::Copy) <==> state == AcceptState::Proxying(
            ProxyStage::Copying,
        ),
        !(state is Connecting) && spoke.accept_asks(state, action) ==> (action is ConnectService
            || action is Flush || action is Copy),
        call_ensures(Spoke::accept_action, (&spoke, &state), action) ==> spoke.accept_asks(
            state,
            action,
        ),
        call_ensures(Spoke::accept_action, (&spoke, &state), action) ==> (action
            matches SpokeAction::ConnectService { addr: service } ==> service
            == spoke.local_addr),
{
}

/// A spoke moves its channels, itself and its tasks on as these laws say.
pub proof fn spoke_moves_on(
    spoke: Spoke,
    dial: Dial,
    progress: DialProgress,
    state: SpokeState,
    next: SpokeState,
    accept_state: AcceptState,
    step: AcceptStep,
    event: Event,
)
    ensures
        call_ensures(Spoke::open_chan_retry, (&spoke, dial, event), progress) ==> progress
            == spoke.dial_next(dial, event),
        call_ensures(Spoke::run, (&spoke, state, event), next) ==> next == spoke.run_next(
            state,
            event,
        ),
        call_ensures(Spoke::accept, (&spoke, accept_state, event), step) ==> step
            == spoke.accept_next(accept_state, event),
{
}

/// A spoke can be set up with any addresses, if there is one for each name. Its channels and its
/// tasks take every event; so does the running spoke itself, but for messages over an open control
/// channel that the hub never sends; which these are, the spoke can tell.
pub proof fn spoke_takes_every_event(
    spoke: Spoke,
    local_addrs: Vec<SocketAddress>,
    tunnel_addrs: Vec<SocketAddress>,
    key: Option<String>,
    dial: Dial,
    state: SpokeState,
    accept_state: AcceptState,
    event: Event,
    message: ChannelMessage,
    may: bool,
)
    ensures
        local_addrs@.len() > 0 && tunnel_addrs@.len() > 0 ==> call_requires(
            Spoke::new,
            (local_addrs, tunnel_addrs, key),
        ),
        call_requires(Spoke::open_chan_retry, (&spoke, dial, event)),
        call_requires(Spoke::accept, (&spoke, accept_state, event)),
        call_requires(Spoke::action, (&spoke, &state)),
        call_requires(Spoke::accept_action, (&spoke, &accept_state)),
        !(state is Listening) ==> call_requires(Spoke::run, (&spoke, state, event)),
        !(event is Received) ==> call_requires(Spoke::run, (&spoke, state, event)),
        call_ensures(Spoke::may_receive, (&message,), may) ==> (may <==> message is Accept),
        call_ensures(Spoke::may_receive, (&message,), may) && may ==> call_requires(
            Spoke::run,
            (&spoke, state, Event::Received(message)),
        ),
{
}

/// Each error of the spoke has its own words, but for the failed operation, whose own words say it.
pub proof fn spoke_errors_in_words(
    error: DialError,
    text: Option<&'static str>,
    task_error: AcceptError,
    task_text: Option<&'static str>,
    event: Event,
    control_text: Option<&'static str>,
)
    requires
        call_ensures(DialError::text, (&error,), text),
        call_ensures(AcceptError::text, (&task_error,), task_text),
        call_ensures(Spoke::control_error, (&event,), control_text),
    ensures
        match error {
            DialError::Declare => text matches Some(s) && s@
                == "failed to open control channel with the hub"@,
            DialError::Reset => text matches Some(s) && s@ == "connection reset by peer"@,
            DialError::Io => text is None,
            DialError::NotAcked => text matches Some(s) && s@
                == "the hub should have acked our request to open a control channel, but it won't"@,
            DialError::Lost => text matches Some(s) && s@ == "connection lost, is the key correct?"@,
        },
        match task_error {
            AcceptError::Open(cause) => cause == error ==> (text is None <==> task_text is None) && (
            text matches Some(s) ==> task_text matches Some(t) ==> s@ == t@),
            AcceptError::Service => task_text is None,
            AcceptError::Proxy => task_text matches Some(s) && s@
                == "broken proxy between service and tunnel"@,
        },
        match event {
            Event::Failed => control_text matches Some(s) && s@
                == "control channel error, is the hub up?"@,
            Event::Closed => control_text matches Some(s) && s@ == "connection reset by peer"@,
            _ => control_text is None,
        },
{
}

/// Where the service cannot be connected to, the spoke names the address at which it tried.
pub proof fn service_error_names_the_service(
    spoke: Spoke,
    parts: (&'static str, SocketAddress, &'static str),
)
    requires
        call_ensures(Spoke::service_error, (&spoke,), parts),
    ensures
        spoke.accept_asks(AcceptState::Reaching, SpokeAction::ConnectService { addr: parts.1 }),
        parts.0@ == "can't connect to local service "@,
        parts.1 == spoke.local_addr,
        parts.2@ == ", is the local service up?"@,
{
}

/// Where a running spoke stands after these events.
pub open spec fn spoke_after(spoke: Spoke, events: Seq<Event>) -> SpokeState
    decreases events.len(),
{
    if events.len() == 0 {
        SpokeState::Connecting(spoke.control_dial())
    } else {
        spoke.run_next(spoke_after(spoke, events.drop_last()), events.last())
    }
}

/// Where a task that serves a data channel stands after these events.
pub open spec fn task_after(spoke: Spoke, events: Seq<Event>) -> AcceptStep
    decreases events.len(),
{
    if events.len() == 0 {
        AcceptStep::Pending(AcceptState::Connecting(spoke.data_dial()))
    } else {
        match task_after(spoke, events.drop_last()) {
            AcceptStep::Pending(state) => spoke.accept_next(state, events.last()),
            step => step,
        }
    }
}

/// Whether one of these events brings the challenge that a message answers, and the message is its
/// HMAC-SHA256 code under the bytes of the spoke's key.
pub open spec fn answers_one_of(spoke: Spoke, events: Seq<Event>, message: ChannelMessage) -> bool {
    spoke.key matches Some(key) && (message matches ChannelMessage::Answer(code) && exists|i: int|
        {
            &&& 0 <= i < events.len()
            &&& #[trigger] events[i] matches Event::Received(ChannelMessage::Challenge { payload })
            &&& code@ == hmac_sha256(vstd::utf8::encode_utf8(key@), payload@)
        })
}

/// Whether this is a channel of the spoke to its hub, of this kind, at a stage that these events
/// explain.
spec fn own_dial(spoke: Spoke, kind: ChannelMessage, dial: Dial, events: Seq<Event>) -> bool {
    &&& dial.addr == spoke.tunnel_addr
    &&& dial.chan_type == kind
    &&& dial.stage matches DialStage::Answering { key, payload } ==> spoke.key == Some(key)
        && exists|i: int|
        0 <= i < events.len() && #[trigger] events[i] == Event::Received(
            ChannelMessage::Challenge { payload },
        )
}

proof fn own_dial_moves_on(
    spoke: Spoke,
    kind: ChannelMessage,
    dial: Dial,
    earlier: Seq<Event>,
    event: Event,
)
    requires
        own_dial(spoke, kind, dial, earlier),
    ensures
        spoke.dial_next(dial, event) matches DialProgress::Pending(next) ==> own_dial(
            spoke,
            kind,
            next,
            earlier.push(event),
        ),
{
    let events = earlier.push(event);
    assert(forall|i: int| 0 <= i < earlier.len() ==> #[trigger] events[i] == earlier[i]);
    assert(events[earlier.len() as int] == event);
    if let DialStage::Answering { key, payload } = dial.stage {
        let i = choose|i: int|
            0 <= i < earlier.len() && #[trigger] earlier[i] == Event::Received(
                ChannelMessage::Challenge { payload },
            );
        assert(events[i] == earlier[i]);
    }
}

proof fn spoke_keeps_its_dial(spoke: Spoke, events: Seq<Event>)
    ensures
        spoke_after(spoke, events) matches SpokeState::Connecting(dial) ==> own_dial(
            spoke,
            ChannelMessage::Control { service_port: spoke.local_addr.port },
            dial,
            events,
        ),
    decreases events.len(),
{
    if events.len() > 0 {
        let earlier = events.drop_last();
        spoke_keeps_its_dial(spoke, earlier);
        assert(earlier.push(events.last()) =~= events);
        if let SpokeState::Connecting(dial) = spoke_after(spoke, earlier) {
            own_dial_moves_on(
                spoke,
                ChannelMessage::Control { service_port: spoke.local_addr.port },
                dial,
                earlier,
                events.last(),
            );
        }
    }
}

proof fn task_keeps_its_dial(spoke: Spoke, events: Seq<Event>)
    ensures
        task_after(spoke, events) matches AcceptStep::Pending(AcceptState::Connecting(dial))
            ==> own_dial(spoke, ChannelMessage::Data, dial, events),
    decreases events.len(),
{
    if events.len() > 0 {
        let earlier = events.drop_last();
        task_keeps_its_dial(spoke, earlier);
        assert(earlier.push(events.last()) =~= events);
        if let AcceptStep::Pending(AcceptState::Connecting(dial)) = task_after(spoke, earlier) {
            own_dial_moves_on(spoke, ChannelMessage::Data, dial, earlier, events.last());
        }
    }
}

/// Whatever happens to a running spoke, each connection that it asks for goes to its hub, and all
/// that it says there is that it opens a control channel for the port of its service, and what
/// answers the challenges of the hub under its own key. It never connects to the service itself.
pub proof fn spoke_keeps_to_its_hub(spoke: Spoke, events: Seq<Event>, action: SpokeAction)
    requires
        spoke.asks(spoke_after(spoke, events), action),
    ensures
        action matches SpokeAction::Connect { addr } ==> addr == spoke.tunnel_addr,
        action matches SpokeAction::Send(message) ==> message@ == (Content::Control {
            service_port: spoke.local_addr.port,
        }) || answers_one_of(spoke, events, message),
        !(action is ConnectService || action is Flush || action is Copy),
{
    spoke_keeps_its_dial(spoke, events);
}

/// Whatever happens to a task of a spoke, each channel that it asks for goes to the hub, all that
/// it says there is that it opens a data channel, and what answers the challenges of the hub under
/// the spoke's own key; and the service that it connects to is the spoke's own.
pub proof fn task_keeps_to_hub_and_service(
    spoke: Spoke,
    events: Seq<Event>,
    action: SpokeAction,
)
    requires
        task_after(spoke, events) matches AcceptStep::Pending(state) && spoke.accept_asks(
            state,
            action,
        ),
    ensures
        action matches SpokeAction::Connect { addr } ==> addr == spoke.tunnel_addr,
        action matches SpokeAction::Send(message) ==> message@ == Content::Data || answers_one_of(
            spoke,
            events,
            message,
        ),
        action matches SpokeAction::ConnectService { addr } ==> addr == spoke.local_addr,
        !(action is SpawnAccept || action is Stop),
{
    task_keeps_its_dial(spoke, events);
}

/// A spoke whose hub does what is due has its control channel, whatever its key: it connects to
/// the hub, declares the channel with the port of its service, where it has a key answers the
/// challenge, and listens once the hub has acknowledged. When the hub then asks for a data
/// channel, a task for it is started, and the spoke listens again.
pub proof fn spoke_gets_its_control_channel(spoke: Spoke, payload: Vec<u8>, answer: Vec<u8>)
    requires
        spoke.key matches Some(key) ==> answer@ == hmac_sha256(
            vstd::utf8::encode_utf8(key@),
            payload@,
        ),
    ensures
        ({
            let dialing = SpokeState::Connecting(spoke.control_dial());
            let declaring = spoke.run_next(dialing, Event::Done);
            let declared = spoke.run_next(declaring, Event::Done);
            let answering = spoke.run_next(
                declared,
                Event::Received(ChannelMessage::Challenge { payload }),
            );
            let answered = spoke.run_next(answering, Event::Done);
            let awaiting = if spoke.key is Some {
                answered
            } else {
                declared
            };
            let listening = spoke.run_next(awaiting, Event::Received(ChannelMessage::Ack));
            let spawning = spoke.run_next(listening, Event::Received(ChannelMessage::Accept));
            &&& spoke.asks(dialing, SpokeAction::Connect { addr: spoke.tunnel_addr })
            &&& spoke.asks(
                declaring,
                SpokeAction::Send(
                    ChannelMessage::Control { service_port: spoke.local_addr.port },
                ),
            )
            &&& spoke.key is Some ==> {
                &&& spoke.asks(declared, SpokeAction::Receive)
                &&& spoke.asks(answering, SpokeAction::Send(ChannelMessage::Answer(answer)))
            }
            &&& spoke.asks(awaiting, SpokeAction::Receive)
            &&& listening == SpokeState::Listening
            &&& spoke.asks(listening, SpokeAction::Receive)
            &&& spoke.asks(spawning, SpokeAction::SpawnAccept)
            &&& spoke.run_next(spawning, Event::Done) == SpokeState::Listening
        }),
{
}

/// A task whose hub does what is due connects hub and service, whatever the key of the spoke: it
/// connects to the hub, declares a data channel, where the spoke has a key answers the challenge,
/// and once the hub has acknowledged connects to the service; then what was read ahead of time is
/// flushed, bytes are copied, and the task is done.
pub proof fn task_connects_hub_and_service(spoke: Spoke, payload: Vec<u8>, answer: Vec<u8>)
    requires
        spoke.key matches Some(key) ==> answer@ == hmac_sha256(
            vstd::utf8::encode_utf8(key@),
            payload@,
        ),
    ensures
        ({
            let dialing = AcceptState::Connecting(spoke.data_dial());
            let declaring = spoke.accept_next(dialing, Event::Done)->Pending_0;
            let declared = spoke.accept_next(declaring, Event::Done)->Pending_0;
            let answering = spoke.accept_next(
                declared,
                Event::Received(ChannelMessage::Challenge { payload }),
            )->Pending_0;
            let answered = spoke.accept_next(answering, Event::Done)->Pending_0;
            let awaiting = if spoke.key is Some {
                answered
            } else {
                declared
            };
            let reaching = spoke.accept_next(
                awaiting,
                Event::Received(ChannelMessage::Ack),
            )->Pending_0;
            let flushing = spoke.accept_next(reaching, Event::Done)->Pending_0;
            let copying = spoke.accept_next(flushing, Event::Done)->Pending_0;
            &&& spoke.accept_asks(dialing, SpokeAction::Connect { addr: spoke.tunnel_addr })
            &&& spoke.accept_asks(declaring, SpokeAction::Send(ChannelMessage::Data))
            &&& spoke.key is Some ==> {
                &&& spoke.accept_asks(declared, SpokeAction::Receive)
                &&& spoke.accept_asks(answering, SpokeAction::Send(ChannelMessage::Answer(answer)))
            }
            &&& spoke.accept_asks(awaiting, SpokeAction::Receive)
            &&& spoke.accept_asks(
                reaching,
                SpokeAction::ConnectService { addr: spoke.local_addr },
            )
            &&& spoke.accept_asks(flushing, SpokeAction::Flush)
            &&& spoke.accept_asks(copying, SpokeAction::Copy)
            &&& spoke.accept_next(copying, Event::Done) == AcceptStep::Closed
        }),
{
}

} // verus!
