//! The spoke: it keeps a control channel to the hub, and opens a data channel between the hub and
//! the local service whenever the hub asks for one.
use vstd::prelude::*;

use crate::address::SocketAddress;
use crate::auth::{answer_challenge, right_answer};
use crate::channel::{in_words, ChannelMessage, Content, Event, RETRY_PAUSE_SECS};
use crate::proxy::{proxy, proxy_next, ProxyStage, ProxyStep};

verus! {

/// A spoke.
#[derive(Debug, PartialEq, Eq)]
pub struct Spoke {
    /// Where the service is.
    pub local_addr: SocketAddress,
    /// Where the hub is.
    pub tunnel_addr: SocketAddress,
    /// Where a key is set, the spoke expects to be challenged, and answers under this key.
    pub key: Option<String>,
}

/// Why the spoke could not open a channel.
#[derive(Debug, Clone, Copy, PartialEq, Eq, Structural)]
pub enum DialError {
    /// The hub could not be told which kind of channel is opened.
    Declare,
    /// The hub has closed the channel, where a challenge was due.
    Reset,
    /// A message could not be read.
    Io,
    /// The hub sent another message than the one that was due.
    NotAcked,
    /// The hub has closed the channel, where it should have acknowledged it.
    Lost,
}

impl DialError {
    /// The error in words.
    pub open spec fn words(self) -> Option<Seq<char>> {
        match self {
            DialError::Declare => Some("failed to open control channel with the hub"@),
            DialError::Reset => Some("connection reset by peer"@),
            DialError::Io => None,
            DialError::NotAcked => Some(
                "the hub should have acked our request to open a control channel, but it won't"@,
            ),
            DialError::Lost => Some("connection lost, is the key correct?"@),
        }
    }

    /// The error in words; none where those of the failed operation say it.
    pub fn text(&self) -> (s: Option<&'static str>)
        ensures
            in_words(s) == self.words(),
    {
        match self {
            DialError::Declare => Some("failed to open control channel with the hub"),
            DialError::Reset => Some("connection reset by peer"),
            DialError::Io => None,
            DialError::NotAcked => Some(
                "the hub should have acked our request to open a control channel, but it won't",
            ),
            DialError::Lost => Some("connection lost, is the key correct?"),
        }
    }
}

/// How far the spoke has come in opening a channel.
#[derive(Debug, PartialEq, Eq)]
pub enum DialStage {
    /// The hub is being connected to.
    Dialing,
    /// The next attempt to connect is some time off.
    Pausing,
    /// The hub is being told which kind of channel this is.
    Declaring,
    /// The hub is to send a challenge.
    AwaitingChallenge,
    /// A challenge is being answered.
    Answering { key: String, payload: Vec<u8> },
    /// The hub is to acknowledge the channel.
    AwaitingAck,
}

/// A channel that the spoke is opening.
#[derive(Debug, PartialEq, Eq)]
pub struct Dial {
    pub addr: SocketAddress,
    /// What the hub is told of the channel.
    pub chan_type: ChannelMessage,
    pub stage: DialStage,
}

/// What comes of a step towards an open channel.
#[derive(Debug, PartialEq, Eq)]
pub enum DialProgress {
    Pending(Dial),
    Opened,
    Failed(DialError),
}

/// Where a running spoke stands.
#[derive(Debug, PartialEq, Eq)]
pub enum SpokeState {
    /// The control channel is being opened.
    Connecting(Dial),
    /// The hub is to ask for a data channel.
    Listening,
    /// A task that serves one data channel is being started.
    Spawning,
    /// The control channel could not be opened.
    Stopped(DialError),
}

/// Where a data channel stands that the hub has asked for.
#[derive(Debug, PartialEq, Eq)]
pub enum AcceptState {
    /// The channel is being opened.
    Connecting(Dial),
    /// The service is being connected to.
    Reaching,
    /// Hub and service are connected.
    Proxying(ProxyStage),
}

/// Why a data channel broke down.
#[derive(Debug, Clone, Copy, PartialEq, Eq, Structural)]
pub enum AcceptError {
    /// The channel could not be opened.
    Open(DialError),
    /// The service could not be connected to.
    Service,
    /// The connection between service and tunnel broke.
    Proxy,
}

impl AcceptError {
    /// The error in words; none where those of the failed operation say it, or where the address
    /// of the service belongs into them (see [`Spoke::service_error`]).
    pub fn text(&self) -> (s: Option<&'static str>)
        ensures
            in_words(s) == match *self {
                AcceptError::Open(error) => error.words(),
                AcceptError::Service => None,
                AcceptError::Proxy => Some("broken proxy between service and tunnel"@),
            },
    {
        match self {
            AcceptError::Open(error) => error.text(),
            AcceptError::Service => None,
            AcceptError::Proxy => Some("broken proxy between service and tunnel"),
        }
    }
}

/// What comes of a step of a data channel.
#[derive(Debug, PartialEq, Eq)]
pub enum AcceptStep {
    Pending(AcceptState),
    /// The connection has ended.
    Closed,
    Failed(AcceptError),
}

/// What the spoke has to do next.
#[derive(Debug, PartialEq, Eq)]
pub enum SpokeAction {
    /// Connect to the hub.
    Connect { addr: SocketAddress },
    /// Wait.
    Sleep { secs: u64 },
    /// Send a message over the channel.
    Send(ChannelMessage),
    /// Receive a message over the channel.
    Receive,
    /// Start a task that serves one data channel.
    SpawnAccept,
    /// Connect to the service.
    ConnectService { addr: SocketAddress },
    /// Write to the service what was read from the channel ahead of time.
    Flush,
    /// Copy bytes between the service and the channel in both directions.
    Copy,
    /// Give up.
    Stop,
}

impl Dial {
    /// The same channel, at another stage.
    pub open spec fn at(self, stage: DialStage) -> DialProgress {
        DialProgress::Pending(Dial { stage, ..self })
    }

    /// Whether this is what has to be done next about the channel.
    pub open spec fn asks(self, action: SpokeAction) -> bool {
        match self.stage {
            DialStage::Dialing => action == (SpokeAction::Connect { addr: self.addr }),
            DialStage::Pausing => action == (SpokeAction::Sleep { secs: RETRY_PAUSE_SECS }),
            DialStage::Declaring => action matches SpokeAction::Send(message) && message@
                == self.chan_type@,
            DialStage::AwaitingChallenge | DialStage::AwaitingAck => action == SpokeAction::Receive,
            DialStage::Answering { key, payload } => action matches SpokeAction::Send(message)
                && message@ == Content::Answer(right_answer(key@, payload@)),
        }
    }

    /// What has to be done next about the channel.
    pub fn action(&self) -> (action: SpokeAction)
        ensures
            self.asks(action),
    {
        match &self.stage {
            DialStage::Dialing => SpokeAction::Connect { addr: self.addr },
            DialStage::Pausing => SpokeAction::Sleep { secs: RETRY_PAUSE_SECS },
            DialStage::Declaring => SpokeAction::Send(self.chan_type.clone()),
            DialStage::AwaitingChallenge => SpokeAction::Receive,
            DialStage::Answering { key, payload } => SpokeAction::Send(
                ChannelMessage::Answer(answer_challenge(key.as_str(), payload.as_slice())),
            ),
            DialStage::AwaitingAck => SpokeAction::Receive,
        }
    }
}

impl Clone for Spoke {
    fn clone(&self) -> (r: Spoke)
        ensures
            r == *self,
    {
        let key = match &self.key {
            Some(key) => Some(key.clone()),
            None => None,
        };
        Spoke { local_addr: self.local_addr, tunnel_addr: self.tunnel_addr, key }
    }
}

impl Spoke {
    /// Sets up a spoke. Each of the two addresses is the first of those that its name stands for.
    pub fn new(
        local_addrs: Vec<SocketAddress>,
        tunnel_addrs: Vec<SocketAddress>,
        key: Option<String>,
    ) -> (spoke: Spoke)
        requires
            local_addrs@.len() > 0,
            tunnel_addrs@.len() > 0,
        ensures
            spoke == (Spoke { local_addr: local_addrs@[0], tunnel_addr: tunnel_addrs@[0], key }),
    {
        Spoke { local_addr: local_addrs[0], tunnel_addr: tunnel_addrs[0], key }
    }

    /// What an event comes to for a channel that is being opened.
    pub open spec fn dial_next(self, dial: Dial, event: Event) -> DialProgress {
        let receiving = dial.stage is AwaitingChallenge || dial.stage is AwaitingAck;
        match event {
            Event::Failed => match dial.stage {
                DialStage::Dialing => dial.at(DialStage::Pausing),
                DialStage::Pausing => DialProgress::Pending(dial),
                DialStage::Declaring => DialProgress::Failed(DialError::Declare),
                DialStage::Answering { .. } => DialProgress::Failed(DialError::Reset),
                _ => DialProgress::Failed(DialError::Io),
            },
            Event::Done => match dial.stage {
                DialStage::Dialing => dial.at(DialStage::Declaring),
                DialStage::Pausing => dial.at(DialStage::Dialing),
                DialStage::Declaring if self.key is Some => dial.at(DialStage::AwaitingChallenge),
                DialStage::Declaring => dial.at(DialStage::AwaitingAck),
                DialStage::Answering { .. } => dial.at(DialStage::AwaitingAck),
                _ => DialProgress::Pending(dial),
            },
            Event::Closed if receiving => DialProgress::Failed(
                if dial.stage is AwaitingChallenge {
                    DialError::Reset
                } else {
                    DialError::Lost
                },
            ),
            Event::Received(message) if receiving => match (dial.stage, message) {
                (
                    DialStage::AwaitingChallenge,
                    ChannelMessage::Challenge { payload },
                ) => match self.key {
                    Some(key) => dial.at(DialStage::Answering { key, payload }),
                    None => DialProgress::Failed(DialError::NotAcked),
                },
                (DialStage::AwaitingAck, ChannelMessage::Ack) => DialProgress::Opened,
                _ => DialProgress::Failed(DialError::NotAcked),
            },
            _ => DialProgress::Pending(dial),
        }
    }

    /// A channel of which nothing has been done yet.
    pub fn start_dial(addr: SocketAddress, chan_type: ChannelMessage) -> (dial: Dial)
        ensures
            dial == (Dial { addr, chan_type, stage: DialStage::Dialing }),
    {
        Dial { addr, chan_type, stage: DialStage::Dialing }
    }

    /// Moves a channel that is being opened on. The hub is tried until it can be connected to;
    /// after that there is one attempt.
    pub fn open_chan_retry(&self, dial: Dial, event: Event) -> (progress: DialProgress)
        ensures
            progress == self.dial_next(dial, event),
    {
        let Dial { addr, chan_type, stage } = dial;
        let stage = match stage {
            DialStage::Dialing => match event {
                Event::Done => DialStage::Declaring,
                Event::Failed => DialStage::Pausing,
                _ => DialStage::Dialing,
            },
            DialStage::Pausing => match event {
                Event::Done => DialStage::Dialing,
                _ => DialStage::Pausing,
            },
            DialStage::Declaring => match event {
                Event::Done => if self.key.is_some() {
                    DialStage::AwaitingChallenge
                } else {
                    DialStage::AwaitingAck
                },
                Event::Failed => {
                    return DialProgress::Failed(DialError::Declare);
                },
                _ => DialStage::Declaring,
            },
            DialStage::AwaitingChallenge => match event {
                Event::Received(ChannelMessage::Challenge { payload }) => match &self.key {
                    Some(key) => DialStage::Answering { key: key.clone(), payload },
                    None => {
                        return DialProgress::Failed(DialError::NotAcked);
                    },
                },
                Event::Received(_) => {
                    return DialProgress::Failed(DialError::NotAcked);
                },
                Event::Closed => {
                    return DialProgress::Failed(DialError::Reset);
                },
                Event::Failed => {
                    return DialProgress::Failed(DialError::Io);
                },
                _ => DialStage::AwaitingChallenge,
            },
            DialStage::Answering { key, payload } => match event {
                Event::Done => DialStage::AwaitingAck,
                Event::Failed => {
                    return DialProgress::Failed(DialError::Reset);
                },
                _ => DialStage::Answering { key, payload },
            },
            DialStage::AwaitingAck => match event {
                Event::Received(ChannelMessage::Ack) => {
                    return DialProgress::Opened;
                },
                Event::Received(_) => {
                    return DialProgress::Failed(DialError::NotAcked);
                },
                Event::Closed => {
                    return DialProgress::Failed(DialError::Lost);
                },
                Event::Failed => {
                    return DialProgress::Failed(DialError::Io);
                },
                _ => DialStage::AwaitingAck,
            },
        };
        DialProgress::Pending(Dial { addr, chan_type, stage })
    }

    /// The control channel, of which nothing has been done yet.
    pub open spec fn control_dial(self) -> Dial {
        Dial {
            addr: self.tunnel_addr,
            chan_type: ChannelMessage::Control { service_port: self.local_addr.port },
            stage: DialStage::Dialing,
        }
    }

    /// A data channel, of which nothing has been done yet.
    pub open spec fn data_dial(self) -> Dial {
        Dial {
            addr: self.tunnel_addr,
            chan_type: ChannelMessage::Data,
            stage: DialStage::Dialing,
        }
    }

    /// What an event comes to for a running spoke.
    pub open spec fn run_next(self, state: SpokeState, event: Event) -> SpokeState {
        match state {
            SpokeState::Connecting(dial) => match self.dial_next(dial, event) {
                DialProgress::Pending(next) => SpokeState::Connecting(next),
                DialProgress::Opened => SpokeState::Listening,
                DialProgress::Failed(error) => SpokeState::Stopped(error),
            },
            SpokeState::Listening => match event {
                Event::Received(ChannelMessage::Accept) => SpokeState::Spawning,
                Event::Closed | Event::Failed => SpokeState::Connecting(self.control_dial()),
                _ => state,
            },
            SpokeState::Spawning => match event {
                Event::Done => SpokeState::Listening,
                _ => state,
            },
            SpokeState::Stopped(_) => state,
        }
    }

    /// Whether a message may come over the open control channel: the hub only ever asks for data
    /// channels.
    pub fn may_receive(message: &ChannelMessage) -> (r: bool)
        ensures
            r == (*message is Accept),
    {
        match message {
            ChannelMessage::Accept => true,
            _ => false,
        }
    }

    /// What is to be said of an event at the open control channel after which another one is
    /// opened.
    pub fn control_error(event: &Event) -> (s: Option<&'static str>)
        ensures
            in_words(s) == match *event {
                Event::Failed => Some("control channel error, is the hub up?"@),
                Event::Closed => Some("connection reset by peer"@),
                _ => None,
            },
    {
        match event {
            Event::Failed => Some("control channel error, is the hub up?"),
            Event::Closed => Some("connection reset by peer"),
            _ => None,
        }
    }

    /// Where a spoke begins to run.
    pub fn start(&self) -> (state: SpokeState)
        ensures
            state == SpokeState::Connecting(self.control_dial()),
    {
        let port = self.local_addr.port;
        SpokeState::Connecting(
            Spoke::start_dial(self.tunnel_addr, ChannelMessage::Control { service_port: port }),
        )
    }

    /// Moves a running spoke on. It opens the control channel, and starts a task for each data
    /// channel that the hub asks for. Where the control channel breaks or ends it opens another;
    /// the spoke stops where the hub can be connected to and the control channel cannot be opened.
    pub fn run(&self, state: SpokeState, event: Event) -> (next: SpokeState)
        requires
            state is Listening ==> (event matches Event::Received(message) ==> message is Accept),
        ensures
            next == self.run_next(state, event),
    {
        match state {
            SpokeState::Connecting(dial) => match self.open_chan_retry(dial, event) {
                DialProgress::Pending(next) => SpokeState::Connecting(next),
                DialProgress::Opened => SpokeState::Listening,
                DialProgress::Failed(error) => SpokeState::Stopped(error),
            },
            SpokeState::Listening => match event {
                Event::Received(ChannelMessage::Accept) => SpokeState::Spawning,
                Event::Closed | Event::Failed => self.start(),
                _ => SpokeState::Listening,
            },
            SpokeState::Spawning => match event {
                Event::Done => SpokeState::Listening,
                _ => SpokeState::Spawning,
            },
            SpokeState::Stopped(error) => SpokeState::Stopped(error),
        }
    }

    /// Whether this is what a running spoke has to do next.
    pub open spec fn asks(self, state: SpokeState, action: SpokeAction) -> bool {
        match state {
            SpokeState::Connecting(dial) => dial.asks(action),
            SpokeState::Listening => action == SpokeAction::Receive,
            SpokeState::Spawning => action == SpokeAction::SpawnAccept,
            SpokeState::Stopped(_) => action == SpokeAction::Stop,
        }
    }

    /// What a running spoke has to do next.
    pub fn action(&self, state: &SpokeState) -> (action: SpokeAction)
        ensures
            self.asks(*state, action),
    {
        match state {
            SpokeState::Connecting(dial) => dial.action(),
            SpokeState::Listening => SpokeAction::Receive,
            SpokeState::Spawning => SpokeAction::SpawnAccept,
            SpokeState::Stopped(_) => SpokeAction::Stop,
        }
    }

    /// What an event comes to for a data channel.
    pub open spec fn accept_next(self, state: AcceptState, event: Event) -> AcceptStep {
        match state {
            AcceptState::Connecting(dial) => match self.dial_next(dial, event) {
                DialProgress::Pending(next) => AcceptStep::Pending(AcceptState::Connecting(next)),
                DialProgress::Opened => AcceptStep::Pending(AcceptState::Reaching),
                DialProgress::Failed(error) => AcceptStep::Failed(AcceptError::Open(error)),
            },
            AcceptState::Reaching => match event {
                Event::Done => AcceptStep::Pending(AcceptState::Proxying(ProxyStage::Flushing)),
                Event::Failed => AcceptStep::Failed(AcceptError::Service),
                _ => AcceptStep::Pending(state),
            },
            AcceptState::Proxying(stage) => match event {
                Event::Done | Event::Failed => match proxy_next(stage, event is Done) {
                    ProxyStep::Continue(next) => AcceptStep::Pending(AcceptState::Proxying(next)),
                    ProxyStep::Closed => AcceptStep::Closed,
                    ProxyStep::Broken(_) => AcceptStep::Failed(AcceptError::Proxy),
                },
                _ => AcceptStep::Pending(state),
            },
        }
    }

    /// Where the task begins that serves one data channel.
    pub fn start_accept(&self) -> (state: AcceptState)
        ensures
            state == AcceptState::Connecting(self.data_dial()),
    {
        AcceptState::Connecting(Spoke::start_dial(self.tunnel_addr, ChannelMessage::Data))
    }

    /// Moves a data channel on: it is opened, then the service is connected to, then the two are
    /// connected with each other.
    pub fn accept(&self, state: AcceptState, event: Event) -> (step: AcceptStep)
        ensures
            step == self.accept_next(state, event),
    {
        match state {
            AcceptState::Connecting(dial) => match self.open_chan_retry(dial, event) {
                DialProgress::Pending(next) => AcceptStep::Pending(AcceptState::Connecting(next)),
                DialProgress::Opened => AcceptStep::Pending(AcceptState::Reaching),
                DialProgress::Failed(error) => AcceptStep::Failed(AcceptError::Open(error)),
            },
            AcceptState::Reaching => match event {
                Event::Done => AcceptStep::Pending(AcceptState::Proxying(ProxyStage::Flushing)),
                Event::Failed => AcceptStep::Failed(AcceptError::Service),
                _ => AcceptStep::Pending(AcceptState::Reaching),
            },
            AcceptState::Proxying(stage) => {
                let ok = match event {
                    Event::Done => true,
                    Event::Failed => false,
                    _ => {
                        return AcceptStep::Pending(AcceptState::Proxying(stage));
                    },
                };
                match proxy(stage, ok) {
                    ProxyStep::Continue(next) => AcceptStep::Pending(AcceptState::Proxying(next)),
                    ProxyStep::Closed => AcceptStep::Closed,
                    ProxyStep::Broken(_) => AcceptStep::Failed(AcceptError::Proxy),
                }
            },
        }
    }

    /// What is to be said where the service cannot be connected to: the address of the service,
    /// with the words before and after it.
    pub fn service_error(&self) -> (parts: (&'static str, SocketAddress, &'static str))
        ensures
            parts.0@ == "can't connect to local service "@,
            parts.1 == self.local_addr,
            parts.2@ == ", is the local service up?"@,
    {
        ("can't connect to local service ", self.local_addr, ", is the local service up?")
    }

    /// Whether this is what has to be done next about a data channel.
    pub open spec fn accept_asks(self, state: AcceptState, action: SpokeAction) -> bool {
        match state {
            AcceptState::Connecting(dial) => dial.asks(action),
            AcceptState::Reaching => action == (SpokeAction::ConnectService {
                addr: self.local_addr,
            }),
            AcceptState::Proxying(ProxyStage::Flushing) => action == SpokeAction::Flush,
            AcceptState::Proxying(ProxyStage::Copying) => action == SpokeAction::Copy,
        }
    }

    /// What has to be done next about a data channel.
    pub fn accept_action(&self, state: &AcceptState) -> (action: SpokeAction)
        ensures
            self.accept_asks(*state, action),
    {
        match state {
            AcceptState::Connecting(dial) => dial.action(),
            AcceptState::Reaching => SpokeAction::ConnectService { addr: self.local_addr },
            AcceptState::Proxying(ProxyStage::Flushing) => SpokeAction::Flush,
            AcceptState::Proxying(ProxyStage::Copying) => SpokeAction::Copy,
        }
    }
}

} // verus!
