//! The hub: it waits for a spoke, exposes the spoke's service, and has the spoke open a data
//! channel for each client.
use vstd::prelude::*;

use crate::address::{IpAddress, SocketAddress};
use crate::auth::{check_answer, is_challenge, new_challenge, right_answer};
use crate::channel::{
    copy_bytes, in_words, ChannelMessage, Content, Event, OPEN_TIMEOUT_SECS, RETRY_PAUSE_SECS,
};

verus! {

/// The port at which the service is exposed where neither the user nor the spoke names one.
pub const DEFAULT_EXPOSED_PORT: u16 = 1337;

/// A hub.
#[derive(Debug, PartialEq, Eq)]
pub struct Hub {
    /// Where clients connect to.
    pub exposed_addr: IpAddress,
    /// The port that clients connect to, once it is known.
    pub exposed_port: Option<u16>,
    /// Where the spoke connects to.
    pub tunnel_addr: SocketAddress,
    /// Whether there is a control channel to a spoke.
    pub ctrl: bool,
    /// Where a key is set, spokes have to answer a challenge under the same key.
    pub key: Option<String>,
}

/// Why the hub could not open a channel.
#[derive(Debug, Clone, Copy, PartialEq, Eq, Structural)]
pub enum OpenError {
    /// The tunnel address could not be bound.
    Bind,
    /// Another operation on a socket failed.
    Io,
    /// The spoke has closed the channel.
    Reset,
    /// The spoke has opened the other kind of channel.
    WrongChannel,
    /// The spoke did not answer the challenge, or not rightly.
    AuthFailed,
    /// The spoke took too long.
    TimedOut,
}

impl OpenError {
    /// The error in words.
    pub open spec fn words(self) -> Option<Seq<char>> {
        match self {
            OpenError::Bind => Some("bind error"@),
            OpenError::Io => None,
            OpenError::Reset => Some("connection reset by peer"@),
            OpenError::WrongChannel => Some(
                "wrong type of channel opened between the hub and spoke"@,
            ),
            OpenError::AuthFailed => Some("auth failed"@),
            OpenError::TimedOut => Some(
                "timeout establishing connection to the spoke, is the spoke up?"@,
            ),
        }
    }

    /// The error in words; none where those of the failed operation say it.
    pub fn text(&self) -> (s: Option<&'static str>)
        ensures
            in_words(s) == self.words(),
    {
        match self {
            OpenError::Bind => Some("bind error"),
            OpenError::Io => None,
            OpenError::Reset => Some("connection reset by peer"),
            OpenError::WrongChannel => Some(
                "wrong type of channel opened between the hub and spoke",
            ),
            OpenError::AuthFailed => Some("auth failed"),
            OpenError::TimedOut => Some(
                "timeout establishing connection to the spoke, is the spoke up?",
            ),
        }
    }
}

/// How far the hub has come in opening a channel.
#[derive(Debug, PartialEq, Eq)]
pub enum Stage {
    /// The tunnel address is being bound.
    Binding,
    /// The spoke is being told over the control channel to open a data channel.
    Announcing,
    /// The spoke is waited for.
    Accepting,
    /// The spoke is to say which kind of channel it opens.
    Greeting,
    /// A challenge is being sent.
    Challenging { challenge: Vec<u8> },
    /// The answer to a challenge is waited for.
    Verifying { challenge: Vec<u8> },
    /// The channel is being acknowledged.
    Acking,
}

/// A channel that the hub is opening.
#[derive(Debug, PartialEq, Eq)]
pub struct Opening {
    /// Whether it is a data channel, and not a control channel.
    pub is_tunnel: bool,
    pub stage: Stage,
}

/// What comes of a step towards an open channel.
#[derive(Debug, PartialEq, Eq)]
pub enum Progress {
    Pending(Opening),
    Opened,
    Failed(OpenError),
}

/// A channel that the hub opens, however often it has to try.
#[derive(Debug, PartialEq, Eq)]
pub enum Attempt {
    Trying(Opening),
    /// An attempt has failed, and the next one is some time off.
    Pausing(OpenError),
}

/// What comes of a step towards a data channel for a client.
#[derive(Debug, PartialEq, Eq)]
pub enum Served {
    Pending(Opening),
    /// The client can be proxied through the channel.
    Proxied,
    /// There will be no data channel.
    Lost(OpenError),
}

impl Served {
    /// What went wrong for the client, in words; what went wrong with the channel is the cause.
    pub fn text(&self) -> (s: Option<&'static str>)
        ensures
            in_words(s) == if *self is Lost {
                Some("can't open data channel"@)
            } else {
                None
            },
    {
        match self {
            Served::Lost(_) => Some("can't open data channel"),
            _ => None,
        }
    }
}

/// Where a running hub stands.
#[derive(Debug, PartialEq, Eq)]
pub enum HubState {
    /// The control channel is being opened.
    Connecting(Attempt),
    /// The port for clients is being bound.
    Exposing,
    /// A client is waited for.
    Listening,
    /// A data channel is being opened for a client.
    Serving(Opening),
    /// A client and its data channel are being handed over to a proxy.
    Proxying,
    /// There was no data channel for a client, so the control channel is being given up.
    Losing(OpenError),
    /// The port for clients could not be bound, or no longer listened at.
    Stopped,
}

/// What the hub has to do next.
#[derive(Debug, PartialEq, Eq)]
pub enum HubAction {
    /// Bind the address where the spoke connects to. This begins an attempt to open a channel: once
    /// so much time is over, the attempt is timed out.
    BindTunnel { addr: SocketAddress, timeout_secs: u64 },
    /// Send a message over the control channel.
    SendControl(ChannelMessage),
    /// Accept one connection at the bound address, and then close the address.
    AcceptSpoke,
    /// Receive a message over the channel that is being opened.
    Receive,
    /// Send a message over the channel that is being opened.
    Send(ChannelMessage),
    /// Wait.
    Sleep { secs: u64 },
    /// Keep the open channel as the control channel, and bind the address for clients.
    Expose { ip: IpAddress, port: u16 },
    /// Accept a client.
    AcceptClient,
    /// Start proxying between the accepted client and the open channel.
    StartProxy,
    /// Close the client, the control channel, and the address for clients.
    Release,
    /// Give up.
    Stop,
}

/// The same kind of channel, at another stage.
pub open spec fn at(opening: Opening, stage: Stage) -> Progress {
    Progress::Pending(Opening { is_tunnel: opening.is_tunnel, stage })
}

/// What a channel that is being opened comes to once the action of its stage is performed.
pub open spec fn performed(opening: Opening) -> Progress {
    match opening.stage {
        Stage::Binding if opening.is_tunnel => at(opening, Stage::Announcing),
        Stage::Binding => at(opening, Stage::Accepting),
        Stage::Announcing => at(opening, Stage::Accepting),
        Stage::Accepting => at(opening, Stage::Greeting),
        Stage::Challenging { challenge } => at(opening, Stage::Verifying { challenge }),
        Stage::Acking => Progress::Opened,
        Stage::Greeting | Stage::Verifying { .. } => Progress::Pending(opening),
    }
}

impl Hub {
    /// What the reply to a challenge comes to: only the right answer under the hub's own key is
    /// acknowledged.
    pub open spec fn judged(
        self,
        opening: Opening,
        challenge: Vec<u8>,
        reply: ChannelMessage,
    ) -> Progress {
        if self.key matches Some(key) && reply@ == Content::Answer(
            right_answer(key@, challenge@),
        ) {
            at(opening, Stage::Acking)
        } else {
            Progress::Failed(OpenError::AuthFailed)
        }
    }

    /// The hub that has learnt from its spoke at which port the service is.
    pub open spec fn told_port(self, service_port: u16) -> Hub {
        Hub {
            exposed_port: if self.exposed_port is None {
                Some(service_port)
            } else {
                self.exposed_port
            },
            ..self
        }
    }

    /// A channel of which nothing has been done yet: a data channel where there is a control
    /// channel, else a control channel.
    pub open spec fn fresh_opening(self) -> Opening {
        Opening { is_tunnel: self.ctrl, stage: Stage::Binding }
    }

    /// What the greeting of a spoke comes to, when `fresh` is the challenge to be sent.
    pub open spec fn greeted(self, opening: Opening, greeting: ChannelMessage, fresh: Vec<u8>) -> (
        Hub,
        Progress,
    ) {
        let next = if self.key is Some {
            at(opening, Stage::Challenging { challenge: fresh })
        } else {
            at(opening, Stage::Acking)
        };
        match (opening.is_tunnel, greeting) {
            (true, ChannelMessage::Data) => (self, next),
            (false, ChannelMessage::Control { service_port }) => (self.told_port(service_port), next),
            _ => (self, Progress::Failed(OpenError::WrongChannel)),
        }
    }

    /// What an event comes to for a channel that is being opened, when `fresh` is the challenge to
    /// be sent in case one is.
    pub open spec fn opening_next(self, opening: Opening, event: Event, fresh: Vec<u8>) -> (
        Hub,
        Progress,
    ) {
        let receiving = opening.stage is Greeting || opening.stage is Verifying;
        match event {
            Event::Failed => (
                self,
                Progress::Failed(
                    if opening.stage is Binding {
                        OpenError::Bind
                    } else {
                        OpenError::Io
                    },
                ),
            ),
            Event::Closed if receiving => (self, Progress::Failed(OpenError::Reset)),
            Event::Done if !receiving => (self, performed(opening)),
            Event::Received(message) if receiving => match opening.stage {
                Stage::Verifying { challenge } => (self, self.judged(opening, challenge, message)),
                _ => self.greeted(opening, message, fresh),
            },
            _ => (self, Progress::Pending(opening)),
        }
    }

    /// Whether an event makes the hub send a challenge.
    pub open spec fn challenges(self, opening: Opening, event: Event) -> bool {
        &&& self.key is Some
        &&& opening.stage is Greeting
        &&& event matches Event::Received(greeting) && if opening.is_tunnel {
            greeting is Data
        } else {
            greeting is Control
        }
    }

    /// Sets up a hub. The tunnel address is the first of those that its name stands for.
    pub fn new(
        exposed_addr: IpAddress,
        exposed_port: Option<u16>,
        tunnel_addrs: Vec<SocketAddress>,
        key: Option<String>,
    ) -> (hub: Hub)
        requires
            tunnel_addrs@.len() > 0,
        ensures
            hub == (Hub {
                exposed_addr,
                exposed_port,
                tunnel_addr: tunnel_addrs@[0],
                ctrl: false,
                key,
            }),
    {
        Hub { exposed_addr, exposed_port, tunnel_addr: tunnel_addrs[0], ctrl: false, key }
    }

    /// A channel of which nothing has been done yet.
    pub fn start_opening(&self) -> (opening: Opening)
        ensures
            opening == self.fresh_opening(),
    {
        Opening { is_tunnel: self.ctrl, stage: Stage::Binding }
    }

    /// What the check of an answer comes to.
    pub fn judge(is_tunnel: bool, right: bool) -> (progress: Progress)
        ensures
            progress == if right {
                Progress::Pending(Opening { is_tunnel, stage: Stage::Acking })
            } else {
                Progress::Failed(OpenError::AuthFailed)
            },
    {
        if right {
            Progress::Pending(Opening { is_tunnel, stage: Stage::Acking })
        } else {
            Progress::Failed(OpenError::AuthFailed)
        }
    }

    /// Hears which kind of channel the spoke opens, and where that is the right one, has it
    /// challenged if a key is set, else acknowledged. A spoke that opens a control channel names
    /// the port of its service, which is where the service is exposed unless a port is set.
    pub fn greet(&mut self, is_tunnel: bool, greeting: ChannelMessage, fresh: Vec<u8>) -> (progress:
        Progress)
        ensures
            (*final(self), progress) == old(self).greeted(
                Opening { is_tunnel, stage: Stage::Greeting },
                greeting,
                fresh,
            ),
    {
        match greeting {
            ChannelMessage::Data => {
                if !is_tunnel {
                    return Progress::Failed(OpenError::WrongChannel);
                }
            },
            ChannelMessage::Control { service_port } => {
                if is_tunnel {
                    return Progress::Failed(OpenError::WrongChannel);
                }
                if self.exposed_port.is_none() {
                    self.exposed_port = Some(service_port);
                }
            },
            _ => {
                return Progress::Failed(OpenError::WrongChannel);
            },
        }
        let stage = if self.key.is_some() {
            Stage::Challenging { challenge: fresh }
        } else {
            Stage::Acking
        };
        Progress::Pending(Opening { is_tunnel, stage })
    }

    /// Moves a channel that is being opened on, with `fresh` as the challenge in case one has to be
    /// sent.
    pub fn open_chan_with(&mut self, opening: Opening, event: Event, fresh: Vec<u8>) -> (progress:
        Progress)
        ensures
            (*final(self), progress) == old(self).opening_next(opening, event, fresh),
    {
        let is_tunnel = opening.is_tunnel;
        match opening.stage {
            Stage::Binding => match event {
                Event::Done => {
                    let stage = if is_tunnel {
                        Stage::Announcing
                    } else {
                        Stage::Accepting
                    };
                    Progress::Pending(Opening { is_tunnel, stage })
                },
                Event::Failed => Progress::Failed(OpenError::Bind),
                _ => Progress::Pending(Opening { is_tunnel, stage: Stage::Binding }),
            },
            Stage::Announcing => match event {
                Event::Done => Progress::Pending(Opening { is_tunnel, stage: Stage::Accepting }),
                Event::Failed => Progress::Failed(OpenError::Io),
                _ => Progress::Pending(Opening { is_tunnel, stage: Stage::Announcing }),
            },
            Stage::Accepting => match event {
                Event::Done => Progress::Pending(Opening { is_tunnel, stage: Stage::Greeting }),
                Event::Failed => Progress::Failed(OpenError::Io),
                _ => Progress::Pending(Opening { is_tunnel, stage: Stage::Accepting }),
            },
            Stage::Greeting => match event {
                Event::Received(greeting) => self.greet(is_tunnel, greeting, fresh),
                Event::Closed => Progress::Failed(OpenError::Reset),
                Event::Failed => Progress::Failed(OpenError::Io),
                _ => Progress::Pending(Opening { is_tunnel, stage: Stage::Greeting }),
            },
            Stage::Challenging { challenge } => match event {
                Event::Done => Progress::Pending(
                    Opening { is_tunnel, stage: Stage::Verifying { challenge } },
                ),
                Event::Failed => Progress::Failed(OpenError::Io),
                _ => Progress::Pending(
                    Opening { is_tunnel, stage: Stage::Challenging { challenge } },
                ),
            },
            Stage::Verifying { challenge } => match event {
                Event::Received(ChannelMessage::Answer(answer)) => {
                    let right = match &self.key {
                        Some(key) => check_answer(
                            key.as_str(),
                            challenge.as_slice(),
                            answer.as_slice(),
                        ),
                        None => false,
                    };
                    Hub::judge(is_tunnel, right)
                },
                Event::Received(_) => Hub::judge(is_tunnel, false),
                Event::Closed => Progress::Failed(OpenError::Reset),
                Event::Failed => Progress::Failed(OpenError::Io),
                _ => Progress::Pending(
                    Opening { is_tunnel, stage: Stage::Verifying { challenge } },
                ),
            },
            Stage::Acking => match event {
                Event::Done => Progress::Opened,
                Event::Failed => Progress::Failed(OpenError::Io),
                _ => Progress::Pending(Opening { is_tunnel, stage: Stage::Acking }),
            },
        }
    }

    /// Whether an event makes the hub send a challenge.
    fn will_challenge(&self, opening: &Opening, event: &Event) -> (r: bool)
        ensures
            r == self.challenges(*opening, *event),
    {
        if self.key.is_none() {
            return false;
        }
        match (&opening.stage, event) {
            (Stage::Greeting, Event::Received(ChannelMessage::Data)) => opening.is_tunnel,
            (Stage::Greeting, Event::Received(ChannelMessage::Control { .. })) => {
                !opening.is_tunnel
            },
            _ => false,
        }
    }

    /// Whether an event comes to this for a channel that is being opened, with a well-formed
    /// challenge in case one is sent.
    pub open spec fn opening_step(
        self,
        opening: Opening,
        event: Event,
        fresh: Vec<u8>,
        after: Hub,
        progress: Progress,
    ) -> bool {
        &&& self.challenges(opening, event) ==> is_challenge(fresh@)
        &&& (after, progress) == self.opening_next(opening, event, fresh)
    }

    /// Moves a channel that is being opened on. Where a challenge has to be sent, it is a new one.
    pub fn open_chan(&mut self, opening: Opening, event: Event) -> (progress: Progress)
        ensures
            exists|fresh: Vec<u8>|
                old(self).opening_step(opening, event, fresh, *final(self), progress),
    {
        let fresh = if self.will_challenge(&opening, &event) {
            new_challenge()
        } else {
            Vec::new()
        };
        let ghost before = *self;
        let ghost drawn = fresh;
        let progress = self.open_chan_with(opening, event, fresh);
        assert(before.opening_step(opening, event, drawn, *self, progress));
        progress
    }

    /// What an event comes to for a channel that has to be open in time.
    pub open spec fn timed_next(self, opening: Opening, event: Event, fresh: Vec<u8>) -> (
        Hub,
        Progress,
    ) {
        if event is TimedOut {
            (self, Progress::Failed(OpenError::TimedOut))
        } else {
            self.opening_next(opening, event, fresh)
        }
    }

    /// Whether an event comes to this for a channel that has to be open in time, with a well-formed
    /// challenge in case one is sent.
    pub open spec fn timed_step(
        self,
        opening: Opening,
        event: Event,
        fresh: Vec<u8>,
        after: Hub,
        progress: Progress,
    ) -> bool {
        &&& self.challenges(opening, event) ==> is_challenge(fresh@)
        &&& (after, progress) == self.timed_next(opening, event, fresh)
    }

    /// Moves on a channel that has to be open in time.
    pub fn open_chan_timeout(&mut self, opening: Opening, event: Event) -> (progress: Progress)
        ensures
            exists|fresh: Vec<u8>|
                old(self).timed_step(opening, event, fresh, *final(self), progress),
    {
        let ghost before = *self;
        let ghost mut fresh: Vec<u8> = arbitrary();
        let progress = match event {
            Event::TimedOut => Progress::Failed(OpenError::TimedOut),
            event => {
                let progress = self.open_chan(opening, event);
                proof {
                    fresh = choose|fresh: Vec<u8>|
                        before.opening_step(opening, event, fresh, *self, progress);
                }
                progress
            },
        };
        assert(before.timed_step(opening, event, fresh, *self, progress));
        progress
    }

    /// What an event comes to for a channel that is tried for until it is open; `None`, once it is.
    pub open spec fn retry_next(self, attempt: Attempt, event: Event, fresh: Vec<u8>) -> (
        Hub,
        Option<Attempt>,
    ) {
        match attempt {
            Attempt::Trying(opening) => {
                let (hub, progress) = self.timed_next(opening, event, fresh);
                match progress {
                    Progress::Pending(next) => (hub, Some(Attempt::Trying(next))),
                    Progress::Opened => (hub, None),
                    Progress::Failed(error) => (hub, Some(Attempt::Pausing(error))),
                }
            },
            Attempt::Pausing(_) => if event is Done {
                (self, Some(Attempt::Trying(self.fresh_opening())))
            } else {
                (self, Some(attempt))
            },
        }
    }

    /// Whether an event makes the hub send a challenge to a spoke that it tries to reach.
    pub open spec fn attempt_challenges(self, attempt: Attempt, event: Event) -> bool {
        attempt matches Attempt::Trying(opening) && self.challenges(opening, event)
    }

    /// Whether an event comes to this for a channel that is tried for until it is open, with a
    /// well-formed challenge in case one is sent.
    pub open spec fn retry_step(
        self,
        attempt: Attempt,
        event: Event,
        fresh: Vec<u8>,
        after: Hub,
        next: Option<Attempt>,
    ) -> bool {
        &&& self.attempt_challenges(attempt, event) ==> is_challenge(fresh@)
        &&& (after, next) == self.retry_next(attempt, event, fresh)
    }

    /// Moves on a channel that is tried for until it is open: after a failed attempt there is a
    /// pause, and then a new attempt. `None` is returned once the channel is open.
    pub fn open_chan_retry(&mut self, attempt: Attempt, event: Event) -> (next: Option<Attempt>)
        ensures
            exists|fresh: Vec<u8>|
                old(self).retry_step(attempt, event, fresh, *final(self), next),
    {
        let ghost before = *self;
        let ghost mut fresh: Vec<u8> = arbitrary();
        let next = match attempt {
            Attempt::Trying(opening) => {
                let progress = self.open_chan_timeout(opening, event);
                proof {
                    fresh = choose|fresh: Vec<u8>|
                        before.timed_step(opening, event, fresh, *self, progress);
                }
                match progress {
                    Progress::Pending(next) => Some(Attempt::Trying(next)),
                    Progress::Opened => None,
                    Progress::Failed(error) => Some(Attempt::Pausing(error)),
                }
            },
            Attempt::Pausing(error) => match event {
                Event::Done => Some(Attempt::Trying(self.start_opening())),
                _ => Some(Attempt::Pausing(error)),
            },
        };
        assert(before.retry_step(attempt, event, fresh, *self, next));
        next
    }

    /// What an event comes to for a client that a data channel is opened for.
    pub open spec fn serve_next(self, opening: Opening, event: Event, fresh: Vec<u8>) -> (
        Hub,
        Served,
    ) {
        let (hub, progress) = self.timed_next(opening, event, fresh);
        match progress {
            Progress::Pending(next) => (hub, Served::Pending(next)),
            Progress::Opened => (hub, Served::Proxied),
            Progress::Failed(error) => (hub, Served::Lost(error)),
        }
    }

    /// Whether an event comes to this for a client that a data channel is opened for, with a
    /// well-formed challenge in case one is sent.
    pub open spec fn serve_step(
        self,
        opening: Opening,
        event: Event,
        fresh: Vec<u8>,
        after: Hub,
        served: Served,
    ) -> bool {
        &&& self.challenges(opening, event) ==> is_challenge(fresh@)
        &&& (after, served) == self.serve_next(opening, event, fresh)
    }

    /// Moves on a client that a data channel is opened for. There is one attempt at it.
    pub fn handle_server_connection(&mut self, opening: Opening, event: Event) -> (served: Served)
        ensures
            exists|fresh: Vec<u8>|
                old(self).serve_step(opening, event, fresh, *final(self), served),
    {
        let ghost before = *self;
        let progress = self.open_chan_timeout(opening, event);
        let ghost fresh = choose|fresh: Vec<u8>|
            before.timed_step(opening, event, fresh, *self, progress);
        let served = match progress {
            Progress::Pending(next) => Served::Pending(next),
            Progress::Opened => Served::Proxied,
            Progress::Failed(error) => Served::Lost(error),
        };
        assert(before.serve_step(opening, event, fresh, *self, served));
        served
    }

    /// Where a hub stands that has just been started, or has lost its spoke.
    pub open spec fn reconnecting(self) -> HubState {
        HubState::Connecting(Attempt::Trying(self.fresh_opening()))
    }

    /// What an event comes to for a running hub.
    pub open spec fn run_next(self, state: HubState, event: Event, fresh: Vec<u8>) -> (
        Hub,
        HubState,
    ) {
        match state {
            HubState::Connecting(attempt) => match self.retry_next(attempt, event, fresh) {
                (hub, Some(next)) => (hub, HubState::Connecting(next)),
                (hub, None) => (Hub { ctrl: true, ..hub }, HubState::Exposing),
            },
            HubState::Exposing => match event {
                Event::Done => (self, HubState::Listening),
                Event::Failed => (self, HubState::Stopped),
                _ => (self, state),
            },
            HubState::Listening => match event {
                Event::Done => (self, HubState::Serving(self.fresh_opening())),
                Event::Failed => (self, HubState::Stopped),
                _ => (self, state),
            },
            HubState::Serving(opening) => match self.serve_next(opening, event, fresh) {
                (hub, Served::Pending(next)) => (hub, HubState::Serving(next)),
                (hub, Served::Proxied) => (hub, HubState::Proxying),
                (hub, Served::Lost(error)) => (
                    Hub { ctrl: false, ..hub },
                    HubState::Losing(error),
                ),
            },
            HubState::Losing(_) => match event {
                Event::Done => (self, self.reconnecting()),
                _ => (self, state),
            },
            HubState::Proxying => match event {
                Event::Done => (self, HubState::Listening),
                _ => (self, state),
            },
            HubState::Stopped => (self, state),
        }
    }

    /// Whether an event makes a running hub send a challenge.
    pub open spec fn run_challenges(self, state: HubState, event: Event) -> bool {
        match state {
            HubState::Connecting(attempt) => self.attempt_challenges(attempt, event),
            HubState::Serving(opening) => self.challenges(opening, event),
            _ => false,
        }
    }

    /// Where a hub begins to run.
    pub fn start(&self) -> (state: HubState)
        ensures
            state == self.reconnecting(),
    {
        HubState::Connecting(Attempt::Trying(self.start_opening()))
    }

    /// Whether an event comes to this for a running hub, with a well-formed challenge in case one
    /// is sent.
    pub open spec fn run_step(
        self,
        state: HubState,
        event: Event,
        fresh: Vec<u8>,
        after: Hub,
        next: HubState,
    ) -> bool {
        &&& self.run_challenges(state, event) ==> is_challenge(fresh@)
        &&& (after, next) == self.run_next(state, event, fresh)
    }

    /// Moves a running hub on. It opens a control channel, exposes the service, and opens a data
    /// channel for each client; where that fails it gives the control channel up and opens another.
    /// It runs until it can no longer listen for clients.
    pub fn run(&mut self, state: HubState, event: Event) -> (next: HubState)
        ensures
            exists|fresh: Vec<u8>| old(self).run_step(state, event, fresh, *final(self), next),
    {
        let ghost before = *self;
        let ghost mut fresh: Vec<u8> = arbitrary();
        let next = match state {
            HubState::Connecting(attempt) => {
                let retried = self.open_chan_retry(attempt, event);
                proof {
                    fresh = choose|fresh: Vec<u8>|
                        before.retry_step(attempt, event, fresh, *self, retried);
                }
                match retried {
                    Some(next) => HubState::Connecting(next),
                    None => {
                        self.ctrl = true;
                        HubState::Exposing
                    },
                }
            },
            HubState::Exposing => match event {
                Event::Done => HubState::Listening,
                Event::Failed => HubState::Stopped,
                _ => HubState::Exposing,
            },
            HubState::Listening => match event {
                Event::Done => HubState::Serving(self.start_opening()),
                Event::Failed => HubState::Stopped,
                _ => HubState::Listening,
            },
            HubState::Serving(opening) => {
                let served = self.handle_server_connection(opening, event);
                proof {
                    fresh = choose|fresh: Vec<u8>|
                        before.serve_step(opening, event, fresh, *self, served);
                }
                match served {
                    Served::Pending(next) => HubState::Serving(next),
                    Served::Proxied => HubState::Proxying,
                    Served::Lost(error) => {
                        self.ctrl = false;
                        HubState::Losing(error)
                    },
                }
            },
            HubState::Losing(error) => match event {
                Event::Done => self.start(),
                _ => HubState::Losing(error),
            },
            HubState::Proxying => match event {
                Event::Done => HubState::Listening,
                _ => HubState::Proxying,
            },
            HubState::Stopped => HubState::Stopped,
        };
        assert(before.run_step(state, event, fresh, *self, next));
        next
    }

    /// The port at which the service is exposed.
    pub open spec fn port(self) -> u16 {
        match self.exposed_port {
            Some(port) => port,
            None => DEFAULT_EXPOSED_PORT,
        }
    }

    /// Whether this is what has to be done next about a channel that is being opened.
    pub open spec fn opening_asks(self, opening: Opening, action: HubAction) -> bool {
        match opening.stage {
            Stage::Binding => action == (HubAction::BindTunnel {
                addr: self.tunnel_addr,
                timeout_secs: OPEN_TIMEOUT_SECS,
            }),
            Stage::Announcing => action == HubAction::SendControl(ChannelMessage::Accept),
            Stage::Accepting => action == HubAction::AcceptSpoke,
            Stage::Greeting => action == HubAction::Receive,
            Stage::Challenging { challenge } => action matches HubAction::Send(message) && message@
                == (Content::Challenge { payload: challenge@ }),
            Stage::Verifying { .. } => action == HubAction::Receive,
            Stage::Acking => action == HubAction::Send(ChannelMessage::Ack),
        }
    }

    /// Whether this is what a running hub has to do next.
    pub open spec fn asks(self, state: HubState, action: HubAction) -> bool {
        match state {
            HubState::Connecting(Attempt::Trying(opening)) => self.opening_asks(opening, action),
            HubState::Connecting(Attempt::Pausing(_)) => action == (HubAction::Sleep {
                secs: RETRY_PAUSE_SECS,
            }),
            HubState::Exposing => action == (HubAction::Expose {
                ip: self.exposed_addr,
                port: self.port(),
            }),
            HubState::Listening => action == HubAction::AcceptClient,
            HubState::Serving(opening) => self.opening_asks(opening, action),
            HubState::Proxying => action == HubAction::StartProxy,
            HubState::Losing(_) => action == HubAction::Release,
            HubState::Stopped => action == HubAction::Stop,
        }
    }

    /// What has to be done next about a channel that is being opened.
    pub fn opening_action(&self, opening: &Opening) -> (action: HubAction)
        ensures
            self.opening_asks(*opening, action),
    {
        match &opening.stage {
            Stage::Binding => HubAction::BindTunnel {
                addr: self.tunnel_addr,
                timeout_secs: OPEN_TIMEOUT_SECS,
            },
            Stage::Announcing => HubAction::SendControl(ChannelMessage::Accept),
            Stage::Accepting => HubAction::AcceptSpoke,
            Stage::Greeting => HubAction::Receive,
            Stage::Challenging { challenge } => HubAction::Send(
                ChannelMessage::Challenge { payload: copy_bytes(challenge) },
            ),
            Stage::Verifying { .. } => HubAction::Receive,
            Stage::Acking => HubAction::Send(ChannelMessage::Ack),
        }
    }

    /// What a running hub has to do next.
    pub fn action(&self, state: &HubState) -> (action: HubAction)
        ensures
            self.asks(*state, action),
    {
        match state {
            HubState::Connecting(Attempt::Trying(opening)) => self.opening_action(opening),
            HubState::Connecting(Attempt::Pausing(_)) => HubAction::Sleep { secs: RETRY_PAUSE_SECS },
            HubState::Exposing => {
                let port = match self.exposed_port {
                    Some(port) => port,
                    None => DEFAULT_EXPOSED_PORT,
                };
                HubAction::Expose { ip: self.exposed_addr, port }
            },
            HubState::Listening => HubAction::AcceptClient,
            HubState::Serving(opening) => self.opening_action(opening),
            HubState::Proxying => HubAction::StartProxy,
            HubState::Losing(_) => HubAction::Release,
            HubState::Stopped => HubAction::Stop,
        }
    }
}

} // verus!
