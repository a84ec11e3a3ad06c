//! What hub and spoke say to each other when a channel is opened, and what comes of it.
use vstd::prelude::*;

use crate::auth::right_answer;
use crate::channel::{ChannelMessage, Content, Event};
use crate::hub::{Hub, HubAction, OpenError, Opening, Progress, Stage};
use crate::laws::{answers, greets, learnt};
use crate::spoke::{Dial, DialError, DialProgress, DialStage, Spoke, SpokeAction};

verus! {

/// How far a channel at the hub is from being acknowledged.
pub open spec fn stages_left(stage: Stage) -> nat {
    match stage {
        Stage::Binding => 6,
        Stage::Announcing => 5,
        Stage::Accepting => 4,
        Stage::Greeting => 3,
        Stage::Challenging { .. } => 2,
        Stage::Verifying { .. } => 1,
        Stage::Acking => 0,
    }
}

/// What the hub sends over a channel at this stage.
pub open spec fn hub_sends(stage: Stage) -> Seq<Content> {
    match stage {
        Stage::Challenging { challenge } => seq![Content::Challenge { payload: challenge@ }],
        Stage::Acking => seq![Content::Ack],
        _ => Seq::empty(),
    }
}

/// What comes of a channel at the hub, and what the hub says over it, when nothing fails, and the
/// spoke says `heard` and then closes the channel.
pub open spec fn hub_talks(hub: Hub, opening: Opening, heard: Seq<ChannelMessage>, fresh: Vec<u8>) -> (
    Hub,
    Progress,
    Seq<Content>,
)
    decreases heard.len(), stages_left(opening.stage),
{
    let receiving = opening.stage is Greeting || opening.stage is Verifying;
    let event = if !receiving {
        Event::Done
    } else if heard.len() > 0 {
        Event::Received(heard[0])
    } else {
        Event::Closed
    };
    let rest = if receiving && heard.len() > 0 {
        heard.drop_first()
    } else {
        heard
    };
    let (hub, progress) = hub.timed_next(opening, event, fresh);
    match progress {
        Progress::Pending(next) => {
            let (hub, progress, said) = hub_talks(hub, next, rest, fresh);
            (hub, progress, hub_sends(opening.stage) + said)
        },
        _ => (hub, progress, hub_sends(opening.stage)),
    }
}

/// How far a channel at the spoke is from being open.
pub open spec fn dial_left(stage: DialStage) -> nat {
    match stage {
        DialStage::Pausing => 5,
        DialStage::Dialing => 4,
        DialStage::Declaring => 3,
        DialStage::AwaitingChallenge => 2,
        DialStage::Answering { .. } => 1,
        DialStage::AwaitingAck => 0,
    }
}

/// What the spoke sends over a channel at this stage.
pub open spec fn spoke_sends(dial: Dial) -> Seq<Content> {
    match dial.stage {
        DialStage::Declaring => seq![dial.chan_type@],
        DialStage::Answering { key, payload } => seq![
            Content::Answer(right_answer(key@, payload@)),
        ],
        _ => Seq::empty(),
    }
}

/// What comes of a channel at the spoke, and what the spoke says over it, when nothing fails, and
/// the hub says `heard` and then closes the channel.
pub open spec fn spoke_talks(spoke: Spoke, dial: Dial, heard: Seq<ChannelMessage>) -> (
    DialProgress,
    Seq<Content>,
)
    decreases heard.len(), dial_left(dial.stage),
{
    let receiving = dial.stage is AwaitingChallenge || dial.stage is AwaitingAck;
    let event = if !receiving {
        Event::Done
    } else if heard.len() > 0 {
        Event::Received(heard[0])
    } else {
        Event::Closed
    };
    let rest = if receiving && heard.len() > 0 {
        heard.drop_first()
    } else {
        heard
    };
    match spoke.dial_next(dial, event) {
        DialProgress::Pending(next) => {
            let (progress, said) = spoke_talks(spoke, next, rest);
            (progress, spoke_sends(dial) + said)
        },
        progress => (progress, spoke_sends(dial)),
    }
}

/// Whether these messages have these contents.
pub open spec fn carries(messages: Seq<ChannelMessage>, contents: Seq<Content>) -> bool {
    messages.map_values(|m: ChannelMessage| m@) == contents
}

/// What is sent at a stage is what the action of the stage sends.
pub proof fn talk_is_what_the_actions_send(
    hub: Hub,
    opening: Opening,
    dial: Dial,
    message: ChannelMessage,
)
    ensures
        hub.opening_asks(opening, HubAction::Send(message)) <==> hub_sends(opening.stage)
            == seq![message@],
        dial.asks(SpokeAction::Send(message)) <==> spoke_sends(dial) == seq![message@],
{
    let said = seq![message@];
    assert(said.len() == 1 && said[0] == message@);
    let hub_said = hub_sends(opening.stage);
    let spoke_said = spoke_sends(dial);
    if hub_said == said {
        assert(hub_said[0] == message@);
    }
    if spoke_said == said {
        assert(spoke_said[0] == message@);
    }
}

/// What the hub makes of what it hears. It hears out the greeting; where that is for another kind
/// of channel, or there is none, it says nothing. Without a key it acknowledges the channel at
/// once. With a key it sends its challenge, and acknowledges the channel only on the right answer
/// under that key.
pub proof fn hub_outcome(hub: Hub, heard: Seq<ChannelMessage>, fresh: Vec<u8>)
    ensures
        ({
            let (after, progress, said) = hub_talks(hub, hub.fresh_opening(), heard, fresh);
            let greeted = heard.len() > 0 && greets(hub.ctrl, Event::Received(heard[0]));
            let answered = heard.len() > 1 && answers(hub, Event::Received(heard[1]), fresh@);
            let challenge = seq![Content::Challenge { payload: fresh@ }];
            &&& after == Hub {
                exposed_port: if greeted {
                    learnt(hub, Event::Received(heard[0]))
                } else {
                    hub.exposed_port
                },
                ..hub
            }
            &&& heard.len() == 0 ==> progress == Progress::Failed(OpenError::Reset)
            &&& heard.len() > 0 && !greeted ==> progress == Progress::Failed(
                OpenError::WrongChannel,
            )
            &&& !greeted ==> said == Seq::<Content>::empty()
            &&& greeted && hub.key is None ==> progress is Opened && said == seq![Content::Ack]
            &&& greeted && hub.key is Some && heard.len() == 1 ==> progress == Progress::Failed(
                OpenError::Reset,
            ) && said == challenge
            &&& greeted && hub.key is Some && heard.len() > 1 && !answered ==> progress
                == Progress::Failed(OpenError::AuthFailed) && said == challenge
            &&& greeted && hub.key is Some && answered ==> progress is Opened && said == challenge
                + seq![Content::Ack]
        }),
{
    reveal_with_fuel(hub_talks, 8);
}

/// What the spoke makes of what it hears. It first says which kind of channel it opens. Without a
/// key it then waits for the acknowledgement, and takes nothing else. With a key it waits for a
/// challenge, and takes nothing else; it answers the challenge under its key, and then waits for
/// the acknowledgement.
pub proof fn spoke_outcome(spoke: Spoke, dial: Dial, heard: Seq<ChannelMessage>)
    requires
        dial.stage is Dialing,
    ensures
        ({
            let (progress, said) = spoke_talks(spoke, dial, heard);
            let keyed = spoke.key is Some;
            let challenged = heard.len() > 0 && heard[0] is Challenge;
            let declared = seq![dial.chan_type@];
            &&& !keyed && heard.len() == 0 ==> progress == DialProgress::Failed(DialError::Lost)
            &&& !keyed && heard.len() > 0 ==> progress == if heard[0] is Ack {
                DialProgress::Opened
            } else {
                DialProgress::Failed(DialError::NotAcked)
            }
            &&& keyed && heard.len() == 0 ==> progress == DialProgress::Failed(DialError::Reset)
            &&& keyed && heard.len() > 0 && !challenged ==> progress == DialProgress::Failed(
                DialError::NotAcked,
            )
            &&& keyed && challenged && heard.len() == 1 ==> progress == DialProgress::Failed(
                DialError::Lost,
            )
            &&& keyed && challenged && heard.len() > 1 ==> progress == if heard[1] is Ack {
                DialProgress::Opened
            } else {
                DialProgress::Failed(DialError::NotAcked)
            }
            &&& said == if keyed && challenged {
                declared + seq![Content::Answer(right_answer(spoke.key->0@, heard[0]->payload@))]
            } else {
                declared
            }
        }),
{
    reveal_with_fuel(spoke_talks, 7);
}

/// What comes of hub and spoke when each hears what the other says, and nothing fails. Where
/// neither has a key, or both have the same, the channel is open for both. Where their keys give
/// different codes of the challenge, the hub refuses the spoke, which is left without
/// acknowledgement. Where only the hub has a key, the spoke gives up on the challenge, and the hub
/// on the spoke. Where only the spoke has one, it gives up on the acknowledgement, which the hub
/// has sent. In each case the hub knows from then on at which port the service is.
pub proof fn hub_and_spoke_meet(
    hub: Hub,
    spoke: Spoke,
    fresh: Vec<u8>,
    to_hub: Seq<ChannelMessage>,
    to_spoke: Seq<ChannelMessage>,
)
    requires
        ({
            let dial = if hub.ctrl {
                spoke.data_dial()
            } else {
                spoke.control_dial()
            };
            &&& carries(to_hub, spoke_talks(spoke, dial, to_spoke).1)
            &&& carries(to_spoke, hub_talks(hub, hub.fresh_opening(), to_hub, fresh).2)
        }),
    ensures
        ({
            let dial = if hub.ctrl {
                spoke.data_dial()
            } else {
                spoke.control_dial()
            };
            let (after, at_hub, _) = hub_talks(hub, hub.fresh_opening(), to_hub, fresh);
            let (at_spoke, _) = spoke_talks(spoke, dial, to_spoke);
            let opens = at_hub is Opened && at_spoke is Opened;
            &&& hub.key is None && spoke.key is None ==> opens
            &&& hub.key matches Some(ours) ==> spoke.key matches Some(theirs) ==> {
                &&& ours@ == theirs@ ==> opens
                &&& right_answer(ours@, fresh@) == right_answer(theirs@, fresh@) ==> opens
                &&& right_answer(ours@, fresh@) != right_answer(theirs@, fresh@) ==> at_hub
                    == Progress::Failed(OpenError::AuthFailed) && at_spoke == DialProgress::Failed(
                    DialError::Lost,
                )
            }
            &&& hub.key is Some && spoke.key is None ==> at_hub == Progress::Failed(
                OpenError::Reset,
            ) && at_spoke == DialProgress::Failed(DialError::NotAcked)
            &&& hub.key is None && spoke.key is Some ==> at_hub is Opened && at_spoke
                == DialProgress::Failed(DialError::NotAcked)
            &&& after == if hub.ctrl {
                hub
            } else {
                hub.told_port(spoke.local_addr.port)
            }
        }),
{
    let dial = if hub.ctrl {
        spoke.data_dial()
    } else {
        spoke.control_dial()
    };
    hub_outcome(hub, to_hub, fresh);
    spoke_outcome(spoke, dial, to_spoke);
    let said = spoke_talks(spoke, dial, to_spoke).1;
    let replied = hub_talks(hub, hub.fresh_opening(), to_hub, fresh).2;
    assert(to_hub.len() == said.len() && to_spoke.len() == replied.len());
    assert(forall|i: int| 0 <= i < to_hub.len() ==> (#[trigger] to_hub[i])@ == said[i]);
    assert(forall|i: int| 0 <= i < to_spoke.len() ==> (#[trigger] to_spoke[i])@ == replied[i]);
    assert(said[0] == dial.chan_type@);
    assert(to_hub[0]@ == dial.chan_type@);
    assert(greets(hub.ctrl, Event::Received(to_hub[0])));
}

} // verus!
