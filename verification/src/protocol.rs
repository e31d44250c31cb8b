use vstd::prelude::*;

use crate::action::Action;
use crate::gui_config::GuiConfig;

verus! {

/// A command sent from the controller to the render thread. The mailbox that
/// carries it holds at most one instruction: a newer one overwrites an
/// unconsumed older one, by design.
#[derive(Debug)]
pub enum Instruction {
    /// Show this configuration; acknowledge it under `update_id`.
    Configure { config: GuiConfig, update_id: u8 },
    /// Drop the window and its surface.
    CloseWindow,
    /// Terminate the render thread.
    ShutDown,
}

/// A message sent from the render thread back to the controller, delivered in
/// the order produced.
#[derive(Clone, Debug, PartialEq, Eq)]
pub enum Output {
    /// A semantic game action. A configuration-independent action (such as a
    /// close request) is valid whatever configuration is pending.
    Action { action: Action, configuration_independent: bool },
    /// A surface, window or render failure.
    Error { detail_message: String },
    /// The configure instruction with this update id was applied.
    UpdateAcknowledgement { update_id: u8 },
}

/// Error handed to the controller: a render failure, or an abnormally
/// terminated render thread.
#[derive(Clone, Debug, PartialEq, Eq)]
pub struct GraphicError {
    pub detail_message: String,
}

/// What the controller does with one received output.
#[derive(Clone, Debug, PartialEq, Eq)]
pub enum PollStep {
    /// Hand this action to the caller.
    Deliver(Action),
    /// Report this error to the caller.
    Fail(GraphicError),
    /// Nothing to hand out; keep polling.
    Continue,
}

/// The update id the next `configure` call assigns: the wrapping increment of
/// the one still awaited, or the base value once none is awaited.
pub open spec fn next_update_id(expected: Option<u8>) -> u8 {
    match expected {
        Some(id) => if id == 255 {
            0
        } else {
            (id + 1) as u8
        },
        None => 0,
    }
}

/// What an acknowledgement for `update_id` leaves awaited: only a matching id
/// clears the marker; a stale or unexpected id changes nothing.
pub open spec fn ack_result(expected: Option<u8>, update_id: u8) -> Option<u8> {
    if expected == Some(update_id) {
        None
    } else {
        expected
    }
}

/// Whether an action is handed to the caller: configuration-independent
/// actions always are, others only while no update is awaited.
pub open spec fn delivers(expected: Option<u8>, configuration_independent: bool) -> bool {
    configuration_independent || expected is None
}

/// What draining a queue of outputs yields, given the update id awaited when
/// the drain starts: the id awaited afterwards, the outputs left in the
/// queue, and the poll result. Discarded actions and acknowledgements are
/// consumed; the drain stops at the first delivered action or error, or when
/// the queue is empty.
pub open spec fn drain_spec(expected: Option<u8>, outputs: Seq<Output>) -> (
    Option<u8>,
    Seq<Output>,
    Result<Option<Action>, GraphicError>,
)
    decreases outputs.len(),
{
    if outputs.len() == 0 {
        (expected, outputs, Ok(None))
    } else {
        match outputs[0] {
            Output::Action { action, configuration_independent } => {
                if delivers(expected, configuration_independent) {
                    (expected, outputs.drop_first(), Ok(Some(action)))
                } else {
                    drain_spec(expected, outputs.drop_first())
                }
            },
            Output::Error { detail_message } => (
                expected,
                outputs.drop_first(),
                Err(GraphicError { detail_message }),
            ),
            Output::UpdateAcknowledgement { update_id } => drain_spec(
                ack_result(expected, update_id),
                outputs.drop_first(),
            ),
        }
    }
}

/// The controller-facing half of the coordination protocol: the update-id
/// acknowledgement handshake. The surrounding handle posts instructions into
/// the mailbox and feeds received outputs through this state.
pub struct HandleCore {
    expected_update_id: Option<u8>,
}

impl HandleCore {
    /// The update id awaiting acknowledgement, if any.
    pub closed spec fn spec_expected(self) -> Option<u8> {
        self.expected_update_id
    }

    /// A fresh handle awaits nothing.
    pub fn new() -> (core: HandleCore)
        ensures
            core.spec_expected() is None,
    {
        HandleCore { expected_update_id: None }
    }

    /// The update id awaiting acknowledgement, if any.
    pub fn awaiting_update(&self) -> (r: Option<u8>)
        ensures
            r == self.spec_expected(),
    {
        self.expected_update_id
    }

    /// Assigns the update id for the next configure instruction and records
    /// it as awaiting acknowledgement. A second call before any
    /// acknowledgement supersedes the first id, which is then never
    /// separately acknowledged.
    pub fn begin_configure(&mut self) -> (update_id: u8)
        ensures
            update_id == next_update_id(old(self).spec_expected()),
            final(self).spec_expected() == Some(update_id),
    {
        let update_id: u8 = match self.expected_update_id {
            Some(id) => if id == 255 {
                0
            } else {
                id + 1
            },
            None => 0,
        };
        self.expected_update_id = Some(update_id);
        update_id
    }

    /// Decides what one output received from the render thread means for the
    /// caller: actions are delivered or silently discarded depending on the
    /// handshake state, errors are reported, and acknowledgements only clear
    /// the awaited id when they match it.
    pub fn process_output(&mut self, output: Output) -> (step: PollStep)
        ensures
            output matches Output::Action { action, configuration_independent } ==> *final(self)
                == *old(self) && step == (if delivers(
                old(self).spec_expected(),
                configuration_independent,
            ) {
                PollStep::Deliver(action)
            } else {
                PollStep::Continue
            }),
            output matches Output::Error { detail_message } ==> *final(self) == *old(self) && step
                == PollStep::Fail((GraphicError { detail_message })),
            output matches Output::UpdateAcknowledgement { update_id } ==> final(self)
                .spec_expected() == ack_result(old(self).spec_expected(), update_id) && step
                == PollStep::Continue,
    {
        match output {
            Output::Action { action, configuration_independent } => {
                if configuration_independent || self.expected_update_id.is_none() {
                    PollStep::Deliver(action)
                } else {
                    PollStep::Continue
                }
            },
            Output::Error { detail_message } => PollStep::Fail(GraphicError { detail_message }),
            Output::UpdateAcknowledgement { update_id } => {
                if let Some(expected) = self.expected_update_id {
                    if update_id == expected {
                        self.expected_update_id = None;
                    }
                }
                PollStep::Continue
            },
        }
    }

    /// Drains pending outputs as the handle's poll does: returns the first
    /// action owed to the caller, the first error, or nothing once the queue
    /// is empty, updating the handshake state along the way. The surrounding
    /// handle fills `outputs` from the thread's queue and additionally
    /// reports a dead render thread before ever calling this.
    pub fn fetch_next_action(&mut self, outputs: &mut Vec<Output>) -> (r: Result<
        Option<Action>,
        GraphicError,
    >)
        ensures
            final(self).spec_expected() == drain_spec(
                old(self).spec_expected(),
                old(outputs)@,
            ).0,
            final(outputs)@ == drain_spec(old(self).spec_expected(), old(outputs)@).1,
            r == drain_spec(old(self).spec_expected(), old(outputs)@).2,
    {
        while outputs.len() > 0
            invariant
                drain_spec(old(self).spec_expected(), old(outputs)@) == drain_spec(
                    self.spec_expected(),
                    outputs@,
                ),
            decreases outputs@.len(),
        {
            let ghost q = outputs@;
            let output = outputs.remove(0);
            proof {
                assert(outputs@ =~= q.drop_first());
            }
            match self.process_output(output) {
                PollStep::Deliver(action) => {
                    return Ok(Some(action));
                },
                PollStep::Fail(error) => {
                    return Err(error);
                },
                PollStep::Continue => {},
            }
        }
        Ok(None)
    }
}

/// Calling `configure` twice before any acknowledgement is processed leaves
/// the handle awaiting only the second update id: the two ids always differ,
/// and an acknowledgement of the superseded first id does not clear the
/// marker.
pub proof fn lemma_second_configure_supersedes(initial: Option<u8>)
    ensures
        next_update_id(initial) != next_update_id(Some(next_update_id(initial))),
        ack_result(
            Some(next_update_id(Some(next_update_id(initial)))),
            next_update_id(initial),
        ) == Some(next_update_id(Some(next_update_id(initial)))),
{
}

/// While an update id is awaited, an action is handed out only after that id
/// has been acknowledged: if a drain that starts awaiting `expected` delivers
/// an action, and no queued action is configuration-independent, then the
/// queue holds an acknowledgement of `expected` ahead of it.
pub proof fn lemma_action_only_after_acknowledgement(expected: u8, outputs: Seq<Output>, a: Action)
    requires
        drain_spec(Some(expected), outputs).2 == Ok::<Option<Action>, GraphicError>(Some(a)),
        forall|i: int| 0 <= i < outputs.len() ==> !((#[trigger] outputs[i]) matches Output::Action {
            configuration_independent: true,
            ..
        }),
    ensures
        exists|i: int| 0 <= i < outputs.len() && outputs[i] == (Output::UpdateAcknowledgement {
            update_id: expected,
        }),
    decreases outputs.len(),
{
    let rest = outputs.drop_first();
    match outputs[0] {
        Output::Action { action, configuration_independent } => {
            lemma_action_only_after_acknowledgement(expected, rest, a);
            let j = choose|j: int| 0 <= j < rest.len() && rest[j]
                == (Output::UpdateAcknowledgement { update_id: expected });
            assert(outputs[j + 1] == (Output::UpdateAcknowledgement { update_id: expected }));
        },
        Output::Error { detail_message } => {},
        Output::UpdateAcknowledgement { update_id } => {
            if update_id == expected {
                assert(outputs[0] == (Output::UpdateAcknowledgement { update_id: expected }));
            } else {
                lemma_action_only_after_acknowledgement(expected, rest, a);
                let j = choose|j: int| 0 <= j < rest.len() && rest[j]
                    == (Output::UpdateAcknowledgement { update_id: expected });
                assert(outputs[j + 1] == (Output::UpdateAcknowledgement { update_id: expected }));
            }
        },
    }
}

/// While an update is awaited, configuration-dependent actions are silently
/// discarded: draining a queue of such actions alone consumes them all and
/// hands the caller nothing.
pub proof fn lemma_actions_discarded_while_awaiting(expected: u8, outputs: Seq<Output>)
    requires
        forall|i: int| 0 <= i < outputs.len() ==> (#[trigger] outputs[i]) matches Output::Action {
            configuration_independent: false,
            ..
        },
    ensures
        drain_spec(Some(expected), outputs).0 == Some(expected),
        drain_spec(Some(expected), outputs).1.len() == 0,
        drain_spec(Some(expected), outputs).2 == Ok::<Option<Action>, GraphicError>(None),
    decreases outputs.len(),
{
    if outputs.len() > 0 {
        assert(outputs[0] matches Output::Action { configuration_independent: false, .. });
        assert(forall|i: int| 0 <= i < outputs.drop_first().len()
            ==> (#[trigger] outputs.drop_first()[i]) matches Output::Action {
                configuration_independent: false,
                ..
            });
        lemma_actions_discarded_while_awaiting(expected, outputs.drop_first());
    }
}

} // verus!
