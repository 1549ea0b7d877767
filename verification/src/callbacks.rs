//! A press of an approval button in Telegram, as a state machine: record the
//! human's decision, unlock the keychain where an unlock was approved, and
//! answer the press.
use vstd::prelude::*;
use crate::flow::unlock_resource;
use crate::models::{ApprovalRequest, ResourceType};
use crate::telegram::{callback_decision, is_unlock_request, parse_callback};
use crate::text::{join2, same_text};

verus! {

/// Where a button press stands: what it waits for.
#[derive(Debug)]
pub enum CallbackPhase {
    Received,
    /// The recording of the decision.
    AwaitUpdate,
    /// The approval that was approved, to see whether it unlocks the keychain.
    AwaitRecord,
    /// The keychain's unlock.
    AwaitUnlock,
    /// The delivery of the message that the unlock failed.
    AwaitNotice,
    /// The answer to the press.
    AwaitAnswer,
    /// The answer to a press whose decision could not be recorded.
    AwaitErrorAnswer,
    /// The edit of the message under which the button was pressed.
    AwaitEdit,
    Finished,
}

/// What the last action brought back.
#[derive(Debug)]
pub enum CallbackEvent {
    /// The button was pressed.
    Begin,
    /// The recording of the decision, or the store's error.
    Updated(Result<(), String>),
    /// The approval found for the id, or the store's error.
    RecordFound(Result<Option<ApprovalRequest>, String>),
    Unlocked(Result<(), String>),
    /// A message went out (whether Telegram took it or not).
    Sent,
}

/// What to do next.
#[derive(Debug)]
pub enum CallbackAction {
    /// Record this status for the approval with this id.
    UpdateStatus(u128, String),
    /// Look up the approval with this id.
    LookupApproval(u128),
    /// Unlock the keychain.
    Unlock,
    /// Send this message to the person who pressed the button.
    Notify(String),
    /// Answer the press with this text.
    Answer(String),
    /// Replace the text of the message under which the button was pressed.
    EditMessage(String),
    /// Nothing more to do.
    Done,
}

/// A button press on its way.
#[derive(Debug)]
pub struct CallbackSession {
    /// The button's data, where the press carried any.
    pub data: Option<String>,
    /// Whether the press came with the message it was made under.
    pub has_message: bool,
    /// The status being recorded, once read.
    pub status: String,
    /// The approval decided on, once read.
    pub approval_id: u128,
    pub phase: CallbackPhase,
}

/// What a press's data asks for, where it has data.
pub open spec fn decision_of(data: Option<String>) -> Option<(Seq<char>, u128)> {
    match data {
        Some(d) => callback_decision(d@),
        None => None,
    }
}

/// The session keeps what it has read.
pub open spec fn keeps_press(s: CallbackSession, t: CallbackSession) -> bool {
    &&& t.data == s.data
    &&& t.has_message == s.has_message
    &&& t.status == s.status
    &&& t.approval_id == s.approval_id
}

/// The press is answered with "Request <status>", after which the message is
/// edited.
pub open spec fn to_answer(s: CallbackSession, t: CallbackSession, a: CallbackAction) -> bool {
    &&& keeps_press(s, t)
    &&& t.phase is AwaitAnswer
    &&& a matches CallbackAction::Answer(m) && m@ == "Request "@ + s.status@
}

/// The event a session waits for in its phase.
pub open spec fn press_accepts(s: CallbackSession, e: CallbackEvent) -> bool {
    match s.phase {
        CallbackPhase::Received => e is Begin,
        CallbackPhase::AwaitUpdate => e is Updated,
        CallbackPhase::AwaitRecord => e is RecordFound,
        CallbackPhase::AwaitUnlock => e is Unlocked,
        CallbackPhase::AwaitNotice => e is Sent,
        CallbackPhase::AwaitAnswer => e is Sent,
        CallbackPhase::AwaitErrorAnswer => e is Sent,
        CallbackPhase::AwaitEdit => e is Sent,
        CallbackPhase::Finished => false,
    }
}

/// One step of a button press, from `s` on `e` to `t` and `a`: a press whose
/// data is not a decision is ignored; otherwise the decision is recorded; a
/// store error is answered "Error updating status"; an approved keychain
/// unlock unlocks the keychain (telling the person where that fails); then
/// the press is answered "Request <status>" and the message edited to
/// "✅ Request <status>".
pub open spec fn press_steps_to(s: CallbackSession, e: CallbackEvent, t: CallbackSession, a: CallbackAction) -> bool {
    &&& t.data == s.data
    &&& t.has_message == s.has_message
    &&& match s.phase {
        CallbackPhase::Received => match decision_of(s.data) {
            None => t.phase is Finished && a is Done,
            Some(d) => {
                &&& t.status@ == d.0
                &&& t.approval_id == d.1
                &&& t.phase is AwaitUpdate
                &&& a matches CallbackAction::UpdateStatus(id, st) && id == d.1 && st@ == d.0
            },
        },
        CallbackPhase::AwaitUpdate => match e {
            CallbackEvent::Updated(Err(_)) => {
                &&& keeps_press(s, t)
                &&& t.phase is AwaitErrorAnswer
                &&& a matches CallbackAction::Answer(m) && m@ == "Error updating status"@
            },
            CallbackEvent::Updated(Ok(())) => if s.status@ == "Approved"@ {
                keeps_press(s, t) && t.phase is AwaitRecord && a == CallbackAction::LookupApproval(s.approval_id)
            } else {
                to_answer(s, t, a)
            },
            _ => true,
        },
        CallbackPhase::AwaitRecord => match e {
            CallbackEvent::RecordFound(Ok(Some(r))) => if r.resource_type == ResourceType::System
                && r.resource_id@ == unlock_resource() {
                keeps_press(s, t) && t.phase is AwaitUnlock && a is Unlock
            } else {
                to_answer(s, t, a)
            },
            CallbackEvent::RecordFound(_) => to_answer(s, t, a),
            _ => true,
        },
        CallbackPhase::AwaitUnlock => match e {
            CallbackEvent::Unlocked(Err(m)) => {
                &&& keeps_press(s, t)
                &&& t.phase is AwaitNotice
                &&& a matches CallbackAction::Notify(n) && n@ == "\u{274C} Approved, but unlock failed: "@ + m@
            },
            CallbackEvent::Unlocked(Ok(())) => to_answer(s, t, a),
            _ => true,
        },
        CallbackPhase::AwaitNotice => to_answer(s, t, a),
        CallbackPhase::AwaitAnswer => if s.has_message {
            &&& keeps_press(s, t)
            &&& t.phase is AwaitEdit
            &&& a matches CallbackAction::EditMessage(m) && m@ == "\u{2705} Request "@ + s.status@
        } else {
            t.phase is Finished && a is Done
        },
        CallbackPhase::AwaitErrorAnswer => t.phase is Finished && a is Done,
        CallbackPhase::AwaitEdit => t.phase is Finished && a is Done,
        CallbackPhase::Finished => true,
    }
}

/// What holds of a press in every phase: the keychain is looked at only for
/// an approval, and a press whose decision is being recorded or answered
/// carries the decision its data asks for.
pub open spec fn press_inv(s: CallbackSession) -> bool {
    &&& (s.phase is AwaitRecord || s.phase is AwaitUnlock || s.phase is AwaitNotice) ==> s.status@ == "Approved"@
    &&& !(s.phase is Received || s.phase is Finished) ==> decision_of(s.data) == Some((s.status@, s.approval_id))
}

impl CallbackSession {
    /// A button press that has just arrived, with its data and whether its
    /// message came with it.
    pub fn new(data: Option<String>, has_message: bool) -> (r: Self)
        ensures
            r.data == data,
            r.has_message == has_message,
            r.phase is Received,
            press_inv(r),
    {
        CallbackSession { data, has_message, status: String::new(), approval_id: 0, phase: CallbackPhase::Received }
    }

    /// Whether nothing more is to be done for the press.
    pub fn is_finished(&self) -> (r: bool)
        ensures
            r == self.phase is Finished,
    {
        match self.phase {
            CallbackPhase::Finished => true,
            _ => false,
        }
    }

    /// The next step of the press: see [`press_steps_to`].
    pub fn step(self, event: CallbackEvent) -> (r: (CallbackSession, CallbackAction))
        requires
            press_accepts(self, event),
        ensures
            press_steps_to(self, event, r.0, r.1),
            press_inv(self) ==> press_inv(r.0),
    {
        let CallbackSession { data, has_message, status, approval_id, phase } = self;
        match phase {
            CallbackPhase::Received => {
                let parsed = match &data {
                    Some(d) => parse_callback(d.as_str()),
                    None => None,
                };
                match parsed {
                    None => (
                        CallbackSession { data, has_message, status, approval_id, phase: CallbackPhase::Finished },
                        CallbackAction::Done,
                    ),
                    Some((st, id)) => {
                        let a = CallbackAction::UpdateStatus(id, st.clone());
                        (
                            CallbackSession {
                                data,
                                has_message,
                                status: st,
                                approval_id: id,
                                phase: CallbackPhase::AwaitUpdate,
                            },
                            a,
                        )
                    },
                }
            },
            CallbackPhase::AwaitUpdate => match event {
                CallbackEvent::Updated(Err(_)) => (
                    CallbackSession { data, has_message, status, approval_id, phase: CallbackPhase::AwaitErrorAnswer },
                    CallbackAction::Answer(String::from_str("Error updating status")),
                ),
                CallbackEvent::Updated(Ok(())) => {
                    if same_text(status.as_str(), "Approved") {
                        (
                            CallbackSession { data, has_message, status, approval_id, phase: CallbackPhase::AwaitRecord },
                            CallbackAction::LookupApproval(approval_id),
                        )
                    } else {
                        answer(data, has_message, status, approval_id)
                    }
                },
                _ => {
                    assert(false);
                    answer(data, has_message, status, approval_id)
                },
            },
            CallbackPhase::AwaitRecord => match event {
                CallbackEvent::RecordFound(Ok(Some(r))) => {
                    if is_unlock_request(&r) {
                        (
                            CallbackSession { data, has_message, status, approval_id, phase: CallbackPhase::AwaitUnlock },
                            CallbackAction::Unlock,
                        )
                    } else {
                        answer(data, has_message, status, approval_id)
                    }
                },
                _ => answer(data, has_message, status, approval_id),
            },
            CallbackPhase::AwaitUnlock => match event {
                CallbackEvent::Unlocked(Err(m)) => (
                    CallbackSession { data, has_message, status, approval_id, phase: CallbackPhase::AwaitNotice },
                    CallbackAction::Notify(join2("\u{274C} Approved, but unlock failed: ", m.as_str())),
                ),
                _ => answer(data, has_message, status, approval_id),
            },
            CallbackPhase::AwaitNotice => answer(data, has_message, status, approval_id),
            CallbackPhase::AwaitAnswer => {
                if has_message {
                    let m = join2("\u{2705} Request ", status.as_str());
                    (
                        CallbackSession { data, has_message, status, approval_id, phase: CallbackPhase::AwaitEdit },
                        CallbackAction::EditMessage(m),
                    )
                } else {
                    (
                        CallbackSession { data, has_message, status, approval_id, phase: CallbackPhase::Finished },
                        CallbackAction::Done,
                    )
                }
            },
            _ => (
                CallbackSession { data, has_message, status, approval_id, phase: CallbackPhase::Finished },
                CallbackAction::Done,
            ),
        }
    }
}

fn answer(data: Option<String>, has_message: bool, status: String, approval_id: u128) -> (r: (
    CallbackSession,
    CallbackAction,
))
    ensures
        r.0.data == data,
        r.0.has_message == has_message,
        r.0.status == status,
        r.0.approval_id == approval_id,
        r.0.phase is AwaitAnswer,
        r.1 matches CallbackAction::Answer(m) && m@ == "Request "@ + status@,
{
    let m = join2("Request ", status.as_str());
    (CallbackSession { data, has_message, status, approval_id, phase: CallbackPhase::AwaitAnswer }, CallbackAction::Answer(m))
}

/// A press records only what its data asks for: the status recorded, and the
/// approval it is recorded for, are those of the button pressed, and a press
/// whose data is no decision records nothing.
pub proof fn lemma_press_records_its_decision(s: CallbackSession, e: CallbackEvent, t: CallbackSession, a: CallbackAction)
    requires
        press_inv(s),
        press_accepts(s, e),
        press_steps_to(s, e, t, a),
        a is UpdateStatus,
    ensures
        a matches CallbackAction::UpdateStatus(id, st) && decision_of(s.data) == Some((st@, id)),
{
}

/// The keychain is unlocked from Telegram only once the approval of a
/// keychain unlock request has been recorded.
pub proof fn lemma_unlock_only_for_approved_unlock(s: CallbackSession, e: CallbackEvent, t: CallbackSession, a: CallbackAction)
    requires
        press_inv(s),
        press_accepts(s, e),
        press_steps_to(s, e, t, a),
        a is Unlock,
    ensures
        s.phase is AwaitRecord,
        s.status@ == "Approved"@,
        decision_of(s.data) == Some(("Approved"@, s.approval_id)),
        e matches CallbackEvent::RecordFound(Ok(Some(r))) && r.resource_type == ResourceType::System
            && r.resource_id@ == unlock_resource(),
{
}

} // verus!
