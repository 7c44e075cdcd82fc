//! Who is in a room: the member events of a room, and what they say of the
//! user to notify.

use vstd::prelude::*;
use ruma_common::events::room::member::{MembershipState, RoomMemberEvent};
use crate::user_id::UserId;

verus! {

/// How a user stands to a room.
#[derive(Clone, Copy, Debug, PartialEq, Eq, Structural)]
pub enum Membership {
    Ban,
    Invite,
    Join,
    Knock,
    Leave,
    /// Any other state.
    Other,
}

/// One member event of a room: who sent it, and the membership it sets.
#[derive(Clone, Debug)]
pub struct MemberEvent {
    pub sender: String,
    pub membership: Membership,
}

/// The mathematical value of a [`MemberEvent`].
pub struct MemberEventView {
    pub sender: Seq<char>,
    pub membership: Membership,
}

impl View for MemberEvent {
    type V = MemberEventView;

    open spec fn view(&self) -> MemberEventView {
        MemberEventView { sender: self.sender@, membership: self.membership }
    }
}

/// Trusted: the member event that `ruma_common` reads from the JSON text
/// `json`, or `None` where it refuses the text.
pub uninterp spec fn member_event(json: Seq<char>) -> Option<MemberEventView>;

/// Calls `serde_json::from_str` at the type `RoomMemberEvent` of
/// `ruma_common`, then reads the event's `sender()` and `membership()`. The
/// contract claims that what is read depends on the text alone, and gives it
/// the name [`member_event`]; the five memberships that `ruma_common`
/// knows by name keep their names, any other becomes `Other`. Where the
/// text is refused, the result is what `serde_json` says of the refusal, of
/// which nothing is claimed.
#[verifier::external_body]
fn read_member_event(json: &str) -> (read: Result<MemberEvent, String>)
    ensures
        read.is_ok() == member_event(json@).is_some(),
        read matches Ok(event) ==> member_event(json@) == Some(event@),
{
    let event = match serde_json::from_str::<RoomMemberEvent>(json) {
        Ok(event) => event,
        Err(e) => return Err(e.to_string()),
    };
    let membership = match event.membership() {
        MembershipState::Ban => Membership::Ban,
        MembershipState::Invite => Membership::Invite,
        MembershipState::Join => Membership::Join,
        MembershipState::Knock => Membership::Knock,
        MembershipState::Leave => Membership::Leave,
        _ => Membership::Other,
    };
    Ok(MemberEvent { sender: event.sender().as_str().to_owned(), membership })
}

/// What one event does to a scan of a room's member events.
#[derive(Clone, Copy, Debug, PartialEq, Eq, Structural)]
pub enum Flow {
    /// The scan goes on; the flag says whether the target counts as present
    /// so far.
    Next(bool),
    /// The scan ends here, with the target present or not.
    Stop(bool),
}

/// What a scan of a room's member events found.
#[derive(Clone, Copy, Debug, PartialEq, Eq, Structural)]
pub enum Presence {
    /// The target is in the room, or invited to it.
    Present,
    /// Nothing shows the target in the room.
    Absent,
    /// The scan met a text that is no member event.
    Malformed,
}

/// The rule for one event. The notifier's own events are passed over. An
/// event of the target that bans them or has them leave ends the scan with
/// the target absent; any other event of theirs marks them present. The
/// event of anybody else ends the scan with what was found so far.
pub open spec fn judge_spec(
    event: MemberEventView,
    target: Seq<char>,
    me: Seq<char>,
    seen: bool,
) -> Flow {
    if event.sender == me {
        Flow::Next(seen)
    } else if event.sender == target {
        if event.membership == Membership::Ban || event.membership == Membership::Leave {
            Flow::Stop(false)
        } else {
            Flow::Next(true)
        }
    } else {
        Flow::Stop(seen)
    }
}

/// The outcome of a scan that ends with the flag `seen`.
pub open spec fn presence_of(seen: bool) -> Presence {
    if seen {
        Presence::Present
    } else {
        Presence::Absent
    }
}

/// The scan of `events` from index `from` on, with the target seen or not
/// before it: the events are judged in order, up to the first that stops
/// the scan or is malformed.
pub open spec fn scan_from(
    events: Seq<Option<MemberEventView>>,
    target: Seq<char>,
    me: Seq<char>,
    from: int,
    seen: bool,
) -> Presence
    decreases events.len() - from,
{
    if from < 0 || from >= events.len() {
        presence_of(seen)
    } else {
        match events[from] {
            None => Presence::Malformed,
            Some(event) => match judge_spec(event, target, me, seen) {
                Flow::Next(now) => scan_from(events, target, me, from + 1, now),
                Flow::Stop(found) => presence_of(found),
            },
        }
    }
}

/// The scan of all of `events`.
pub open spec fn scan(
    events: Seq<Option<MemberEventView>>,
    target: Seq<char>,
    me: Seq<char>,
) -> Presence {
    scan_from(events, target, me, 0, false)
}

/// The events that the JSON texts of `chunk` hold, each read on its own.
pub open spec fn events_of(chunk: Seq<String>) -> Seq<Option<MemberEventView>> {
    Seq::new(chunk.len(), |i: int| member_event(chunk[i]@))
}

/// Whether `event` shows the target in the room: it is an event of the
/// target, not of the notifier, and neither bans the target nor has them
/// leave.
pub open spec fn shows_target(
    event: Option<MemberEventView>,
    target: Seq<char>,
    me: Seq<char>,
) -> bool {
    match event {
        Some(event) => event.sender == target && event.sender != me && event.membership
            != Membership::Ban && event.membership != Membership::Leave,
        None => false,
    }
}

/// A scan that finds the target present has met an event that shows them:
/// either they counted as present before it began, or one of the events
/// from `from` on shows them.
pub proof fn present_has_a_witness_from(
    events: Seq<Option<MemberEventView>>,
    target: Seq<char>,
    me: Seq<char>,
    from: int,
    seen: bool,
)
    requires
        0 <= from,
        scan_from(events, target, me, from, seen) == Presence::Present,
    ensures
        seen || exists|i: int| from <= i < events.len() && shows_target(events[i], target, me),
    decreases events.len() - from,
{
    if from < events.len() {
        match events[from] {
            None => {},
            Some(event) => match judge_spec(event, target, me, seen) {
                Flow::Next(now) => {
                    present_has_a_witness_from(events, target, me, from + 1, now);
                    if !seen {
                        if now {
                            assert(shows_target(events[from], target, me));
                        } else {
                            let i = choose|i: int|
                                from + 1 <= i < events.len() && shows_target(
                                    events[i],
                                    target,
                                    me,
                                );
                            assert(from <= i < events.len() && shows_target(
                                events[i],
                                target,
                                me,
                            ));
                        }
                    }
                },
                Flow::Stop(found) => {},
            },
        }
    }
}

/// The target is found present in a room only where one of its member
/// events shows them.
pub proof fn present_has_a_witness(
    events: Seq<Option<MemberEventView>>,
    target: Seq<char>,
    me: Seq<char>,
)
    requires
        scan(events, target, me) == Presence::Present,
    ensures
        exists|i: int| 0 <= i < events.len() && shows_target(events[i], target, me),
{
    present_has_a_witness_from(events, target, me, 0, false);
}

/// A scan reports a malformed event only where there is one.
pub proof fn malformed_has_a_witness(
    events: Seq<Option<MemberEventView>>,
    target: Seq<char>,
    me: Seq<char>,
    from: int,
    seen: bool,
)
    requires
        0 <= from,
        scan_from(events, target, me, from, seen) == Presence::Malformed,
    ensures
        exists|i: int| from <= i < events.len() && events[i].is_none(),
    decreases events.len() - from,
{
    if from < events.len() {
        match events[from] {
            None => {
                assert(events[from].is_none());
            },
            Some(event) => match judge_spec(event, target, me, seen) {
                Flow::Next(now) => {
                    malformed_has_a_witness(events, target, me, from + 1, now);
                    let i = choose|i: int| from + 1 <= i < events.len() && events[i].is_none();
                    assert(from <= i < events.len() && events[i].is_none());
                },
                Flow::Stop(found) => {},
            },
        }
    }
}

/// Judges one event of a scan.
pub fn judge(event: &MemberEvent, target: &UserId, me: &UserId, seen: bool) -> (flow: Flow)
    ensures
        flow == judge_spec(event@, target@, me@, seen),
{
    if me.is(&event.sender) {
        Flow::Next(seen)
    } else if target.is(&event.sender) {
        match event.membership {
            Membership::Ban => Flow::Stop(false),
            Membership::Leave => Flow::Stop(false),
            _ => Flow::Next(true),
        }
    } else {
        Flow::Stop(seen)
    }
}

/// What a scan of member events, given as JSON texts, comes to.
#[derive(Debug)]
pub enum Scanned {
    /// The scan ran to its end: the target is present, or is not.
    Found(bool),
    /// The scan met a text that is no member event; the text is what
    /// `serde_json` said of it.
    Refused(String),
}

impl Scanned {
    /// The outcome without the text of a refusal.
    pub open spec fn presence(self) -> Presence {
        match self {
            Scanned::Found(seen) => presence_of(seen),
            Scanned::Refused(_) => Presence::Malformed,
        }
    }
}

/// Scans the member events of a room, given as JSON texts, for the target.
/// Each text is read when the scan reaches it; texts behind the end of the
/// scan are never read.
pub fn scan_members(chunk: &Vec<String>, target: &UserId, me: &UserId) -> (found: Scanned)
    ensures
        found.presence() == scan(events_of(chunk@), target@, me@),
{
    let ghost events = events_of(chunk@);
    let mut seen = false;
    let mut i: usize = 0;
    while i < chunk.len()
        invariant
            i <= chunk.len(),
            events == events_of(chunk@),
            scan(events, target@, me@) == scan_from(events, target@, me@, i as int, seen),
        decreases chunk.len() - i,
    {
        match read_member_event(chunk[i].as_str()) {
            Err(said) => {
                return Scanned::Refused(said);
            },
            Ok(event) => match judge(&event, target, me, seen) {
                Flow::Next(now) => {
                    seen = now;
                },
                Flow::Stop(found) => {
                    return Scanned::Found(found);
                },
            },
        }
        i += 1;
    }
    Scanned::Found(seen)
}

} // verus!
