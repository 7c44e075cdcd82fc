//! The course of one notification, as a chain of questions. The library
//! asks; the caller carries each question to the homeserver (or to the
//! disk) and hands the answer to the value that asked, which gives the
//! next question. The chain ends in a message to send, or in a failure.

use vstd::prelude::*;
use crate::attachment::{
    content_type, file_name, guessed_mime, last_component, sent_name, LastComponentView,
};
use crate::content::{attachment_content, attachment_message, text_event, MessageType, MessageView};
use crate::error::{Error, ErrorKind};
use crate::membership::{events_of, scan, scan_members, MemberEventView, Presence, Scanned};
use crate::room::{create_room, room_request, RoomRequest, RoomRequestView};
use crate::user_id::UserId;

verus! {

/// What is to be delivered.
#[derive(Debug)]
pub enum Payload {
    /// A text.
    Text { body: String },
    /// The file at `path`.
    Attachment { path: String, description: Option<String> },
}

/// The mathematical value of a [`Payload`].
pub enum PayloadView {
    Text { body: Seq<char> },
    Attachment { path: Seq<char>, description: Option<Seq<char>> },
}

/// The text that an optional string holds, if any.
pub open spec fn text_of(text: Option<String>) -> Option<Seq<char>> {
    match text {
        Some(text) => Some(text@),
        None => None,
    }
}

impl View for Payload {
    type V = PayloadView;

    open spec fn view(&self) -> PayloadView {
        match self {
            Payload::Text { body } => PayloadView::Text { body: body@ },
            Payload::Attachment { path, description } => PayloadView::Attachment {
                path: path@,
                description: text_of(*description),
            },
        }
    }
}

/// One notification: what goes to whom, and who the notifier is.
#[derive(Debug)]
pub struct Task {
    pub payload: Payload,
    pub target: UserId,
    pub me: UserId,
}

/// The mathematical value of a [`Task`].
pub struct TaskView {
    pub payload: PayloadView,
    pub target: Seq<char>,
    pub me: Seq<char>,
}

impl View for Task {
    type V = TaskView;

    open spec fn view(&self) -> TaskView {
        TaskView { payload: self.payload@, target: self.target@, me: self.me@ }
    }
}

/// The question "which rooms has the notifier joined?".
#[derive(Debug)]
pub struct AwaitRooms {
    pub task: Task,
}

/// The question "what are the member events of `room_id`?". `rooms` are
/// the joined rooms, of which those from index `next` on are still to be
/// asked about.
#[derive(Debug)]
pub struct AwaitMembers {
    pub task: Task,
    pub room_id: String,
    pub rooms: Vec<String>,
    pub next: usize,
}

/// The order "make this room", whose answer is the id of the new room.
#[derive(Debug)]
pub struct AwaitRoom {
    pub task: Task,
    pub request: RoomRequest,
}

/// The order "upload the file at `path` as `content_type`", whose answer is
/// the URI of the upload and the number of bytes uploaded.
#[derive(Debug)]
pub struct AwaitUpload {
    pub room_id: String,
    pub path: String,
    pub description: Option<String>,
    pub filename: String,
    pub content_type: String,
}

/// A message on its way to a room, under the transaction id that tells it
/// from every other.
#[derive(Debug)]
pub struct Outgoing {
    pub room_id: String,
    pub txn_id: String,
    pub content: MessageType,
}

/// What the caller is to do next.
#[derive(Debug)]
pub enum Action {
    ListJoinedRooms(AwaitRooms),
    FetchMembers(AwaitMembers),
    CreateRoom(AwaitRoom),
    Upload(AwaitUpload),
    /// Send the message; the notification is then done.
    Send(Outgoing),
    /// Give up with this failure.
    Fail(Error),
}

/// The mathematical value of an [`Action`]: what is asked, and all that the
/// answer will be judged by. A message to send is taken without its
/// transaction id, a failure without its text.
pub enum Step {
    ListJoinedRooms { task: TaskView },
    FetchMembers { task: TaskView, room_id: Seq<char>, rooms: Seq<Seq<char>>, next: nat },
    CreateRoom { task: TaskView, request: RoomRequestView },
    Upload {
        room_id: Seq<char>,
        path: Seq<char>,
        description: Option<Seq<char>>,
        filename: Seq<char>,
        content_type: Seq<char>,
    },
    Send { room_id: Seq<char>, content: MessageView },
    Fail { kind: ErrorKind },
}

/// The texts that a sequence of strings holds.
pub open spec fn texts(strings: Seq<String>) -> Seq<Seq<char>> {
    Seq::new(strings.len(), |i: int| strings[i]@)
}

impl View for AwaitRooms {
    type V = Step;

    open spec fn view(&self) -> Step {
        Step::ListJoinedRooms { task: self.task@ }
    }
}

impl View for AwaitMembers {
    type V = Step;

    open spec fn view(&self) -> Step {
        Step::FetchMembers {
            task: self.task@,
            room_id: self.room_id@,
            rooms: texts(self.rooms@),
            next: self.next as nat,
        }
    }
}

impl View for AwaitRoom {
    type V = Step;

    open spec fn view(&self) -> Step {
        Step::CreateRoom { task: self.task@, request: self.request@ }
    }
}

impl View for AwaitUpload {
    type V = Step;

    open spec fn view(&self) -> Step {
        Step::Upload {
            room_id: self.room_id@,
            path: self.path@,
            description: text_of(self.description),
            filename: self.filename@,
            content_type: self.content_type@,
        }
    }
}

impl View for Outgoing {
    type V = Step;

    open spec fn view(&self) -> Step {
        Step::Send { room_id: self.room_id@, content: self.content@ }
    }
}

impl View for Action {
    type V = Step;

    open spec fn view(&self) -> Step {
        match self {
            Action::ListJoinedRooms(asked) => asked@,
            Action::FetchMembers(asked) => asked@,
            Action::CreateRoom(asked) => asked@,
            Action::Upload(asked) => asked@,
            Action::Send(message) => message@,
            Action::Fail(e) => Step::Fail { kind: e@.kind() },
        }
    }
}

/// The search for a room, at the joined room of index `from`: its members
/// are asked for. Where there is no such room, the search has failed and a
/// room is made for the target.
pub open spec fn probe(task: TaskView, rooms: Seq<Seq<char>>, from: nat) -> Step {
    if from < rooms.len() {
        Step::FetchMembers { task, room_id: rooms[from as int], rooms, next: from + 1 }
    } else {
        Step::CreateRoom { task, request: room_request(task.target) }
    }
}

/// What follows once an attachment's media type and last component are
/// known: the upload, under the name to send; or the failure of a path
/// that names no file.
pub open spec fn upload_step(
    room_id: Seq<char>,
    path: Seq<char>,
    description: Option<Seq<char>>,
    mime: Seq<char>,
    component: LastComponentView,
) -> Step {
    match sent_name(component) {
        Some(filename) => Step::Upload { room_id, path, description, filename, content_type: mime },
        None => Step::Fail { kind: ErrorKind::MissingFilename },
    }
}

/// What follows once the room is known: a text is sent to it; an
/// attachment is looked at and uploaded first.
pub open spec fn room_ready(task: TaskView, room_id: Seq<char>) -> Step {
    match task.payload {
        PayloadView::Text { body } => Step::Send {
            room_id,
            content: MessageView::Text { body },
        },
        PayloadView::Attachment { path, description } => upload_step(
            room_id,
            path,
            description,
            guessed_mime(path),
            last_component(path),
        ),
    }
}

/// What follows the scan of the members of `room_id`: with the target
/// present the room is the one; with the target absent the search goes on
/// at `next`; a malformed event ends the notification.
pub open spec fn after_scan(
    task: TaskView,
    room_id: Seq<char>,
    rooms: Seq<Seq<char>>,
    next: nat,
    found: Presence,
) -> Step {
    match found {
        Presence::Present => room_ready(task, room_id),
        Presence::Absent => probe(task, rooms, next),
        Presence::Malformed => Step::Fail { kind: ErrorKind::SerdeError },
    }
}

/// Where the search for a room ends when it is at the joined room of index
/// `from` and the member events of the room `rooms[i]` are `answers[i]`:
/// each room whose scan finds the target absent is passed over.
pub open spec fn settle(
    task: TaskView,
    rooms: Seq<Seq<char>>,
    answers: Seq<Seq<Option<MemberEventView>>>,
    from: nat,
) -> Step
    decreases rooms.len() - from,
{
    if from >= rooms.len() {
        probe(task, rooms, from)
    } else {
        let found = scan(answers[from as int], task.target, task.me);
        if found == Presence::Absent {
            settle(task, rooms, answers, from + 1)
        } else {
            after_scan(task, rooms[from as int], rooms, from + 1, found)
        }
    }
}

/// The search goes one room at a time. At a joined room it asks for the
/// members; an answer that shows the target absent hands the search on to
/// the next room, and any other answer ends it.
pub proof fn search_goes_room_by_room(
    task: TaskView,
    rooms: Seq<Seq<char>>,
    answers: Seq<Seq<Option<MemberEventView>>>,
    from: nat,
)
    requires
        from < rooms.len(),
    ensures
        probe(task, rooms, from) == (Step::FetchMembers {
            task,
            room_id: rooms[from as int],
            rooms,
            next: from + 1,
        }),
        ({
            let found = scan(answers[from as int], task.target, task.me);
            let next = after_scan(task, rooms[from as int], rooms, from + 1, found);
            if found == Presence::Absent {
                next == probe(task, rooms, from + 1) && settle(task, rooms, answers, from)
                    == settle(task, rooms, answers, from + 1)
            } else {
                settle(task, rooms, answers, from) == next
            }
        }),
{
}

/// The notification goes to the first joined room in which the target is
/// present: where the rooms from `from` up to `k` show the target absent
/// and the room of index `k` shows them present, the search ends with that
/// room.
pub proof fn first_room_with_target_is_chosen(
    task: TaskView,
    rooms: Seq<Seq<char>>,
    answers: Seq<Seq<Option<MemberEventView>>>,
    from: nat,
    k: nat,
)
    requires
        from <= k < rooms.len(),
        forall|j: int| from <= j < k ==> scan(#[trigger] answers[j], task.target, task.me)
            == Presence::Absent,
        scan(answers[k as int], task.target, task.me) == Presence::Present,
    ensures
        settle(task, rooms, answers, from) == room_ready(task, rooms[k as int]),
    decreases k - from,
{
    if from < k {
        assert(scan(answers[from as int], task.target, task.me) == Presence::Absent);
        first_room_with_target_is_chosen(task, rooms, answers, from + 1, k);
    }
}

/// A malformed member event ends the notification, unless a room before it
/// has the target: where the rooms from `from` up to `k` show the target
/// absent and the scan of the room of index `k` meets a malformed event,
/// the search fails, and no room is made.
pub proof fn malformed_event_ends_the_search(
    task: TaskView,
    rooms: Seq<Seq<char>>,
    answers: Seq<Seq<Option<MemberEventView>>>,
    from: nat,
    k: nat,
)
    requires
        from <= k < rooms.len(),
        forall|j: int| from <= j < k ==> scan(#[trigger] answers[j], task.target, task.me)
            == Presence::Absent,
        scan(answers[k as int], task.target, task.me) == Presence::Malformed,
    ensures
        settle(task, rooms, answers, from) == (Step::Fail { kind: ErrorKind::SerdeError }),
    decreases k - from,
{
    if from < k {
        assert(scan(answers[from as int], task.target, task.me) == Presence::Absent);
        malformed_event_ends_the_search(task, rooms, answers, from + 1, k);
    }
}

/// A room is made exactly when no joined room has the target: where every
/// room from `from` on shows the target absent, the search ends with the
/// request for a room to which the target is invited.
pub proof fn room_is_made_when_none_has_target(
    task: TaskView,
    rooms: Seq<Seq<char>>,
    answers: Seq<Seq<Option<MemberEventView>>>,
    from: nat,
)
    requires
        forall|j: int|
            from <= j < rooms.len() ==> scan(#[trigger] answers[j], task.target, task.me)
                == Presence::Absent,
    ensures
        settle(task, rooms, answers, from) == (Step::CreateRoom {
            task,
            request: room_request(task.target),
        }),
    decreases rooms.len() - from,
{
    if from < rooms.len() {
        assert(scan(answers[from as int], task.target, task.me) == Presence::Absent);
        room_is_made_when_none_has_target(task, rooms, answers, from + 1);
    }
}

/// The search never ends with a question about members: it ends with a
/// room to make, with what follows a room that was found, or with a
/// failure.
pub proof fn search_ends(
    task: TaskView,
    rooms: Seq<Seq<char>>,
    answers: Seq<Seq<Option<MemberEventView>>>,
    from: nat,
)
    ensures
        !(settle(task, rooms, answers, from) is FetchMembers),
        !(settle(task, rooms, answers, from) is ListJoinedRooms),
    decreases rooms.len() - from,
{
    if from < rooms.len() {
        let found = scan(answers[from as int], task.target, task.me);
        if found == Presence::Absent {
            search_ends(task, rooms, answers, from + 1);
        } else if found == Presence::Present {
            match task.payload {
                PayloadView::Text { body } => {},
                PayloadView::Attachment { path, description } => {},
            }
        }
    }
}

/// Calls `ruma_common::TransactionId::new`, which makes a random
/// transaction id, and returns it as text. Nothing is claimed of the id.
#[verifier::external_body]
fn fresh_transaction_id() -> String {
    ruma_common::TransactionId::new().to_string()
}

/// The message `content` on its way to `room_id`, under a fresh transaction
/// id.
pub fn outgoing(room_id: String, content: MessageType) -> (message: Outgoing)
    ensures
        message.room_id == room_id,
        message.content == content,
{
    Outgoing { room_id, txn_id: fresh_transaction_id(), content }
}

/// Goes on with the search for a room at the joined room of index `from`.
pub fn find_room(task: Task, rooms: Vec<String>, from: usize) -> (next: Action)
    ensures
        next@ == probe(task@, texts(rooms@), from as nat),
{
    if from < rooms.len() {
        let room_id = rooms[from].clone();
        Action::FetchMembers(AwaitMembers { task, room_id, rooms, next: from + 1 })
    } else {
        let request = create_room(&task.target);
        Action::CreateRoom(AwaitRoom { task, request })
    }
}

/// Plans the upload of an attachment whose media type and sent name have
/// been worked out.
pub fn plan_upload(
    room_id: String,
    path: String,
    description: Option<String>,
    mime: String,
    name: Result<String, Error>,
) -> (next: Action)
    ensures
        next@ == (match name {
            Ok(filename) => Step::Upload {
                room_id: room_id@,
                path: path@,
                description: text_of(description),
                filename: filename@,
                content_type: mime@,
            },
            Err(e) => Step::Fail { kind: e@.kind() },
        }),
{
    match name {
        Ok(filename) => Action::Upload(
            AwaitUpload { room_id, path, description, filename, content_type: mime },
        ),
        Err(e) => Action::Fail(e),
    }
}

/// Goes on once the room is known.
pub fn deliver(task: Task, room_id: String) -> (next: Action)
    ensures
        next@ == room_ready(task@, room_id@),
{
    match task.payload {
        Payload::Text { body } => Action::Send(outgoing(room_id, text_event(body))),
        Payload::Attachment { path, description } => {
            let mime = content_type(path.as_str());
            let name = file_name(path.as_str());
            plan_upload(room_id, path, description, mime, name)
        },
    }
}

/// Starts the notification of `target_user` with a text.
pub fn send_text_message(text: String, target_user: &UserId, self_id: &UserId) -> (first: Action)
    ensures
        first@ == (Step::ListJoinedRooms {
            task: TaskView {
                payload: PayloadView::Text { body: text@ },
                target: target_user@,
                me: self_id@,
            },
        }),
{
    Action::ListJoinedRooms(
        AwaitRooms {
            task: Task {
                payload: Payload::Text { body: text },
                target: target_user.clone(),
                me: self_id.clone(),
            },
        },
    )
}

/// Starts the notification of `target_user` with the file at
/// `attachment_path`.
pub fn send_attachment(
    attachment_path: &str,
    description: Option<String>,
    target_user: &UserId,
    self_id: &UserId,
) -> (first: Action)
    ensures
        first@ == (Step::ListJoinedRooms {
            task: TaskView {
                payload: PayloadView::Attachment {
                    path: attachment_path@,
                    description: text_of(description),
                },
                target: target_user@,
                me: self_id@,
            },
        }),
{
    Action::ListJoinedRooms(
        AwaitRooms {
            task: Task {
                payload: Payload::Attachment { path: attachment_path.to_owned(), description },
                target: target_user.clone(),
                me: self_id.clone(),
            },
        },
    )
}

impl AwaitRooms {
    /// The answer: the notifier has joined `rooms`. They are searched in
    /// this order.
    pub fn joined_rooms(self, rooms: Vec<String>) -> (next: Action)
        ensures
            next@ == probe(self.task@, texts(rooms@), 0),
    {
        find_room(self.task, rooms, 0)
    }
}

impl AwaitMembers {
    /// The answer: the member events of the room, each as JSON text, in the
    /// order in which the homeserver gave them.
    pub fn members(self, chunk: &Vec<String>) -> (next: Action)
        ensures
            next@ == after_scan(
                self.task@,
                self.room_id@,
                texts(self.rooms@),
                self.next as nat,
                scan(events_of(chunk@), self.task@.target, self.task@.me),
            ),
    {
        match scan_members(chunk, &self.task.target, &self.task.me) {
            Scanned::Found(true) => deliver(self.task, self.room_id),
            Scanned::Found(false) => find_room(self.task, self.rooms, self.next),
            Scanned::Refused(said) => Action::Fail(Error::SerdeError(said)),
        }
    }
}

impl AwaitRoom {
    /// The answer: the room was made, and has the id `room_id`.
    pub fn created(self, room_id: String) -> (next: Action)
        ensures
            next@ == room_ready(self.task@, room_id@),
    {
        deliver(self.task, room_id)
    }
}

impl AwaitUpload {
    /// The answer: the file held `size` bytes, which now lie at `uri`.
    pub fn uploaded(self, uri: &str, size: usize) -> (next: Action)
        ensures
            next@ == (Step::Send {
                room_id: self.room_id@,
                content: attachment_message(uri@, self.filename@, self.content_type@, size),
            }),
    {
        let content = attachment_content(
            self.description,
            uri,
            self.filename,
            self.content_type,
            size,
        );
        Action::Send(outgoing(self.room_id, content))
    }
}

} // verus!
