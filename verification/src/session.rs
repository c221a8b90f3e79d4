//! One run of the sender as a state machine: the decisions of building the client, logging in,
//! syncing, verifying the session, resolving the room, sending and logging out. The caller
//! performs each action and hands back what came of it.

use crate::dm::{
    classify_room, is_direct_chat, is_stale_chat, scan, to_leave, verdict_of, MembersView,
    RoomMembers, RoomVerdict,
};
use crate::recipient::Recipient;
use crate::sender::{homeserver_of, HomeserverView, Homeserver, MessageSender, SenderView};
use vstd::prelude::*;
use vstd::string::StringExecFns;

verus! {

broadcast use vstd::string::group_string_axioms;

/// Where a run stands.
#[derive(Clone, Copy, Debug, PartialEq, Eq, Structural)]
pub enum Stage {
    Building,
    CheckingSession,
    LoggingIn,
    Syncing,
    Recovering,
    LookingUp,
    JoiningKnown,
    LookingUpAgain,
    JoiningById,
    Listing,
    Fetching(usize),
    Leaving(usize),
    Forgetting(usize),
    CheckingRecipient,
    CreatingChat,
    Sending,
    LoggingOut,
    Done,
}

/// The room a text goes to.
#[derive(Clone, Copy, Debug, PartialEq, Eq, Structural)]
pub enum RoomRef {
    /// The room that the last lookup, join or chat creation gave.
    Current,
    /// A joined room, by its place in the list of joined rooms.
    Joined(usize),
}

/// What the caller is to do next.
#[derive(Debug, PartialEq, Eq)]
pub enum SendAction {
    /// Build a client for the homeserver.
    BuildClient(Homeserver),
    /// Tell whether the client already has a session.
    CheckSession,
    /// Log in with user ID and password.
    Login { user_id: String, password: String },
    /// Sync once with lazy loading of members.
    SyncOnce,
    /// Verify the session with the recovery key.
    Recover { recovery_key: String },
    /// Look the room up among the rooms the client knows.
    LookUpRoom { room_id: String },
    /// Join the room that the last lookup found.
    JoinRoom,
    /// Join a room the client does not know, by its ID.
    JoinRoomById { room_id: String },
    /// List the joined rooms.
    ListJoinedRooms,
    /// Fetch the active members of a joined room.
    FetchMembers { room: usize },
    /// Leave a joined room.
    LeaveRoom { room: usize },
    /// Forget a room that was just left.
    ForgetRoom { room: usize },
    /// Tell whether the user exists on its homeserver.
    CheckRecipient { user_id: String },
    /// Create a direct chat with the user.
    CreateDirectChat { user_id: String },
    /// Send the text as a plain message to the room.
    SendText { target: RoomRef, body: String },
    /// Log out.
    Logout,
    /// The run is over, with this result.
    Finish(Result<(), String>),
}

/// What came of the last action.
#[derive(Debug)]
pub enum SendEvent {
    ClientBuilt(Result<(), String>),
    SessionChecked { logged_in: bool },
    LoggedIn(Result<(), String>),
    Synced(Result<(), String>),
    Recovered(Result<(), String>),
    /// The lookup: `None` when the client does not know the room, else whether it is joined.
    RoomLookedUp { joined: Option<bool> },
    RoomJoined(Result<(), String>),
    JoinedRoomsListed { count: usize },
    /// The members of the room: the user IDs of the active ones and of those who left.
    MembersFetched(Result<RoomMembers, String>),
    RoomLeft(Result<(), String>),
    RoomForgotten(Result<(), String>),
    /// Whether the recipient exists.
    RecipientChecked(Result<bool, String>),
    DirectChatCreated(Result<(), String>),
    TextSent(Result<(), String>),
    LoggedOut(Result<(), String>),
    /// The user asked to stop (SIGINT or SIGTERM) while the last action was under way.
    Interrupted,
}

/// A result without a value, seen as text.
pub open spec fn outcome(r: Result<(), String>) -> Result<(), Seq<char>> {
    match r {
        Ok(()) => Ok(()),
        Err(e) => Err(e@),
    }
}

/// An action, seen as text.
pub enum ActionView {
    BuildClient(HomeserverView),
    CheckSession,
    Login { user_id: Seq<char>, password: Seq<char> },
    SyncOnce,
    Recover { recovery_key: Seq<char> },
    LookUpRoom { room_id: Seq<char> },
    JoinRoom,
    JoinRoomById { room_id: Seq<char> },
    ListJoinedRooms,
    FetchMembers { room: usize },
    LeaveRoom { room: usize },
    ForgetRoom { room: usize },
    CheckRecipient { user_id: Seq<char> },
    CreateDirectChat { user_id: Seq<char> },
    SendText { target: RoomRef, body: Seq<char> },
    Logout,
    Finish(Result<(), Seq<char>>),
}

impl View for SendAction {
    type V = ActionView;

    open spec fn view(&self) -> ActionView {
        match self {
            SendAction::BuildClient(h) => ActionView::BuildClient(h@),
            SendAction::CheckSession => ActionView::CheckSession,
            SendAction::Login { user_id, password } => ActionView::Login {
                user_id: user_id@,
                password: password@,
            },
            SendAction::SyncOnce => ActionView::SyncOnce,
            SendAction::Recover { recovery_key } => ActionView::Recover {
                recovery_key: recovery_key@,
            },
            SendAction::LookUpRoom { room_id } => ActionView::LookUpRoom { room_id: room_id@ },
            SendAction::JoinRoom => ActionView::JoinRoom,
            SendAction::JoinRoomById { room_id } => ActionView::JoinRoomById { room_id: room_id@ },
            SendAction::ListJoinedRooms => ActionView::ListJoinedRooms,
            SendAction::FetchMembers { room } => ActionView::FetchMembers { room: *room },
            SendAction::LeaveRoom { room } => ActionView::LeaveRoom { room: *room },
            SendAction::ForgetRoom { room } => ActionView::ForgetRoom { room: *room },
            SendAction::CheckRecipient { user_id } => ActionView::CheckRecipient {
                user_id: user_id@,
            },
            SendAction::CreateDirectChat { user_id } => ActionView::CreateDirectChat {
                user_id: user_id@,
            },
            SendAction::SendText { target, body } => ActionView::SendText {
                target: *target,
                body: body@,
            },
            SendAction::Logout => ActionView::Logout,
            SendAction::Finish(r) => ActionView::Finish(outcome(*r)),
        }
    }
}

/// An event, seen as text.
pub enum EventView {
    ClientBuilt(Result<(), Seq<char>>),
    SessionChecked { logged_in: bool },
    LoggedIn(Result<(), Seq<char>>),
    Synced(Result<(), Seq<char>>),
    Recovered(Result<(), Seq<char>>),
    RoomLookedUp { joined: Option<bool> },
    RoomJoined(Result<(), Seq<char>>),
    JoinedRoomsListed { count: usize },
    MembersFetched(Result<MembersView, Seq<char>>),
    RoomLeft(Result<(), Seq<char>>),
    RoomForgotten(Result<(), Seq<char>>),
    RecipientChecked(Result<bool, Seq<char>>),
    DirectChatCreated(Result<(), Seq<char>>),
    TextSent(Result<(), Seq<char>>),
    LoggedOut(Result<(), Seq<char>>),
    Interrupted,
}

impl View for SendEvent {
    type V = EventView;

    open spec fn view(&self) -> EventView {
        match self {
            SendEvent::ClientBuilt(r) => EventView::ClientBuilt(outcome(*r)),
            SendEvent::SessionChecked { logged_in } => EventView::SessionChecked {
                logged_in: *logged_in,
            },
            SendEvent::LoggedIn(r) => EventView::LoggedIn(outcome(*r)),
            SendEvent::Synced(r) => EventView::Synced(outcome(*r)),
            SendEvent::Recovered(r) => EventView::Recovered(outcome(*r)),
            SendEvent::RoomLookedUp { joined } => EventView::RoomLookedUp { joined: *joined },
            SendEvent::RoomJoined(r) => EventView::RoomJoined(outcome(*r)),
            SendEvent::JoinedRoomsListed { count } => EventView::JoinedRoomsListed {
                count: *count,
            },
            SendEvent::MembersFetched(r) => EventView::MembersFetched(
                match r {
                    Ok(ms) => Ok(ms@),
                    Err(e) => Err(e@),
                },
            ),
            SendEvent::RoomLeft(r) => EventView::RoomLeft(outcome(*r)),
            SendEvent::RoomForgotten(r) => EventView::RoomForgotten(outcome(*r)),
            SendEvent::RecipientChecked(r) => EventView::RecipientChecked(
                match r {
                    Ok(b) => Ok(*b),
                    Err(e) => Err(e@),
                },
            ),
            SendEvent::DirectChatCreated(r) => EventView::DirectChatCreated(outcome(*r)),
            SendEvent::TextSent(r) => EventView::TextSent(outcome(*r)),
            SendEvent::LoggedOut(r) => EventView::LoggedOut(outcome(*r)),
            SendEvent::Interrupted => EventView::Interrupted,
        }
    }
}

/// The state of a run, seen as text.
pub struct RunView {
    pub stage: Stage,
    /// How many rooms the client had joined, once listed.
    pub rooms: usize,
    /// The direct chat found so far.
    pub chat: Option<usize>,
    /// What came of delivering the message, kept while logging out.
    pub delivery: Result<(), Seq<char>>,
    /// Whether the user asked to stop.
    pub interrupted: bool,
}

/// The index bounds that every run keeps.
pub open spec fn run_wf(r: RunView) -> bool {
    &&& match r.stage {
        Stage::Fetching(i) => i < r.rooms,
        Stage::Leaving(i) => i < r.rooms,
        Stage::Forgetting(i) => i < r.rooms,
        _ => true,
    }
    &&& r.chat matches Some(c) ==> c < r.rooms
}

/// The event that a stage waits for. Every stage but logging out can be interrupted.
pub open spec fn awaits(stage: Stage, e: EventView) -> bool {
    if e is Interrupted {
        !(stage is LoggingOut) && !(stage is Done)
    } else {
        waits_for(stage, e)
    }
}

/// The result of the action that a stage started.
pub open spec fn waits_for(stage: Stage, e: EventView) -> bool {
    match stage {
        Stage::Building => e is ClientBuilt,
        Stage::CheckingSession => e is SessionChecked,
        Stage::LoggingIn => e is LoggedIn,
        Stage::Syncing => e is Synced,
        Stage::Recovering => e is Recovered,
        Stage::LookingUp => e is RoomLookedUp,
        Stage::JoiningKnown => e is RoomJoined,
        Stage::LookingUpAgain => e is RoomLookedUp,
        Stage::JoiningById => e is RoomJoined,
        Stage::Listing => e is JoinedRoomsListed,
        Stage::Fetching(_) => e is MembersFetched,
        Stage::Leaving(_) => e is RoomLeft,
        Stage::Forgetting(_) => e is RoomForgotten,
        Stage::CheckingRecipient => e is RecipientChecked,
        Stage::CreatingChat => e is DirectChatCreated,
        Stage::Sending => e is TextSent,
        Stage::LoggingOut => e is LoggedOut,
        Stage::Done => false,
    }
}

/// The error given when a room that was just joined cannot be found.
pub open spec fn not_found_after_join(room_id: Seq<char>) -> Seq<char> {
    "room "@ + room_id + " not found after join"@
}

/// The error given when the recipient of a new chat does not exist.
pub open spec fn no_such_recipient(user_id: Seq<char>) -> Seq<char> {
    "recipient "@ + user_id + " does not exist"@
}

/// The error given when the user asked to stop.
pub open spec fn interrupted_text() -> Seq<char> {
    "interrupted"@
}

/// The stages before the client has a session: nothing to log out of.
pub open spec fn before_session(stage: Stage) -> bool {
    stage is Building || stage is CheckingSession || stage is LoggingIn
}

/// The stages in which the client has a session and the run has yet to log out.
pub open spec fn in_session(stage: Stage) -> bool {
    !before_session(stage) && !(stage is LoggingOut) && !(stage is Done)
}

/// The first step of every run: build the client.
pub open spec fn start(s: SenderView) -> (RunView, ActionView) {
    (
        RunView { stage: Stage::Building, rooms: 0, chat: None, delivery: Ok(()), interrupted: false },
        ActionView::BuildClient(homeserver_of(s)),
    )
}

/// The run ends with a result and without logging out.
pub open spec fn finish(r: RunView, result: Result<(), Seq<char>>) -> (RunView, ActionView) {
    (RunView { stage: Stage::Done, ..r }, ActionView::Finish(result))
}

/// A step failed once the client had a session: log out, and keep the error for the end.
pub open spec fn fail_and_log_out(r: RunView, e: Seq<char>) -> (RunView, ActionView) {
    (RunView { stage: Stage::LoggingOut, delivery: Err(e), ..r }, ActionView::Logout)
}

/// Send the message to a room.
pub open spec fn send_text(r: RunView, s: SenderView, room: RoomRef) -> (RunView, ActionView) {
    (RunView { stage: Stage::Sending, ..r }, ActionView::SendText { target: room, body: s.message })
}

/// With the session ready, find the room: list the joined rooms for a user, look the room up
/// for a room ID.
pub open spec fn start_delivery(r: RunView, s: SenderView) -> (RunView, ActionView) {
    if s.to_user {
        (RunView { stage: Stage::Listing, ..r }, ActionView::ListJoinedRooms)
    } else {
        (RunView { stage: Stage::LookingUp, ..r }, ActionView::LookUpRoom { room_id: s.to })
    }
}

/// After the sync: verify the session when there is a recovery key, else go on to deliver.
pub open spec fn after_sync(r: RunView, s: SenderView) -> (RunView, ActionView) {
    match s.recovery_key {
        Some(k) => (RunView { stage: Stage::Recovering, ..r }, ActionView::Recover { recovery_key: k }),
        None => start_delivery(r, s),
    }
}

/// No chat with the recipient: make sure the recipient exists before creating one.
pub open spec fn check_recipient(r: RunView, s: SenderView) -> (RunView, ActionView) {
    (RunView { stage: Stage::CheckingRecipient, ..r }, ActionView::CheckRecipient { user_id: s.to })
}

/// Done with joined room `i`: fetch the next one, or else use the chat found or create one.
pub open spec fn advance(r: RunView, s: SenderView, i: usize) -> (RunView, ActionView) {
    if i + 1 < r.rooms {
        (
            RunView { stage: Stage::Fetching((i + 1) as usize), ..r },
            ActionView::FetchMembers { room: (i + 1) as usize },
        )
    } else {
        match r.chat {
            Some(c) => send_text(r, s, RoomRef::Joined(c)),
            None => check_recipient(r, s),
        }
    }
}

/// The next state and action of a run, given what came of the last action.
pub open spec fn next(r: RunView, s: SenderView, e: EventView) -> (RunView, ActionView) {
    if e is Interrupted {
        interrupt(r)
    } else {
        next_step(r, s, e)
    }
}

/// The user asked to stop: end at once before there is a session, else log out first.
pub open spec fn interrupt(r: RunView) -> (RunView, ActionView) {
    let stopped = RunView { interrupted: true, ..r };
    if before_session(r.stage) {
        finish(stopped, Err(interrupted_text()))
    } else {
        fail_and_log_out(stopped, interrupted_text())
    }
}

/// The next state and action of a run, given the result of its last action.
pub open spec fn next_step(r: RunView, s: SenderView, e: EventView) -> (RunView, ActionView) {
    match (r.stage, e) {
        (Stage::Building, EventView::ClientBuilt(Err(m))) => finish(r, Err(m)),
        (Stage::Building, EventView::ClientBuilt(Ok(()))) => (
            RunView { stage: Stage::CheckingSession, ..r },
            ActionView::CheckSession,
        ),
        (Stage::CheckingSession, EventView::SessionChecked { logged_in }) => if logged_in {
            (RunView { stage: Stage::Syncing, ..r }, ActionView::SyncOnce)
        } else {
            (
                RunView { stage: Stage::LoggingIn, ..r },
                ActionView::Login { user_id: s.from, password: s.password },
            )
        },
        (Stage::LoggingIn, EventView::LoggedIn(Err(m))) => finish(r, Err(m)),
        (Stage::LoggingIn, EventView::LoggedIn(Ok(()))) => (
            RunView { stage: Stage::Syncing, ..r },
            ActionView::SyncOnce,
        ),
        (Stage::Syncing, EventView::Synced(Err(m))) => fail_and_log_out(r, m),
        (Stage::Syncing, EventView::Synced(Ok(()))) => after_sync(r, s),
        (Stage::Recovering, EventView::Recovered(Err(m))) => fail_and_log_out(r, m),
        (Stage::Recovering, EventView::Recovered(Ok(()))) => start_delivery(r, s),
        (Stage::LookingUp, EventView::RoomLookedUp { joined }) => match joined {
            Some(true) => send_text(r, s, RoomRef::Current),
            Some(false) => (RunView { stage: Stage::JoiningKnown, ..r }, ActionView::JoinRoom),
            None => (
                RunView { stage: Stage::JoiningById, ..r },
                ActionView::JoinRoomById { room_id: s.to },
            ),
        },
        (Stage::JoiningKnown, EventView::RoomJoined(Err(m))) => fail_and_log_out(r, m),
        (Stage::JoiningKnown, EventView::RoomJoined(Ok(()))) => (
            RunView { stage: Stage::LookingUpAgain, ..r },
            ActionView::LookUpRoom { room_id: s.to },
        ),
        (Stage::LookingUpAgain, EventView::RoomLookedUp { joined }) => match joined {
            Some(_) => send_text(r, s, RoomRef::Current),
            None => fail_and_log_out(r, not_found_after_join(s.to)),
        },
        (Stage::JoiningById, EventView::RoomJoined(Err(m))) => fail_and_log_out(r, m),
        (Stage::JoiningById, EventView::RoomJoined(Ok(()))) => send_text(r, s, RoomRef::Current),
        (Stage::Listing, EventView::JoinedRoomsListed { count }) => if count == 0 {
            check_recipient(RunView { rooms: 0, chat: None, ..r }, s)
        } else {
            (
                RunView { stage: Stage::Fetching(0), rooms: count, chat: None, ..r },
                ActionView::FetchMembers { room: 0 },
            )
        },
        (Stage::Fetching(_), EventView::MembersFetched(Err(m))) => fail_and_log_out(r, m),
        (Stage::Fetching(i), EventView::MembersFetched(Ok(members))) => match verdict_of(
            members,
            s.to,
            r.chat is Some,
        ) {
            RoomVerdict::Chat => advance(RunView { chat: Some(i), ..r }, s, i),
            RoomVerdict::Unrelated => advance(r, s, i),
            _ => (RunView { stage: Stage::Leaving(i), ..r }, ActionView::LeaveRoom { room: i }),
        },
        (Stage::Leaving(_), EventView::RoomLeft(Err(m))) => fail_and_log_out(r, m),
        (Stage::Leaving(i), EventView::RoomLeft(Ok(()))) => (
            RunView { stage: Stage::Forgetting(i), ..r },
            ActionView::ForgetRoom { room: i },
        ),
        (Stage::Forgetting(_), EventView::RoomForgotten(Err(m))) => fail_and_log_out(r, m),
        (Stage::Forgetting(i), EventView::RoomForgotten(Ok(()))) => advance(r, s, i),
        (Stage::CheckingRecipient, EventView::RecipientChecked(Err(m))) => fail_and_log_out(r, m),
        (Stage::CheckingRecipient, EventView::RecipientChecked(Ok(exists))) => if exists {
            (
                RunView { stage: Stage::CreatingChat, ..r },
                ActionView::CreateDirectChat { user_id: s.to },
            )
        } else {
            fail_and_log_out(r, no_such_recipient(s.to))
        },
        (Stage::CreatingChat, EventView::DirectChatCreated(Err(m))) => fail_and_log_out(r, m),
        (Stage::CreatingChat, EventView::DirectChatCreated(Ok(()))) => send_text(
            r,
            s,
            RoomRef::Current,
        ),
        (Stage::Sending, EventView::TextSent(result)) => (
            RunView { stage: Stage::LoggingOut, delivery: result, ..r },
            ActionView::Logout,
        ),
        (Stage::LoggingOut, EventView::LoggedOut(result)) => if r.interrupted {
            finish(r, Err(interrupted_text()))
        } else {
            match result {
                Err(m) => finish(r, Err(m)),
                Ok(()) => finish(r, r.delivery),
            }
        },
        _ => (r, ActionView::Finish(r.delivery)),
    }
}

/// One run of a sender.
pub struct SendRun {
    stage: Stage,
    rooms: usize,
    chat: Option<usize>,
    delivery: Result<(), String>,
    interrupted: bool,
}

impl View for SendRun {
    type V = RunView;

    closed spec fn view(&self) -> RunView {
        RunView {
            stage: self.stage,
            rooms: self.rooms,
            chat: self.chat,
            delivery: outcome(self.delivery),
            interrupted: self.interrupted,
        }
    }
}

/// A copy of a result without a value.
fn copy_outcome(r: &Result<(), String>) -> (c: Result<(), String>)
    ensures
        outcome(c) == outcome(*r),
{
    match r {
        Ok(()) => Ok(()),
        Err(e) => Err(e.clone()),
    }
}

/// The error given when the user asked to stop.
pub fn interrupted_error() -> (r: String)
    ensures
        r@ == interrupted_text(),
{
    String::from_str("interrupted")
}

impl SendRun {
    #[verifier::type_invariant]
    spec fn well_formed(&self) -> bool {
        run_wf(self@)
    }

    /// Starts a run of the sender: the first action builds the client.
    pub fn begin(sender: &MessageSender) -> (r: (SendRun, SendAction))
        ensures
            (r.0@, r.1@) == start(sender@),
            run_wf(r.0@),
    {
        (
            SendRun {
                stage: Stage::Building,
                rooms: 0,
                chat: None,
                delivery: Ok(()),
                interrupted: false,
            },
            SendAction::BuildClient(sender.homeserver()),
        )
    }

    /// Where the run stands.
    pub fn stage(&self) -> (r: Stage)
        ensures
            r == self@.stage,
    {
        self.stage
    }

    /// Whether the user asked the run to stop.
    pub fn interrupted(&self) -> (r: bool)
        ensures
            r == self@.interrupted,
    {
        self.interrupted
    }

    /// Whether the run waits for this event; it waits for none once done.
    pub fn expects(&self, event: &SendEvent) -> (r: bool)
        ensures
            r == awaits(self@.stage, event@),
    {
        match (self.stage, event) {
            (Stage::LoggingOut, SendEvent::Interrupted) => false,
            (Stage::Done, _) => false,
            (_, SendEvent::Interrupted) => true,
            (Stage::Building, SendEvent::ClientBuilt(_)) => true,
            (Stage::CheckingSession, SendEvent::SessionChecked { .. }) => true,
            (Stage::LoggingIn, SendEvent::LoggedIn(_)) => true,
            (Stage::Syncing, SendEvent::Synced(_)) => true,
            (Stage::Recovering, SendEvent::Recovered(_)) => true,
            (Stage::LookingUp, SendEvent::RoomLookedUp { .. }) => true,
            (Stage::JoiningKnown, SendEvent::RoomJoined(_)) => true,
            (Stage::LookingUpAgain, SendEvent::RoomLookedUp { .. }) => true,
            (Stage::JoiningById, SendEvent::RoomJoined(_)) => true,
            (Stage::Listing, SendEvent::JoinedRoomsListed { .. }) => true,
            (Stage::Fetching(_), SendEvent::MembersFetched(_)) => true,
            (Stage::Leaving(_), SendEvent::RoomLeft(_)) => true,
            (Stage::Forgetting(_), SendEvent::RoomForgotten(_)) => true,
            (Stage::CheckingRecipient, SendEvent::RecipientChecked(_)) => true,
            (Stage::CreatingChat, SendEvent::DirectChatCreated(_)) => true,
            (Stage::Sending, SendEvent::TextSent(_)) => true,
            (Stage::LoggingOut, SendEvent::LoggedOut(_)) => true,
            _ => false,
        }
    }

    /// The state and action once the run is over.
    fn finish(&mut self, result: Result<(), String>) -> (a: SendAction)
        ensures
            (final(self)@, a@) == finish(old(self)@, outcome(result)),
    {
        proof {
            use_type_invariant(&*self);
        }
        self.set_stage(Stage::Done);
        SendAction::Finish(result)
    }

    /// Moves the run to another stage.
    fn set_stage(&mut self, stage: Stage)
        requires
            run_wf(RunView { stage, ..old(self)@ }),
        ensures
            final(self)@ == (RunView { stage, ..old(self)@ }),
    {
        self.stage = stage;
    }

    /// A step failed with a session open: log out and keep the error.
    fn fail(&mut self, m: String) -> (a: SendAction)
        ensures
            (final(self)@, a@) == fail_and_log_out(old(self)@, m@),
    {
        proof {
            use_type_invariant(&*self);
        }
        self.set_stage(Stage::LoggingOut);
        self.delivery = Err(m);
        SendAction::Logout
    }

    /// Sends the message to a room.
    fn text(&mut self, sender: &MessageSender, target: RoomRef) -> (a: SendAction)
        ensures
            (final(self)@, a@) == send_text(old(self)@, sender@, target),
    {
        proof {
            use_type_invariant(&*self);
        }
        self.set_stage(Stage::Sending);
        SendAction::SendText { target, body: sender.message().clone() }
    }

    /// Finds the room once the session is ready.
    fn start_delivery(&mut self, sender: &MessageSender) -> (a: SendAction)
        ensures
            (final(self)@, a@) == start_delivery(old(self)@, sender@),
    {
        proof {
            use_type_invariant(&*self);
        }
        match sender.to() {
            Recipient::User(_) => {
                self.set_stage(Stage::Listing);
                SendAction::ListJoinedRooms
            },
            Recipient::Room(room) => {
                self.set_stage(Stage::LookingUp);
                SendAction::LookUpRoom { room_id: room.as_string().clone() }
            },
        }
    }

    /// Asks whether the recipient exists before a chat is created.
    fn check_recipient(&mut self, sender: &MessageSender) -> (a: SendAction)
        ensures
            (final(self)@, a@) == check_recipient(old(self)@, sender@),
    {
        proof {
            use_type_invariant(&*self);
        }
        self.set_stage(Stage::CheckingRecipient);
        SendAction::CheckRecipient { user_id: sender.to().as_string().clone() }
    }

    /// Goes on from joined room `i`.
    fn advance(&mut self, sender: &MessageSender, i: usize) -> (a: SendAction)
        requires
            i < old(self)@.rooms,
        ensures
            (final(self)@, a@) == advance(old(self)@, sender@, i),
    {
        proof {
            use_type_invariant(&*self);
        }
        if i + 1 < self.rooms {
            self.set_stage(Stage::Fetching(i + 1));
            SendAction::FetchMembers { room: i + 1 }
        } else {
            match self.chat {
                Some(c) => self.text(sender, RoomRef::Joined(c)),
                None => self.check_recipient(sender),
            }
        }
    }

    /// The user asked to stop.
    fn interrupt(&mut self) -> (a: SendAction)
        ensures
            (final(self)@, a@) == interrupt(old(self)@),
    {
        proof {
            use_type_invariant(&*self);
        }
        self.interrupted = true;
        if matches!(self.stage, Stage::Building | Stage::CheckingSession | Stage::LoggingIn) {
            self.finish(Err(interrupted_error()))
        } else {
            self.fail(interrupted_error())
        }
    }

    /// Takes what came of the last action and decides the next one.
    pub fn step(&mut self, sender: &MessageSender, event: SendEvent) -> (a: SendAction)
        requires
            awaits(old(self)@.stage, event@),
        ensures
            (final(self)@, a@) == next(old(self)@, sender@, event@),
            run_wf(final(self)@),
    {
        proof {
            use_type_invariant(&*self);
        }
        let a = match (self.stage, event) {
            (_, SendEvent::Interrupted) => self.interrupt(),
            (Stage::Building, SendEvent::ClientBuilt(Err(m))) => self.finish(Err(m)),
            (Stage::Building, SendEvent::ClientBuilt(Ok(()))) => {
                self.set_stage(Stage::CheckingSession);
                SendAction::CheckSession
            },
            (Stage::CheckingSession, SendEvent::SessionChecked { logged_in }) => {
                if logged_in {
                    self.set_stage(Stage::Syncing);
                    SendAction::SyncOnce
                } else {
                    self.set_stage(Stage::LoggingIn);
                    SendAction::Login {
                        user_id: sender.from().as_string().clone(),
                        password: sender.password().clone(),
                    }
                }
            },
            (Stage::LoggingIn, SendEvent::LoggedIn(Err(m))) => self.finish(Err(m)),
            (Stage::LoggingIn, SendEvent::LoggedIn(Ok(()))) => {
                self.set_stage(Stage::Syncing);
                SendAction::SyncOnce
            },
            (Stage::Syncing, SendEvent::Synced(Err(m))) => self.fail(m),
            (Stage::Syncing, SendEvent::Synced(Ok(()))) => {
                match sender.recovery_key() {
                    Some(k) => {
                        self.set_stage(Stage::Recovering);
                        SendAction::Recover { recovery_key: k.clone() }
                    },
                    None => self.start_delivery(sender),
                }
            },
            (Stage::Recovering, SendEvent::Recovered(Err(m))) => self.fail(m),
            (Stage::Recovering, SendEvent::Recovered(Ok(()))) => self.start_delivery(sender),
            (Stage::LookingUp, SendEvent::RoomLookedUp { joined }) => {
                match joined {
                    Some(true) => self.text(sender, RoomRef::Current),
                    Some(false) => {
                        self.set_stage(Stage::JoiningKnown);
                        SendAction::JoinRoom
                    },
                    None => {
                        self.set_stage(Stage::JoiningById);
                        SendAction::JoinRoomById { room_id: sender.to().as_string().clone() }
                    },
                }
            },
            (Stage::JoiningKnown, SendEvent::RoomJoined(Err(m))) => self.fail(m),
            (Stage::JoiningKnown, SendEvent::RoomJoined(Ok(()))) => {
                self.set_stage(Stage::LookingUpAgain);
                SendAction::LookUpRoom { room_id: sender.to().as_string().clone() }
            },
            (Stage::LookingUpAgain, SendEvent::RoomLookedUp { joined }) => {
                match joined {
                    Some(_) => self.text(sender, RoomRef::Current),
                    None => {
                        let mut m = String::from_str("room ");
                        m.append(sender.to().as_str());
                        m.append(" not found after join");
                        self.fail(m)
                    },
                }
            },
            (Stage::JoiningById, SendEvent::RoomJoined(Err(m))) => self.fail(m),
            (Stage::JoiningById, SendEvent::RoomJoined(Ok(()))) => self.text(sender, RoomRef::Current),
            (Stage::Listing, SendEvent::JoinedRoomsListed { count }) => {
                self.chat = None;
                if count == 0 {
                    self.rooms = 0;
                    self.check_recipient(sender)
                } else {
                    self.rooms = count;
                    self.set_stage(Stage::Fetching(0));
                    SendAction::FetchMembers { room: 0 }
                }
            },
            (Stage::Fetching(_), SendEvent::MembersFetched(Err(m))) => self.fail(m),
            (Stage::Fetching(i), SendEvent::MembersFetched(Ok(members))) => {
                let verdict = classify_room(&members, sender.to().as_string(), self.chat.is_some());
                match verdict {
                    RoomVerdict::Chat => {
                        self.chat = Some(i);
                        self.advance(sender, i)
                    },
                    RoomVerdict::Unrelated => self.advance(sender, i),
                    _ => {
                        self.set_stage(Stage::Leaving(i));
                        SendAction::LeaveRoom { room: i }
                    },
                }
            },
            (Stage::Leaving(_), SendEvent::RoomLeft(Err(m))) => self.fail(m),
            (Stage::Leaving(i), SendEvent::RoomLeft(Ok(()))) => {
                self.set_stage(Stage::Forgetting(i));
                SendAction::ForgetRoom { room: i }
            },
            (Stage::Forgetting(_), SendEvent::RoomForgotten(Err(m))) => self.fail(m),
            (Stage::Forgetting(i), SendEvent::RoomForgotten(Ok(()))) => self.advance(sender, i),
            (Stage::CheckingRecipient, SendEvent::RecipientChecked(Err(m))) => self.fail(m),
            (Stage::CheckingRecipient, SendEvent::RecipientChecked(Ok(exists))) => {
                if exists {
                    self.set_stage(Stage::CreatingChat);
                    SendAction::CreateDirectChat { user_id: sender.to().as_string().clone() }
                } else {
                    let mut m = String::from_str("recipient ");
                    m.append(sender.to().as_str());
                    m.append(" does not exist");
                    self.fail(m)
                }
            },
            (Stage::CreatingChat, SendEvent::DirectChatCreated(Err(m))) => self.fail(m),
            (Stage::CreatingChat, SendEvent::DirectChatCreated(Ok(()))) => {
                self.text(sender, RoomRef::Current)
            },
            (Stage::Sending, SendEvent::TextSent(result)) => {
                self.set_stage(Stage::LoggingOut);
                self.delivery = result;
                SendAction::Logout
            },
            (Stage::LoggingOut, SendEvent::LoggedOut(result)) => {
                if self.interrupted {
                    self.finish(Err(interrupted_error()))
                } else {
                    match result {
                        Err(m) => self.finish(Err(m)),
                        Ok(()) => {
                            let d = copy_outcome(&self.delivery);
                            self.finish(d)
                        },
                    }
                }
            },
            _ => SendAction::Finish(copy_outcome(&self.delivery)),
        };
        proof {
            use_type_invariant(&*self);
        }
        a
    }
}

/// How far along its stages a run is: later stages rank lower.
pub open spec fn stage_rank(stage: Stage) -> nat {
    match stage {
        Stage::Building => 18,
        Stage::CheckingSession => 17,
        Stage::LoggingIn => 16,
        Stage::Syncing => 15,
        Stage::Recovering => 14,
        Stage::LookingUp => 13,
        Stage::JoiningKnown => 12,
        Stage::LookingUpAgain => 11,
        Stage::JoiningById => 10,
        Stage::Listing => 9,
        Stage::Fetching(_) => 8,
        Stage::Leaving(_) => 8,
        Stage::Forgetting(_) => 8,
        Stage::CheckingRecipient => 7,
        Stage::CreatingChat => 6,
        Stage::Sending => 5,
        Stage::LoggingOut => 4,
        Stage::Done => 0,
    }
}

/// The steps left in going through the joined rooms.
pub open spec fn rooms_left(r: RunView) -> int {
    match r.stage {
        Stage::Fetching(i) => 3 * (r.rooms - i),
        Stage::Leaving(i) => 3 * (r.rooms - i) - 1,
        Stage::Forgetting(i) => 3 * (r.rooms - i) - 2,
        _ => 0,
    }
}

/// Whether run `a` is further along than run `b`.
pub open spec fn further_along(a: RunView, b: RunView) -> bool {
    ||| stage_rank(a.stage) < stage_rank(b.stage)
    ||| stage_rank(a.stage) == stage_rank(b.stage) && 0 <= rooms_left(a) < rooms_left(b)
}

/// The error that an event reports, if it reports one.
pub open spec fn failure_of(e: EventView) -> Option<Seq<char>> {
    match e {
        EventView::ClientBuilt(Err(m)) => Some(m),
        EventView::LoggedIn(Err(m)) => Some(m),
        EventView::Synced(Err(m)) => Some(m),
        EventView::Recovered(Err(m)) => Some(m),
        EventView::RoomJoined(Err(m)) => Some(m),
        EventView::MembersFetched(Err(m)) => Some(m),
        EventView::RoomLeft(Err(m)) => Some(m),
        EventView::RoomForgotten(Err(m)) => Some(m),
        EventView::RecipientChecked(Err(m)) => Some(m),
        EventView::DirectChatCreated(Err(m)) => Some(m),
        EventView::TextSent(Err(m)) => Some(m),
        EventView::LoggedOut(Err(m)) => Some(m),
        _ => None,
    }
}

/// Every step takes the run further along, keeping its bounds, so a run ends after finitely
/// many steps.
pub proof fn lemma_step_moves_forward(r: RunView, s: SenderView, e: EventView)
    requires
        run_wf(r),
        awaits(r.stage, e),
    ensures
        run_wf(next(r, s, e).0),
        further_along(next(r, s, e).0, r),
{
}

/// A failure before the client has a session ends the run with that failure; there is nothing
/// to log out of.
pub proof fn lemma_failure_before_session_ends_run(r: RunView, s: SenderView, e: EventView)
    requires
        awaits(r.stage, e),
        before_session(r.stage),
        failure_of(e) is Some,
    ensures
        next(r, s, e).0.stage is Done,
        next(r, s, e).1 == ActionView::Finish(Err(failure_of(e)->0)),
{
}

/// Once the client has a session, a failure (of the sync, the recovery, finding the room or
/// sending) logs out first and keeps the failure for the end.
pub proof fn lemma_failure_in_session_logs_out(r: RunView, s: SenderView, e: EventView)
    requires
        awaits(r.stage, e),
        in_session(r.stage),
        failure_of(e) is Some,
    ensures
        next(r, s, e).0.stage is LoggingOut,
        next(r, s, e).0.delivery == Err::<(), Seq<char>>(failure_of(e)->0),
        next(r, s, e).1 is Logout,
{
}

/// Once the client has a session the run never finishes without logging out: every step stays
/// in the session or goes to logging out, and only logging out leads to the end.
pub proof fn lemma_session_ends_with_logout(r: RunView, s: SenderView, e: EventView)
    requires
        awaits(r.stage, e),
    ensures
        in_session(r.stage) ==> !(next(r, s, e).1 is Finish),
        in_session(r.stage) ==> in_session(next(r, s, e).0.stage) || next(r, s, e).0.stage is LoggingOut,
        next(r, s, e).1 is Logout ==> in_session(r.stage),
        next(r, s, e).0.stage is Done ==> before_session(r.stage) || r.stage is LoggingOut,
{
}

/// After logging out the run ends: with the interruption if the user asked to stop, else with
/// the logout's failure if it failed, else with what came of delivering the message.
pub proof fn lemma_outcome_after_logout(r: RunView, s: SenderView, e: EventView)
    requires
        r.stage is LoggingOut,
        awaits(r.stage, e),
    ensures
        next(r, s, e).0.stage is Done,
        next(r, s, e).1 == ActionView::Finish(
            if r.interrupted {
                Err(interrupted_text())
            } else {
                match failure_of(e) {
                    Some(m) => Err(m),
                    None => r.delivery,
                }
            },
        ),
{
}

/// When the user asks to stop, the run ends with the interruption: at once before there is a
/// session, else after logging out.
pub proof fn lemma_interruption_logs_out(r: RunView, s: SenderView)
    requires
        awaits(r.stage, EventView::Interrupted),
    ensures
        next(r, s, EventView::Interrupted).0.interrupted,
        before_session(r.stage) ==> next(r, s, EventView::Interrupted).1 == ActionView::Finish(
            Err(interrupted_text()),
        ),
        in_session(r.stage) ==> next(r, s, EventView::Interrupted).1 is Logout
            && next(r, s, EventView::Interrupted).0.stage is LoggingOut,
{
}

/// A run that was asked to stop stays so.
pub proof fn lemma_interruption_is_kept(r: RunView, s: SenderView, e: EventView)
    requires
        awaits(r.stage, e),
        r.interrupted,
    ensures
        next(r, s, e).0.interrupted,
{
}

/// The only text ever sent is the message, and sending is followed by logging out.
pub proof fn lemma_only_the_message_is_sent(r: RunView, s: SenderView, e: EventView)
    requires
        run_wf(r),
        awaits(r.stage, e),
    ensures
        next(r, s, e).1 matches ActionView::SendText { target, body } ==> {
            &&& body == s.message
            &&& next(r, s, e).0.stage is Sending
            &&& in_session(r.stage)
            &&& target matches RoomRef::Joined(c) ==> next(r, s, e).0.chat == Some(c) && (r.stage is Fetching || r.stage is Forgetting)
        },
        r.stage is Sending ==> next(r, s, e).1 is Logout,
{
}

/// A direct chat is created only for the recipient, once the recipient is known to exist,
/// and only when no joined room is a chat with the recipient.
pub proof fn lemma_chat_created_only_for_existing_recipient(r: RunView, s: SenderView, e: EventView)
    requires
        awaits(r.stage, e),
        next(r, s, e).1 is CreateDirectChat,
    ensures
        next(r, s, e).1 == (ActionView::CreateDirectChat { user_id: s.to }),
        r.stage is CheckingRecipient,
        e == EventView::RecipientChecked(Ok(true)),
{
}

/// The recipient is checked only when no joined room is a chat with the recipient.
pub proof fn lemma_recipient_checked_only_when_no_chat(r: RunView, s: SenderView, e: EventView)
    requires
        awaits(r.stage, e),
        next(r, s, e).1 is CheckRecipient,
    ensures
        next(r, s, e).1 == (ActionView::CheckRecipient { user_id: s.to }),
        next(r, s, e).0.chat is None,
        r.stage is Listing || r.stage is Fetching || r.stage is Forgetting,
{
}

/// A recipient that does not exist ends the delivery with that error, after logging out.
pub proof fn lemma_missing_recipient_fails(r: RunView, s: SenderView)
    requires
        r.stage is CheckingRecipient,
    ensures
        next(r, s, EventView::RecipientChecked(Ok(false))).1 is Logout,
        next(r, s, EventView::RecipientChecked(Ok(false))).0.delivery == Err::<(), Seq<char>>(
            no_such_recipient(s.to),
        ),
{
}

/// A room is left only right after its members showed it to be a duplicate or stale chat.
pub proof fn lemma_leave_only_by_verdict(r: RunView, s: SenderView, e: EventView, room: usize)
    requires
        awaits(r.stage, e),
        next(r, s, e).1 == (ActionView::LeaveRoom { room }),
    ensures
        r.stage == Stage::Fetching(room),
        e matches EventView::MembersFetched(Ok(members)) && to_leave(
            verdict_of(members, s.to, r.chat is Some),
        ),
{
}

/// A run fits its sender: the stages that find a direct chat belong to a user recipient, the
/// stages that look a room up or join it belong to a room recipient, and verifying the session
/// belongs to a sender with a recovery key.
pub open spec fn fits(r: RunView, s: SenderView) -> bool {
    &&& (r.stage is Listing || r.stage is Fetching || r.stage is Leaving || r.stage is Forgetting
        || r.stage is CheckingRecipient || r.stage is CreatingChat) ==> s.to_user
    &&& (r.stage is LookingUp || r.stage is JoiningKnown || r.stage is LookingUpAgain
        || r.stage is JoiningById) ==> !s.to_user
    &&& r.stage is Recovering ==> s.recovery_key is Some
}

/// Every run starts fitting its sender.
pub proof fn lemma_start_fits(s: SenderView)
    ensures
        fits(start(s).0, s),
        run_wf(start(s).0),
{
}

/// Every step keeps the run fitting its sender.
pub proof fn lemma_step_keeps_fit(r: RunView, s: SenderView, e: EventView)
    requires
        fits(r, s),
        awaits(r.stage, e),
    ensures
        fits(next(r, s, e).0, s),
{
}

/// A run that fits its sender acts by the kind of recipient: only for a user does it list the
/// joined rooms, fetch members, leave or forget rooms, check the recipient or create a chat, and
/// only for a room does it look a room up or join one; each names the recipient itself.
pub proof fn lemma_actions_follow_recipient_kind(r: RunView, s: SenderView, e: EventView)
    requires
        fits(r, s),
        awaits(r.stage, e),
    ensures
        (next(r, s, e).1 is ListJoinedRooms || next(r, s, e).1 is FetchMembers
            || next(r, s, e).1 is LeaveRoom || next(r, s, e).1 is ForgetRoom
            || next(r, s, e).1 is CheckRecipient || next(r, s, e).1 is CreateDirectChat)
            ==> s.to_user,
        (next(r, s, e).1 is LookUpRoom || next(r, s, e).1 is JoinRoom
            || next(r, s, e).1 is JoinRoomById) ==> !s.to_user,
        next(r, s, e).1 matches ActionView::LookUpRoom { room_id } ==> room_id == s.to,
        next(r, s, e).1 matches ActionView::JoinRoomById { room_id } ==> room_id == s.to,
        next(r, s, e).1 matches ActionView::CheckRecipient { user_id } ==> user_id == s.to,
        next(r, s, e).1 matches ActionView::CreateDirectChat { user_id } ==> user_id == s.to,
{
}

/// Once the session is ready (synced without a recovery key, or synced and verified), the
/// delivery starts by the kind of recipient: a room is looked up by its ID, a user's joined
/// rooms are listed. A recovery key makes the session be verified first.
pub proof fn lemma_delivery_starts_by_recipient_kind(r: RunView, s: SenderView, e: EventView)
    requires
        (r.stage is Recovering && e == EventView::Recovered(Ok(()))) || (r.stage is Syncing && e
            == EventView::Synced(Ok(())) && s.recovery_key is None),
    ensures
        s.to_user ==> next(r, s, e).1 == ActionView::ListJoinedRooms,
        !s.to_user ==> next(r, s, e).1 == (ActionView::LookUpRoom { room_id: s.to }),
        next(r, s, e).0.delivery == r.delivery,
{
}

/// With a recovery key, a successful sync is followed by verifying the session with that key.
pub proof fn lemma_recovery_key_is_used(r: RunView, s: SenderView)
    requires
        r.stage is Syncing,
        s.recovery_key is Some,
    ensures
        next(r, s, EventView::Synced(Ok(()))).1 == (ActionView::Recover {
            recovery_key: s.recovery_key->0,
        }),
{
}

/// The text goes to "the room at hand" only right after that room was found joined by a
/// lookup, joined, or created; a chat found among the joined rooms is named by its place.
pub proof fn lemma_current_room_only_after_finding_it(r: RunView, s: SenderView, e: EventView)
    requires
        awaits(r.stage, e),
        next(r, s, e).1 matches ActionView::SendText { target, .. } && target == RoomRef::Current,
    ensures
        r.stage is LookingUp || r.stage is LookingUpAgain || r.stage is JoiningById
            || r.stage is CreatingChat,
        r.stage is LookingUp ==> e == (EventView::RoomLookedUp { joined: Some(true) }),
        r.stage is LookingUpAgain ==> e matches EventView::RoomLookedUp { joined: Some(_) },
        r.stage is JoiningById ==> e matches EventView::RoomJoined(Ok(_)),
        r.stage is CreatingChat ==> e matches EventView::DirectChatCreated(Ok(_)),
{
}

/// A room recipient: a room found joined gets the text at once; a room known but not joined
/// is joined and looked up again, and then gets the text whenever it is found, joined or not;
/// only a room that cannot be found after joining fails; an unknown room is joined by its ID.
pub proof fn lemma_room_recipient_gets_the_text(r: RunView, s: SenderView, found: Option<bool>)
    ensures
        r.stage is LookingUp ==> next(r, s, EventView::RoomLookedUp { joined: found }).1 == match found {
            Some(true) => ActionView::SendText { target: RoomRef::Current, body: s.message },
            Some(false) => ActionView::JoinRoom,
            None => ActionView::JoinRoomById { room_id: s.to },
        },
        r.stage is JoiningKnown ==> next(r, s, EventView::RoomJoined(Ok(()))).1 == (
        ActionView::LookUpRoom { room_id: s.to }),
        r.stage is LookingUpAgain && found is Some ==> next(
            r,
            s,
            EventView::RoomLookedUp { joined: found },
        ).1 == (ActionView::SendText { target: RoomRef::Current, body: s.message }),
        r.stage is LookingUpAgain && found is None ==> next(
            r,
            s,
            EventView::RoomLookedUp { joined: found },
        ).0.delivery == Err::<(), Seq<char>>(not_found_after_join(s.to)),
        r.stage is JoiningById ==> next(r, s, EventView::RoomJoined(Ok(()))).1 == (
        ActionView::SendText { target: RoomRef::Current, body: s.message }),
{
}

/// At the last joined room, a chat with the recipient is where the text goes: the room itself
/// when it is the first chat found, else the chat found before it when the room is unrelated;
/// with no chat at all the recipient is checked before one is created.
pub proof fn lemma_found_chat_gets_the_text(
    r: RunView,
    s: SenderView,
    i: usize,
    m: MembersView,
    c: usize,
)
    requires
        run_wf(r),
        r.stage == Stage::Fetching(i),
        i + 1 == r.rooms,
    ensures
        r.chat is None && is_direct_chat(m, s.to) ==> next(
            r,
            s,
            EventView::MembersFetched(Ok(m)),
        ).1 == (ActionView::SendText { target: RoomRef::Joined(i), body: s.message }),
        r.chat == Some(c) && !is_direct_chat(m, s.to) && !is_stale_chat(m, s.to) ==> next(
            r,
            s,
            EventView::MembersFetched(Ok(m)),
        ).1 == (ActionView::SendText { target: RoomRef::Joined(c), body: s.message }),
        r.chat is None && !is_direct_chat(m, s.to) && !is_stale_chat(m, s.to) ==> next(
            r,
            s,
            EventView::MembersFetched(Ok(m)),
        ).1 == (ActionView::CheckRecipient { user_id: s.to }),
{
}

/// An optional index as an optional integer.
pub open spec fn as_int(o: Option<usize>) -> Option<int> {
    match o {
        Some(i) => Some(i as int),
        None => None,
    }
}

/// Going through the joined rooms one by one makes the same decisions as scanning them:
/// when the run has found what the scan of the first `i` rooms finds, the members of room `i`
/// bring it to what the scan of the first `i + 1` rooms finds, and room `i` is left exactly
/// when that scan adds it to the rooms to leave.
pub proof fn lemma_rooms_follow_scan(
    r: RunView,
    s: SenderView,
    rooms: Seq<MembersView>,
    i: usize,
)
    requires
        run_wf(r),
        r.stage == Stage::Fetching(i),
        i < rooms.len(),
        as_int(r.chat) == scan(rooms.take(i as int), s.to).0,
    ensures
        as_int(next(r, s, EventView::MembersFetched(Ok(rooms[i as int]))).0.chat) == scan(
            rooms.take(i + 1),
            s.to,
        ).0,
        (next(r, s, EventView::MembersFetched(Ok(rooms[i as int]))).1 is LeaveRoom) <==> scan(
            rooms.take(i + 1),
            s.to,
        ).1 == scan(rooms.take(i as int), s.to).1.push(i as int),
{
    let longer = rooms.take(i + 1);
    assert(longer.drop_last() =~= rooms.take(i as int));
    assert(longer.last() == rooms[i as int]);
    let before = scan(rooms.take(i as int), s.to).1;
    assert(before.push(i as int).len() != before.len());
}

} // verus!
