//! The course of one request, from its arrival to its end: what is asked of
//! the catalog and of the store in each state, what is answered to the
//! caller, and where a failure leads.

use vstd::prelude::*;
use vstd::string::*;

use crate::anilist;
use crate::anilist::{
    list_query, list_query_of, user_query, user_query_of, MediaList, MediaListView,
};
use crate::image::has_extension;
use crate::models::{answer, get_list, ListItem, ListItemView, ListResult, ListResultView};
use crate::models::{RestResponse, RestResponseView};
use crate::reconcile::{
    profile_of, reconciliation, update_entries, update_user_profile, Action, ActionView,
    ProfileSync, ProfileSyncView,
};

verus! {

/// The list of the user is answered.
pub const OK: u16 = 200;

/// The update is taken on and goes on behind the answer.
pub const ACCEPTED: u16 = 202;

/// The catalog or the store does not know the user.
pub const NOT_FOUND: u16 = 404;

/// The request failed.
pub const INTERNAL_SERVER_ERROR: u16 = 500;

pub const ADDED_TO_QUEUE: &'static str = "Added to the queue";

pub const USER_NOT_FOUND: &'static str = "User not found";

pub const LIST_NOT_FOUND: &'static str = "User or list not found";

pub const INTERNAL_ERROR: &'static str = "Internal server error";

pub const AVATAR_WITHOUT_EXTENSION: &'static str = "the address of the avatar has no extension";

/// What is sent back to the caller.
#[derive(Clone, Debug, PartialEq, Eq)]
pub enum Body {
    Text { text: String },
    List { list: RestResponse },
}

/// An answer to the caller.
#[derive(Clone, Debug, PartialEq, Eq)]
pub struct Reply {
    pub status: u16,
    pub body: Body,
}

/// Where an update stands.
#[derive(Clone, Debug, PartialEq, Eq)]
pub enum State {
    /// Nothing was asked yet.
    Idle,
    /// The catalog is asked who the user is.
    Resolving,
    /// The avatar is re-hosted and the profile written.
    ProfileSync { user_id: i32 },
    /// The caller has their answer; the catalog is asked for the lists.
    ListFetch { user_id: i32 },
    /// The store is asked for the rows of the user.
    Diffing { user_id: i32, lists: Vec<MediaList> },
    /// The plan is carried out.
    Converging { user_id: i32 },
    Done,
    Failed,
}

/// What happened outside since the last command.
#[derive(Clone, Debug, PartialEq, Eq)]
pub enum Event {
    /// An update was requested for a user name.
    Trigger { username: String },
    /// The catalog answered: it knows the user, or it does not.
    Identity { user: Option<anilist::User> },
    /// The avatar is re-hosted and the profile is written.
    ProfileStored,
    /// The catalog answered with the lists of the user.
    Lists { lists: Vec<MediaList> },
    /// The store answered with the rows of the user.
    Rows { rows: Vec<ListItem> },
    /// Every step of the plan was taken.
    Converged,
    /// What was asked last could not be done.
    Failure { error: String },
}

/// What is to be done outside next.
#[derive(Clone, Debug, PartialEq, Eq)]
pub enum Command {
    /// Send the query to the catalog and come back with the identity.
    ResolveIdentity { query: String },
    /// Re-host the avatar, then write the profile; both must succeed.
    SyncProfile { sync: ProfileSync },
    /// Answer the caller, then go on without them: send the query to the
    /// catalog and come back with the lists.
    Accept { reply: Reply, query: String },
    /// Read every list row of the user and come back with them.
    ReadRows { user_id: i32 },
    /// Take every step of the plan, noting each outcome.
    Converge { plan: Vec<Action> },
    /// Answer the caller; nothing is left to do.
    Answer { reply: Reply },
    /// Note the error; nothing is left to do and nobody to answer.
    Log { error: String },
    /// Nothing is left to do.
    Finish,
    /// The event does not belong to the state and changes nothing.
    Ignore,
}

/// [`Body`] as the contracts see it: every text is the sequence of its characters.
pub enum BodyView {
    Text { text: Seq<char> },
    List { list: RestResponseView },
}

/// [`Reply`] as the contracts see it: every text is the sequence of its characters.
pub struct ReplyView {
    pub status: u16,
    pub body: BodyView,
}

/// [`State`] as the contracts see it: every text is the sequence of its characters.
pub enum StateView {
    Idle,
    Resolving,
    ProfileSync { user_id: i32 },
    ListFetch { user_id: i32 },
    Diffing { user_id: i32, lists: Seq<MediaListView> },
    Converging { user_id: i32 },
    Done,
    Failed,
}

/// [`Event`] as the contracts see it: every text is the sequence of its characters.
pub enum EventView {
    Trigger { username: Seq<char> },
    Identity { user: Option<anilist::UserView> },
    ProfileStored,
    Lists { lists: Seq<MediaListView> },
    Rows { rows: Seq<ListItemView> },
    Converged,
    Failure { error: Seq<char> },
}

/// [`Command`] as the contracts see it: every text is the sequence of its characters.
pub enum CommandView {
    ResolveIdentity { query: Seq<char> },
    SyncProfile { sync: ProfileSyncView },
    Accept { reply: ReplyView, query: Seq<char> },
    ReadRows { user_id: i32 },
    Converge { plan: Seq<ActionView> },
    Answer { reply: ReplyView },
    Log { error: Seq<char> },
    Finish,
    Ignore,
}

impl View for Body {
    type V = BodyView;

    open spec fn view(&self) -> BodyView {
        match self {
            Body::Text { text } => BodyView::Text { text: text@ },
            Body::List { list } => BodyView::List { list: list@ },
        }
    }
}

impl View for Reply {
    type V = ReplyView;

    open spec fn view(&self) -> ReplyView {
        ReplyView { status: self.status, body: self.body@ }
    }
}

impl View for State {
    type V = StateView;

    open spec fn view(&self) -> StateView {
        match self {
            State::Idle => StateView::Idle,
            State::Resolving => StateView::Resolving,
            State::ProfileSync { user_id } => StateView::ProfileSync { user_id: *user_id },
            State::ListFetch { user_id } => StateView::ListFetch { user_id: *user_id },
            State::Diffing { user_id, lists } => StateView::Diffing {
                user_id: *user_id,
                lists: lists.deep_view(),
            },
            State::Converging { user_id } => StateView::Converging { user_id: *user_id },
            State::Done => StateView::Done,
            State::Failed => StateView::Failed,
        }
    }
}

impl View for Event {
    type V = EventView;

    open spec fn view(&self) -> EventView {
        match self {
            Event::Trigger { username } => EventView::Trigger { username: username@ },
            Event::Identity { user } => EventView::Identity {
                user: match user {
                    Some(user) => Some(user@),
                    None => None,
                },
            },
            Event::ProfileStored => EventView::ProfileStored,
            Event::Lists { lists } => EventView::Lists { lists: lists.deep_view() },
            Event::Rows { rows } => EventView::Rows { rows: rows.deep_view() },
            Event::Converged => EventView::Converged,
            Event::Failure { error } => EventView::Failure { error: error@ },
        }
    }
}

impl View for Command {
    type V = CommandView;

    open spec fn view(&self) -> CommandView {
        match self {
            Command::ResolveIdentity { query } => CommandView::ResolveIdentity { query: query@ },
            Command::SyncProfile { sync } => CommandView::SyncProfile { sync: sync@ },
            Command::Accept { reply, query } => CommandView::Accept {
                reply: reply@,
                query: query@,
            },
            Command::ReadRows { user_id } => CommandView::ReadRows { user_id: *user_id },
            Command::Converge { plan } => CommandView::Converge { plan: plan.deep_view() },
            Command::Answer { reply } => CommandView::Answer { reply: reply@ },
            Command::Log { error } => CommandView::Log { error: error@ },
            Command::Finish => CommandView::Finish,
            Command::Ignore => CommandView::Ignore,
        }
    }
}

/// An answer that is a short text.
pub open spec fn text_reply(status: u16, text: Seq<char>) -> ReplyView {
    ReplyView { status, body: BodyView::Text { text } }
}

/// The state has no way out.
pub open spec fn is_final(state: StateView) -> bool {
    state is Done || state is Failed
}

/// The answer to a request for the list of a user, from what the store gave:
/// the list where it has rows for them, a 404 where it has none, a 500 where
/// it could not be read.
pub open spec fn list_reply(read: Result<Seq<ListResultView>, Seq<char>>) -> ReplyView {
    match read {
        Ok(rows) => match answer(rows) {
            Some(list) => ReplyView { status: OK, body: BodyView::List { list } },
            None => text_reply(NOT_FOUND, LIST_NOT_FOUND@),
        },
        Err(_) => text_reply(INTERNAL_SERVER_ERROR, INTERNAL_ERROR@),
    }
}

/// The state that follows and the command that is given when an event
/// arrives in a state. An event that does not belong to the state changes
/// nothing.
pub open spec fn transition(state: StateView, event: EventView) -> (StateView, CommandView) {
    match (state, event) {
        (StateView::Idle, EventView::Trigger { username }) => (
            StateView::Resolving,
            CommandView::ResolveIdentity { query: user_query_of(username) },
        ),
        (StateView::Resolving, EventView::Identity { user: Some(user) }) => if has_extension(
            user.avatar,
        ) {
            (
                StateView::ProfileSync { user_id: user.id },
                CommandView::SyncProfile { sync: profile_of(user) },
            )
        } else {
            (
                StateView::Failed,
                CommandView::Answer {
                    reply: text_reply(INTERNAL_SERVER_ERROR, AVATAR_WITHOUT_EXTENSION@),
                },
            )
        },
        (StateView::Resolving, EventView::Identity { user: None }) => (
            StateView::Done,
            CommandView::Answer { reply: text_reply(NOT_FOUND, USER_NOT_FOUND@) },
        ),
        (StateView::Resolving, EventView::Failure { .. }) => (
            StateView::Failed,
            CommandView::Answer { reply: text_reply(INTERNAL_SERVER_ERROR, USER_NOT_FOUND@) },
        ),
        (StateView::ProfileSync { user_id }, EventView::ProfileStored) => (
            StateView::ListFetch { user_id },
            CommandView::Accept {
                reply: text_reply(ACCEPTED, ADDED_TO_QUEUE@),
                query: list_query_of(user_id as int),
            },
        ),
        (StateView::ProfileSync { .. }, EventView::Failure { error }) => (
            StateView::Failed,
            CommandView::Answer { reply: text_reply(INTERNAL_SERVER_ERROR, error) },
        ),
        (StateView::ListFetch { user_id }, EventView::Lists { lists }) => (
            StateView::Diffing { user_id, lists },
            CommandView::ReadRows { user_id },
        ),
        (StateView::ListFetch { .. }, EventView::Failure { error }) => (
            StateView::Failed,
            CommandView::Log { error },
        ),
        (StateView::Diffing { user_id, lists }, EventView::Rows { rows }) => (
            StateView::Converging { user_id },
            CommandView::Converge { plan: reconciliation(user_id, lists, rows) },
        ),
        (StateView::Diffing { .. }, EventView::Failure { error }) => (
            StateView::Failed,
            CommandView::Log { error },
        ),
        (StateView::Converging { .. }, EventView::Converged) => (
            StateView::Done,
            CommandView::Finish,
        ),
        (StateView::Converging { .. }, EventView::Failure { error }) => (
            StateView::Failed,
            CommandView::Log { error },
        ),
        _ => (state, CommandView::Ignore),
    }
}

fn short_reply(status: u16, words: &str) -> (reply: Reply)
    ensures
        reply@ == text_reply(status, words@),
{
    Reply { status, body: Body::Text { text: words.to_owned() } }
}

/// Answers a request for the list of a user from the joined rows that the
/// store gave for them, or from the error it gave.
pub fn user(read: Result<Vec<ListResult>, String>) -> (reply: Reply)
    ensures
        reply@ == list_reply(
            match read {
                Ok(rows) => Ok(rows.deep_view()),
                Err(error) => Err(error@),
            },
        ),
{
    match read {
        Ok(rows) => match get_list(&rows) {
            Some(list) => Reply { status: OK, body: Body::List { list } },
            None => short_reply(NOT_FOUND, LIST_NOT_FOUND),
        },
        Err(_) => short_reply(INTERNAL_SERVER_ERROR, INTERNAL_ERROR),
    }
}

/// Takes an update one event further: gives the state that follows and the
/// command to carry out before the next event.
pub fn step(state: State, event: Event) -> (next: (State, Command))
    ensures
        (next.0@, next.1@) == transition(state@, event@),
{
    match state {
        State::Idle => match event {
            Event::Trigger { username } => (
                State::Resolving,
                Command::ResolveIdentity { query: user_query(username.as_str()) },
            ),
            _ => (State::Idle, Command::Ignore),
        },
        State::Resolving => match event {
            Event::Identity { user: Some(user) } => {
                let user_id: i32 = user.id;
                match update_user_profile(user) {
                    Some(sync) => (State::ProfileSync { user_id }, Command::SyncProfile { sync }),
                    None => (
                        State::Failed,
                        Command::Answer {
                            reply: short_reply(INTERNAL_SERVER_ERROR, AVATAR_WITHOUT_EXTENSION),
                        },
                    ),
                }
            },
            Event::Identity { user: None } => (
                State::Done,
                Command::Answer { reply: short_reply(NOT_FOUND, USER_NOT_FOUND) },
            ),
            Event::Failure { .. } => (
                State::Failed,
                Command::Answer { reply: short_reply(INTERNAL_SERVER_ERROR, USER_NOT_FOUND) },
            ),
            _ => (State::Resolving, Command::Ignore),
        },
        State::ProfileSync { user_id } => match event {
            Event::ProfileStored => (
                State::ListFetch { user_id },
                Command::Accept {
                    reply: short_reply(ACCEPTED, ADDED_TO_QUEUE),
                    query: list_query(user_id),
                },
            ),
            Event::Failure { error } => (
                State::Failed,
                Command::Answer {
                    reply: Reply { status: INTERNAL_SERVER_ERROR, body: Body::Text { text: error } },
                },
            ),
            _ => (State::ProfileSync { user_id }, Command::Ignore),
        },
        State::ListFetch { user_id } => match event {
            Event::Lists { lists } => (
                State::Diffing { user_id, lists },
                Command::ReadRows { user_id },
            ),
            Event::Failure { error } => (State::Failed, Command::Log { error }),
            _ => (State::ListFetch { user_id }, Command::Ignore),
        },
        State::Diffing { user_id, lists } => match event {
            Event::Rows { rows } => {
                let plan = update_entries(user_id, &lists, &rows);
                (State::Converging { user_id }, Command::Converge { plan })
            },
            Event::Failure { error } => (State::Failed, Command::Log { error }),
            _ => (State::Diffing { user_id, lists }, Command::Ignore),
        },
        State::Converging { user_id } => match event {
            Event::Converged => (State::Done, Command::Finish),
            Event::Failure { error } => (State::Failed, Command::Log { error }),
            _ => (State::Converging { user_id }, Command::Ignore),
        },
        State::Done => (State::Done, Command::Ignore),
        State::Failed => (State::Failed, Command::Ignore),
    }
}

/// The state that is reached from `state` when the events arrive one after
/// the other.
pub open spec fn reach(state: StateView, events: Seq<EventView>) -> StateView
    decreases events.len(),
{
    if events.len() == 0 {
        state
    } else {
        transition(reach(state, events.drop_last()), events.last()).0
    }
}

/// The command that the last of the events is answered with.
pub open spec fn last_command(state: StateView, events: Seq<EventView>) -> CommandView
    recommends
        events.len() > 0,
{
    transition(reach(state, events.drop_last()), events.last()).1
}

/// The command answers the caller.
pub open spec fn answers(command: CommandView) -> bool {
    command is Accept || command is Answer
}

/// How often the caller is answered while the events arrive.
pub open spec fn answers_given(state: StateView, events: Seq<EventView>) -> nat
    decreases events.len(),
{
    if events.len() == 0 {
        0
    } else if answers(last_command(state, events)) {
        answers_given(state, events.drop_last()) + 1
    } else {
        answers_given(state, events.drop_last())
    }
}

/// The caller is still waiting for their answer in this state.
pub open spec fn caller_waits(state: StateView) -> bool {
    state is Idle || state is Resolving || state is ProfileSync
}

/// An update that has ended stays where it is and asks for nothing more.
pub proof fn lemma_final_states_absorb(state: StateView, event: EventView)
    requires
        is_final(state),
    ensures
        transition(state, event) == (state, CommandView::Ignore),
{
}

/// Whatever events arrive, the caller is answered once and no more: not
/// yet while the identity and the profile are worked on, and exactly once
/// when that work has come to its end.
pub proof fn lemma_one_answer(events: Seq<EventView>)
    ensures
        answers_given(StateView::Idle, events) == if caller_waits(
            reach(StateView::Idle, events),
        ) {
            0nat
        } else {
            1nat
        },
    decreases events.len(),
{
    if events.len() > 0 {
        lemma_one_answer(events.drop_last());
    }
}

/// Whatever events arrive, the lists are fetched, the rows read and a plan
/// handed out only after the profile was stored.
pub proof fn lemma_profile_comes_first(events: Seq<EventView>)
    ensures
        !caller_waits(reach(StateView::Idle, events)) && !is_final(reach(StateView::Idle, events))
            ==> exists|k: int| 0 <= k < events.len() && events[k] is ProfileStored,
        events.len() > 0 && (last_command(StateView::Idle, events) is ReadRows || last_command(
            StateView::Idle,
            events,
        ) is Converge) ==> exists|k: int| 0 <= k < events.len() && events[k] is ProfileStored,
    decreases events.len(),
{
    if events.len() > 0 {
        let front = events.drop_last();
        lemma_profile_comes_first(front);
        let before = reach(StateView::Idle, front);
        if !caller_waits(before) && !is_final(before) {
            let k = choose|k: int| 0 <= k < front.len() && front[k] is ProfileStored;
            assert(events[k] is ProfileStored);
        } else if before is ProfileSync && events.last() is ProfileStored {
            assert(events[events.len() - 1] is ProfileStored);
        }
    }
}

} // verus!
