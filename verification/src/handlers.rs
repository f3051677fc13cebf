//! The request handlers: each turns one routed request into at most one store
//! operation and one reply, and says exactly which.

use crate::fresh::{fresh_id, is_utc_timestamp_text, is_uuid_v4_text, timestamp_now};
use crate::store::{is_listing_of, UserStore};
use crate::user::{views_of, CreateUserRequest, User, UserView};
use vstd::prelude::*;

verus! {

/// Status of a successful read.
pub const STATUS_OK: u16 = 200;

/// Status of a successful create.
pub const STATUS_CREATED: u16 = 201;

/// Status of a successful delete.
pub const STATUS_NO_CONTENT: u16 = 204;

/// Status sent when a lookup or a delete names an id that is not stored.
pub const STATUS_NOT_FOUND: u16 = 404;

/// Why a handler produced no reply. Lookups and deletes of an absent id are the
/// only failure the service knows.
#[derive(Debug, Clone, Copy, PartialEq, Eq)]
pub enum ApiError {
    NotFound,
}

impl ApiError {
    /// The HTTP status that stands for this error.
    pub fn status_code(&self) -> (code: u16)
        ensures
            code == STATUS_NOT_FOUND,
    {
        match self {
            ApiError::NotFound => STATUS_NOT_FOUND,
        }
    }
}

/// The body of the health reply.
#[derive(Debug, PartialEq, Eq)]
pub struct HealthStatus {
    pub status: String,
    pub service: String,
}

/// What a reply carries; the transport turns it into JSON or plain text.
#[derive(Debug, PartialEq, Eq)]
pub enum ReplyBody {
    /// All users, for a list request.
    Users(Vec<User>),
    /// One user, for a create or a lookup.
    User(User),
    /// A plain confirmation text.
    Message(String),
    /// The health report.
    Health(HealthStatus),
}

/// A successful reply: an HTTP status and a body.
#[derive(Debug, PartialEq, Eq)]
pub struct Reply {
    pub status: u16,
    pub body: ReplyBody,
}

/// A [`ReplyBody`] as plain values.
pub enum ReplyBodyView {
    Users(Seq<UserView>),
    User(UserView),
    Message(Seq<char>),
    Health { status: Seq<char>, service: Seq<char> },
}

/// A [`Reply`] as plain values.
pub struct ReplyView {
    pub status: u16,
    pub body: ReplyBodyView,
}

impl View for ReplyBody {
    type V = ReplyBodyView;

    open spec fn view(&self) -> ReplyBodyView {
        match self {
            ReplyBody::Users(users) => ReplyBodyView::Users(views_of(users@)),
            ReplyBody::User(user) => ReplyBodyView::User(user@),
            ReplyBody::Message(text) => ReplyBodyView::Message(text@),
            ReplyBody::Health(health) => ReplyBodyView::Health {
                status: health.status@,
                service: health.service@,
            },
        }
    }
}

impl View for Reply {
    type V = ReplyView;

    open spec fn view(&self) -> ReplyView {
        ReplyView { status: self.status, body: self.body@ }
    }
}

/// The name under which the service reports its health.
pub open spec fn service_name() -> Seq<char> {
    "rust-web-server"@
}

/// The reply to a health request.
pub open spec fn health_reply() -> ReplyView {
    ReplyView {
        status: STATUS_OK,
        body: ReplyBodyView::Health { status: "healthy"@, service: service_name() },
    }
}

/// The record that a create request becomes under a given id and timestamp.
pub open spec fn created_user(
    name: Seq<char>,
    email: Seq<char>,
    id: Seq<char>,
    created_at: Seq<char>,
) -> UserView {
    UserView { id, name, email, created_at }
}

/// The reply to a create request that stored `user`.
pub open spec fn created_reply(user: UserView) -> ReplyView {
    ReplyView { status: STATUS_CREATED, body: ReplyBodyView::User(user) }
}

/// The outcome of a lookup of `id` in `records`.
pub open spec fn lookup_outcome(records: Map<Seq<char>, UserView>, id: Seq<char>) -> Result<
    ReplyView,
    ApiError,
> {
    if records.contains_key(id) {
        Ok(ReplyView { status: STATUS_OK, body: ReplyBodyView::User(records[id]) })
    } else {
        Err(ApiError::NotFound)
    }
}

/// The outcome of a delete of `id` from `records`.
pub open spec fn delete_outcome(records: Map<Seq<char>, UserView>, id: Seq<char>) -> Result<
    ReplyView,
    ApiError,
> {
    if records.contains_key(id) {
        Ok(ReplyView { status: STATUS_NO_CONTENT, body: ReplyBodyView::Message("User deleted"@) })
    } else {
        Err(ApiError::NotFound)
    }
}

/// A handler's result, with the reply taken by its view.
pub open spec fn outcome_view(outcome: Result<Reply, ApiError>) -> Result<ReplyView, ApiError> {
    match outcome {
        Ok(reply) => Ok(reply@),
        Err(error) => Err(error),
    }
}

/// Lists all users: always status 200, with every stored record exactly once.
pub fn get_users_handler(db: &UserStore) -> (outcome: Result<Reply, ApiError>)
    ensures
        outcome matches Ok(reply) && reply.status == STATUS_OK && (
        reply.body matches ReplyBody::Users(users) && is_listing_of(views_of(users@), db@)
            && db@.dom().finite() && users.len() == db@.len()),
{
    let users = db.list();
    Ok(Reply { status: STATUS_OK, body: ReplyBody::Users(users) })
}

/// The record that a create request becomes under the identifier `user_id` and
/// the timestamp `created_at`.
pub fn build_user(new_user: CreateUserRequest, user_id: String, created_at: String) -> (user: User)
    ensures
        user@ == created_user(new_user.name@, new_user.email@, user_id@, created_at@),
{
    User { id: user_id, name: new_user.name, email: new_user.email, created_at }
}

/// Builds the record for a create request: draws a fresh identifier and reads
/// the clock. The store is not touched, so a caller that shares the store can
/// do this before it takes the lock.
///
/// The identifier and the timestamp come from outside; whatever they are, the
/// record is the one [`build_user`] gives for them.
pub fn prepare_user(new_user: CreateUserRequest) -> (user: User)
    ensures
        user.name@ == new_user.name@,
        user.email@ == new_user.email@,
        is_uuid_v4_text(user.id@),
        is_utc_timestamp_text(user.created_at@),
{
    let user_id = fresh_id();
    let created_at = timestamp_now();
    build_user(new_user, user_id, created_at)
}

/// Stores a prepared user and replies with it: always status 201. A record
/// already stored under the user's id is overwritten.
pub fn insert_user_handler(user: User, db: &mut UserStore) -> (outcome: Result<Reply, ApiError>)
    ensures
        outcome_view(outcome) == Ok::<ReplyView, ApiError>(created_reply(user@)),
        final(db)@ == old(db)@.insert(user.id@, user@),
{
    db.insert(user.clone());
    Ok(Reply { status: STATUS_CREATED, body: ReplyBody::User(user) })
}

/// Creates a user from a request body: prepares the record, stores it and
/// replies with it, always with status 201.
pub fn create_user_handler(new_user: CreateUserRequest, db: &mut UserStore) -> (outcome: Result<
    Reply,
    ApiError,
>)
    ensures
        outcome matches Ok(reply) && reply.status == STATUS_CREATED && (
        reply.body matches ReplyBody::User(user) && user.name@ == new_user.name@ && user.email@
            == new_user.email@ && is_uuid_v4_text(user.id@) && is_utc_timestamp_text(
            user.created_at@,
        ) && final(db)@ == old(db)@.insert(user.id@, user@)),
{
    let user = prepare_user(new_user);
    insert_user_handler(user, db)
}

/// Looks up one user: status 200 with the stored record, or `NotFound` exactly
/// when no record is stored under `id`.
pub fn get_user_handler(id: String, db: &UserStore) -> (outcome: Result<Reply, ApiError>)
    ensures
        outcome_view(outcome) == lookup_outcome(db@, id@),
{
    match db.get(&id) {
        Some(user) => Ok(Reply { status: STATUS_OK, body: ReplyBody::User(user.clone()) }),
        None => Err(ApiError::NotFound),
    }
}

/// Deletes one user: status 204 with a confirmation, or `NotFound` exactly when
/// no record is stored under `id`. Afterwards the store holds no such record.
pub fn delete_user_handler(id: String, db: &mut UserStore) -> (outcome: Result<Reply, ApiError>)
    ensures
        outcome_view(outcome) == delete_outcome(old(db)@, id@),
        final(db)@ == old(db)@.remove(id@),
{
    if db.remove(&id) {
        Ok(Reply { status: STATUS_NO_CONTENT, body: ReplyBody::Message("User deleted".to_owned()) })
    } else {
        Err(ApiError::NotFound)
    }
}

/// Reports that the service is up: always status 200, `healthy`, and the
/// service's name.
pub fn health_handler() -> (reply: Reply)
    ensures
        reply@ == health_reply(),
{
    Reply {
        status: STATUS_OK,
        body: ReplyBody::Health(
            HealthStatus { status: "healthy".to_owned(), service: "rust-web-server".to_owned() },
        ),
    }
}

} // verus!
