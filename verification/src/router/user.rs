//! The routes of the users, and what each of them answers.
//!
//! | request           | answer                           |
//! |-------------------|----------------------------------|
//! | create a user     | 201 and the user                 |
//! | list the users    | 200 and every user               |
//! | find a user       | 200 and the user, or 404         |
//! | replace a user    | 200 and the new user, or 404     |
//! | delete a user     | 204 and nothing, or 404          |
//!
//! Whatever is asked, a store that fails is answered for with 500.

use vstd::prelude::*;
use crate::types;
use crate::types::{
    AppError, Body, BodyView, Reply, ReplyView, STATUS_CREATED, STATUS_NO_CONTENT, STATUS_OK,
};
use crate::user::api::Service;
use crate::user::domain;
use crate::user::domain::User;
use crate::user::repository;
use crate::user::repository::Repository;
use crate::user::repository::Users;

verus! {

/// What a client can ask for.
pub enum Request {
    /// Keep a user of this name.
    Create(Seq<char>),
    /// Show every user.
    List,
    /// Show the user kept under this number.
    Find(u64),
    /// Put a user of this name in the place of the one kept under this
    /// number.
    Update(u64, Seq<char>),
    /// Remove the user kept under this number.
    Delete(u64),
}

/// Whether a store that held `before` may answer `request` with `reply`
/// and hold `after` from then on.
///
/// Either the store failed: then the reply is the failure and nothing
/// has changed. Or the request was served as the table above says.
pub open spec fn serves(
    before: Users,
    request: Request,
    after: Users,
    reply: ReplyView,
) -> bool {
    ||| reply == types::failure() && after == before
    ||| served(before, request, after, reply)
}

/// Whether `reply` and `after` are what serving `request` gives in a
/// store that held `before`.
pub open spec fn served(
    before: Users,
    request: Request,
    after: Users,
    reply: ReplyView,
) -> bool {
    match request {
        Request::Create(name) => {
            &&& reply == types::with_user(201, name)
            &&& repository::stored(before, name, after)
        },
        Request::List => {
            &&& reply.status == 200
            &&& reply.body matches BodyView::Users(names)
            &&& repository::listing(before, names)
            &&& after == before
        },
        Request::Find(id) => {
            &&& reply == (if before.contains_key(id) {
                types::with_user(200, before[id])
            } else {
                types::not_found()
            })
            &&& after == before
        },
        Request::Update(id, name) => if before.contains_key(id) {
            &&& reply == types::with_user(200, name)
            &&& after == before.insert(id, name)
        } else {
            &&& reply == types::not_found()
            &&& after == before
        },
        Request::Delete(id) => if before.contains_key(id) {
            &&& reply == types::without_body(204)
            &&& after == before.remove(id)
        } else {
            &&& reply == types::not_found()
            &&& after == before
        },
    }
}

/// The reply that a client gets when a route ends in `outcome`: the
/// reply itself, or the report of the error.
pub open spec fn answer(outcome: Result<Reply, AppError>) -> ReplyView {
    match outcome {
        Ok(reply) => reply@,
        Err(error) => error.spec_response(),
    }
}

/// The reply that a client gets when a route ends in `outcome`.
pub fn respond(outcome: Result<Reply, AppError>) -> (reply: Reply)
    ensures
        reply@ == answer(outcome),
{
    match outcome {
        Ok(reply) => reply,
        Err(error) => error.into_response(),
    }
}

/// How the route that creates a user ends, given what the store said:
/// with 201 and the user that the store kept, or with the store's
/// error.
pub fn created(result: Result<User, AppError>) -> (outcome: Result<Reply, AppError>)
    ensures
        (match result {
            Ok(user) => outcome matches Ok(reply) && reply@ == types::with_user(201, user@),
            Err(error) => outcome == Err::<Reply, AppError>(error),
        }),
{
    match result {
        Ok(user) => Ok(Reply { status: STATUS_CREATED, body: Body::User(user) }),
        Err(error) => Err(error),
    }
}

/// How the route that lists the users ends, given what the store said:
/// with 200 and the users, or with the store's error.
pub fn listed(result: Result<Vec<User>, AppError>) -> (outcome: Result<Reply, AppError>)
    ensures
        (match result {
            Ok(users) => outcome matches Ok(reply) && reply@ == types::with_users(
                200,
                domain::names(users@),
            ),
            Err(error) => outcome == Err::<Reply, AppError>(error),
        }),
{
    match result {
        Ok(users) => Ok(Reply { status: STATUS_OK, body: Body::Users(users) }),
        Err(error) => Err(error),
    }
}

/// How the routes that find and that replace a user end, given what the
/// store said: with 200 and the user, with the error of a missing
/// record where the store has none under the number, or with the
/// store's error.
pub fn found(result: Result<Option<User>, AppError>) -> (outcome: Result<Reply, AppError>)
    ensures
        (match result {
            Ok(Some(user)) => outcome matches Ok(reply) && reply@ == types::with_user(200, user@),
            Ok(None) => outcome == Err::<Reply, AppError>(AppError::NotFound),
            Err(error) => outcome == Err::<Reply, AppError>(error),
        }),
{
    match result {
        Ok(Some(user)) => Ok(Reply { status: STATUS_OK, body: Body::User(user) }),
        Ok(None) => Err(AppError::NotFound),
        Err(error) => Err(error),
    }
}

/// How the route that deletes a user ends, given what the store said:
/// with 204 and nothing, with the error of a missing record where
/// nothing was deleted, or with the store's error.
pub fn deleted(result: Result<bool, AppError>) -> (outcome: Result<Reply, AppError>)
    ensures
        (match result {
            Ok(true) => outcome matches Ok(reply) && reply@ == types::without_body(204),
            Ok(false) => outcome == Err::<Reply, AppError>(AppError::NotFound),
            Err(error) => outcome == Err::<Reply, AppError>(error),
        }),
{
    match result {
        Ok(true) => Ok(Reply { status: STATUS_NO_CONTENT, body: Body::Empty }),
        Ok(false) => Err(AppError::NotFound),
        Err(error) => Err(error),
    }
}

/// The route that creates `user`.
pub fn create<R: Repository>(api: &mut Service<R>, user: User) -> (outcome: Result<
    Reply,
    AppError,
>)
    ensures
        serves(old(api)@, Request::Create(user@), final(api)@, answer(outcome)),
        old(api).ready() ==> answer(outcome).status != 500,
        outcome is Ok <==> answer(outcome).status == 201,
{
    let result = api.create(user);
    created(result)
}

/// The route that lists the users.
pub fn list<R: Repository>(api: &Service<R>) -> (outcome: Result<Reply, AppError>)
    ensures
        serves(api@, Request::List, api@, answer(outcome)),
        api.ready() ==> answer(outcome).status != 500,
        outcome is Ok <==> answer(outcome).status == 200,
{
    let result = api.list();
    listed(result)
}

/// The route that finds the user kept under `id`.
pub fn find_by_id<R: Repository>(api: &Service<R>, id: u64) -> (outcome: Result<Reply, AppError>)
    ensures
        serves(api@, Request::Find(id), api@, answer(outcome)),
        api.ready() ==> answer(outcome).status != 500,
        outcome is Ok <==> answer(outcome).status == 200,
{
    let result = api.find_by_id(&id);
    found(result)
}

/// The route that puts `user` in the place of the one kept under `id`.
pub fn update<R: Repository>(api: &mut Service<R>, id: u64, user: User) -> (outcome: Result<
    Reply,
    AppError,
>)
    ensures
        serves(old(api)@, Request::Update(id, user@), final(api)@, answer(outcome)),
        old(api).ready() ==> answer(outcome).status != 500,
        final(api).ready() == old(api).ready(),
        outcome is Ok <==> answer(outcome).status == 200,
{
    let result = api.update(id, user);
    found(result)
}

/// The route that removes the user kept under `id`.
pub fn delete_user<R: Repository>(api: &mut Service<R>, id: u64) -> (outcome: Result<
    Reply,
    AppError,
>)
    ensures
        serves(old(api)@, Request::Delete(id), final(api)@, answer(outcome)),
        old(api).ready() ==> answer(outcome).status != 500,
        final(api).ready() == old(api).ready(),
        outcome is Ok <==> answer(outcome).status == 204,
{
    let result = api.delete(&id);
    deleted(result)
}

} // verus!
