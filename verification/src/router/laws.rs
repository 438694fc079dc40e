//! What holds of the answers, whatever the store.
//!
//! Each law speaks of requests that were served. A store may fail at
//! any time, and the answer is then 500 and nothing else is known: the
//! laws leave such answers out.

use vstd::prelude::*;
use crate::router::user;
use crate::router::user::Request;
use crate::types;
use crate::types::{BodyView, ReplyView};
use crate::user::repository;
use crate::user::repository::Users;

verus! {

/// A request and the reply it got.
pub struct Exchange {
    pub request: Request,
    pub reply: ReplyView,
}

impl Request {
    /// The number that the request names, if it names one.
    pub open spec fn target(self) -> Option<u64> {
        match self {
            Request::Find(id) => Some(id),
            Request::Update(id, _) => Some(id),
            Request::Delete(id) => Some(id),
            _ => None,
        }
    }
}

impl Exchange {
    /// Whether the exchange added a user.
    pub open spec fn adds(self) -> bool {
        self.request is Create && self.reply.status == 201
    }

    /// Whether the exchange removed a user.
    pub open spec fn removes(self) -> bool {
        self.request is Delete && self.reply.status == 204
    }
}

/// Whether `exchanges` are what a store that started empty went
/// through, one after the other, holding `states[i]` before, and
/// `states[i + 1]` after, the exchange `i`.
pub open spec fn history(states: Seq<Users>, exchanges: Seq<Exchange>) -> bool {
    &&& states.len() == exchanges.len() + 1
    &&& states[0] == Users::empty()
    &&& forall|i: int|
        0 <= i < exchanges.len() ==> user::serves(
            states[i],
            (#[trigger] exchanges[i]).request,
            states[i + 1],
            exchanges[i].reply,
        )
}

/// How many of `exchanges` added a user.
pub open spec fn additions(exchanges: Seq<Exchange>) -> nat
    decreases exchanges.len(),
{
    if exchanges.len() == 0 {
        0
    } else {
        additions(exchanges.drop_last()) + (if exchanges.last().adds() {
            1nat
        } else {
            0nat
        })
    }
}

/// How many of `exchanges` removed a user.
pub open spec fn removals(exchanges: Seq<Exchange>) -> nat
    decreases exchanges.len(),
{
    if exchanges.len() == 0 {
        0
    } else {
        removals(exchanges.drop_last()) + (if exchanges.last().removes() {
            1nat
        } else {
            0nat
        })
    }
}

/// A request to create a user that the store carried out is answered
/// with 201 and a user of the submitted name, and the store then holds
/// one user more.
pub proof fn create_answers_with_the_name(
    before: Users,
    name: Seq<char>,
    after: Users,
    reply: ReplyView,
)
    requires
        user::serves(before, Request::Create(name), after, reply),
        reply.status != 500,
    ensures
        reply == types::with_user(201, name),
        repository::stored(before, name, after),
{
}

/// A request to find, replace or delete what is kept under a number
/// under which nothing is kept is answered with 404 and an empty
/// message, and changes nothing.
pub proof fn absent_is_not_found(
    before: Users,
    request: Request,
    after: Users,
    reply: ReplyView,
)
    requires
        request.target() matches Some(id) && !before.contains_key(id),
        user::serves(before, request, after, reply),
        reply.status != 500,
    ensures
        reply.status == 404,
        reply.body == BodyView::Error(Seq::<char>::empty()),
        reply == types::not_found(),
        after == before,
{
}

/// A list names as many users as the store holds.
pub proof fn listing_counts(users: Users, names: Seq<Seq<char>>)
    requires
        repository::listing(users, names),
    ensures
        users.dom().finite(),
        names.len() == users.dom().len(),
{
    let ids = choose|ids: Seq<u64>| repository::listed_by(users, ids, names);
    ids.unique_seq_to_set();
    vstd::seq_lib::seq_to_set_is_finite(ids);
}

/// After any history, a store holds as many users as were added and
/// not removed.
pub proof fn history_counts(states: Seq<Users>, exchanges: Seq<Exchange>)
    requires
        history(states, exchanges),
    ensures
        states.last().dom().finite(),
        states.last().dom().len() == additions(exchanges) - removals(exchanges),
    decreases exchanges.len(),
{
    if exchanges.len() > 0 {
        let earlier = exchanges.drop_last();
        let earlier_states = states.drop_last();
        assert(history(earlier_states, earlier)) by {
            assert forall|i: int| 0 <= i < earlier.len() implies user::serves(
                earlier_states[i],
                (#[trigger] earlier[i]).request,
                earlier_states[i + 1],
                earlier[i].reply,
            ) by {
                assert(earlier[i] == exchanges[i]);
            }
        }
        history_counts(earlier_states, earlier);
        let last = exchanges.len() - 1;
        assert(exchanges.last() == exchanges[last]);
        step_counts(states[last], exchanges[last], states[last + 1]);
    }
}

/// One exchange changes the number of users by what it added or
/// removed.
proof fn step_counts(before: Users, exchange: Exchange, after: Users)
    requires
        before.dom().finite(),
        user::serves(before, exchange.request, after, exchange.reply),
    ensures
        after.dom().finite(),
        after.dom().len() == before.dom().len() + (if exchange.adds() {
            1int
        } else {
            0int
        }) - (if exchange.removes() {
            1int
        } else {
            0int
        }),
{
    if let Request::Create(name) = exchange.request {
        if user::served(before, exchange.request, after, exchange.reply) {
            let id = choose|id: u64| repository::stored_at(before, id, name, after);
            assert(after.dom() == before.dom().insert(id));
        }
    }
}

/// A list that follows a history names as many users as the history
/// added and did not remove.
pub proof fn list_counts_the_users(
    states: Seq<Users>,
    exchanges: Seq<Exchange>,
    after: Users,
    reply: ReplyView,
)
    requires
        history(states, exchanges),
        user::serves(states.last(), Request::List, after, reply),
        reply.status != 500,
    ensures
        reply.status == 200,
        reply.body matches BodyView::Users(names) && names.len() == additions(exchanges)
            - removals(exchanges),
{
    history_counts(states, exchanges);
    listing_counts(states.last(), reply.body->Users_0);
}

/// A request to replace the user kept under a number is answered with
/// the new user, and a request to find what is kept under that number,
/// made next, is answered with the new user too: the old one is gone.
pub proof fn find_follows_update(
    before: Users,
    id: u64,
    name: Seq<char>,
    between: Users,
    updated: ReplyView,
    after: Users,
    found: ReplyView,
)
    requires
        before.contains_key(id),
        user::serves(before, Request::Update(id, name), between, updated),
        updated.status != 500,
        user::serves(between, Request::Find(id), after, found),
        found.status != 500,
    ensures
        updated == types::with_user(200, name),
        between == before.insert(id, name),
        found == types::with_user(200, name),
        after == between,
{
}

/// A request to delete the user kept under a number is answered with
/// 204 and nothing, and a request to find what is kept under that
/// number, made next, is answered with 404.
pub proof fn find_follows_delete(
    before: Users,
    id: u64,
    between: Users,
    deleted: ReplyView,
    after: Users,
    found: ReplyView,
)
    requires
        before.contains_key(id),
        user::serves(before, Request::Delete(id), between, deleted),
        deleted.status != 500,
        user::serves(between, Request::Find(id), after, found),
        found.status != 500,
    ensures
        deleted == types::without_body(204),
        between == before.remove(id),
        found == types::not_found(),
        after == between,
{
}

} // verus!
