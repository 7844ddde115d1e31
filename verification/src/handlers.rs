//! The decisions of every endpoint: which store request a call makes, and
//! which reply each store outcome gives.
//!
//! A store outcome arrives as a `Result` whose error carries nothing: every
//! store failure is answered alike. Deletions report how many documents went.

use vstd::prelude::*;
use crate::auth::{hash_pass, is_hash_of, password_matches, phc_parses, try_verify_hash, utf8_len, MAX_INPUT_LEN};
use crate::model::{AuthResponse, Claims, ListQuery, LoginQuery, NewUser, Status, TodoItem, TodoList, TodoQuery, User};
use crate::object_id::{fresh_object_id, is_object_id_text, object_id_bytes, object_id_text, object_id_to_hex, lemma_text_parses_back, parse_object_id, parsed_object_id, ObjectId};
use crate::store::{id_or_null, is_delete_many, is_delete_one, is_find, is_find_one, is_update_one, optional_id, Collection, DbRequest, Document, Field, FieldValue};

verus! {

/// What a call does next: make a store request, or reply.
#[derive(Debug)]
pub enum Step {
    Query(DbRequest),
    Reply(Result<Status, Status>),
}

/// The scheme word of an `Authorization` header that carries a bearer token.
pub open spec fn bearer_prefix() -> Seq<char> {
    seq!['B', 'e', 'a', 'r', 'e', 'r', ' ']
}

/// Whether a header value starts with the bearer scheme word.
pub open spec fn has_bearer_prefix(h: Seq<char>) -> bool {
    h.len() >= 7 && h.take(7) == bearer_prefix()
}

/// Whether `v` is the owner value of the caller whose claims name `sub`: the id
/// that `sub` spells, or null where it spells none.
pub open spec fn is_owner_value(v: FieldValue, sub: Seq<char>) -> bool {
    match parsed_object_id(sub) {
        Some(b) => v matches FieldValue::Id(id) && id@ == b,
        None => v is Null,
    }
}

/// Whether a filter matches the owner field against the caller's owner value.
pub open spec fn scoped_to_caller(filter: Seq<(Field, FieldValue)>, sub: Seq<char>) -> bool {
    exists|i: int|
        0 <= i < filter.len() && (#[trigger] filter[i]).0 == Field::OwnerId && is_owner_value(
            filter[i].1,
            sub,
        )
}

/// Whether an optional owner id is the id that the subject `sub` spells.
pub open spec fn owned_by(owner: Option<ObjectId>, sub: Seq<char>) -> bool {
    owner matches Some(o) && o@ == object_id_bytes(sub)
}

/// Whether two field values are the same value: ids with the same bytes, both
/// null, equal texts, or equal flags.
pub open spec fn same_value(a: FieldValue, b: FieldValue) -> bool {
    match (a, b) {
        (FieldValue::Id(x), FieldValue::Id(y)) => x@ == y@,
        (FieldValue::Null, FieldValue::Null) => true,
        (FieldValue::Text(x), FieldValue::Text(y)) => x@ == y@,
        (FieldValue::Flag(x), FieldValue::Flag(y)) => x == y,
        _ => false,
    }
}

/// What the library creates for a caller, the caller's fetches select: where
/// the subject spells an id (so creation succeeds), the owner stored with a
/// new list or item and the owner value that the caller's list and item
/// fetches filter on are the same id.
pub proof fn lemma_created_is_fetched(sub: Seq<char>, owner: Option<ObjectId>, v: FieldValue)
    requires
        is_object_id_text(sub),
        owned_by(owner, sub),
        is_owner_value(v, sub),
    ensures
        same_value(optional_id(owner), v),
{
}

/// A header made of `Bearer ` and a token gives that token back.
pub proof fn lemma_bearer_header_gives_token(token: Seq<char>)
    ensures
        has_bearer_prefix(bearer_prefix() + token),
        (bearer_prefix() + token).skip(7) == token,
{
    assert((bearer_prefix() + token).take(7) =~= bearer_prefix());
    assert((bearer_prefix() + token).skip(7) =~= token);
}

/// The token of an `Authorization` header: what follows `Bearer `.
///
/// A missing header, or one that does not start with `Bearer `, is unauthorized.
pub fn bearer_token<'a>(header: Option<&'a str>) -> (r: Result<&'a str, Status>)
    ensures
        r is Ok <==> (header matches Some(h) && has_bearer_prefix(h@)),
        r matches Ok(t) ==> (header matches Some(h) && t@ == h@.skip(7)),
        r matches Err(s) ==> s == Status::Unauthorized,
{
    let h = match header {
        Some(h) => h,
        None => {
            return Err(Status::Unauthorized);
        },
    };
    let n = h.unicode_len();
    if n < 7 {
        return Err(Status::Unauthorized);
    }
    let prefix = "Bearer ";
    proof {
        reveal_strlit("Bearer ");
    }
    assert(prefix@ == bearer_prefix());
    let mut i: usize = 0;
    while i < 7
        invariant
            0 <= i <= 7,
            n == h@.len(),
            n >= 7,
            prefix@ == bearer_prefix(),
            header == Some(h),
            forall|j: int| 0 <= j < i ==> h@[j] == bearer_prefix()[j],
        decreases 7 - i,
    {
        if h.get_char(i) != prefix.get_char(i) {
            assert(h@.take(7)[i as int] != bearer_prefix()[i as int]);
            return Err(Status::Unauthorized);
        }
        i = i + 1;
    }
    assert(h@.take(7) =~= bearer_prefix());
    Ok(h.substring_char(7, n))
}

/// The caller's id, from the subject of their claims; a subject that is no id
/// text is a bad request.
pub fn owner_id(claims: &Claims) -> (r: Result<ObjectId, Status>)
    ensures
        r is Ok <==> is_object_id_text(claims.sub@),
        r matches Ok(id) ==> id@ == object_id_bytes(claims.sub@),
        r matches Err(s) ==> s == Status::BadRequest,
{
    match parse_object_id(claims.sub.as_str()) {
        Some(id) => Ok(id),
        None => Err(Status::BadRequest),
    }
}

/// The caller's owner value: their id where the subject of their claims
/// spells one, else null.
pub fn owner_value(claims: &Claims) -> (v: FieldValue)
    ensures
        is_owner_value(v, claims.sub@),
{
    match parse_object_id(claims.sub.as_str()) {
        Some(id) => FieldValue::Id(id),
        None => FieldValue::Null,
    }
}

/// The reply to an insertion or an update: `success` where the store
/// succeeded, else an internal error.
pub fn write_reply(outcome: Result<(), ()>, success: Status) -> (r: Result<Status, Status>)
    ensures
        outcome is Ok ==> r == Ok::<Status, Status>(success),
        outcome is Err ==> r == Err::<Status, Status>(Status::InternalServerError),
{
    match outcome {
        Ok(()) => Ok(success),
        Err(()) => Err(Status::InternalServerError),
    }
}

/// Account creation: the new account, with a fresh id and the password hashed
/// under the pepper, to insert into the users. The id in the body is ignored.
/// Where hashing fails, the reply is an internal error.
pub fn create_account_request(payload: NewUser, pepper: &[u8]) -> (r: Result<DbRequest, Status>)
    ensures
        r is Ok <==> (pepper@.len() <= MAX_INPUT_LEN && utf8_len(payload.password@) <= MAX_INPUT_LEN),
        r matches Err(s) ==> s == Status::InternalServerError,
        r matches Ok(req) ==> (req matches DbRequest::InsertUser(u) && u.email == payload.email
            && u.first_name == payload.first_name && u.last_name == payload.last_name
            && is_hash_of(u.password_hash@, payload.password@, pepper@) && password_matches(
            u.password_hash@,
            payload.password@,
            pepper@,
        )),
{
    let hash = match hash_pass(payload.password.as_str(), pepper) {
        Ok(h) => h,
        Err(_) => {
            return Err(Status::InternalServerError);
        },
    };
    Ok(account_insertion(fresh_object_id(), payload, hash))
}

/// The insertion of a new account with the id `id`, the body's e-mail address
/// and names, and the password hash `hash`. The id in the body is ignored.
pub fn account_insertion(id: ObjectId, payload: NewUser, hash: String) -> (r: DbRequest)
    ensures
        r matches DbRequest::InsertUser(u) && u.id == id && u.email == payload.email && u.first_name
            == payload.first_name && u.last_name == payload.last_name && u.password_hash == hash,
{
    let user = User {
        id,
        email: payload.email,
        first_name: payload.first_name,
        last_name: payload.last_name,
        password_hash: hash,
    };
    DbRequest::InsertUser(user)
}

/// Login: fetch the account with the given e-mail address.
pub fn login_request(payload: &LoginQuery) -> (r: DbRequest)
    ensures
        is_find_one(r, Collection::Users, seq![(Field::Email, FieldValue::Text(payload.email))]),
{
    let email = payload.email.clone();
    let filter = Document { entries: vec![(Field::Email, FieldValue::Text(email))] };
    assert(filter@ =~= seq![(Field::Email, FieldValue::Text(payload.email))]);
    DbRequest::FindOne { collection: Collection::Users, filter }
}

/// Login, once the account has been looked up: the account's id where the
/// password matches its hash under the pepper; a store failure is an internal
/// error, no account is not found, and a wrong password is unauthorized.
///
/// `None` where the stored hash parses but the pepper is longer than Argon2
/// takes as a secret, so that no check can be made.
pub fn login_decision(found: Result<Option<User>, ()>, password: &str, pepper: &[u8]) -> (r: Option<
    Result<ObjectId, Status>,
>)
    ensures
        found is Err ==> r == Some(Err::<ObjectId, Status>(Status::InternalServerError)),
        found == Ok::<Option<User>, ()>(None) ==> r == Some(Err::<ObjectId, Status>(Status::NotFound)),
        found matches Ok(Some(u)) ==> {
            if phc_parses(u.password_hash@) && pepper@.len() > MAX_INPUT_LEN {
                r is None
            } else if password_matches(u.password_hash@, password@, pepper@) {
                r == Some(Ok::<ObjectId, Status>(u.id))
            } else {
                r == Some(Err::<ObjectId, Status>(Status::Unauthorized))
            }
        },
{
    match found {
        Err(()) => Some(Err(Status::InternalServerError)),
        Ok(None) => Some(Err(Status::NotFound)),
        Ok(Some(user)) => match try_verify_hash(user.password_hash.as_str(), password, pepper) {
            None => None,
            Some(true) => Some(Ok(user.id)),
            Some(false) => Some(Err(Status::Unauthorized)),
        },
    }
}

/// The first second `chrono` represents, as seconds since the epoch: the
/// start of January 1 of year -262143.
pub open spec fn chrono_min_timestamp() -> int {
    -8_334_601_228_800
}

/// The last whole second `chrono` represents, as seconds since the epoch:
/// 23:59:59 on December 31 of year 262142.
pub open spec fn chrono_max_timestamp() -> int {
    8_210_266_876_799
}

/// Whether a day (86,400 seconds) after `ts` is a time `chrono` represents,
/// with `ts` itself one.
pub open spec fn day_after_representable(ts: i64) -> bool {
    chrono_min_timestamp() <= ts && ts + 86400 <= chrono_max_timestamp()
}

#[verifier::external_body]
fn day_after(ts: i64) -> (r: Option<i64>)
    ensures
        r is Some <==> day_after_representable(ts),
        r matches Some(t) ==> t == ts + 86400,
{
    Some(chrono::DateTime::from_timestamp(ts, 0)?.checked_add_signed(chrono::Duration::hours(24))?.timestamp())
}

/// The claims of a session for a user, issued at `now` (seconds since the
/// epoch): the id's lower-case hexadecimal text, and an expiry a day later,
/// read as an unsigned number. `None` where that time is out of `chrono`'s range.
pub fn session_claims(user: &ObjectId, now: i64) -> (r: Option<Claims>)
    ensures
        r is Some <==> day_after_representable(now),
        r matches Some(c) ==> c.sub@ == object_id_text(user@),
        r matches Some(c) ==> c.exp == (now + 86400) as usize,
{
    let expiry = day_after(now)?;
    Some(Claims { sub: object_id_to_hex(user), exp: expiry as usize })
}

/// A session names its user back: the subject of the claims issued for an id
/// is the text of an id, spells that id, and gives that id as owner value, so
/// every endpoint that reads the caller from the claims reads that user.
pub proof fn lemma_session_names_user(user: ObjectId)
    ensures
        is_object_id_text(object_id_text(user@)),
        object_id_bytes(object_id_text(user@)) == user@,
        forall|v: FieldValue|
            #[trigger] is_owner_value(v, object_id_text(user@)) <==> (v matches FieldValue::Id(id)
                && id@ == user@),
{
    lemma_text_parses_back(user@);
}

/// The reply to a login once the token has been signed: the token, or an
/// internal error where signing failed.
pub fn login_reply(signed: Result<String, ()>) -> (r: Result<AuthResponse, Status>)
    ensures
        signed matches Ok(t) ==> (r matches Ok(a) && a.token == t),
        signed is Err ==> r == Err::<AuthResponse, Status>(Status::InternalServerError),
{
    match signed {
        Ok(token) => Ok(AuthResponse { token }),
        Err(()) => Err(Status::InternalServerError),
    }
}

/// Account deletion: delete the caller's account, by the id in their claims.
pub fn delete_user_request(claims: &Claims) -> (r: Result<DbRequest, Status>)
    ensures
        r is Ok <==> is_object_id_text(claims.sub@),
        r matches Err(s) ==> s == Status::BadRequest,
        r matches Ok(req) ==> exists|id: ObjectId|
            id@ == object_id_bytes(claims.sub@) && #[trigger] is_delete_one(
                req,
                Collection::Users,
                seq![(Field::Id, FieldValue::Id(id))],
            ),
{
    let id = owner_id(claims)?;
    let filter = Document { entries: vec![(Field::Id, FieldValue::Id(id))] };
    assert(filter@ =~= seq![(Field::Id, FieldValue::Id(id))]);
    let req = DbRequest::DeleteOne { collection: Collection::Users, filter };
    assert(is_delete_one(req, Collection::Users, seq![(Field::Id, FieldValue::Id(id))]));
    Ok(req)
}

/// The reply to an account deletion: success where an account went, not
/// found where none did, an internal error where the store failed.
pub fn delete_user_reply(outcome: Result<u64, ()>) -> (r: Result<Status, Status>)
    ensures
        outcome matches Ok(n) ==> (n > 0 ==> r == Ok::<Status, Status>(Status::Success)),
        outcome matches Ok(n) ==> (n == 0 ==> r == Err::<Status, Status>(Status::NotFound)),
        outcome is Err ==> r == Err::<Status, Status>(Status::InternalServerError),
{
    match outcome {
        Ok(n) => if n > 0 {
            Ok(Status::Success)
        } else {
            Err(Status::NotFound)
        },
        Err(()) => Err(Status::InternalServerError),
    }
}

/// List creation: the list with a fresh id, the title from the body, and the
/// caller as owner. The id and owner in the body are ignored.
pub fn create_list_request(claims: &Claims, payload: TodoList) -> (r: Result<DbRequest, Status>)
    ensures
        r is Ok <==> is_object_id_text(claims.sub@),
        r matches Err(s) ==> s == Status::BadRequest,
        r matches Ok(req) ==> (req matches DbRequest::InsertList(l) && l.id is Some && l.title
            == payload.title && owned_by(l.owner_id, claims.sub@)),
{
    let owner = owner_id(claims)?;
    Ok(list_insertion(fresh_object_id(), owner, payload))
}

/// The insertion of a new list with the id `id`, the body's title, and the
/// owner `owner`. The id and owner in the body are ignored.
pub fn list_insertion(id: ObjectId, owner: ObjectId, payload: TodoList) -> (r: DbRequest)
    ensures
        r matches DbRequest::InsertList(l) && l.id == Some(id) && l.title == payload.title
            && l.owner_id == Some(owner),
{
    DbRequest::InsertList(TodoList { id: Some(id), title: payload.title, owner_id: Some(owner) })
}

/// Item creation: the item with a fresh id, title, description, state and
/// list from the body, and the caller as owner. The id and owner in the body
/// are ignored; the list is taken as given.
pub fn create_todo_request(claims: &Claims, payload: TodoItem) -> (r: Result<DbRequest, Status>)
    ensures
        r is Ok <==> is_object_id_text(claims.sub@),
        r matches Err(s) ==> s == Status::BadRequest,
        r matches Ok(req) ==> (req matches DbRequest::InsertTodo(t) && t.id is Some && t.title
            == payload.title && t.description == payload.description && t.completed
            == payload.completed && t.list_id == payload.list_id && owned_by(t.owner_id, claims.sub@)),
{
    let owner = owner_id(claims)?;
    Ok(item_insertion(fresh_object_id(), owner, payload))
}

/// The insertion of a new item with the id `id`, the body's title,
/// description, state and list, and the owner `owner`. The id and owner in the
/// body are ignored; the list is taken as given.
pub fn item_insertion(id: ObjectId, owner: ObjectId, payload: TodoItem) -> (r: DbRequest)
    ensures
        r matches DbRequest::InsertTodo(t) && t.id == Some(id) && t.title == payload.title
            && t.description == payload.description && t.completed == payload.completed
            && t.list_id == payload.list_id && t.owner_id == Some(owner),
{
    DbRequest::InsertTodo(
        TodoItem {
            id: Some(id),
            title: payload.title,
            description: payload.description,
            completed: payload.completed,
            list_id: payload.list_id,
            owner_id: Some(owner),
        },
    )
}

/// Fetching lists: every list whose owner is the caller's owner value.
pub fn get_lists_request(claims: &Claims) -> (r: DbRequest)
    ensures
        scoped_to_caller(r.filter_of(), claims.sub@),
        exists|v: FieldValue|
            #[trigger] is_owner_value(v, claims.sub@) && is_find(
                r,
                Collection::TodoLists,
                seq![(Field::OwnerId, v)],
            ),
{
    let owner = owner_value(claims);
    let filter = Document { entries: vec![(Field::OwnerId, owner)] };
    assert(filter@ =~= seq![(Field::OwnerId, owner)]);
    let r = DbRequest::Find { collection: Collection::TodoLists, filter };
    assert(is_find(r, Collection::TodoLists, seq![(Field::OwnerId, owner)]));
    r
}

/// The reply to fetching lists: the lists, or nothing where the store failed.
pub fn get_lists_reply(found: Result<Vec<TodoList>, ()>) -> (r: Option<Vec<TodoList>>)
    ensures
        found matches Ok(v) ==> r == Some(v),
        found is Err ==> r is None,
{
    match found {
        Ok(v) => Some(v),
        Err(()) => None,
    }
}

/// Fetching items: every item whose owner is the caller's owner value and
/// whose list is the one in the query (null where the query names none).
pub fn get_todos_request(claims: &Claims, qry: &TodoQuery) -> (r: DbRequest)
    ensures
        scoped_to_caller(r.filter_of(), claims.sub@),
        exists|v: FieldValue|
            #[trigger] is_owner_value(v, claims.sub@) && is_find(
                r,
                Collection::Todos,
                seq![(Field::OwnerId, v), (Field::ListId, optional_id(qry.list))],
            ),
{
    let owner = owner_value(claims);
    let filter = Document {
        entries: vec![(Field::OwnerId, owner), (Field::ListId, id_or_null(qry.list))],
    };
    let r = DbRequest::Find { collection: Collection::Todos, filter };
    assert(is_find(
        r,
        Collection::Todos,
        seq![(Field::OwnerId, owner), (Field::ListId, optional_id(qry.list))],
    ));
    r
}

/// List update: set the title of the list with the body's id (null where the
/// body has none) whose owner is the caller's owner value.
pub fn update_list_request(claims: &Claims, payload: TodoList) -> (r: DbRequest)
    ensures
        scoped_to_caller(r.filter_of(), claims.sub@),
        exists|v: FieldValue|
            #[trigger] is_owner_value(v, claims.sub@) && is_update_one(
                r,
                Collection::TodoLists,
                seq![(Field::Id, optional_id(payload.id)), (Field::OwnerId, v)],
                seq![(Field::Title, FieldValue::Text(payload.title))],
            ),
{
    let owner = owner_value(claims);
    let filter = Document { entries: vec![(Field::Id, id_or_null(payload.id)), (Field::OwnerId, owner)] };
    let set = Document { entries: vec![(Field::Title, FieldValue::Text(payload.title))] };
    assert(set@ =~= seq![(Field::Title, FieldValue::Text(payload.title))]);
    let r = DbRequest::UpdateOne { collection: Collection::TodoLists, filter, set };
    assert(is_update_one(
        r,
        Collection::TodoLists,
        seq![(Field::Id, optional_id(payload.id)), (Field::OwnerId, owner)],
        seq![(Field::Title, FieldValue::Text(payload.title))],
    ));
    r
}

/// Item update: set the title, description and state of the item with the
/// body's id (null where the body has none) whose owner is the caller's owner
/// value.
pub fn update_todo_request(claims: &Claims, payload: TodoItem) -> (r: DbRequest)
    ensures
        scoped_to_caller(r.filter_of(), claims.sub@),
        exists|v: FieldValue|
            #[trigger] is_owner_value(v, claims.sub@) && is_update_one(
                r,
                Collection::Todos,
                seq![(Field::Id, optional_id(payload.id)), (Field::OwnerId, v)],
                seq![
                    (Field::Title, FieldValue::Text(payload.title)),
                    (Field::Description, FieldValue::Text(payload.description)),
                    (Field::Completed, FieldValue::Flag(payload.completed)),
                ],
            ),
{
    let owner = owner_value(claims);
    let filter = Document { entries: vec![(Field::Id, id_or_null(payload.id)), (Field::OwnerId, owner)] };
    let set = Document {
        entries: vec![
            (Field::Title, FieldValue::Text(payload.title)),
            (Field::Description, FieldValue::Text(payload.description)),
            (Field::Completed, FieldValue::Flag(payload.completed)),
        ],
    };
    let r = DbRequest::UpdateOne { collection: Collection::Todos, filter, set };
    assert(is_update_one(
        r,
        Collection::Todos,
        seq![(Field::Id, optional_id(payload.id)), (Field::OwnerId, owner)],
        seq![
            (Field::Title, FieldValue::Text(payload.title)),
            (Field::Description, FieldValue::Text(payload.description)),
            (Field::Completed, FieldValue::Flag(payload.completed)),
        ],
    ));
    r
}

/// List removal: delete the list with the query's id whose owner is the
/// caller's owner value.
pub fn remove_list_request(claims: &Claims, opts: &ListQuery) -> (r: DbRequest)
    ensures
        scoped_to_caller(r.filter_of(), claims.sub@),
        exists|v: FieldValue|
            #[trigger] is_owner_value(v, claims.sub@) && is_delete_one(
                r,
                Collection::TodoLists,
                seq![(Field::Id, FieldValue::Id(opts.id)), (Field::OwnerId, v)],
            ),
{
    let owner = owner_value(claims);
    let filter = Document { entries: vec![(Field::Id, FieldValue::Id(opts.id)), (Field::OwnerId, owner)] };
    let r = DbRequest::DeleteOne { collection: Collection::TodoLists, filter };
    assert(is_delete_one(
        r,
        Collection::TodoLists,
        seq![(Field::Id, FieldValue::Id(opts.id)), (Field::OwnerId, owner)],
    ));
    r
}

/// List removal, once the list deletion has run: where a list went, delete
/// every item whose owner field holds the removed list's id; where none went,
/// reply not found (as a success); where the store failed, an internal error.
pub fn remove_list_after_delete(outcome: Result<u64, ()>, opts: &ListQuery) -> (s: Step)
    ensures
        outcome matches Ok(n) ==> (n > 0 ==> (s matches Step::Query(req) && is_delete_many(
            req,
            Collection::Todos,
            seq![(Field::OwnerId, FieldValue::Id(opts.id))],
        ))),
        outcome matches Ok(n) ==> (n == 0 ==> s == Step::Reply(Ok(Status::NotFound))),
        outcome is Err ==> s == Step::Reply(Err(Status::InternalServerError)),
{
    match outcome {
        Ok(n) => if n > 0 {
            let filter = Document { entries: vec![(Field::OwnerId, FieldValue::Id(opts.id))] };
            assert(filter@ =~= seq![(Field::OwnerId, FieldValue::Id(opts.id))]);
            Step::Query(DbRequest::DeleteMany { collection: Collection::Todos, filter })
        } else {
            Step::Reply(Ok(Status::NotFound))
        },
        Err(()) => Step::Reply(Err(Status::InternalServerError)),
    }
}

/// Item removal: delete the item with the query's id (null where the query
/// names none) whose owner is the caller's owner value.
pub fn remove_todo_request(claims: &Claims, opts: &TodoQuery) -> (r: DbRequest)
    ensures
        scoped_to_caller(r.filter_of(), claims.sub@),
        exists|v: FieldValue|
            #[trigger] is_owner_value(v, claims.sub@) && is_delete_one(
                r,
                Collection::Todos,
                seq![(Field::Id, optional_id(opts.id)), (Field::OwnerId, v)],
            ),
{
    let owner = owner_value(claims);
    let filter = Document { entries: vec![(Field::Id, id_or_null(opts.id)), (Field::OwnerId, owner)] };
    let r = DbRequest::DeleteOne { collection: Collection::Todos, filter };
    assert(is_delete_one(
        r,
        Collection::Todos,
        seq![(Field::Id, optional_id(opts.id)), (Field::OwnerId, owner)],
    ));
    r
}

/// The reply to an item removal: success where an item went, not found (as a
/// success) where none did, an internal error where the store failed.
pub fn remove_todo_reply(outcome: Result<u64, ()>) -> (r: Result<Status, Status>)
    ensures
        outcome matches Ok(n) ==> (n > 0 ==> r == Ok::<Status, Status>(Status::Success)),
        outcome matches Ok(n) ==> (n == 0 ==> r == Ok::<Status, Status>(Status::NotFound)),
        outcome is Err ==> r == Err::<Status, Status>(Status::InternalServerError),
{
    match outcome {
        Ok(n) => if n > 0 {
            Ok(Status::Success)
        } else {
            Ok(Status::NotFound)
        },
        Err(()) => Err(Status::InternalServerError),
    }
}

} // verus!
