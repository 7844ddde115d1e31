use todo_server::handlers::{
    bearer_token, create_account_request, create_list_request, create_todo_request,
    delete_user_reply, delete_user_request, get_lists_reply, get_lists_request,
    get_todos_request, login_decision, login_reply, login_request, owner_id, owner_value,
    remove_list_after_delete, remove_list_request, remove_todo_reply, remove_todo_request,
    session_claims, update_list_request, update_todo_request, write_reply, Step,
};
use todo_server::auth::{hash_pass, verify_hash};
use todo_server::model::{Claims, ListQuery, LoginQuery, NewUser, Status, TodoItem, TodoList, TodoQuery, User};
use todo_server::object_id::ObjectId;
use todo_server::store::{Collection, DbRequest, Field, FieldValue};

const HEX: &str = "0123456789abcdef01234567";

fn id(n: u8) -> ObjectId {
    ObjectId { bytes: [n; 12] }
}

fn hex_id() -> ObjectId {
    ObjectId { bytes: [0x01, 0x23, 0x45, 0x67, 0x89, 0xab, 0xcd, 0xef, 0x01, 0x23, 0x45, 0x67] }
}

fn claims(sub: &str) -> Claims {
    Claims { sub: sub.to_string(), exp: 1000 }
}

fn entries(d: &todo_server::store::Document) -> Vec<(Field, String)> {
    d.entries.iter().map(|(f, v)| (*f, describe(v))).collect()
}

fn describe(v: &FieldValue) -> String {
    match v {
        FieldValue::Id(i) => format!("id:{:?}", i.bytes),
        FieldValue::Null => "null".to_string(),
        FieldValue::Text(t) => format!("text:{}", t),
        FieldValue::Flag(b) => format!("flag:{}", b),
    }
}

fn id_text(i: ObjectId) -> String {
    format!("id:{:?}", i.bytes)
}

#[test]
fn bearer_token_takes_the_rest_of_the_header() {
    assert_eq!(bearer_token(Some("Bearer abc.def.ghi")), Ok("abc.def.ghi"));
    assert_eq!(bearer_token(Some("Bearer ")), Ok(""));
    assert_eq!(bearer_token(Some("Bearer  x")), Ok(" x"));
    assert_eq!(bearer_token(Some("Bearer é")), Ok("é"));
}

#[test]
fn bearer_token_refuses_other_headers() {
    assert_eq!(bearer_token(None), Err(Status::Unauthorized));
    assert_eq!(bearer_token(Some("")), Err(Status::Unauthorized));
    assert_eq!(bearer_token(Some("Bearer")), Err(Status::Unauthorized));
    assert_eq!(bearer_token(Some("bearer abc")), Err(Status::Unauthorized));
    assert_eq!(bearer_token(Some("Basic abc")), Err(Status::Unauthorized));
    assert_eq!(bearer_token(Some(" Bearer abc")), Err(Status::Unauthorized));
}

#[test]
fn owner_id_parses_hex_subjects() {
    assert_eq!(owner_id(&claims(HEX)).unwrap().bytes, hex_id().bytes);
    assert_eq!(owner_id(&claims("0123456789ABCDEF01234567")).unwrap().bytes, hex_id().bytes);
}

#[test]
fn owner_id_refuses_other_subjects() {
    assert_eq!(owner_id(&claims("")).unwrap_err(), Status::BadRequest);
    assert_eq!(owner_id(&claims("0123456789abcdef0123456")).unwrap_err(), Status::BadRequest);
    assert_eq!(owner_id(&claims("0123456789abcdef012345678")).unwrap_err(), Status::BadRequest);
    assert_eq!(owner_id(&claims("0123456789abcdef0123456g")).unwrap_err(), Status::BadRequest);
    assert_eq!(owner_id(&claims("0123456789abcdef012345é")).unwrap_err(), Status::BadRequest);
}

#[test]
fn owner_value_is_null_for_bad_subjects() {
    assert_eq!(describe(&owner_value(&claims("nope"))), "null");
    assert_eq!(describe(&owner_value(&claims(HEX))), id_text(hex_id()));
}

#[test]
fn session_claims_subject_is_lower_hex() {
    let c = session_claims(&hex_id(), 0).unwrap();
    assert_eq!(c.sub, HEX);
    assert_eq!(c.exp, 86400);
    let c = session_claims(&id(0xff), 1_700_000_000).unwrap();
    assert_eq!(c.sub, "ffffffffffffffffffffffff");
    assert_eq!(c.exp, 1_700_086_400);
}

#[test]
fn session_subject_names_user_back() {
    let user = ObjectId { bytes: [0, 1, 2, 3, 4, 5, 6, 7, 8, 9, 10, 255] };
    let c = session_claims(&user, 1).unwrap();
    assert_eq!(c.sub, "000102030405060708090aff");
    assert_eq!(owner_id(&c).unwrap().bytes, user.bytes);
}

#[test]
fn session_claims_out_of_range() {
    assert!(session_claims(&id(1), i64::MAX).is_none());
    assert!(session_claims(&id(1), i64::MAX - 86400).is_none());
}

#[test]
fn session_claims_at_chrono_range_edges() {
    let last = 8_210_266_876_799i64 - 86_400;
    assert_eq!(session_claims(&id(1), last).unwrap().exp, 8_210_266_876_799usize);
    assert!(session_claims(&id(1), last + 1).is_none());
    let first = -8_334_601_228_800i64;
    assert!(session_claims(&id(1), first).is_some());
    assert!(session_claims(&id(1), first - 1).is_none());
}

#[test]
fn create_account_builds_user_with_hash() {
    let payload = NewUser {
        id: Some(id(9)),
        email: "a@b.c".to_string(),
        first_name: "Ada".to_string(),
        last_name: "Lovelace".to_string(),
        password: "secret".to_string(),
    };
    match create_account_request(payload, b"pep").unwrap() {
        DbRequest::InsertUser(u) => {
            assert_eq!(u.email, "a@b.c");
            assert_eq!(u.first_name, "Ada");
            assert_eq!(u.last_name, "Lovelace");
            assert!(u.password_hash.starts_with("$argon2id$v=19$m=19456,t=2,p=1$"));
            assert!(verify_hash(&u.password_hash, "secret", b"pep"));
        }
        other => panic!("unexpected request {:?}", other),
    }
}

#[test]
fn write_reply_maps_outcomes() {
    assert_eq!(write_reply(Ok(()), Status::Success), Ok(Status::Success));
    assert_eq!(write_reply(Ok(()), Status::Created), Ok(Status::Created));
    assert_eq!(write_reply(Err(()), Status::Created), Err(Status::InternalServerError));
}

#[test]
fn login_request_finds_by_email() {
    let q = LoginQuery { email: "x@y.z".to_string(), password: "p".to_string() };
    match login_request(&q) {
        DbRequest::FindOne { collection, filter } => {
            assert_eq!(collection, Collection::Users);
            assert_eq!(entries(&filter), vec![(Field::Email, "text:x@y.z".to_string())]);
        }
        other => panic!("unexpected request {:?}", other),
    }
}

#[test]
fn login_decision_cases() {
    assert_eq!(login_decision(Err(()), "p", b"k").map(|r| r.map(|i| i.bytes)), Some(Err(Status::InternalServerError)));
    assert_eq!(login_decision(Ok(None), "p", b"k").map(|r| r.map(|i| i.bytes)), Some(Err(Status::NotFound)));
    let hash = hash_pass("right", b"k").unwrap();
    let user = |h: &str| User {
        id: id(3),
        email: "e".to_string(),
        first_name: "f".to_string(),
        last_name: "l".to_string(),
        password_hash: h.to_string(),
    };
    assert_eq!(login_decision(Ok(Some(user(&hash))), "right", b"k").map(|r| r.map(|i| i.bytes)), Some(Ok([3; 12])));
    assert_eq!(login_decision(Ok(Some(user(&hash))), "wrong", b"k").map(|r| r.map(|i| i.bytes)), Some(Err(Status::Unauthorized)));
    assert_eq!(login_decision(Ok(Some(user("garbage"))), "right", b"k").map(|r| r.map(|i| i.bytes)), Some(Err(Status::Unauthorized)));
}

#[test]
fn login_reply_wraps_token() {
    assert_eq!(login_reply(Ok("tok".to_string())).unwrap().token, "tok");
    assert_eq!(login_reply(Err(())).unwrap_err(), Status::InternalServerError);
}

#[test]
fn delete_user_request_and_reply() {
    match delete_user_request(&claims(HEX)).unwrap() {
        DbRequest::DeleteOne { collection, filter } => {
            assert_eq!(collection, Collection::Users);
            assert_eq!(entries(&filter), vec![(Field::Id, id_text(hex_id()))]);
        }
        other => panic!("unexpected request {:?}", other),
    }
    assert_eq!(delete_user_request(&claims("bad")).unwrap_err(), Status::BadRequest);
    assert_eq!(delete_user_reply(Ok(1)), Ok(Status::Success));
    assert_eq!(delete_user_reply(Ok(0)), Err(Status::NotFound));
    assert_eq!(delete_user_reply(Err(())), Err(Status::InternalServerError));
}

#[test]
fn create_list_sets_owner_and_fresh_id() {
    let payload = TodoList { id: None, title: "groceries".to_string(), owner_id: Some(id(7)) };
    match create_list_request(&claims(HEX), payload).unwrap() {
        DbRequest::InsertList(l) => {
            assert!(l.id.is_some());
            assert_eq!(l.title, "groceries");
            assert_eq!(l.owner_id.unwrap().bytes, hex_id().bytes);
        }
        other => panic!("unexpected request {:?}", other),
    }
    let payload = TodoList { id: None, title: "t".to_string(), owner_id: None };
    assert_eq!(create_list_request(&claims("bad"), payload).unwrap_err(), Status::BadRequest);
}

#[test]
fn create_todo_keeps_body_fields() {
    let payload = TodoItem {
        id: Some(id(1)),
        title: "milk".to_string(),
        description: "2 litres".to_string(),
        completed: true,
        owner_id: Some(id(2)),
        list_id: Some(id(5)),
    };
    match create_todo_request(&claims(HEX), payload).unwrap() {
        DbRequest::InsertTodo(t) => {
            assert!(t.id.is_some());
            assert_eq!(t.title, "milk");
            assert_eq!(t.description, "2 litres");
            assert!(t.completed);
            assert_eq!(t.list_id.unwrap().bytes, [5; 12]);
            assert_eq!(t.owner_id.unwrap().bytes, hex_id().bytes);
        }
        other => panic!("unexpected request {:?}", other),
    }
}

#[test]
fn get_lists_filters_by_owner() {
    match get_lists_request(&claims(HEX)) {
        DbRequest::Find { collection, filter } => {
            assert_eq!(collection, Collection::TodoLists);
            assert_eq!(entries(&filter), vec![(Field::OwnerId, id_text(hex_id()))]);
        }
        other => panic!("unexpected request {:?}", other),
    }
    match get_lists_request(&claims("xyz")) {
        DbRequest::Find { filter, .. } => {
            assert_eq!(entries(&filter), vec![(Field::OwnerId, "null".to_string())]);
        }
        other => panic!("unexpected request {:?}", other),
    }
    assert_eq!(get_lists_reply(Ok(vec![])).map(|v| v.len()), Some(0));
    assert!(get_lists_reply(Err(())).is_none());
}

#[test]
fn get_todos_filters_by_owner_and_list() {
    let q = TodoQuery { list: Some(id(4)), id: None };
    match get_todos_request(&claims(HEX), &q) {
        DbRequest::Find { collection, filter } => {
            assert_eq!(collection, Collection::Todos);
            assert_eq!(
                entries(&filter),
                vec![(Field::OwnerId, id_text(hex_id())), (Field::ListId, id_text(id(4)))]
            );
        }
        other => panic!("unexpected request {:?}", other),
    }
    let q = TodoQuery { list: None, id: None };
    match get_todos_request(&claims(HEX), &q) {
        DbRequest::Find { filter, .. } => {
            assert_eq!(entries(&filter)[1], (Field::ListId, "null".to_string()));
        }
        other => panic!("unexpected request {:?}", other),
    }
}

#[test]
fn update_list_sets_title() {
    let payload = TodoList { id: Some(id(8)), title: "renamed".to_string(), owner_id: None };
    match update_list_request(&claims(HEX), payload) {
        DbRequest::UpdateOne { collection, filter, set } => {
            assert_eq!(collection, Collection::TodoLists);
            assert_eq!(entries(&filter), vec![(Field::Id, id_text(id(8))), (Field::OwnerId, id_text(hex_id()))]);
            assert_eq!(entries(&set), vec![(Field::Title, "text:renamed".to_string())]);
        }
        other => panic!("unexpected request {:?}", other),
    }
}

#[test]
fn update_todo_sets_three_fields() {
    let payload = TodoItem {
        id: None,
        title: "a".to_string(),
        description: "b".to_string(),
        completed: false,
        owner_id: None,
        list_id: None,
    };
    match update_todo_request(&claims("bad"), payload) {
        DbRequest::UpdateOne { collection, filter, set } => {
            assert_eq!(collection, Collection::Todos);
            assert_eq!(entries(&filter), vec![(Field::Id, "null".to_string()), (Field::OwnerId, "null".to_string())]);
            assert_eq!(
                entries(&set),
                vec![
                    (Field::Title, "text:a".to_string()),
                    (Field::Description, "text:b".to_string()),
                    (Field::Completed, "flag:false".to_string()),
                ]
            );
        }
        other => panic!("unexpected request {:?}", other),
    }
}

#[test]
fn remove_list_steps() {
    let opts = ListQuery { id: id(6) };
    match remove_list_request(&claims(HEX), &opts) {
        DbRequest::DeleteOne { collection, filter } => {
            assert_eq!(collection, Collection::TodoLists);
            assert_eq!(entries(&filter), vec![(Field::Id, id_text(id(6))), (Field::OwnerId, id_text(hex_id()))]);
        }
        other => panic!("unexpected request {:?}", other),
    }
    match remove_list_after_delete(Ok(1), &opts) {
        Step::Query(DbRequest::DeleteMany { collection, filter }) => {
            assert_eq!(collection, Collection::Todos);
            assert_eq!(entries(&filter), vec![(Field::OwnerId, id_text(id(6)))]);
        }
        other => panic!("unexpected step {:?}", other),
    }
    match remove_list_after_delete(Ok(0), &opts) {
        Step::Reply(r) => assert_eq!(r, Ok(Status::NotFound)),
        other => panic!("unexpected step {:?}", other),
    }
    match remove_list_after_delete(Err(()), &opts) {
        Step::Reply(r) => assert_eq!(r, Err(Status::InternalServerError)),
        other => panic!("unexpected step {:?}", other),
    }
}

#[test]
fn remove_todo_request_and_reply() {
    let opts = TodoQuery { list: Some(id(1)), id: Some(id(2)) };
    match remove_todo_request(&claims(HEX), &opts) {
        DbRequest::DeleteOne { collection, filter } => {
            assert_eq!(collection, Collection::Todos);
            assert_eq!(entries(&filter), vec![(Field::Id, id_text(id(2))), (Field::OwnerId, id_text(hex_id()))]);
        }
        other => panic!("unexpected request {:?}", other),
    }
    assert_eq!(remove_todo_reply(Ok(3)), Ok(Status::Success));
    assert_eq!(remove_todo_reply(Ok(0)), Ok(Status::NotFound));
    assert_eq!(remove_todo_reply(Err(())), Err(Status::InternalServerError));
}

#[test]
fn parsed_subject_prints_in_lower_case() {
    let upper = "ABCDEF0123456789abcdefAB";
    let id = owner_id(&claims(upper)).unwrap();
    assert_eq!(session_claims(&id, 0).unwrap().sub, "abcdef0123456789abcdefab");
}
