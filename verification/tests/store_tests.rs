use todo_server::model::Status;
use todo_server::store::{id_or_null, Collection, DbRequest, Document, Field, FieldValue};
use todo_server::object_id::ObjectId;

#[test]
fn status_codes() {
    assert_eq!(Status::Success.code(), 200);
    assert_eq!(Status::Created.code(), 201);
    assert_eq!(Status::BadRequest.code(), 400);
    assert_eq!(Status::Unauthorized.code(), 401);
    assert_eq!(Status::NotFound.code(), 404);
    assert_eq!(Status::InternalServerError.code(), 500);
}

#[test]
fn collection_names() {
    assert_eq!(Collection::Users.name(), "users");
    assert_eq!(Collection::TodoLists.name(), "todo_lists");
    assert_eq!(Collection::Todos.name(), "todos");
}

#[test]
fn field_keys() {
    assert_eq!(Field::Id.key(), "_id");
    assert_eq!(Field::Email.key(), "email");
    assert_eq!(Field::OwnerId.key(), "owner_id");
    assert_eq!(Field::ListId.key(), "list_id");
    assert_eq!(Field::Title.key(), "title");
    assert_eq!(Field::Description.key(), "description");
    assert_eq!(Field::Completed.key(), "completed");
}

#[test]
fn request_collections() {
    let d = || Document { entries: vec![] };
    assert_eq!(DbRequest::Find { collection: Collection::Todos, filter: d() }.collection(), Collection::Todos);
    assert_eq!(
        DbRequest::DeleteMany { collection: Collection::TodoLists, filter: d() }.collection(),
        Collection::TodoLists
    );
}

#[test]
fn optional_ids_become_null() {
    assert!(matches!(id_or_null(None), FieldValue::Null));
    match id_or_null(Some(ObjectId { bytes: [1; 12] })) {
        FieldValue::Id(i) => assert_eq!(i.bytes, [1; 12]),
        other => panic!("unexpected value {:?}", other),
    }
}
