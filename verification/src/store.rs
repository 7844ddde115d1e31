//! The requests the service makes of its document store.

use vstd::prelude::*;
use crate::model::{TodoItem, TodoList, User};
use crate::object_id::ObjectId;

verus! {

/// The collections of the store.
#[derive(Clone, Copy, Debug, PartialEq, Eq, Structural)]
pub enum Collection {
    Users,
    TodoLists,
    Todos,
}

impl Collection {
    /// The collection's name in the store.
    pub open spec fn name_of(self) -> Seq<char> {
        match self {
            Collection::Users => seq!['u', 's', 'e', 'r', 's'],
            Collection::TodoLists => seq!['t', 'o', 'd', 'o', '_', 'l', 'i', 's', 't', 's'],
            Collection::Todos => seq!['t', 'o', 'd', 'o', 's'],
        }
    }

    /// The collection's name in the store.
    pub fn name(&self) -> (s: &'static str)
        ensures
            s@ == self.name_of(),
    {
        match self {
            Collection::Users => {
                proof {
                    reveal_strlit("users");
                }
                "users"
            },
            Collection::TodoLists => {
                proof {
                    reveal_strlit("todo_lists");
                }
                "todo_lists"
            },
            Collection::Todos => {
                proof {
                    reveal_strlit("todos");
                }
                "todos"
            },
        }
    }
}

/// The document fields that requests name.
#[derive(Clone, Copy, Debug, PartialEq, Eq, Structural)]
pub enum Field {
    Id,
    Email,
    OwnerId,
    ListId,
    Title,
    Description,
    Completed,
}

impl Field {
    /// The field's key in a stored document.
    pub open spec fn key_of(self) -> Seq<char> {
        match self {
            Field::Id => seq!['_', 'i', 'd'],
            Field::Email => seq!['e', 'm', 'a', 'i', 'l'],
            Field::OwnerId => seq!['o', 'w', 'n', 'e', 'r', '_', 'i', 'd'],
            Field::ListId => seq!['l', 'i', 's', 't', '_', 'i', 'd'],
            Field::Title => seq!['t', 'i', 't', 'l', 'e'],
            Field::Description => seq!['d', 'e', 's', 'c', 'r', 'i', 'p', 't', 'i', 'o', 'n'],
            Field::Completed => seq!['c', 'o', 'm', 'p', 'l', 'e', 't', 'e', 'd'],
        }
    }

    /// The field's key in a stored document.
    pub fn key(&self) -> (s: &'static str)
        ensures
            s@ == self.key_of(),
    {
        match self {
            Field::Id => {
                proof {
                    reveal_strlit("_id");
                }
                "_id"
            },
            Field::Email => {
                proof {
                    reveal_strlit("email");
                }
                "email"
            },
            Field::OwnerId => {
                proof {
                    reveal_strlit("owner_id");
                }
                "owner_id"
            },
            Field::ListId => {
                proof {
                    reveal_strlit("list_id");
                }
                "list_id"
            },
            Field::Title => {
                proof {
                    reveal_strlit("title");
                }
                "title"
            },
            Field::Description => {
                proof {
                    reveal_strlit("description");
                }
                "description"
            },
            Field::Completed => {
                proof {
                    reveal_strlit("completed");
                }
                "completed"
            },
        }
    }
}

/// A value that a request matches a field against, or sets it to.
#[derive(Debug)]
pub enum FieldValue {
    Id(ObjectId),
    Null,
    Text(String),
    Flag(bool),
}

/// The value an optional id stands for in a document: the id, or null.
pub open spec fn optional_id(id: Option<ObjectId>) -> FieldValue {
    match id {
        Some(i) => FieldValue::Id(i),
        None => FieldValue::Null,
    }
}

/// The value an optional id stands for in a document: the id, or null.
pub fn id_or_null(id: Option<ObjectId>) -> (v: FieldValue)
    ensures
        v == optional_id(id),
{
    match id {
        Some(i) => FieldValue::Id(i),
        None => FieldValue::Null,
    }
}

/// An ordered list of field and value pairs: a filter, or the fields an update sets.
#[derive(Debug)]
pub struct Document {
    pub entries: Vec<(Field, FieldValue)>,
}

impl View for Document {
    type V = Seq<(Field, FieldValue)>;

    open spec fn view(&self) -> Seq<(Field, FieldValue)> {
        self.entries@
    }
}

/// One request to the store.
#[derive(Debug)]
pub enum DbRequest {
    /// Insert an account into the users.
    InsertUser(User),
    /// Insert a list into the lists.
    InsertList(TodoList),
    /// Insert an item into the items.
    InsertTodo(TodoItem),
    /// Fetch the first document that matches the filter.
    FindOne { collection: Collection, filter: Document },
    /// Fetch every document that matches the filter.
    Find { collection: Collection, filter: Document },
    /// Set fields of the first document that matches the filter.
    UpdateOne { collection: Collection, filter: Document, set: Document },
    /// Delete the first document that matches the filter.
    DeleteOne { collection: Collection, filter: Document },
    /// Delete every document that matches the filter.
    DeleteMany { collection: Collection, filter: Document },
}

impl DbRequest {
    /// The collection a request goes to.
    pub open spec fn collection_of(self) -> Collection {
        match self {
            DbRequest::InsertUser(_) => Collection::Users,
            DbRequest::InsertList(_) => Collection::TodoLists,
            DbRequest::InsertTodo(_) => Collection::Todos,
            DbRequest::FindOne { collection, .. } => collection,
            DbRequest::Find { collection, .. } => collection,
            DbRequest::UpdateOne { collection, .. } => collection,
            DbRequest::DeleteOne { collection, .. } => collection,
            DbRequest::DeleteMany { collection, .. } => collection,
        }
    }

    /// The collection a request goes to.
    pub fn collection(&self) -> (c: Collection)
        ensures
            c == self.collection_of(),
            self is InsertUser ==> c == Collection::Users,
            self is InsertList ==> c == Collection::TodoLists,
            self is InsertTodo ==> c == Collection::Todos,
            self matches DbRequest::FindOne { collection, .. } ==> c == collection,
            self matches DbRequest::Find { collection, .. } ==> c == collection,
            self matches DbRequest::UpdateOne { collection, .. } ==> c == collection,
            self matches DbRequest::DeleteOne { collection, .. } ==> c == collection,
            self matches DbRequest::DeleteMany { collection, .. } ==> c == collection,
    {
        match self {
            DbRequest::InsertUser(_) => Collection::Users,
            DbRequest::InsertList(_) => Collection::TodoLists,
            DbRequest::InsertTodo(_) => Collection::Todos,
            DbRequest::FindOne { collection, .. } => *collection,
            DbRequest::Find { collection, .. } => *collection,
            DbRequest::UpdateOne { collection, .. } => *collection,
            DbRequest::DeleteOne { collection, .. } => *collection,
            DbRequest::DeleteMany { collection, .. } => *collection,
        }
    }
}

impl DbRequest {
    /// The filter of a request; an insertion has none.
    pub open spec fn filter_of(self) -> Seq<(Field, FieldValue)> {
        match self {
            DbRequest::FindOne { filter, .. } => filter@,
            DbRequest::Find { filter, .. } => filter@,
            DbRequest::UpdateOne { filter, .. } => filter@,
            DbRequest::DeleteOne { filter, .. } => filter@,
            DbRequest::DeleteMany { filter, .. } => filter@,
            _ => Seq::empty(),
        }
    }
}

/// A request goes to the collection it names: a fetch, an update or a
/// deletion to its `collection` field, and an insertion of an account, a list
/// or an item to the users, the lists or the items.
pub proof fn lemma_request_goes_to_named_collection(r: DbRequest)
    ensures
        r is InsertUser ==> r.collection_of() == Collection::Users,
        r is InsertList ==> r.collection_of() == Collection::TodoLists,
        r is InsertTodo ==> r.collection_of() == Collection::Todos,
        r matches DbRequest::FindOne { collection, .. } ==> r.collection_of() == collection,
        r matches DbRequest::Find { collection, .. } ==> r.collection_of() == collection,
        r matches DbRequest::UpdateOne { collection, .. } ==> r.collection_of() == collection,
        r matches DbRequest::DeleteOne { collection, .. } ==> r.collection_of() == collection,
        r matches DbRequest::DeleteMany { collection, .. } ==> r.collection_of() == collection,
{
}

/// Whether `r` fetches the first document of `c` that matches `filter`.
pub open spec fn is_find_one(r: DbRequest, c: Collection, filter: Seq<(Field, FieldValue)>) -> bool {
    r matches DbRequest::FindOne { collection, filter: f } && collection == c && f@ == filter
}

/// Whether `r` fetches every document of `c` that matches `filter`.
pub open spec fn is_find(r: DbRequest, c: Collection, filter: Seq<(Field, FieldValue)>) -> bool {
    r matches DbRequest::Find { collection, filter: f } && collection == c && f@ == filter
}

/// Whether `r` sets the fields `set` of the first document of `c` that matches `filter`.
pub open spec fn is_update_one(
    r: DbRequest,
    c: Collection,
    filter: Seq<(Field, FieldValue)>,
    set: Seq<(Field, FieldValue)>,
) -> bool {
    r matches DbRequest::UpdateOne { collection, filter: f, set: s } && collection == c && f@
        == filter && s@ == set
}

/// Whether `r` deletes the first document of `c` that matches `filter`.
pub open spec fn is_delete_one(r: DbRequest, c: Collection, filter: Seq<(Field, FieldValue)>) -> bool {
    r matches DbRequest::DeleteOne { collection, filter: f } && collection == c && f@ == filter
}

/// Whether `r` deletes every document of `c` that matches `filter`.
pub open spec fn is_delete_many(r: DbRequest, c: Collection, filter: Seq<(Field, FieldValue)>) -> bool {
    r matches DbRequest::DeleteMany { collection, filter: f } && collection == c && f@ == filter
}

} // verus!
