//! The snapshot that keeps a list between runs.
//!
//! A snapshot is the pretty-printed JSON object `{"tasks": [...], "name":
//! "..."}`: the texts of the tasks in their order, then the owner's name.
//! Reading one asks for no more than that: an object whose member `tasks` is
//! an array of strings and whose member `name` is a string. Other members
//! are passed over.

use crate::api::{texts, ListView, ToDoList};
use crate::json::{
    find, json_parse, json_text, member, member_docs, parse_value, print_value, textual,
    value_doc, value_docs, value_from_list, value_from_members, value_from_text, value_items,
    value_member, value_text, JsonDoc,
};
use vstd::prelude::*;

verus! {

/// Why a text is no snapshot.
#[derive(Debug, Clone, Copy, PartialEq, Eq, Structural)]
pub enum FormatError {
    /// The text is no JSON document.
    NotJson,
    /// The document is no object with a member `tasks` that is an array of
    /// strings.
    Tasks,
    /// The document has no member `name` that is a string.
    Name,
}

/// The JSON strings with the given texts.
pub open spec fn strings(texts: Seq<Seq<char>>) -> Seq<JsonDoc> {
    texts.map_values(|text: Seq<char>| JsonDoc::Text(text))
}

/// Every document in the row is a JSON string.
pub open spec fn all_strings(items: Seq<JsonDoc>) -> bool {
    forall|i: int| 0 <= i < items.len() ==> (#[trigger] items[i]) is Text
}

/// The texts of a row of JSON strings.
pub open spec fn string_texts(items: Seq<JsonDoc>) -> Seq<Seq<char>> {
    items.map_values(|item: JsonDoc| item->Text_0)
}

/// The document that is written for a list.
pub open spec fn snapshot_doc(list: ListView) -> JsonDoc {
    JsonDoc::Record(
        seq![("tasks"@, JsonDoc::List(strings(list.tasks))), ("name"@, JsonDoc::Text(list.name))],
    )
}

/// The list that a document holds, or what it lacks. `tasks` is looked at
/// before `name`.
pub open spec fn list_in(doc: JsonDoc) -> Result<ListView, FormatError> {
    match member(doc, "tasks"@) {
        Some(JsonDoc::List(items)) => {
            if all_strings(items) {
                match member(doc, "name"@) {
                    Some(JsonDoc::Text(name)) => Ok(
                        ListView { tasks: string_texts(items), name },
                    ),
                    _ => Err(FormatError::Name),
                }
            } else {
                Err(FormatError::Tasks)
            }
        },
        _ => Err(FormatError::Tasks),
    }
}

/// The list that a text holds, or why it holds none.
pub open spec fn read_text(text: Seq<char>) -> Result<ListView, FormatError> {
    match json_parse(text) {
        Some(doc) => list_in(doc),
        None => Err(FormatError::NotJson),
    }
}

/// The snapshot of a list: the text written for its document, as long as
/// that text reads back as the same list.
pub open spec fn snapshot_text(list: ListView) -> Option<Seq<char>> {
    match json_text(snapshot_doc(list)) {
        Some(text) => {
            if read_text(text) == Ok::<ListView, FormatError>(list) {
                Some(text)
            } else {
                None
            }
        },
        None => None,
    }
}

/// The document written for a list holds that list, and is made of strings,
/// arrays and objects only.
pub proof fn lemma_snapshot_doc_holds_list(list: ListView)
    ensures
        list_in(snapshot_doc(list)) == Ok::<ListView, FormatError>(list),
        textual(snapshot_doc(list)),
{
    reveal_strlit("tasks");
    reveal_strlit("name");
    let tasks = JsonDoc::List(strings(list.tasks));
    let members = seq![("tasks"@, tasks), ("name"@, JsonDoc::Text(list.name))];
    assert("tasks"@.len() != "name"@.len());
    assert(members.drop_first().first() == ("name"@, JsonDoc::Text(list.name)));
    assert(find(members, "tasks"@) == Some(tasks));
    assert(find(members, "name"@) == Some(JsonDoc::Text(list.name))) by {
        reveal_with_fuel(find, 3);
    }
    assert(string_texts(strings(list.tasks)) =~= list.tasks);
    assert(textual(snapshot_doc(list))) by {
        reveal_with_fuel(textual, 3);
    }
}

fn same_texts(a: &Vec<String>, b: &Vec<String>) -> (same: bool)
    ensures
        same == (texts(a@) == texts(b@)),
{
    if a.len() != b.len() {
        assert(texts(a@).len() != texts(b@).len());
        return false;
    }
    let mut i: usize = 0;
    while i < a.len()
        invariant
            i <= a.len(),
            a.len() == b.len(),
            forall|j: int| 0 <= j < i ==> a@[j]@ == b@[j]@,
        decreases a.len() - i,
    {
        if a[i] != b[i] {
            assert(texts(a@)[i as int] != texts(b@)[i as int]);
            return false;
        }
        i += 1;
    }
    assert(texts(a@) =~= texts(b@));
    true
}

impl ToDoList<String> {
    /// The list as a JSON value: an object with the tasks, then the name.
    pub fn to_value(&self) -> (value: serde_json::Value)
        ensures
            value_doc(value) == snapshot_doc(self@),
    {
        let mut items: Vec<serde_json::Value> = Vec::new();
        let mut i: usize = 0;
        while i < self.tasks.len()
            invariant
                i <= self.tasks.len(),
                items@.len() == i,
                forall|j: int|
                    0 <= j < i ==> value_doc(#[trigger] items@[j]) == JsonDoc::Text(
                        self.tasks@[j]@,
                    ),
            decreases self.tasks.len() - i,
        {
            items.push(value_from_text(self.tasks[i].as_str()));
            i += 1;
        }
        assert(value_docs(items@) =~= strings(self@.tasks));
        let tasks = value_from_list(items);
        let name = value_from_text(self.name.as_str());
        let mut members: Vec<(String, serde_json::Value)> = Vec::new();
        members.push(("tasks".to_owned(), tasks));
        members.push(("name".to_owned(), name));
        proof {
            reveal_strlit("tasks");
            reveal_strlit("name");
            assert("tasks"@.len() != "name"@.len());
            assert(member_docs(members@) =~= seq![
                ("tasks"@, JsonDoc::List(strings(self@.tasks))),
                ("name"@, JsonDoc::Text(self@.name)),
            ]);
        }
        value_from_members(members)
    }

    /// The list that a JSON value holds, or what the value lacks.
    pub fn from_value(value: &serde_json::Value) -> (result: Result<ToDoList<String>, FormatError>)
        ensures
            match result {
                Ok(list) => list_in(value_doc(*value)) == Ok::<ListView, FormatError>(list@),
                Err(e) => list_in(value_doc(*value)) == Err::<ListView, FormatError>(e),
            },
    {
        let items = match value_member(value, "tasks") {
            Some(found) => match value_items(found) {
                Some(items) => items,
                None => {
                    return Err(FormatError::Tasks);
                },
            },
            None => {
                return Err(FormatError::Tasks);
            },
        };
        let mut tasks: Vec<String> = Vec::new();
        let mut i: usize = 0;
        while i < items.len()
            invariant
                i <= items.len(),
                tasks@.len() == i,
                member(value_doc(*value), "tasks"@) == Some(JsonDoc::List(value_docs(items@))),
                forall|j: int|
                    0 <= j < i ==> value_doc(#[trigger] items@[j]) == JsonDoc::Text(tasks@[j]@),
            decreases items.len() - i,
        {
            match value_text(&items[i]) {
                Some(text) => tasks.push(text.to_owned()),
                None => {
                    assert(!(value_docs(items@)[i as int] is Text));
                    return Err(FormatError::Tasks);
                },
            }
            i += 1;
        }
        assert(all_strings(value_docs(items@))) by {
            assert forall|j: int| 0 <= j < items@.len() implies (#[trigger] value_docs(
                items@,
            )[j]) is Text by {
                assert(value_doc(items@[j]) == JsonDoc::Text(tasks@[j]@));
            }
        }
        assert(string_texts(value_docs(items@)) =~= texts(tasks@));
        let name = match value_member(value, "name") {
            Some(found) => match value_text(found) {
                Some(text) => text.to_owned(),
                None => {
                    return Err(FormatError::Name);
                },
            },
            None => {
                return Err(FormatError::Name);
            },
        };
        Ok(ToDoList { tasks, name })
    }

    /// Reads a snapshot.
    pub fn deserialize(text: &str) -> (result: Result<ToDoList<String>, FormatError>)
        ensures
            match result {
                Ok(list) => read_text(text@) == Ok::<ListView, FormatError>(list@),
                Err(e) => read_text(text@) == Err::<ListView, FormatError>(e),
            },
    {
        match parse_value(text) {
            Ok(value) => ToDoList::from_value(&value),
            Err(_) => Err(FormatError::NotJson),
        }
    }

    /// Whether a text reads as this list: the same tasks in the same order,
    /// and the same name.
    pub fn is_snapshot(&self, text: &str) -> (same: bool)
        ensures
            same == (read_text(text@) == Ok::<ListView, FormatError>(self@)),
    {
        match ToDoList::deserialize(text) {
            Ok(read) => same_texts(&read.tasks, &self.tasks) && read.name == self.name,
            Err(_) => false,
        }
    }

    /// Writes the snapshot of the list. The text is read back before it is
    /// handed out, so whatever comes from here, `deserialize` turns into
    /// the same tasks and the same name. There is nothing where no text was
    /// written, or where the text did not read back as this list.
    pub fn serialize(&self) -> (result: Option<String>)
        ensures
            match result {
                Some(text) => snapshot_text(self@) == Some(text@),
                None => snapshot_text(self@) is None,
            },
    {
        let value = self.to_value();
        proof {
            lemma_snapshot_doc_holds_list(self@);
        }
        match print_value(&value) {
            Ok(text) => {
                if self.is_snapshot(text.as_str()) {
                    Some(text)
                } else {
                    None
                }
            },
            Err(_) => None,
        }
    }

    /// The list to start a run with: the one in the snapshot that the last
    /// run left, or, where none was left, an empty list for `owner`.
    pub fn restore(saved: Option<&str>, owner: String) -> (result: Result<
        ToDoList<String>,
        FormatError,
    >)
        ensures
            match saved {
                Some(text) => match result {
                    Ok(list) => read_text(text@) == Ok::<ListView, FormatError>(list@),
                    Err(e) => read_text(text@) == Err::<ListView, FormatError>(e),
                },
                None => result matches Ok(list) && list.tasks@.len() == 0 && list.name == owner,
            },
    {
        match saved {
            Some(text) => ToDoList::deserialize(text),
            None => Ok(ToDoList::new(owner)),
        }
    }
}

} // verus!
