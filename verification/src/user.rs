//! The user, the one resource of the service, and its JSON forms: the body
//! of a request that creates or replaces one, and the body of an answer
//! that shows one or several.

use crate::json::{document_members, quote, quoted, read_document, text_member};
use crate::number::{decimal, render_i32};
use crate::reply::Failure;
use crate::request::{body_of, get_body};
use vstd::pervasive::unreached;
use vstd::prelude::*;
use vstd::string::*;

verus! {

/// A user. The store assigns the identifier: a user that has not been
/// stored yet has none, a user that the store hands out has one. The name
/// and the email are texts that are not empty.
#[derive(Clone, Debug, PartialEq, Eq)]
pub struct User {
    pub id: Option<i32>,
    pub name: String,
    pub email: String,
}

/// A user with its texts as plain sequences of characters.
pub struct UserView {
    pub id: Option<int>,
    pub name: Seq<char>,
    pub email: Seq<char>,
}

impl View for User {
    type V = UserView;

    open spec fn view(&self) -> UserView {
        UserView {
            id: match self.id {
                Some(id) => Some(id as int),
                None => None,
            },
            name: self.name@,
            email: self.email@,
        }
    }
}

impl UserView {
    /// Whether the name and the email are not empty.
    pub open spec fn wf(self) -> bool {
        self.name.len() > 0 && self.email.len() > 0
    }
}

/// The member of `members` under `key`, if there is one.
pub open spec fn member(members: Map<Seq<char>, Seq<char>>, key: Seq<char>) -> Option<Seq<char>> {
    if members.contains_key(key) {
        Some(members[key])
    } else {
        None
    }
}

/// The user that a name and an email make, where both are there and
/// neither is empty. It has no identifier yet.
pub open spec fn user_from(name: Option<Seq<char>>, email: Option<Seq<char>>) -> Option<UserView> {
    match (name, email) {
        (Some(name), Some(email)) => if name.len() > 0 && email.len() > 0 {
            Some(UserView { id: None, name, email })
        } else {
            None
        },
        _ => None,
    }
}

/// The user that a body describes: the body is a JSON document with a
/// string member `name` and a string member `email`, neither of them
/// empty. Whatever else it holds, an `id` too, is passed over. A body that
/// gives `name` or `email` more than once is not refused: the member that
/// comes last counts. `None` for any other body.
pub open spec fn decoded_user(body: Seq<char>) -> Option<UserView> {
    match document_members(body) {
        Some(members) => user_from(member(members, "name"@), member(members, "email"@)),
        None => None,
    }
}

/// The JSON form of an identifier: the number in decimal, `null` for none.
pub open spec fn id_json(id: Option<int>) -> Seq<char> {
    match id {
        Some(id) => decimal(id),
        None => "null"@,
    }
}

/// The JSON object for a user, given its name and its email as JSON
/// strings: the members `id`, `name` and `email`, in this order and
/// without white space.
pub open spec fn user_object(id: Option<int>, name: Seq<char>, email: Seq<char>) -> Seq<char> {
    "{\"id\":"@ + id_json(id) + ",\"name\":"@ + name + ",\"email\":"@ + email + "}"@
}

/// The JSON form of a user: always with all three members.
pub open spec fn user_json(user: UserView) -> Seq<char> {
    user_object(user.id, quoted(user.name), quoted(user.email))
}

/// `items` one after another, with a comma between each two.
pub open spec fn joined(items: Seq<Seq<char>>) -> Seq<char>
    decreases items.len(),
{
    if items.len() == 0 {
        Seq::empty()
    } else if items.len() == 1 {
        items[0]
    } else {
        joined(items.drop_last()) + ","@ + items.last()
    }
}

/// The JSON array of `items`, each of them a JSON text.
pub open spec fn array_json(items: Seq<Seq<char>>) -> Seq<char> {
    "["@ + joined(items) + "]"@
}

/// Makes a user of a name and an email, where both are there and neither
/// is empty.
pub fn user_from_members(name: Option<String>, email: Option<String>) -> (r: Result<User, Failure>)
    ensures
        match r {
            Ok(user) => user_from(text_of(name), text_of(email)) == Some(user@) && user@.wf()
                && user@.id is None,
            Err(failure) => failure == Failure::Parse && user_from(text_of(name), text_of(email))
                is None,
        },
{
    match (name, email) {
        (Some(name), Some(email)) => {
            if name.as_str().is_empty() || email.as_str().is_empty() {
                Err(Failure::Parse)
            } else {
                Ok(User { id: None, name, email })
            }
        },
        _ => Err(Failure::Parse),
    }
}

/// What an optional text holds, as a plain sequence of characters.
pub open spec fn text_of(text: Option<String>) -> Option<Seq<char>> {
    match text {
        Some(text) => Some(text@),
        None => None,
    }
}

/// Reads the user that a body describes: see [`decoded_user`].
pub fn decode_user(body: &str) -> (r: Result<User, Failure>)
    ensures
        match r {
            Ok(user) => decoded_user(body@) == Some(user@) && user@.wf() && user@.id is None,
            Err(failure) => failure == Failure::Parse && decoded_user(body@) is None,
        },
{
    match read_document(body) {
        Ok(value) => {
            let name = text_member(&value, "name");
            let email = text_member(&value, "email");
            user_from_members(name, email)
        },
        Err(_) => Err(Failure::Parse),
    }
}

/// Reads the user that the body of a request describes.
pub fn get_user_req_body(req: &str) -> (r: Result<User, Failure>)
    ensures
        match r {
            Ok(user) => decoded_user(body_of(req@)) == Some(user@) && user@.wf() && user@.id
                is None,
            Err(failure) => failure == Failure::Parse && decoded_user(body_of(req@)) is None,
        },
{
    decode_user(get_body(req))
}

/// Writes the JSON object for a user, given its name and its email as JSON
/// strings.
pub fn write_user_object(id: Option<i32>, name: &str, email: &str) -> (out: String)
    ensures
        out@ == user_object(
            match id {
                Some(id) => Some(id as int),
                None => None,
            },
            name@,
            email@,
        ),
{
    let mut out = "{\"id\":".to_owned();
    match id {
        Some(id) => {
            let digits = render_i32(id);
            out.append(digits.as_str());
        },
        None => {
            out.append("null");
        },
    }
    out.append(",\"name\":");
    out.append(name);
    out.append(",\"email\":");
    out.append(email);
    out.append("}");
    out
}

/// Writes a text as a JSON string.
fn quote_text(text: &str) -> (out: String)
    ensures
        out@ == quoted(text@),
{
    match quote(text) {
        Ok(written) => written,
        Err(_) => unreached(),
    }
}

/// Writes a user as JSON: see [`user_json`].
pub fn encode_user(id: Option<i32>, name: &str, email: &str) -> (out: String)
    ensures
        out@ == user_json(
            UserView {
                id: match id {
                    Some(id) => Some(id as int),
                    None => None,
                },
                name: name@,
                email: email@,
            },
        ),
{
    let name_json = quote_text(name);
    let email_json = quote_text(email);
    write_user_object(id, name_json.as_str(), email_json.as_str())
}

impl User {
    /// Writes this user as JSON: see [`user_json`].
    pub fn to_json(&self) -> (out: String)
        ensures
            out@ == user_json(self@),
    {
        encode_user(self.id, self.name.as_str(), self.email.as_str())
    }
}

/// Writes the JSON array of `items`, each of them a JSON text.
pub fn write_array(items: &Vec<String>) -> (out: String)
    ensures
        out@ == array_json(items@.map_values(|item: String| item@)),
{
    let ghost texts = items@.map_values(|item: String| item@);
    let mut out = "[".to_owned();
    let mut i: usize = 0;
    while i < items.len()
        invariant
            i <= items.len(),
            texts == items@.map_values(|item: String| item@),
            out@ == "["@ + joined(texts.take(i as int)),
        decreases items.len() - i,
    {
        if i > 0 {
            out.append(",");
        }
        out.append(items[i].as_str());
        proof {
            let before = texts.take(i as int);
            let now = texts.take(i + 1);
            assert(now.drop_last() =~= before);
            assert(now.last() == items@[i as int]@);
            assert(out@ =~= "["@ + joined(now));
        }
        i = i + 1;
    }
    assert(texts.take(items.len() as int) =~= texts);
    out.append("]");
    out
}

} // verus!
