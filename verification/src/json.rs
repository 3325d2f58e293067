//! JSON payloads, as far as the gateway reads them.

use vstd::prelude::*;
use vstd::string::*;
use crate::text::{same_text, text_of, texts_of};

verus! {

/// One member of a JSON object, by what the gateway reads of it.
#[derive(Debug)]
pub struct JsonField {
    /// The text, when the member is a JSON string.
    pub text: Option<String>,
    /// The number, when the member is an integer that fits `i64`.
    pub integer: Option<i64>,
    /// The member written out as compact JSON, when it can be written out.
    pub serialized: Option<String>,
}

/// The mathematical content of a [`JsonField`].
pub ghost struct FieldModel {
    pub text: Option<Seq<char>>,
    pub integer: Option<i64>,
    pub serialized: Option<Seq<char>>,
}

impl View for JsonField {
    type V = FieldModel;

    open spec fn view(&self) -> FieldModel {
        FieldModel {
            text: text_of(self.text),
            integer: self.integer,
            serialized: text_of(self.serialized),
        }
    }
}

/// The members of a JSON document's top-level object, by name. A document
/// that is no object has no members.
#[derive(Debug)]
pub struct Payload {
    pub members: Vec<(String, JsonField)>,
}

/// The members of a JSON object in their order, each with its name.
pub type Members = Seq<(Seq<char>, FieldModel)>;

impl View for Payload {
    type V = Members;

    open spec fn view(&self) -> Members {
        Seq::new(self.members@.len(), |i: int| (self.members@[i].0@, self.members@[i].1@))
    }
}

/// The first member called `name`, if there is one.
pub open spec fn member_of(members: Members, name: Seq<char>) -> Option<FieldModel>
    decreases members.len(),
{
    if members.len() == 0 {
        None
    } else if members[0].0 == name {
        Some(members[0].1)
    } else {
        member_of(members.drop_first(), name)
    }
}

/// Whether every member carries its JSON text.
pub open spec fn all_written(members: Members) -> bool {
    forall|i: int| 0 <= i < members.len() ==> (#[trigger] members[i]).1.serialized is Some
}

/// The members that `serde_json` reads from a text, or `None` where the text
/// is not JSON.
pub uninterp spec fn parsed_members(text: Seq<char>) -> Option<Members>;

/// The JSON array that `serde_json` writes for a list of texts.
pub uninterp spec fn messages_json(messages: Seq<Seq<char>>) -> Option<Seq<char>>;

/// `serde_json::from_str` to a `serde_json::Value`, whose top-level members
/// are then handed out one by one: `Value::as_str`, `Value::as_i64` and
/// `serde_json::to_string` give what is read of each. The outcome depends on
/// the text alone. Every member carries its JSON text: a value that was
/// read from JSON can be written as JSON.
#[verifier::external_body]
pub(crate) fn read_payload(text: &str) -> (read: Option<Payload>)
    ensures
        read matches Some(payload) ==> parsed_members(text@) == Some(payload@),
        read matches Some(payload) ==> all_written(payload@),
        read is None ==> parsed_members(text@) is None,
{
    let document: serde_json::Value = serde_json::from_str(text).ok()?;
    let members = document.as_object().into_iter().flatten().map(
        |(name, member)| (
            name.clone(),
            JsonField {
                text: member.as_str().map(|text| text.to_owned()),
                integer: member.as_i64(),
                serialized: serde_json::to_string(member).ok(),
            },
        ),
    ).collect();
    Some(Payload { members })
}

/// `serde_json::to_string` on a list of texts: the JSON array of the texts,
/// which depends on them alone. A list of texts can always be written.
#[verifier::external_body]
pub(crate) fn write_messages(messages: &Vec<String>) -> (written: Option<String>)
    ensures
        text_of(written) == messages_json(texts_of(messages@)),
        written is Some,
{
    serde_json::to_string(messages).ok()
}

impl Payload {
    /// The first member called `name`.
    pub fn get(&self, name: &str) -> (member: Option<&JsonField>)
        ensures
            match member {
                Some(field) => member_of(self@, name@) == Some(field@),
                None => member_of(self@, name@) is None,
            },
    {
        let mut i: usize = 0;
        assert(self@.skip(0) == self@);
        while i < self.members.len()
            invariant
                i <= self.members@.len(),
                member_of(self@, name@) == member_of(self@.skip(i as int), name@),
            decreases self.members@.len() - i,
        {
            let ghost rest = self@.skip(i as int);
            assert(rest[0] == self@[i as int]);
            assert(rest.drop_first() == self@.skip(i + 1));
            if same_text(self.members[i].0.as_str(), name) {
                return Some(&self.members[i].1);
            }
            i += 1;
        }
        None
    }
}

} // verus!
