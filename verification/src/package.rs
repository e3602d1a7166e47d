//! The identity of a candidate package, as the hook sees it: the JSON text
//! that the request carries.
use vstd::prelude::*;
use crate::wire::{framed, is_single_line, single_line};

verus! {

/// A JSON value of the `serde_json` crate.  The library hands it to the
/// serialiser and reads nothing in it.
#[verifier::external_type_specification]
#[verifier::external_body]
pub struct ExJsonValue(serde_json::Value);

/// The error of the `serde_json` crate.
#[verifier::external_type_specification]
#[verifier::external_body]
pub struct ExJsonError(serde_json::Error);

/// The JSON text that `serde_json::to_string` writes for `value`, or
/// `None` where it fails.
pub uninterp spec fn json_text(value: serde_json::Value) -> Option<Seq<char>>;

/// `serde_json::to_string` on a JSON value: the text is a function of the
/// value alone (an object is walked in the order of its keys).  Nothing is
/// claimed of what the text holds.
#[verifier::external_body]
fn json_to_string(value: &serde_json::Value) -> (r: Result<String, serde_json::Error>)
    ensures
        match r {
            Ok(text) => json_text(*value) == Some(text@),
            Err(_) => json_text(*value) is None,
        },
{
    serde_json::to_string(value)
}

/// The JSON text of a package identity.  The wire protocol is delimited by
/// line feeds, so the text holds none.
#[derive(Debug, PartialEq, Eq)]
pub struct PackageId {
    json: String,
}

impl View for PackageId {
    type V = Seq<char>;

    closed spec fn view(&self) -> Seq<char> {
        self.json@
    }
}

impl PackageId {
    /// The text holds no line feed.
    #[verifier::type_invariant]
    pub closed spec fn wf(self) -> bool {
        single_line(self.json@)
    }

    /// Takes the JSON text of an identity.  A text with a line feed in it
    /// is no identity.
    pub fn from_json(json: String) -> (r: Option<PackageId>)
        ensures
            match r {
                Some(id) => single_line(json@) && id@ == json@ && id.wf(),
                None => !single_line(json@),
            },
    {
        if is_single_line(json.as_str()) {
            Some(PackageId { json })
        } else {
            None
        }
    }

    /// Serialises an identity that is at hand as a JSON value.  There is no
    /// identity where the value cannot be written, or where the text has a
    /// line feed in it.
    pub fn from_value(value: &serde_json::Value) -> (r: Option<PackageId>)
        ensures
            match r {
                Some(id) => json_text(*value) == Some(id@) && single_line(id@) && id.wf(),
                None => !(json_text(*value) matches Some(text) && single_line(text)),
            },
    {
        match json_to_string(value) {
            Ok(text) => PackageId::from_json(text),
            Err(_) => None,
        }
    }

    /// The JSON text.
    pub fn as_json(&self) -> (json: &str)
        ensures
            json@ == self@,
            single_line(json@),
    {
        proof {
            use_type_invariant(self);
        }
        self.json.as_str()
    }

    /// The request that carries this identity: the JSON text and a line
    /// feed.  The line feed that ends the request is the only one in it.
    pub fn request_line(&self) -> (line: String)
        ensures
            line@ == framed(self@),
            single_line(self@),
            one_line(line@),
    {
        proof {
            use_type_invariant(self);
            reveal_strlit("\n");
            assert("\n"@ =~= seq!['\n']);
            assert(self.json@ + seq!['\n'] =~= framed(self.json@));
        }
        let mut line = self.json.clone();
        line.append("\n");
        line
    }
}

/// A text that ends in a line feed and holds no other.
pub open spec fn one_line(s: Seq<char>) -> bool {
    &&& s.len() > 0
    &&& s.last() == '\n'
    &&& single_line(s.drop_last())
}

/// Framing a JSON text that holds no line feed gives exactly one line:
/// serialising an identity puts no line feed inside the request.
pub proof fn law_request_is_one_line(id: PackageId)
    requires
        id.wf(),
    ensures
        single_line(id@),
        one_line(framed(id@)),
        forall|i: int| 0 <= i < id@.len() ==> framed(id@)[i] != '\n',
{
    assert(framed(id@).drop_last() =~= id@);
}

} // verus!
