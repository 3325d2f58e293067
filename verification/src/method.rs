//! The HTTP methods that a mocking rule may match.

use vstd::prelude::*;
use vstd::string::*;
use crate::text::{same_text, to_uppercase, upper_text};

verus! {

/// A method for which the gateway looks up mocking rules. Every other method
/// is forwarded without a lookup.
#[derive(Clone, Copy, Debug, PartialEq, Eq, Structural)]
pub enum Method {
    Get,
    Head,
    Post,
    Put,
    Delete,
    Patch,
}

/// The request-line token of each interceptable method.
pub open spec fn method_name(method: Method) -> Seq<char> {
    match method {
        Method::Get => "GET"@,
        Method::Head => "HEAD"@,
        Method::Post => "POST"@,
        Method::Put => "PUT"@,
        Method::Delete => "DELETE"@,
        Method::Patch => "PATCH"@,
    }
}

/// The interceptable method that `token` names, if it names one. Tokens are
/// case-sensitive.
pub open spec fn method_of_token(token: Seq<char>) -> Option<Method> {
    if token == "GET"@ {
        Some(Method::Get)
    } else if token == "HEAD"@ {
        Some(Method::Head)
    } else if token == "POST"@ {
        Some(Method::Post)
    } else if token == "PUT"@ {
        Some(Method::Put)
    } else if token == "DELETE"@ {
        Some(Method::Delete)
    } else if token == "PATCH"@ {
        Some(Method::Patch)
    } else {
        None
    }
}

/// `hyper::Method::from_str`, followed by `hyper::Method::as_str` on the
/// method it gives. A token that hyper takes as a method is handed back
/// letter for letter, and hyper takes each of the six interceptable tokens.
#[verifier::external_body]
fn method_token(token: &str) -> (taken: Option<String>)
    ensures
        taken matches Some(text) ==> text@ == token@,
        method_of_token(token@) is Some ==> taken is Some,
{
    <hyper::Method as std::str::FromStr>::from_str(token).ok().map(|m| m.as_str().to_owned())
}

/// The token of each method is told apart from the others, and names its
/// own method.
pub proof fn lemma_method_names(method: Method)
    ensures
        method_of_token(method_name(method)) == Some(method),
{
    reveal_strlit("GET");
    reveal_strlit("HEAD");
    reveal_strlit("POST");
    reveal_strlit("PUT");
    reveal_strlit("DELETE");
    reveal_strlit("PATCH");
    assert("HEAD"@[0] == 'H' && "POST"@[0] == 'P' && "POST"@[1] == 'O' && "PUT"@[1] == 'U');
    assert("GET"@.len() == 3 && "HEAD"@.len() == 4 && "DELETE"@.len() == 6 && "PATCH"@.len() == 5);
}

impl Method {
    /// The request-line token of this method.
    pub fn as_str(&self) -> (name: &'static str)
        ensures
            name@ == method_name(*self),
    {
        match self {
            Method::Get => "GET",
            Method::Head => "HEAD",
            Method::Post => "POST",
            Method::Put => "PUT",
            Method::Delete => "DELETE",
            Method::Patch => "PATCH",
        }
    }

    /// The interceptable method that a request-line token names. The token is
    /// first put to hyper, which refuses what is no method token at all.
    pub fn from_token(token: &str) -> (method: Option<Method>)
        ensures
            method == method_of_token(token@),
    {
        match method_token(token) {
            None => None,
            Some(text) => {
                let text = text.as_str();
                if same_text(text, "GET") {
                    Some(Method::Get)
                } else if same_text(text, "HEAD") {
                    Some(Method::Head)
                } else if same_text(text, "POST") {
                    Some(Method::Post)
                } else if same_text(text, "PUT") {
                    Some(Method::Put)
                } else if same_text(text, "DELETE") {
                    Some(Method::Delete)
                } else if same_text(text, "PATCH") {
                    Some(Method::Patch)
                } else {
                    None
                }
            },
        }
    }

    /// The interceptable method that `name` names in any letter case.
    pub fn from_name(name: &str) -> (method: Option<Method>)
        ensures
            method == method_of_token(upper_text(name@)),
    {
        let name = to_uppercase(name);
        Method::from_token(name.as_str())
    }
}

} // verus!
