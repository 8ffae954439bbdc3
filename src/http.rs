use vstd::prelude::*;

use crate::app::{App, AppView};

verus! {

/// The methods that the executor tells apart.
#[derive(Debug, Clone, Copy, PartialEq, Eq, Structural)]
pub enum HttpMethod {
    Get,
    Post,
    Put,
    Delete,
}

/// The method that a method string names exactly, if it names one.
pub open spec fn recognized(name: Seq<char>) -> Option<HttpMethod> {
    if name == "GET"@ {
        Some(HttpMethod::Get)
    } else if name == "POST"@ {
        Some(HttpMethod::Post)
    } else if name == "PUT"@ {
        Some(HttpMethod::Put)
    } else if name == "DELETE"@ {
        Some(HttpMethod::Delete)
    } else {
        None
    }
}

/// The method a request is executed with: an unrecognized string falls back
/// to GET.
pub open spec fn effective(name: Seq<char>) -> HttpMethod {
    match recognized(name) {
        Some(m) => m,
        None => HttpMethod::Get,
    }
}

/// The text stored as a request's response for the executor's outcome: the
/// body on success, the error after an `Error: ` prefix on failure.
pub open spec fn outcome_text(outcome: Result<Seq<char>, Seq<char>>) -> Seq<char> {
    match outcome {
        Ok(body) => body,
        Err(e) => "Error: "@ + e,
    }
}

pub open spec fn outcome_view(outcome: Result<String, String>) -> Result<Seq<char>, Seq<char>> {
    match outcome {
        Ok(b) => Ok(b@),
        Err(e) => Err(e@),
    }
}

impl HttpMethod {
    /// The method that `name` spells exactly, or `None`.
    pub fn recognize(name: &str) -> (r: Option<HttpMethod>)
        ensures
            r == recognized(name@),
    {
        proof {
            reveal_strlit("GET");
            reveal_strlit("POST");
            reveal_strlit("PUT");
            reveal_strlit("DELETE");
        }
        let s = name.to_owned();
        if s == "GET".to_owned() {
            Some(HttpMethod::Get)
        } else if s == "POST".to_owned() {
            Some(HttpMethod::Post)
        } else if s == "PUT".to_owned() {
            Some(HttpMethod::Put)
        } else if s == "DELETE".to_owned() {
            Some(HttpMethod::Delete)
        } else {
            None
        }
    }

    /// The method to execute a request whose method string is `name` with.
    pub fn for_request(name: &str) -> (r: HttpMethod)
        ensures
            r == effective(name@),
    {
        match HttpMethod::recognize(name) {
            Some(m) => m,
            None => HttpMethod::Get,
        }
    }
}

/// The response text for an executor outcome.
pub fn describe_outcome(outcome: Result<String, String>) -> (r: String)
    ensures
        r@ == outcome_text(outcome_view(outcome)),
{
    match outcome {
        Ok(body) => body,
        Err(e) => {
            let mut r = "Error: ".to_owned();
            r.append(e.as_str());
            r
        },
    }
}

impl App {
    /// Stores the text of an executor outcome as the response of the request
    /// at `index`, replacing any earlier one; nothing else changes.
    pub fn record_response(&mut self, index: usize, outcome: Result<String, String>)
        requires
            old(self)@.wf(),
            index < old(self)@.requests.len(),
        ensures
            final(self)@ == old(self)@.responded(index as int, outcome_text(outcome_view(outcome))),
            final(self)@.wf(),
    {
        let ghost before: AppView = self@;
        let text = describe_outcome(outcome);
        self.requests[index].response = Some(text);
        assert(self@.requests =~= before.responded(index as int, outcome_text(outcome_view(outcome))).requests);
    }
}

} // verus!
