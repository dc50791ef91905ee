//! Single requests: the method, what is sent, and how the reply is shown.

use vstd::prelude::*;
use vstd::string::StringExecFns;

verus! {

/// The method of a request.
#[derive(Clone, Copy, Debug, PartialEq, Eq, Structural)]
pub enum RequestType {
    GET,
    POST,
    PUT,
    PATCH,
    DELETE,
}

/// The method that a name stands for. Names are matched letter for letter.
pub open spec fn method_named(name: Seq<char>) -> Option<RequestType> {
    if name == "GET"@ {
        Some(RequestType::GET)
    } else if name == "POST"@ {
        Some(RequestType::POST)
    } else if name == "PUT"@ {
        Some(RequestType::PUT)
    } else if name == "PATCH"@ {
        Some(RequestType::PATCH)
    } else if name == "DELETE"@ {
        Some(RequestType::DELETE)
    } else {
        None
    }
}

/// Every name of a method stands for that method.
pub proof fn lemma_method_names_round_trip(method: RequestType)
    ensures
        method_named(method.label()) == Some(method),
{
    reveal_strlit("GET");
    reveal_strlit("POST");
    reveal_strlit("PUT");
    reveal_strlit("PATCH");
    reveal_strlit("DELETE");
    assert("GET"@.len() == 3 && "PUT"@.len() == 3 && "POST"@.len() == 4 && "PATCH"@.len() == 5
        && "DELETE"@.len() == 6);
    assert("GET"@[0] == 'G' && "PUT"@[0] == 'P' && "POST"@[1] == 'O' && "PATCH"@[1] == 'A');
}

/// Whether two texts are the same.
pub fn same_text(a: &str, b: &str) -> (same: bool)
    ensures
        same == (a@ == b@),
{
    String::from_str(a) == String::from_str(b)
}

impl RequestType {
    /// The name of the method.
    pub open spec fn label(self) -> Seq<char> {
        match self {
            RequestType::GET => "GET"@,
            RequestType::POST => "POST"@,
            RequestType::PUT => "PUT"@,
            RequestType::PATCH => "PATCH"@,
            RequestType::DELETE => "DELETE"@,
        }
    }

    /// The name of the method.
    pub fn name(self) -> (name: &'static str)
        ensures
            name@ == self.label(),
    {
        match self {
            RequestType::GET => "GET",
            RequestType::POST => "POST",
            RequestType::PUT => "PUT",
            RequestType::PATCH => "PATCH",
            RequestType::DELETE => "DELETE",
        }
    }

    /// The method that `name` stands for, if it is the name of one.
    pub fn from_name(name: &str) -> (method: Option<RequestType>)
        ensures
            method == method_named(name@),
    {
        if same_text(name, "GET") {
            Some(RequestType::GET)
        } else if same_text(name, "POST") {
            Some(RequestType::POST)
        } else if same_text(name, "PUT") {
            Some(RequestType::PUT)
        } else if same_text(name, "PATCH") {
            Some(RequestType::PATCH)
        } else if same_text(name, "DELETE") {
            Some(RequestType::DELETE)
        } else {
            None
        }
    }

    /// The names of all methods, in the order in which they are offered.
    pub fn names() -> (names: Vec<String>)
        ensures
            names@.len() == 5,
            names@[0]@ == RequestType::GET.label(),
            names@[1]@ == RequestType::POST.label(),
            names@[2]@ == RequestType::PUT.label(),
            names@[3]@ == RequestType::PATCH.label(),
            names@[4]@ == RequestType::DELETE.label(),
    {
        let mut names: Vec<String> = Vec::new();
        names.push(String::from_str(RequestType::GET.name()));
        names.push(String::from_str(RequestType::POST.name()));
        names.push(String::from_str(RequestType::PUT.name()));
        names.push(String::from_str(RequestType::PATCH.name()));
        names.push(String::from_str(RequestType::DELETE.name()));
        names
    }
}

/// How a single request ended.
pub enum RequestReply {
    /// A response with a status code in the success range, and its body.
    Accepted { body: String },
    /// A response with any other status, given as it is displayed, and
    /// its body where it could be read.
    Rejected { status: String, detail: Option<String> },
    /// No response; the fault as it is displayed.
    Failed { error: String },
}

/// The text shown for a reply.
pub open spec fn reply_text(reply: RequestReply) -> Seq<char> {
    match reply {
        RequestReply::Accepted { body } => body@,
        RequestReply::Rejected { status, detail } => "Status code: "@ + status@
            + ", Error message: "@ + match detail {
            Some(text) => text@,
            None => "No response body"@,
        },
        RequestReply::Failed { error } => "Error while making request: "@ + error@,
    }
}

/// Renders a reply as the text to show.
pub fn render_reply(reply: RequestReply) -> (text: String)
    ensures
        text@ == reply_text(reply),
{
    match reply {
        RequestReply::Accepted { body } => body,
        RequestReply::Rejected { status, detail } => {
            let mut text = String::from_str("Status code: ");
            text.append(status.as_str());
            text.append(", Error message: ");
            match detail {
                Some(b) => text.append(b.as_str()),
                None => text.append("No response body"),
            }
            text
        },
        RequestReply::Failed { error } => {
            String::from_str("Error while making request: ").concat(error.as_str())
        },
    }
}

} // verus!
