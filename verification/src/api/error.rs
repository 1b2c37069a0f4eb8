//! What can go wrong with a request, and what the user is told of it.

use vstd::prelude::*;
use vstd::string::*;

verus! {

/// The request that a failure belongs to.
#[derive(Debug, Clone, Copy, PartialEq, Eq, Structural)]
pub enum RequestKind {
    /// A page of a list, asked for on its own.
    Page,
    /// A page of highlights, asked for while tags are gathered.
    HighlightsForTags,
    /// The tags of one highlight.
    TagsOfHighlight,
}

/// A failed request.
#[derive(Debug)]
pub enum ReadwiseError {
    /// The service refused the request because too many were made.
    RateLimited(RequestKind),
    /// The request failed in some other way; the text says how.
    Transport(String),
    /// The body of the response could not be read as JSON.
    Malformed(serde_json::Error),
}

/// Whether a failure is a refusal for too many requests: the service
/// answered, and its answer has the HTTP status 429. What the text of a
/// failure holds plays no part.
pub open spec fn signals_rate_limit(status: Option<u16>) -> bool {
    status == Some(429u16)
}

/// What the user is told of a refusal for too many requests.
pub open spec fn rate_limit_advice(request: RequestKind) -> Seq<char> {
    match request {
        RequestKind::Page =>
            "Rate limit exceeded (429). Please wait a minute before trying again. Consider using smaller page sizes to avoid hitting limits."@,
        RequestKind::HighlightsForTags =>
            "Rate limit exceeded while fetching highlights (429). Please wait a minute before trying again."@,
        RequestKind::TagsOfHighlight =>
            "Rate limit exceeded while fetching tags (429). Please wait a minute before trying again."@,
    }
}

/// What the user is told of a response that is no JSON.
pub open spec fn malformed_advice() -> Seq<char> {
    "The service answered with a body that is not valid JSON."@
}

impl ReadwiseError {
    /// What the user is told of this failure.
    pub open spec fn advice(self) -> Seq<char> {
        match self {
            ReadwiseError::RateLimited(request) => rate_limit_advice(request),
            ReadwiseError::Transport(message) => message@,
            ReadwiseError::Malformed(_) => malformed_advice(),
        }
    }

    /// The failure of `request`, given the HTTP status of the answer, if the
    /// service answered at all, and the text of the failure: a refusal for
    /// too many requests where the status is 429, else a failure with the
    /// text kept as it is. Nothing is retried.
    pub fn classify(request: RequestKind, status: Option<u16>, message: &str) -> (error:
        ReadwiseError)
        ensures
            signals_rate_limit(status) ==> error == ReadwiseError::RateLimited(request),
            !signals_rate_limit(status) ==> (error matches ReadwiseError::Transport(kept) && kept@
                == message@),
    {
        let limited = match status {
            Some(code) => code == 429,
            None => false,
        };
        if limited {
            ReadwiseError::RateLimited(request)
        } else {
            ReadwiseError::Transport(message.to_owned())
        }
    }

    /// Whether the failure is a refusal for too many requests.
    pub fn is_rate_limited(&self) -> (limited: bool)
        ensures
            limited == (self is RateLimited),
    {
        match self {
            ReadwiseError::RateLimited(_) => true,
            _ => false,
        }
    }

    /// What the user is told of this failure.
    pub fn message(&self) -> (text: String)
        ensures
            text@ == self.advice(),
    {
        match self {
            ReadwiseError::RateLimited(RequestKind::Page) =>
                "Rate limit exceeded (429). Please wait a minute before trying again. Consider using smaller page sizes to avoid hitting limits.".to_owned(),
            ReadwiseError::RateLimited(RequestKind::HighlightsForTags) =>
                "Rate limit exceeded while fetching highlights (429). Please wait a minute before trying again.".to_owned(),
            ReadwiseError::RateLimited(RequestKind::TagsOfHighlight) =>
                "Rate limit exceeded while fetching tags (429). Please wait a minute before trying again.".to_owned(),
            ReadwiseError::Transport(message) => message.clone(),
            ReadwiseError::Malformed(_) =>
                "The service answered with a body that is not valid JSON.".to_owned(),
        }
    }
}

} // verus!
