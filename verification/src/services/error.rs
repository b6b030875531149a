//! The ways in which a call to an upstream API can fail.

use crate::number::{decimal, push_decimal};
use vstd::prelude::*;

verus! {

/// A failed call to an upstream API.
#[derive(Debug)]
pub enum ServiceError {
    /// The request did not get through: no connection, a timeout, no such host.
    Network { url: String, source: String },
    /// The body of the response was not of the expected shape.
    Parse { url: String, source: String },
    /// The upstream does not know what was asked for.
    NotFound { resource: String, identifier: String },
    /// A credential that the call needs is not configured.
    MissingToken { token_name: String },
    /// The upstream answered, and its answer reports a failure.
    ApiError { url: String, message: String },
    /// The upstream answered with a status that the call does not expect.
    UnexpectedStatus { url: String, status: u16 },
    /// The upstream reported success, and a field of its answer is missing.
    MissingField { field: String, url: String },
}

/// The content of a [`ServiceError`].
pub enum ServiceErrorView {
    Network { url: Seq<char>, source: Seq<char> },
    Parse { url: Seq<char>, source: Seq<char> },
    NotFound { resource: Seq<char>, identifier: Seq<char> },
    MissingToken { token_name: Seq<char> },
    ApiError { url: Seq<char>, message: Seq<char> },
    UnexpectedStatus { url: Seq<char>, status: u16 },
    MissingField { field: Seq<char>, url: Seq<char> },
}

impl View for ServiceError {
    type V = ServiceErrorView;

    open spec fn view(&self) -> ServiceErrorView {
        match self {
            ServiceError::Network { url, source } => ServiceErrorView::Network {
                url: url@,
                source: source@,
            },
            ServiceError::Parse { url, source } => ServiceErrorView::Parse {
                url: url@,
                source: source@,
            },
            ServiceError::NotFound { resource, identifier } => ServiceErrorView::NotFound {
                resource: resource@,
                identifier: identifier@,
            },
            ServiceError::MissingToken { token_name } => ServiceErrorView::MissingToken {
                token_name: token_name@,
            },
            ServiceError::ApiError { url, message } => ServiceErrorView::ApiError {
                url: url@,
                message: message@,
            },
            ServiceError::UnexpectedStatus { url, status } => ServiceErrorView::UnexpectedStatus {
                url: url@,
                status: *status,
            },
            ServiceError::MissingField { field, url } => ServiceErrorView::MissingField {
                field: field@,
                url: url@,
            },
        }
    }
}

/// The message that an upstream failure gets when the upstream gave none.
pub open spec fn unknown_api_error() -> Seq<char> {
    "Unknown API error"@
}

impl ServiceErrorView {
    /// The full description of the failure, for the log: it names the URL,
    /// the status, the field or the cause.
    pub open spec fn description(self) -> Seq<char> {
        match self {
            ServiceErrorView::Network { url, source } => "Network error for "@ + url + ": "@
                + source,
            ServiceErrorView::Parse { url, source } => "Parse error for "@ + url + ": "@ + source,
            ServiceErrorView::NotFound { resource, identifier } => resource + " not found: "@
                + identifier,
            ServiceErrorView::MissingToken { token_name } => "Missing required token: "@
                + token_name,
            ServiceErrorView::ApiError { url, message } => "API error from "@ + url + ": "@
                + message,
            ServiceErrorView::UnexpectedStatus { url, status } => "Unexpected status "@ + decimal(
                status as nat,
            ) + " from "@ + url,
            ServiceErrorView::MissingField { field, url } => "Missing field '"@ + field
                + "' in response from "@ + url,
        }
    }

    /// What the user is told of the failure. A failure of the transport, of the
    /// body's shape or of the status is described in general words only; what
    /// the upstream itself said of a failure is passed on as it is.
    pub open spec fn user_message(self) -> Seq<char> {
        match self {
            ServiceErrorView::Network { .. } =>
                "the service could not be reached, try again later"@,
            ServiceErrorView::Parse { .. } => "the service's answer could not be read"@,
            ServiceErrorView::NotFound { resource, identifier } => resource + " not found: "@
                + identifier,
            ServiceErrorView::MissingToken { token_name } => "Missing required token: "@
                + token_name,
            ServiceErrorView::ApiError { message, .. } => message,
            ServiceErrorView::UnexpectedStatus { .. } =>
                "the service answered unexpectedly, try again later"@,
            ServiceErrorView::MissingField { .. } => "the service's answer was incomplete"@,
        }
    }
}

impl ServiceError {
    /// The failure of the transport on the way to `url`, with its cause in words.
    pub fn network(url: &str, cause: &str) -> (r: Self)
        ensures
            r@ == (ServiceErrorView::Network { url: url@, source: cause@ }),
    {
        ServiceError::Network { url: url.to_owned(), source: cause.to_owned() }
    }

    /// A body from `url` that was not of the expected shape, with the cause in
    /// words.
    pub fn parse(url: &str, cause: &str) -> (r: Self)
        ensures
            r@ == (ServiceErrorView::Parse { url: url@, source: cause@ }),
    {
        ServiceError::Parse { url: url.to_owned(), source: cause.to_owned() }
    }

    /// The upstream does not know the `resource` called `identifier`.
    pub fn not_found(resource: &str, identifier: &str) -> (r: Self)
        ensures
            r@ == (ServiceErrorView::NotFound { resource: resource@, identifier: identifier@ }),
    {
        ServiceError::NotFound { resource: resource.to_owned(), identifier: identifier.to_owned() }
    }

    /// The credential `token_name` is not configured.
    pub fn missing_token(token_name: &str) -> (r: Self)
        ensures
            r@ == (ServiceErrorView::MissingToken { token_name: token_name@ }),
    {
        ServiceError::MissingToken { token_name: token_name.to_owned() }
    }

    /// A failure that the upstream at `url` reported, with its own message
    /// where it gave one.
    pub fn api_error(url: &str, message: Option<&str>) -> (r: Self)
        ensures
            r@ == (ServiceErrorView::ApiError {
                url: url@,
                message: match message {
                    Some(m) => m@,
                    None => unknown_api_error(),
                },
            }),
    {
        let text = match message {
            Some(m) => m,
            None => "Unknown API error",
        };
        ServiceError::ApiError { url: url.to_owned(), message: text.to_owned() }
    }

    /// A `status` from `url` that the call does not expect.
    pub fn unexpected_status(url: &str, status: u16) -> (r: Self)
        ensures
            r@ == (ServiceErrorView::UnexpectedStatus { url: url@, status }),
    {
        ServiceError::UnexpectedStatus { url: url.to_owned(), status }
    }

    /// The answer from `url` reported success and lacks `field`.
    pub fn missing_field(field: &str, url: &str) -> (r: Self)
        ensures
            r@ == (ServiceErrorView::MissingField { field: field@, url: url@ }),
    {
        ServiceError::MissingField { field: field.to_owned(), url: url.to_owned() }
    }

    /// The full description of the failure, for the log.
    pub fn to_string(&self) -> (r: String)
        ensures
            r@ == self@.description(),
    {
        let mut out = String::new();
        match self {
            ServiceError::Network { url, source } => {
                out.append("Network error for ");
                out.append(url.as_str());
                out.append(": ");
                out.append(source.as_str());
            },
            ServiceError::Parse { url, source } => {
                out.append("Parse error for ");
                out.append(url.as_str());
                out.append(": ");
                out.append(source.as_str());
            },
            ServiceError::NotFound { resource, identifier } => {
                out.append(resource.as_str());
                out.append(" not found: ");
                out.append(identifier.as_str());
            },
            ServiceError::MissingToken { token_name } => {
                out.append("Missing required token: ");
                out.append(token_name.as_str());
            },
            ServiceError::ApiError { url, message } => {
                out.append("API error from ");
                out.append(url.as_str());
                out.append(": ");
                out.append(message.as_str());
            },
            ServiceError::UnexpectedStatus { url, status } => {
                out.append("Unexpected status ");
                push_decimal(&mut out, *status as u128);
                out.append(" from ");
                out.append(url.as_str());
            },
            ServiceError::MissingField { field, url } => {
                out.append("Missing field '");
                out.append(field.as_str());
                out.append("' in response from ");
                out.append(url.as_str());
            },
        }
        assert(out@ =~= self@.description());
        out
    }

    /// What the user is told of the failure: never a URL, a status or a cause.
    pub fn user_message(&self) -> (r: String)
        ensures
            r@ == self@.user_message(),
    {
        let mut out = String::new();
        match self {
            ServiceError::Network { .. } => {
                out.append("the service could not be reached, try again later");
            },
            ServiceError::Parse { .. } => {
                out.append("the service's answer could not be read");
            },
            ServiceError::NotFound { resource, identifier } => {
                out.append(resource.as_str());
                out.append(" not found: ");
                out.append(identifier.as_str());
            },
            ServiceError::MissingToken { token_name } => {
                out.append("Missing required token: ");
                out.append(token_name.as_str());
            },
            ServiceError::ApiError { message, .. } => {
                out.append(message.as_str());
            },
            ServiceError::UnexpectedStatus { .. } => {
                out.append("the service answered unexpectedly, try again later");
            },
            ServiceError::MissingField { .. } => {
                out.append("the service's answer was incomplete");
            },
        }
        assert(out@ =~= self@.user_message());
        out
    }
}

/// What the user is told of a failure of the transport, of a body that could
/// not be read or of an unexpected status is the same whatever the URL, the
/// cause or the status: nothing of them reaches the user.
pub proof fn lemma_user_message_is_general(a: ServiceErrorView, b: ServiceErrorView)
    ensures
        a is Network && b is Network ==> a.user_message() == b.user_message(),
        a is Parse && b is Parse ==> a.user_message() == b.user_message(),
        a is UnexpectedStatus && b is UnexpectedStatus ==> a.user_message() == b.user_message(),
        a is MissingField && b is MissingField ==> a.user_message() == b.user_message(),
        a matches ServiceErrorView::ApiError { message, .. } ==> a.user_message() == message,
{
}

} // verus!
