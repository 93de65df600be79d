//! The request and response envelopes, and the errors that become responses.

use serde_json::Value;
use vstd::prelude::*;
use vstd::string::StringExecFns;

verus! {

/// Error code of a response to a request whose method no service claimed.
pub const METHOD_NOT_FOUND: i64 = -32601;

/// Error code of a response to a request whose parameters a service rejected.
pub const INVALID_PARAMS: i64 = -32602;

/// A remote call: a method name, optional parameters and an optional id.
///
/// A request with an id expects a response; one without is a notification.
#[derive(Clone, Debug, PartialEq)]
pub struct Request {
    method: String,
    params: Option<Value>,
    id: Option<Value>,
}

/// What a [`Request`] holds, as mathematical values.
pub ghost struct RequestView {
    pub method: Seq<char>,
    pub params: Option<Value>,
    pub id: Option<Value>,
}

impl View for Request {
    type V = RequestView;

    closed spec fn view(&self) -> RequestView {
        RequestView { method: self.method@, params: self.params, id: self.id }
    }
}

impl Request {
    /// Creates a request. Pass `None` as the id to make a notification.
    pub fn new(id: Option<Value>, method: String, params: Option<Value>) -> (request: Request)
        ensures
            request@ == (RequestView { method: method@, params, id }),
    {
        Request { method, params, id }
    }

    /// The name of the method to call.
    pub fn method(&self) -> (name: &str)
        ensures
            name@ == self@.method,
    {
        self.method.as_str()
    }

    /// The parameters of the call, if any.
    pub fn params(&self) -> (params: &Option<Value>)
        ensures
            *params == self@.params,
    {
        &self.params
    }

    /// The id of the call; `None` for a notification.
    pub fn id(&self) -> (id: &Option<Value>)
        ensures
            *id == self@.id,
    {
        &self.id
    }
}

/// A failure while routing or handling a request.
#[derive(Clone, Debug, PartialEq)]
pub enum Error {
    /// No service claimed the method.
    MethodNotFound {
        /// The name of the method that was asked for.
        name: String,
        /// The id of the request.
        id: Option<Value>,
    },
    /// A service claimed the method but could not decode the parameters.
    InvalidParams {
        /// The id of the request.
        id: Option<Value>,
        /// A description of what was wrong with the parameters.
        data: String,
    },
}

/// What an [`Error`] holds, as mathematical values.
pub ghost enum ErrorView {
    MethodNotFound { name: Seq<char>, id: Option<Value> },
    InvalidParams { id: Option<Value>, data: Seq<char> },
}

impl View for Error {
    type V = ErrorView;

    open spec fn view(&self) -> ErrorView {
        match *self {
            Error::MethodNotFound { name, id } => ErrorView::MethodNotFound { name: name@, id },
            Error::InvalidParams { id, data } => ErrorView::InvalidParams { id, data: data@ },
        }
    }
}

/// The failure payload of a response.
#[derive(Clone, Debug, PartialEq)]
pub struct RpcError {
    /// The kind of failure, as a JSON-RPC error code.
    pub code: i64,
    /// A short description of the failure.
    pub message: String,
    /// Further detail, typically the underlying cause.
    pub data: Option<String>,
}

/// What an [`RpcError`] holds, as mathematical values.
pub ghost struct RpcErrorView {
    pub code: int,
    pub message: Seq<char>,
    pub data: Option<Seq<char>>,
}

impl View for RpcError {
    type V = RpcErrorView;

    open spec fn view(&self) -> RpcErrorView {
        RpcErrorView {
            code: self.code as int,
            message: self.message@,
            data: match self.data {
                Some(text) => Some(text@),
                None => None,
            },
        }
    }
}

/// The failure payload that reports `error`.
pub open spec fn rpc_error_of(error: ErrorView) -> RpcErrorView {
    match error {
        ErrorView::MethodNotFound { name, .. } => RpcErrorView {
            code: METHOD_NOT_FOUND as int,
            message: "Method not found: "@ + name,
            data: None,
        },
        ErrorView::InvalidParams { data, .. } => RpcErrorView {
            code: INVALID_PARAMS as int,
            message: "Message parameters are invalid"@,
            data: Some(data),
        },
    }
}

impl RpcError {
    /// Converts an error into the payload that reports it.
    pub fn from_error(error: Error) -> (payload: RpcError)
        ensures
            payload@ == rpc_error_of(error@),
    {
        match error {
            Error::MethodNotFound { name, .. } => {
                let message = String::from_str("Method not found: ").concat(name.as_str());
                RpcError { code: METHOD_NOT_FOUND, message, data: None }
            },
            Error::InvalidParams { data, .. } => {
                let message = String::from_str("Message parameters are invalid");
                RpcError { code: INVALID_PARAMS, message, data: Some(data) }
            },
        }
    }
}

/// The answer to a request: the id it echoes and either a result or an error.
#[derive(Clone, Debug, PartialEq)]
pub struct Response {
    id: Option<Value>,
    body: Body,
}

/// The two shapes of a response: exactly one of result and error is present.
#[derive(Clone, Debug, PartialEq)]
enum Body {
    Success(Value),
    Failure(RpcError),
}

/// What a [`Response`] holds, as mathematical values.
pub ghost struct ResponseView {
    pub id: Option<Value>,
    pub body: Result<Value, RpcErrorView>,
}

impl View for Response {
    type V = ResponseView;

    closed spec fn view(&self) -> ResponseView {
        ResponseView {
            id: self.id,
            body: match self.body {
                Body::Success(value) => Ok(value),
                Body::Failure(error) => Err(error@),
            },
        }
    }
}

/// The response that carries `result` back to the sender of `request`.
pub open spec fn success_view(request: RequestView, result: Value) -> ResponseView {
    ResponseView { id: request.id, body: Ok(result) }
}

/// The response that reports `error` to the sender of `request`.
pub open spec fn failure_view(request: RequestView, error: ErrorView) -> ResponseView {
    ResponseView { id: request.id, body: Err(rpc_error_of(error)) }
}

impl Response {
    /// Builds the successful response to `request`.
    pub fn success(request: &Request, result: Value) -> (response: Response)
        ensures
            response@ == success_view(request@, result),
    {
        Response { id: request.id.clone(), body: Body::Success(result) }
    }

    /// Builds the response that reports `error` to the sender of `request`.
    pub fn failure(request: &Request, error: Error) -> (response: Response)
        ensures
            response@ == failure_view(request@, error@),
    {
        Response { id: request.id.clone(), body: Body::Failure(RpcError::from_error(error)) }
    }

    /// The id of the request that this response answers.
    pub fn id(&self) -> (id: &Option<Value>)
        ensures
            *id == self@.id,
    {
        &self.id
    }

    /// The result, if the call succeeded.
    pub fn result(&self) -> (result: Option<&Value>)
        ensures
            match result {
                Some(value) => self@.body == Ok::<Value, RpcErrorView>(*value),
                None => self@.body is Err,
            },
    {
        match &self.body {
            Body::Success(value) => Some(value),
            Body::Failure(_) => None,
        }
    }

    /// The error, if the call failed.
    pub fn error(&self) -> (error: Option<&RpcError>)
        ensures
            match error {
                Some(payload) => self@.body == Err::<Value, RpcErrorView>(payload@),
                None => self@.body is Ok,
            },
    {
        match &self.body {
            Body::Success(_) => None,
            Body::Failure(payload) => Some(payload),
        }
    }
}

} // verus!
