//! Plain-value models of the messages that pass through the adapter.

use vstd::prelude::*;
use vstd::std_specs::convert::FromSpec;

verus! {

/// An HTTP request: method, target (path and query), header lines in order,
/// and a body of the caller's choosing.
#[derive(Clone, Debug, PartialEq, Eq)]
pub struct Request<B> {
    pub method: String,
    pub target: String,
    pub headers: Vec<(String, Vec<u8>)>,
    pub body: B,
}

/// An HTTP response: status code, header lines in order, and a body.
#[derive(Clone, Debug, PartialEq, Eq)]
pub struct Response<B> {
    pub status: u16,
    pub headers: Vec<(String, Vec<u8>)>,
    pub body: B,
}

/// What a request says, apart from its body: the characters of method and
/// target, and each header line as the characters of its name and the bytes
/// of its value.
pub ghost struct RequestHead {
    pub method: Seq<char>,
    pub target: Seq<char>,
    pub headers: Seq<(Seq<char>, Seq<u8>)>,
}

/// What a response says, apart from its body.
pub ghost struct ResponseHead {
    pub status: u16,
    pub headers: Seq<(Seq<char>, Seq<u8>)>,
}

/// `to` is a value that the conversion from `B` to `C` may give for `from`;
/// where the conversion follows its own specification, it is that value.
pub open spec fn converts_to<B, C: From<B>>(from: B, to: C) -> bool {
    &&& call_ensures(C::from, (from,), to)
    &&& C::obeys_from_spec() ==> to == C::from_spec(from)
}

impl<B> Request<B> {
    /// The request without its body.
    pub open spec fn head(self) -> RequestHead {
        RequestHead {
            method: self.method@,
            target: self.target@,
            headers: self.headers.deep_view(),
        }
    }

    /// `other` is this request with nothing but the body converted.
    pub open spec fn reshaped_as<C: From<B>>(self, other: Request<C>) -> bool {
        &&& other.head() == self.head()
        &&& converts_to(self.body, other.body)
    }

    /// `other` has this request's method, header lines and body; the target
    /// may differ.
    pub open spec fn same_but_target(self, other: Request<B>) -> bool {
        &&& other.head().method == self.head().method
        &&& other.head().headers == self.head().headers
        &&& other.body == self.body
    }

    /// Converts the body and leaves method, target and header lines as they
    /// are.
    pub fn convert_body<C: From<B>>(self) -> (out: Request<C>)
        ensures
            self.reshaped_as(out),
    {
        Request {
            method: self.method,
            target: self.target,
            headers: self.headers,
            body: C::from(self.body),
        }
    }
}

impl<B> Response<B> {
    /// The response without its body.
    pub open spec fn head(self) -> ResponseHead {
        ResponseHead { status: self.status, headers: self.headers.deep_view() }
    }

    /// `other` is this response with nothing but the body converted.
    pub open spec fn reshaped_as<C: From<B>>(self, other: Response<C>) -> bool {
        &&& other.head() == self.head()
        &&& converts_to(self.body, other.body)
    }

    /// Converts the body and leaves status and header lines as they are.
    pub fn convert_body<C: From<B>>(self) -> (out: Response<C>)
        ensures
            self.reshaped_as(out),
    {
        Response { status: self.status, headers: self.headers, body: C::from(self.body) }
    }
}

} // verus!
