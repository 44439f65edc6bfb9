//! The surface of the service: its three operations, where each is
//! reached, and what callers from other origins may send.

use vstd::prelude::*;

verus! {

/// The name of the database that holds the collection.
pub const DATABASE: &'static str = "bimtiles";

/// The name of the collection of property records.
pub const COLLECTION: &'static str = "properties";

/// The path of the health check and of the batch insert.
pub const MODELS_PATH: &'static str = "/api/v1/models";

/// The path of a point lookup, with a place for the model and one for the
/// property's name.
pub const PROPERTY_PATH: &'static str = "/api/v1/models/{model_id}/properties/{name}";

/// Callers from every origin are let in.
pub const ANY_ORIGIN: bool = true;

/// A request method.
#[derive(Debug, Clone, Copy, PartialEq, Eq, Structural)]
pub enum Method {
    Get,
    Post,
    Put,
    Delete,
}

/// A request header that callers from other origins may send.
#[derive(Debug, Clone, Copy, PartialEq, Eq, Structural)]
pub enum Header {
    ContentType,
    Authorization,
}

/// One of the three operations.
#[derive(Debug, Clone, Copy, PartialEq, Eq, Structural)]
pub enum Operation {
    HealthCheck,
    InsertProperties,
    GetProperties,
}

impl Operation {
    /// The method by which the operation is reached.
    pub open spec fn spec_method(self) -> Method {
        match self {
            Operation::HealthCheck => Method::Get,
            Operation::InsertProperties => Method::Post,
            Operation::GetProperties => Method::Get,
        }
    }

    /// The path at which the operation is reached.
    pub open spec fn spec_path(self) -> Seq<char> {
        match self {
            Operation::HealthCheck => MODELS_PATH@,
            Operation::InsertProperties => MODELS_PATH@,
            Operation::GetProperties => PROPERTY_PATH@,
        }
    }

    /// The method by which the operation is reached: a lookup and the
    /// health check read, the insert posts.
    #[verifier::when_used_as_spec(spec_method)]
    pub fn method(self) -> (method: Method)
        ensures
            method == self.spec_method(),
    {
        match self {
            Operation::HealthCheck => Method::Get,
            Operation::InsertProperties => Method::Post,
            Operation::GetProperties => Method::Get,
        }
    }

    /// The path at which the operation is reached.
    pub fn path(self) -> (path: &'static str)
        ensures
            path@ == self.spec_path(),
    {
        match self {
            Operation::HealthCheck => MODELS_PATH,
            Operation::InsertProperties => MODELS_PATH,
            Operation::GetProperties => PROPERTY_PATH,
        }
    }
}

/// The methods that callers from other origins may use. Put and delete are
/// let through although no operation is reached by them.
pub fn allowed_methods() -> (methods: Vec<Method>)
    ensures
        methods@ == seq![Method::Get, Method::Post, Method::Put, Method::Delete],
{
    let mut methods: Vec<Method> = Vec::new();
    methods.push(Method::Get);
    methods.push(Method::Post);
    methods.push(Method::Put);
    methods.push(Method::Delete);
    assert(methods@ =~= seq![Method::Get, Method::Post, Method::Put, Method::Delete]);
    methods
}

/// The headers that callers from other origins may send: these two and no
/// others.
pub fn allowed_headers() -> (headers: Vec<Header>)
    ensures
        headers@ == seq![Header::ContentType, Header::Authorization],
{
    let mut headers: Vec<Header> = Vec::new();
    headers.push(Header::ContentType);
    headers.push(Header::Authorization);
    assert(headers@ =~= seq![Header::ContentType, Header::Authorization]);
    headers
}

} // verus!
