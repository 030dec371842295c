//! The route table and the cross-origin policy.

use vstd::prelude::*;

verus! {

/// The HTTP methods that the service knows.
#[derive(Clone, Copy, Debug, PartialEq, Eq, Structural)]
pub enum Method {
    Get,
    Post,
    Patch,
    Delete,
}

impl Method {
    /// The name of the method as a request line holds it.
    pub open spec fn name(self) -> Seq<char> {
        match self {
            Method::Get => "GET"@,
            Method::Post => "POST"@,
            Method::Patch => "PATCH"@,
            Method::Delete => "DELETE"@,
        }
    }

    pub fn as_str(self) -> (name: &'static str)
        ensures
            name@ == self.name(),
    {
        match self {
            Method::Get => "GET",
            Method::Post => "POST",
            Method::Patch => "PATCH",
            Method::Delete => "DELETE",
        }
    }
}

/// The operations of the API.
#[derive(Clone, Copy, Debug, PartialEq, Eq, Structural)]
pub enum Operation {
    HealthCheck,
    ListNotes,
    CreateNote,
    GetNote,
    EditNote,
    DeleteNote,
}

impl Operation {
    /// The method under which the operation is served.
    pub open spec fn spec_method(self) -> Method {
        match self {
            Operation::HealthCheck => Method::Get,
            Operation::ListNotes => Method::Get,
            Operation::CreateNote => Method::Post,
            Operation::GetNote => Method::Get,
            Operation::EditNote => Method::Patch,
            Operation::DeleteNote => Method::Delete,
        }
    }

    /// The path under which the operation is served, with `{id}` in the
    /// place of a note's identifier.
    pub open spec fn spec_path(self) -> Seq<char> {
        match self {
            Operation::HealthCheck => "/api/healthcheck"@,
            Operation::ListNotes => "/api/notes/"@,
            Operation::CreateNote => "/api/notes/"@,
            Operation::GetNote => "/api/notes/{id}"@,
            Operation::EditNote => "/api/notes/{id}"@,
            Operation::DeleteNote => "/api/notes/{id}"@,
        }
    }

    #[verifier::when_used_as_spec(spec_method)]
    pub fn method(self) -> (method: Method)
        ensures
            method == self.spec_method(),
    {
        match self {
            Operation::HealthCheck => Method::Get,
            Operation::ListNotes => Method::Get,
            Operation::CreateNote => Method::Post,
            Operation::GetNote => Method::Get,
            Operation::EditNote => Method::Patch,
            Operation::DeleteNote => Method::Delete,
        }
    }

    pub fn path(self) -> (path: &'static str)
        ensures
            path@ == self.spec_path(),
    {
        match self {
            Operation::HealthCheck => "/api/healthcheck",
            Operation::ListNotes => "/api/notes/",
            Operation::CreateNote => "/api/notes/",
            Operation::GetNote => "/api/notes/{id}",
            Operation::EditNote => "/api/notes/{id}",
            Operation::DeleteNote => "/api/notes/{id}",
        }
    }
}

/// No two operations are served under the same method and the same path, so
/// a request is an operation's or nobody's.
pub proof fn routes_are_distinct(one: Operation, other: Operation)
    requires
        one != other,
    ensures
        one.spec_method() != other.spec_method() || one.spec_path() != other.spec_path(),
{
    // The three paths differ in length.
    reveal_strlit("/api/healthcheck");
    reveal_strlit("/api/notes/");
    reveal_strlit("/api/notes/{id}");
    assert("/api/notes/"@.len() == 11);
    assert("/api/notes/{id}"@.len() == 15);
}

/// Which browsers' pages may call the API from another origin, and how.
#[derive(Clone, Debug, PartialEq, Eq)]
pub struct CorsPolicy {
    /// Every origin is allowed.
    pub any_origin: bool,
    /// The methods that are allowed.
    pub methods: Vec<Method>,
    /// The request headers that are allowed.
    pub headers: Vec<&'static str>,
}

impl CorsPolicy {
    /// The policy allows the method.
    pub open spec fn allows(self, method: Method) -> bool {
        self.methods@.contains(method)
    }
}

/// How much of the API a server offers.
#[derive(Clone, Copy, Debug, PartialEq, Eq, Structural)]
pub enum FeatureSet {
    /// The health check alone, with no cross-origin policy.
    Minimal,
    /// Every operation, with the cross-origin policy.
    Full,
}

impl FeatureSet {
    /// The operations that are served, in the order of the route table.
    pub open spec fn spec_operations(self) -> Seq<Operation> {
        match self {
            FeatureSet::Minimal => seq![Operation::HealthCheck],
            FeatureSet::Full => seq![
                Operation::HealthCheck,
                Operation::ListNotes,
                Operation::CreateNote,
                Operation::GetNote,
                Operation::EditNote,
                Operation::DeleteNote,
            ],
        }
    }

    pub fn operations(self) -> (table: Vec<Operation>)
        ensures
            table@ == self.spec_operations(),
    {
        let mut table: Vec<Operation> = Vec::new();
        table.push(Operation::HealthCheck);
        match self {
            FeatureSet::Minimal => {},
            FeatureSet::Full => {
                table.push(Operation::ListNotes);
                table.push(Operation::CreateNote);
                table.push(Operation::GetNote);
                table.push(Operation::EditNote);
                table.push(Operation::DeleteNote);
            },
        }
        table
    }

    /// The cross-origin policy, where there is one: any origin, the methods
    /// GET and POST and no others, and the request header `content-type`.
    pub fn cross_origin(self) -> (policy: Option<CorsPolicy>)
        ensures
            self is Minimal ==> policy is None,
            self is Full ==> (policy matches Some(policy) && {
                &&& policy.any_origin
                &&& policy.methods@ == seq![Method::Get, Method::Post]
                &&& policy.headers@.len() == 1
                &&& policy.headers@[0]@ == "content-type"@
                &&& forall|method: Method|
                    policy.allows(method) <==> (method == Method::Get || method == Method::Post)
            }),
    {
        match self {
            FeatureSet::Minimal => None,
            FeatureSet::Full => {
                let mut methods: Vec<Method> = Vec::new();
                methods.push(Method::Get);
                methods.push(Method::Post);
                let mut headers: Vec<&'static str> = Vec::new();
                headers.push("content-type");
                assert(methods@[0] == Method::Get && methods@[1] == Method::Post);
                Some(CorsPolicy { any_origin: true, methods, headers })
            },
        }
    }
}

} // verus!
