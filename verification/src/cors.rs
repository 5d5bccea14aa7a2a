//! The CORS policy of the service: which origins, methods and headers a
//! cross-origin request may use.

use crate::init::StartOptions;
use crate::text::texts_of;
use vstd::prelude::*;
use vstd::string::*;

verus! {

/// The request methods of HTTP, and one value for every method beyond
/// them.
#[derive(Debug, Clone, Copy, PartialEq, Eq, Structural)]
pub enum Method {
    Get,
    Head,
    Post,
    Put,
    Delete,
    Connect,
    Options,
    Trace,
    Patch,
    Other,
}

/// The methods that a cross-origin request may use.
pub open spec fn allowed_methods() -> Seq<Method> {
    seq![Method::Get, Method::Post, Method::Put, Method::Patch, Method::Delete, Method::Options]
}

/// The request headers that a cross-origin request may carry.
pub open spec fn allowed_headers() -> Seq<Seq<char>> {
    seq![
        "content-type"@,
        "content-length"@,
        "content-encoding"@,
        "authorization"@,
        "accept"@,
    ]
}

/// What the allow-origin header of a reply says to a request that names
/// `origin`: the origin itself if it is on the list, and nothing otherwise
/// or if the request names none.
pub open spec fn allow_origin(list: Seq<Seq<char>>, origin: Option<Seq<char>>) -> Option<Seq<char>> {
    match origin {
        Some(o) => if list.contains(o) {
            Some(o)
        } else {
            None
        },
        None => None,
    }
}

/// The CORS policy: the configured origins, a fixed set of methods and
/// headers, and credentials allowed.
#[derive(Debug)]
pub struct CorsPolicy {
    pub allowed_origins: Vec<String>,
}

impl CorsPolicy {
    /// The origins of the policy, as texts.
    pub open spec fn origins(&self) -> Seq<Seq<char>> {
        texts_of(self.allowed_origins@)
    }

    /// The policy that the start-up options configure.
    pub fn new(options: &StartOptions) -> (policy: CorsPolicy)
        ensures
            policy.origins() == options@.cors_origins,
    {
        let mut origins: Vec<String> = Vec::new();
        let mut i: usize = 0;
        while i < options.cors_origins.len()
            invariant
                i <= options.cors_origins.len(),
                origins@.len() == i,
                forall|k: int| 0 <= k < i ==> origins@[k]@ == options.cors_origins@[k]@,
            decreases options.cors_origins.len() - i,
        {
            origins.push(options.cors_origins[i].clone());
            i = i + 1;
        }
        assert(texts_of(origins@) =~= texts_of(options.cors_origins@));
        CorsPolicy { allowed_origins: origins }
    }

    /// Whether `origin` is one of the configured origins, letter for letter.
    pub fn allows_origin(&self, origin: &str) -> (allowed: bool)
        ensures
            allowed == self.origins().contains(origin@),
    {
        let wanted = String::from_str(origin);
        let mut i: usize = 0;
        while i < self.allowed_origins.len()
            invariant
                i <= self.allowed_origins.len(),
                wanted@ == origin@,
                forall|k: int| 0 <= k < i ==> self.origins()[k] != origin@,
            decreases self.allowed_origins.len() - i,
        {
            if self.allowed_origins[i] == wanted {
                assert(self.origins()[i as int] == origin@);
                return true;
            }
            i = i + 1;
        }
        false
    }

    /// The value of the allow-origin header for a request that names
    /// `origin`, if the reply is to carry one.
    pub fn allow_origin_header(&self, origin: Option<&str>) -> (header: Option<String>)
        ensures
            match allow_origin(
                self.origins(),
                match origin {
                    Some(o) => Some(o@),
                    None => None,
                },
            ) {
                Some(o) => header matches Some(h) && h@ == o,
                None => header is None,
            },
    {
        match origin {
            Some(o) => {
                if self.allows_origin(o) {
                    Some(String::from_str(o))
                } else {
                    None
                }
            },
            None => None,
        }
    }

    /// Whether a cross-origin request may use `method`.
    pub fn allows_method(method: Method) -> (allowed: bool)
        ensures
            allowed == allowed_methods().contains(method),
    {
        match method {
            Method::Get => {
                assert(allowed_methods()[0] == method);
                true
            },
            Method::Post => {
                assert(allowed_methods()[1] == method);
                true
            },
            Method::Put => {
                assert(allowed_methods()[2] == method);
                true
            },
            Method::Patch => {
                assert(allowed_methods()[3] == method);
                true
            },
            Method::Delete => {
                assert(allowed_methods()[4] == method);
                true
            },
            Method::Options => {
                assert(allowed_methods()[5] == method);
                true
            },
            _ => false,
        }
    }

    /// The methods that a cross-origin request may use.
    pub fn methods() -> (methods: Vec<Method>)
        ensures
            methods@ == allowed_methods(),
    {
        let mut methods: Vec<Method> = Vec::new();
        methods.push(Method::Get);
        methods.push(Method::Post);
        methods.push(Method::Put);
        methods.push(Method::Patch);
        methods.push(Method::Delete);
        methods.push(Method::Options);
        assert(methods@ =~= allowed_methods());
        methods
    }

    /// The request headers that a cross-origin request may carry, in lower
    /// case.
    pub fn headers() -> (headers: Vec<&'static str>)
        ensures
            headers@.len() == allowed_headers().len(),
            forall|i: int| 0 <= i < headers@.len() ==> headers@[i]@ == allowed_headers()[i],
    {
        let mut headers: Vec<&'static str> = Vec::new();
        headers.push("content-type");
        headers.push("content-length");
        headers.push("content-encoding");
        headers.push("authorization");
        headers.push("accept");
        headers
    }

    /// Whether cross-origin requests may carry credentials: always.
    pub fn allows_credentials() -> (allowed: bool)
        ensures
            allowed,
    {
        true
    }
}

} // verus!
