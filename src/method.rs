use vstd::prelude::*;
use crate::text::str_eq;

verus! {

/// The HTTP request methods the gateway knows by name.
#[derive(Clone, Copy, Debug, PartialEq, Eq, Structural)]
pub enum HttpMethod {
    Get,
    Post,
    Put,
    Delete,
    Head,
    Options,
    Patch,
    Connect,
    Trace,
}

/// The canonical upper-case token of a method.
pub open spec fn method_token(m: HttpMethod) -> Seq<char> {
    match m {
        HttpMethod::Get => "GET"@,
        HttpMethod::Post => "POST"@,
        HttpMethod::Put => "PUT"@,
        HttpMethod::Delete => "DELETE"@,
        HttpMethod::Head => "HEAD"@,
        HttpMethod::Options => "OPTIONS"@,
        HttpMethod::Patch => "PATCH"@,
        HttpMethod::Connect => "CONNECT"@,
        HttpMethod::Trace => "TRACE"@,
    }
}

/// Route tables bind only these four methods; every other method is left unrouted.
pub open spec fn is_routable(m: HttpMethod) -> bool {
    m == HttpMethod::Get || m == HttpMethod::Post || m == HttpMethod::Put || m
        == HttpMethod::Delete
}

impl HttpMethod {
    pub fn as_str(&self) -> (r: &'static str)
        ensures
            r@ == method_token(*self),
    {
        match self {
            HttpMethod::Get => "GET",
            HttpMethod::Post => "POST",
            HttpMethod::Put => "PUT",
            HttpMethod::Delete => "DELETE",
            HttpMethod::Head => "HEAD",
            HttpMethod::Options => "OPTIONS",
            HttpMethod::Patch => "PATCH",
            HttpMethod::Connect => "CONNECT",
            HttpMethod::Trace => "TRACE",
        }
    }

    /// Reads a method from its upper-case token; `None` for any other text.
    pub fn from_token(s: &str) -> (r: Option<HttpMethod>)
        ensures
            match r {
                Some(m) => method_token(m) == s@,
                None => forall|m: HttpMethod| method_token(m) != s@,
            },
    {
        if str_eq(s, "GET") {
            Some(HttpMethod::Get)
        } else if str_eq(s, "POST") {
            Some(HttpMethod::Post)
        } else if str_eq(s, "PUT") {
            Some(HttpMethod::Put)
        } else if str_eq(s, "DELETE") {
            Some(HttpMethod::Delete)
        } else if str_eq(s, "HEAD") {
            Some(HttpMethod::Head)
        } else if str_eq(s, "OPTIONS") {
            Some(HttpMethod::Options)
        } else if str_eq(s, "PATCH") {
            Some(HttpMethod::Patch)
        } else if str_eq(s, "CONNECT") {
            Some(HttpMethod::Connect)
        } else if str_eq(s, "TRACE") {
            Some(HttpMethod::Trace)
        } else {
            None
        }
    }

    pub fn is_routable(&self) -> (r: bool)
        ensures
            r == is_routable(*self),
    {
        match self {
            HttpMethod::Get | HttpMethod::Post | HttpMethod::Put | HttpMethod::Delete => true,
            _ => false,
        }
    }
}

} // verus!
