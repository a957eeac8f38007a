use vstd::prelude::*;

verus! {

/// The observable outcome of a handler: an HTTP status code and, for
/// redirects, the target of the `Location` header.
pub struct HttpReply {
    pub status: u16,
    pub location: Option<String>,
}

/// What a caller can observe of a reply: the status and the redirect target.
pub open spec fn reply_view(r: HttpReply) -> (int, Option<Seq<char>>) {
    (
        r.status as int,
        match r.location {
            Some(l) => Some(l@),
            None => None,
        },
    )
}

/// A security rejection: the attempt is denied with no redirect.
pub open spec fn is_unauthorized(r: HttpReply) -> bool {
    r.status == 401 && r.location is None
}

/// An operational failure, distinct from a security rejection.
pub open spec fn is_internal_server_error(r: HttpReply) -> bool {
    r.status == 500 && r.location is None
}

pub open spec fn is_temporary_redirect_to(r: HttpReply, loc: Seq<char>) -> bool {
    &&& r.status == 307
    &&& r.location matches Some(l) && l@ == loc
}

pub open spec fn is_found_redirect_to(r: HttpReply, loc: Seq<char>) -> bool {
    &&& r.status == 302
    &&& r.location matches Some(l) && l@ == loc
}

impl HttpReply {
    pub fn temporary_redirect(location: String) -> (r: HttpReply)
        ensures
            is_temporary_redirect_to(r, location@),
    {
        HttpReply { status: 307, location: Some(location) }
    }

    pub fn found(location: String) -> (r: HttpReply)
        ensures
            is_found_redirect_to(r, location@),
    {
        HttpReply { status: 302, location: Some(location) }
    }

    pub fn unauthorized() -> (r: HttpReply)
        ensures
            is_unauthorized(r),
    {
        HttpReply { status: 401, location: None }
    }

    pub fn internal_server_error() -> (r: HttpReply)
        ensures
            is_internal_server_error(r),
    {
        HttpReply { status: 500, location: None }
    }

    pub fn ok() -> (r: HttpReply)
        ensures
            r.status == 200 && r.location is None,
    {
        HttpReply { status: 200, location: None }
    }

    pub fn created() -> (r: HttpReply)
        ensures
            r.status == 201 && r.location is None,
    {
        HttpReply { status: 201, location: None }
    }

    pub fn bad_request() -> (r: HttpReply)
        ensures
            r.status == 400 && r.location is None,
    {
        HttpReply { status: 400, location: None }
    }
}

} // verus!
