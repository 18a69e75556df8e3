//! A module's request for an identity certificate.

use vstd::prelude::*;

#[allow(unused_imports)]
use crate::text::optional_text;

verus! {

/// A request for an identity certificate, maybe with a wish for when it expires.
#[derive(Debug)]
pub struct IdentityCertificateRequest {
    /// Certificate expiration date-time (ISO 8601).
    expiration: Option<String>,
}

/// A change of a request.
pub enum RequestChange {
    /// It gets this expiration.
    Expire(Seq<char>),
    /// It loses its expiration.
    Reset,
}

/// The expiration that a request has after a change.
pub open spec fn changed(before: Option<Seq<char>>, change: RequestChange) -> Option<Seq<char>> {
    match change {
        RequestChange::Expire(expiration) => Some(expiration),
        RequestChange::Reset => None,
    }
}

/// Only the last change of a request counts.
pub proof fn law_last_change_counts(
    before: Option<Seq<char>>,
    first: RequestChange,
    last: RequestChange,
)
    ensures
        changed(changed(before, first), last) == changed(before, last),
{
}

/// A request without an expiration is as it was once an expiration was set and
/// taken away.
pub proof fn law_reset_undoes_set(before: Option<Seq<char>>, expiration: Seq<char>)
    requires
        before is None,
    ensures
        changed(changed(before, RequestChange::Expire(expiration)), RequestChange::Reset) == before,
{
}

impl View for IdentityCertificateRequest {
    type V = Option<Seq<char>>;

    closed spec fn view(&self) -> Option<Seq<char>> {
        optional_text(self.expiration)
    }
}

impl Default for IdentityCertificateRequest {
    fn default() -> (r: IdentityCertificateRequest)
        ensures
            r@ is None,
    {
        IdentityCertificateRequest { expiration: None }
    }
}

impl IdentityCertificateRequest {
    /// A request without an expiration.
    pub fn new() -> (r: IdentityCertificateRequest)
        ensures
            r@ is None,
    {
        IdentityCertificateRequest { expiration: None }
    }

    /// Sets the expiration.
    pub fn set_expiration(&mut self, expiration: String)
        ensures
            final(self)@ == changed(old(self)@, RequestChange::Expire(expiration@)),
            final(self)@ == Some(expiration@),
    {
        self.expiration = Some(expiration);
    }

    /// The request with another expiration.
    pub fn with_expiration(self, expiration: String) -> (r: IdentityCertificateRequest)
        ensures
            r@ == changed(self@, RequestChange::Expire(expiration@)),
            r@ == Some(expiration@),
    {
        let mut request = self;
        request.expiration = Some(expiration);
        request
    }

    /// The expiration, if there is one.
    pub fn expiration(&self) -> (r: Option<&str>)
        ensures
            match r {
                Some(expiration) => self@ == Some(expiration@),
                None => self@ is None,
            },
    {
        match &self.expiration {
            Some(expiration) => Some(expiration.as_str()),
            None => None,
        }
    }

    /// Takes the expiration away.
    pub fn reset_expiration(&mut self)
        ensures
            final(self)@ == changed(old(self)@, RequestChange::Reset),
            final(self)@ is None,
    {
        self.expiration = None;
    }
}

/// Setting an expiration, whatever text it is, makes it the request's, all of it
/// and whatever the request had before; resetting leaves none.
pub proof fn law_change_is_made(before: Option<Seq<char>>, expiration: Seq<char>)
    ensures
        changed(before, RequestChange::Expire(expiration)) == Some(expiration),
        changed(before, RequestChange::Reset) is None,
{
}

/// What is read of a request is the expiration that it was given, whatever text
/// that is.
pub proof fn law_given_expiration_is_read(
    before: IdentityCertificateRequest,
    expiration: String,
    request: IdentityCertificateRequest,
    r: Option<&str>,
)
    requires
        call_ensures(
            IdentityCertificateRequest::with_expiration,
            (before, expiration),
            request,
        ),
        call_ensures(IdentityCertificateRequest::expiration, (&request,), r),
    ensures
        r matches Some(text) && text@ == expiration@,
{
}

/// Nothing is read of a new request.
pub proof fn law_new_request_is_empty(request: IdentityCertificateRequest, r: Option<&str>)
    requires
        call_ensures(IdentityCertificateRequest::new, (), request),
        call_ensures(IdentityCertificateRequest::expiration, (&request,), r),
    ensures
        r is None,
{
}

} // verus!
