//! The request for an analysis: the domain to analyse and the two switches
//! that the service takes with it.

use vstd::prelude::*;
use vstd::string::*;
use crate::error::DomainError;

verus! {

/// Whether `addr::parse_domain_name` accepts a text as a domain name.
pub uninterp spec fn domain_name_accepted(name: Seq<char>) -> bool;

/// Asks `addr::parse_domain_name` whether a text is a domain name.
///
/// The answer is named, not spelled out: it rests on the syntax rules of that
/// function and on the list of public suffixes that the `addr` crate is built
/// with.
#[verifier::external_body]
fn accepts_domain_name(name: &str) -> (accepted: bool)
    ensures
        accepted == domain_name_accepted(name@),
{
    addr::parse_domain_name(name).is_ok()
}

/// What the service is asked for.
#[derive(Debug)]
pub struct Params {
    domain: String,
    caching: bool,
    publish: bool,
}

/// The mathematical value of a [`Params`].
pub struct ParamsView {
    pub domain: Seq<char>,
    /// Whether a report that the service has kept may be delivered.
    pub caching: bool,
    /// Whether the result may be shown on the public boards of the service.
    pub publish: bool,
}

/// The part of the query that carries the switch for kept reports.
pub open spec fn caching_text(switch: bool) -> Seq<char> {
    if switch {
        "&fromCache=on"@
    } else {
        "&fromCache=off"@
    }
}

/// The part of the query that carries the switch for publication.
pub open spec fn publish_text(switch: bool) -> Seq<char> {
    if switch {
        "&publish=on"@
    } else {
        "&publish=off"@
    }
}

/// The address that asks the service for the analysis of a domain.
pub open spec fn request_url_text(params: ParamsView) -> Seq<char> {
    "https://api.ssllabs.com/api/v3/analyze?host="@ + params.domain + publish_text(params.publish)
        + caching_text(params.caching)
}

impl View for Params {
    type V = ParamsView;

    closed spec fn view(&self) -> ParamsView {
        ParamsView { domain: self.domain@, caching: self.caching, publish: self.publish }
    }
}

impl Params {
    #[verifier::type_invariant]
    spec fn holds_domain_name(self) -> bool {
        domain_name_accepted(self.domain@)
    }

    /// A request for the analysis of `domain`, with both switches off. Fails
    /// when `domain` is not a domain name.
    pub fn new(domain: &str) -> (made: Result<Params, DomainError>)
        ensures
            match made {
                Ok(params) => domain_name_accepted(domain@) && params@ == (ParamsView {
                    domain: domain@,
                    caching: false,
                    publish: false,
                }),
                Err(_) => !domain_name_accepted(domain@),
            },
    {
        if accepts_domain_name(domain) {
            Ok(Params { domain: domain.to_owned(), caching: false, publish: false })
        } else {
            Err(DomainError)
        }
    }

    /// Sets whether a report that the service has kept may be delivered.
    pub fn caching(&mut self, switch: bool)
        ensures
            final(self)@ == (ParamsView { caching: switch, ..old(self)@ }),
    {
        proof {
            use_type_invariant(&*self);
        }
        self.caching = switch;
    }

    /// Sets whether the result may be shown on the public boards.
    pub fn publish(&mut self, switch: bool)
        ensures
            final(self)@ == (ParamsView { publish: switch, ..old(self)@ }),
    {
        proof {
            use_type_invariant(&*self);
        }
        self.publish = switch;
    }

    /// The domain to analyse. It is a domain name: no `Params` holds another
    /// text.
    pub fn domain(&self) -> (domain: &str)
        ensures
            domain@ == self@.domain,
            domain_name_accepted(domain@),
    {
        proof {
            use_type_invariant(self);
        }
        self.domain.as_str()
    }

    /// The address to fetch: the service's entry point, the domain, the
    /// switch for publication and the switch for kept reports, in this order.
    pub fn request_url(&self) -> (url: String)
        ensures
            url@ == request_url_text(self@),
    {
        let mut url = String::new();
        url.append("https://api.ssllabs.com/api/v3/analyze?host=");
        url.append(self.domain.as_str());
        url.append(if self.publish { "&publish=on" } else { "&publish=off" });
        url.append(if self.caching { "&fromCache=on" } else { "&fromCache=off" });
        assert(url@ =~= request_url_text(self@));
        url
    }
}

} // verus!
