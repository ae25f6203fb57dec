use vstd::prelude::*;
use vstd::string::*;

use crate::text::{pairs_view, text_eq};
use crate::types::{ConfigError, Redirect, RequestUri, VerifyError};
use crate::urls::{
    form_decode, form_decoded, form_encode, form_encoded, form_safe, lemma_query_of_with_query, parse_absolute, parse_query,
    query_of, set_query, url_query, url_serialization, with_query,
};

verus! {

/// The endpoints of a CAS server and of the service using it, each held as
/// the serialization of a parsed absolute URL.
#[derive(Debug)]
pub struct CasClient {
    login_url: String,
    logout_url: String,
    verify_url: String,
    service_url: String,
    /// `service_url`, form-encoded.
    service_param: String,
}

/// `t` is what `url::Url::parse` makes of some string.
pub open spec fn is_url_text(t: Seq<char>) -> bool {
    exists|s: Seq<char>| url_serialization(s) == Some(t)
}

/// The query of the login redirect: the service URL, form-encoded.
pub open spec fn login_query(service: Seq<char>) -> Seq<char> {
    "service="@ + form_encoded(service)
}

/// The query of the validation request: service URL, then ticket.
pub open spec fn validation_query(service: Seq<char>, ticket: Seq<char>) -> Seq<char> {
    "service="@ + form_encoded(service) + "&ticket="@ + form_encoded(ticket)
}

/// What a request's URI says of its ticket.
pub ghost enum TicketLookup {
    /// The URI has a shape that carries no query.
    Unsupported,
    /// The URI could not be read as a URL.
    BadUrl,
    /// The URI has no query, or no non-empty `ticket` parameter.
    Missing,
    /// The value of the last `ticket` parameter.
    Found(Seq<char>),
}

/// The URL that a request URI stands for: an absolute path is completed with
/// a placeholder scheme and host.
pub open spec fn request_url_text(uri: RequestUri) -> Option<Seq<char>> {
    match uri {
        RequestUri::AbsolutePath(p) => Some("http://none"@ + p@),
        RequestUri::AbsoluteUri(u) => Some(u@),
        _ => None,
    }
}

/// The value of the last pair named `ticket`, or empty where none is.
pub open spec fn last_ticket(pairs: Seq<(Seq<char>, Seq<char>)>) -> Seq<char>
    decreases pairs.len(),
{
    if pairs.len() == 0 {
        Seq::empty()
    } else if pairs.last().0 == "ticket"@ {
        pairs.last().1
    } else {
        last_ticket(pairs.drop_last())
    }
}

pub open spec fn ticket_lookup(uri: RequestUri) -> TicketLookup {
    match request_url_text(uri) {
        None => TicketLookup::Unsupported,
        Some(t) => match url_query(t) {
            None => TicketLookup::BadUrl,
            Some(None) => TicketLookup::Missing,
            Some(Some(q)) => if last_ticket(form_decoded(q)).len() == 0 {
                TicketLookup::Missing
            } else {
                TicketLookup::Found(last_ticket(form_decoded(q)))
            },
        },
    }
}

/// A result of ticket extraction agrees with the lookup.
pub open spec fn matches_lookup<T>(r: &Result<T, VerifyError>, l: TicketLookup) -> bool {
    match l {
        TicketLookup::Unsupported => r matches Err(VerifyError::UnsupportedUriType),
        TicketLookup::BadUrl => r matches Err(VerifyError::Url(_)),
        TicketLookup::Missing => r matches Err(VerifyError::NoTicketFound),
        TicketLookup::Found(_) => r is Ok,
    }
}

/// Concatenates two strings.
fn joined(a: &str, b: &str) -> (r: String)
    ensures
        r@ == a@ + b@,
{
    let mut r = a.to_owned();
    r.append(b);
    r
}

/// Reads the ticket from the query of a callback request's URI: the last
/// `ticket` parameter, which must be non-empty.
pub fn ticket_from_request(uri: &RequestUri) -> (r: Result<String, VerifyError>)
    ensures
        matches_lookup(&r, ticket_lookup(*uri)),
        r matches Ok(t) ==> ticket_lookup(*uri) == TicketLookup::Found(t@),
{
    let text = match uri {
        RequestUri::AbsolutePath(p) => joined("http://none", p.as_str()),
        RequestUri::AbsoluteUri(u) => u.clone(),
        _ => {
            return Err(VerifyError::UnsupportedUriType);
        },
    };
    assert(request_url_text(*uri) == Some(text@));
    let query = match parse_query(text.as_str()) {
        Ok(Some(q)) => q,
        Ok(None) => {
            return Err(VerifyError::NoTicketFound);
        },
        Err(e) => {
            return Err(VerifyError::Url(e));
        },
    };
    let pairs = form_decode(query.as_str());
    let ghost pv = pairs_view(pairs@);
    let mut ticket = String::new();
    let mut i: usize = 0;
    while i < pairs.len()
        invariant
            i <= pairs.len(),
            pv == pairs_view(pairs@),
            ticket@ == last_ticket(pv.take(i as int)),
        decreases pairs.len() - i,
    {
        assert(pv.take(i + 1).drop_last() =~= pv.take(i as int));
        if text_eq(pairs[i].0.as_str(), "ticket") {
            ticket = pairs[i].1.clone();
        }
        i = i + 1;
    }
    assert(pv.take(pairs.len() as int) =~= pv);
    if ticket.unicode_len() == 0 {
        return Err(VerifyError::NoTicketFound);
    }
    Ok(ticket)
}

impl CasClient {
    pub closed spec fn login_text(&self) -> Seq<char> {
        self.login_url@
    }

    pub closed spec fn logout_text(&self) -> Seq<char> {
        self.logout_url@
    }

    pub closed spec fn verify_text(&self) -> Seq<char> {
        self.verify_url@
    }

    pub closed spec fn service_text(&self) -> Seq<char> {
        self.service_url@
    }

    /// Each endpoint is the serialization of a parsed absolute URL.
    pub closed spec fn wf(&self) -> bool {
        &&& is_url_text(self.login_text())
        &&& is_url_text(self.logout_text())
        &&& is_url_text(self.verify_text())
        &&& is_url_text(self.service_text())
        &&& self.service_param@ == form_encoded(self.service_url@)
        &&& forall|k: int|
            0 <= k < self.service_param@.len() ==> form_safe(#[trigger] self.service_param@[k])
    }

    /// The login redirect target.
    pub open spec fn login_target(&self) -> Seq<char> {
        with_query(self.login_text(), login_query(self.service_text()))
    }

    /// The validation request target for `ticket`.
    pub open spec fn validation_target(&self, ticket: Seq<char>) -> Seq<char> {
        with_query(self.verify_text(), validation_query(self.service_text(), ticket))
    }

    /// The login URL's query is the single parameter `service`, whose value
    /// is the form-encoded service URL; that value holds no `&`, `=` or `#`.
    pub proof fn login_url_has_single_service_parameter(&self)
        requires
            self.wf(),
        ensures
            query_of(self.login_target()) == "service="@ + form_encoded(self.service_text()),
            forall|k: int|
                0 <= k < form_encoded(self.service_text()).len() ==> {
                    let c = #[trigger] form_encoded(self.service_text())[k];
                    c != '&' && c != '=' && c != '#'
                },
    {
        let v = form_encoded(self.service_text());
        let q = login_query(self.service_text());
        reveal_strlit("service=");
        assert forall|k: int| 0 <= k < q.len() implies q[k] != '#' by {
            if k >= 8 {
                assert(q[k] == v[k - 8]);
                assert(form_safe(self.service_param@[k - 8]));
            }
        }
        lemma_query_of_with_query(self.login_text(), q);
        assert forall|k: int| 0 <= k < v.len() implies ({
            let c = #[trigger] v[k];
            c != '&' && c != '=' && c != '#'
        }) by {
            assert(form_safe(self.service_param@[k]));
        }
    }

    /// Builds a client. The login, logout and validation URLs are `base_url`
    /// followed by the respective path; `service_url` stands alone. Fails on
    /// the first of the four, in that order, that is not an absolute URL.
    pub fn new(
        base_url: &str,
        login_path: &str,
        logout_path: &str,
        verify_path: &str,
        service_url: &str,
    ) -> (r: Result<CasClient, ConfigError>)
        ensures
            r is Ok <==> {
                &&& url_serialization(base_url@ + login_path@) is Some
                &&& url_serialization(base_url@ + logout_path@) is Some
                &&& url_serialization(base_url@ + verify_path@) is Some
                &&& url_serialization(service_url@) is Some
            },
            r matches Ok(c) ==> {
                &&& c.wf()
                &&& Some(c.login_text()) == url_serialization(base_url@ + login_path@)
                &&& Some(c.logout_text()) == url_serialization(base_url@ + logout_path@)
                &&& Some(c.verify_text()) == url_serialization(base_url@ + verify_path@)
                &&& Some(c.service_text()) == url_serialization(service_url@)
            },
            r matches Err(e) ==> e.input@ == if url_serialization(base_url@ + login_path@) is None {
                base_url@ + login_path@
            } else if url_serialization(base_url@ + logout_path@) is None {
                base_url@ + logout_path@
            } else if url_serialization(base_url@ + verify_path@) is None {
                base_url@ + verify_path@
            } else {
                service_url@
            },
    {
        let login = joined(base_url, login_path);
        let login_url = match parse_absolute(login.as_str()) {
            Ok(u) => u,
            Err(cause) => {
                return Err(ConfigError { input: login, cause });
            },
        };
        let logout = joined(base_url, logout_path);
        let logout_url = match parse_absolute(logout.as_str()) {
            Ok(u) => u,
            Err(cause) => {
                return Err(ConfigError { input: logout, cause });
            },
        };
        let verify = joined(base_url, verify_path);
        let verify_url = match parse_absolute(verify.as_str()) {
            Ok(u) => u,
            Err(cause) => {
                return Err(ConfigError { input: verify, cause });
            },
        };
        let service_url = match parse_absolute(service_url) {
            Ok(u) => u,
            Err(cause) => {
                return Err(ConfigError { input: service_url.to_owned(), cause });
            },
        };
        let service_param = form_encode(service_url.as_str());
        Ok(CasClient { login_url, logout_url, verify_url, service_url, service_param })
    }

    /// The URL to send a user to for login: the login URL with the single
    /// query parameter `service`, the form-encoded service URL.
    pub fn get_login_url(&self) -> (r: String)
        requires
            self.wf(),
        ensures
            r@ == self.login_target(),
    {
        let query = joined("service=", self.service_param.as_str());
        set_query(self.login_url.as_str(), query.as_str())
    }

    /// The URL to send a user to for logout, unchanged.
    pub fn get_logout_url(&self) -> (r: String)
        ensures
            r@ == self.logout_text(),
    {
        self.logout_url.clone()
    }

    /// The validation URL for `ticket`: the validation endpoint with the
    /// query parameters `service` and `ticket`, in that order, form-encoded.
    pub fn validation_url(&self, ticket: &str) -> (r: String)
        requires
            self.wf(),
        ensures
            r@ == self.validation_target(ticket@),
    {
        let encoded_ticket = form_encode(ticket);
        let mut query = joined("service=", self.service_param.as_str());
        query.append("&ticket=");
        query.append(encoded_ticket.as_str());
        set_query(self.verify_url.as_str(), query.as_str())
    }

    /// The validation URL for the ticket that a callback request carries.
    pub fn request_validation_url(&self, uri: &RequestUri) -> (r: Result<String, VerifyError>)
        requires
            self.wf(),
        ensures
            matches_lookup(&r, ticket_lookup(*uri)),
            ticket_lookup(*uri) matches TicketLookup::Found(t) ==> r matches Ok(u)
                && u@ == self.validation_target(t),
    {
        let ticket = ticket_from_request(uri)?;
        Ok(self.validation_url(ticket.as_str()))
    }

    /// The redirect to the login page: `302 Found` to `get_login_url()`.
    pub fn login_redirect(&self) -> (r: Redirect)
        requires
            self.wf(),
        ensures
            r.status == 302,
            r.location@ == self.login_target(),
    {
        Redirect { status: 302, location: self.get_login_url() }
    }

    /// The redirect to the logout page: `302 Found` to `get_logout_url()`.
    pub fn logout_redirect(&self) -> (r: Redirect)
        ensures
            r.status == 302,
            r.location@ == self.logout_text(),
    {
        Redirect { status: 302, location: self.get_logout_url() }
    }
}

} // verus!
