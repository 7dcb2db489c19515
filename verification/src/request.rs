//! The per-request side of the filter: whether an exchange is eligible for
//! the feedback header, and which value it then carries.
use crate::text::{
    is_blank, lemma_trimmed_empty_iff_blank, starts_with, text_of, trim, trimmed,
};
use vstd::prelude::*;
use vstd::string::*;

verus! {

/// The request header that is matched.
pub const USER_AGENT: &'static str = "user-agent";

/// The response header that carries the feedback value.
pub const HEADER_NAME: &'static str = "X-Load-Feedback";

/// One request and its response. It holds what the configuration and the
/// cache said when the request arrived.
pub struct RequestContext {
    add_header: bool,
    user_agent: String,
    host_svc_header: String,
}

/// A `RequestContext` as plain values.
pub struct RequestContextView {
    pub add_header: bool,
    pub user_agent: Seq<char>,
    pub host_svc_header: Seq<char>,
}

impl View for RequestContext {
    type V = RequestContextView;

    closed spec fn view(&self) -> RequestContextView {
        RequestContextView {
            add_header: self.add_header,
            user_agent: self.user_agent@,
            host_svc_header: self.host_svc_header@,
        }
    }
}

/// Whether a request is eligible: always when nothing is to be matched, else
/// only when its user agent is present and begins with what is to be matched.
pub open spec fn eligible(wanted: Seq<char>, user_agent: Option<Seq<char>>) -> bool {
    wanted.len() == 0 || (user_agent matches Some(agent) && wanted.is_prefix_of(agent))
}

/// The value of the feedback header of a response: the trimmed value of an
/// eligible exchange, and none when that value is blank.
pub open spec fn served_value(context: RequestContextView) -> Option<Seq<char>> {
    if context.add_header && !is_blank(context.host_svc_header) {
        Some(trimmed(context.host_svc_header))
    } else {
        None
    }
}

impl RequestContext {
    /// A context for a request that has not been looked at yet: it matches
    /// `user_agent` and would serve `host_svc_header`.
    pub fn new(user_agent: String, host_svc_header: String) -> (context: RequestContext)
        ensures
            context@ == (RequestContextView {
                add_header: false,
                user_agent: user_agent@,
                host_svc_header: host_svc_header@,
            }),
    {
        RequestContext { add_header: false, user_agent, host_svc_header }
    }

    /// Whether the exchange was found eligible.
    pub fn add_header(&self) -> (eligible: bool)
        ensures
            eligible == self@.add_header,
    {
        self.add_header
    }

    /// The user agent that requests are matched against.
    pub fn user_agent(&self) -> (wanted: &str)
        ensures
            wanted@ == self@.user_agent,
    {
        self.user_agent.as_str()
    }

    /// The value that the context would serve, before trimming.
    pub fn host_svc_header(&self) -> (value: &str)
        ensures
            value@ == self@.host_svc_header,
    {
        self.host_svc_header.as_str()
    }

    /// Looks at a request's user agent, absent or present, and records
    /// whether the exchange is eligible.
    pub fn on_http_request_headers(&mut self, user_agent: Option<&str>)
        ensures
            final(self)@ == (RequestContextView {
                add_header: eligible(old(self)@.user_agent, text_of(user_agent)),
                ..old(self)@
            }),
    {
        let matched = if self.user_agent.as_str().is_empty() {
            true
        } else {
            match user_agent {
                Some(agent) => starts_with(agent, self.user_agent.as_str()),
                None => false,
            }
        };
        self.add_header = matched;
    }

    /// The value to set as the feedback header of the response, if any.
    pub fn on_http_response_headers(&self) -> (header: Option<String>)
        ensures
            header is Some <==> served_value(self@) is Some,
            header matches Some(value) ==> served_value(self@) == Some(value@),
    {
        if !self.add_header {
            return None;
        }
        let value = trim(self.host_svc_header.as_str());
        proof {
            lemma_trimmed_empty_iff_blank(self.host_svc_header@);
        }
        if value.is_empty() {
            None
        } else {
            Some(value.to_owned())
        }
    }
}

} // verus!
