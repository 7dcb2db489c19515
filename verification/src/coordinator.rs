//! The refresh cycle of the cache: a state machine that is told what happened
//! (a configuration arrived, the timer fired, a call failed or returned) and
//! answers with what to do next. It performs no call and sets no timer itself.
use crate::cache::{
    acceptable, accepts, body_value, value_in, CacheEntry, CacheEntryView, CacheSource,
};
use crate::config::{
    fetch_path, raw_view, validate, validated, ConfigFault, ConfigFields, FilterConfig,
    FilterConfigError, FilterConfigView,
};
use crate::request::{RequestContext, RequestContextView};
use crate::resolver::{lemma_single_token_has_no_key, resolve, resolved_key, SEPARATOR};
use crate::text::{text_of, utf8_text};
use vstd::prelude::*;
use vstd::string::*;
use vstd::utf8::*;

verus! {

/// Seconds to wait before the first refresh and after a failed one.
pub const INITIALIZATION_INTERVAL_SECS: u64 = 2;

/// Seconds after which a refresh call is given up.
pub const FETCH_TIMEOUT_SECS: u64 = 5;

/// The method of the refresh call.
pub const FETCH_METHOD: &'static str = "GET";

/// Where the refresh cycle stands.
#[derive(Clone, Copy, Debug, PartialEq, Eq, Structural)]
pub enum RefreshState {
    /// No valid configuration yet.
    Uninitialized,
    /// Configured, and waiting for the next refresh to come back.
    AwaitingFetch,
    /// The last refresh succeeded.
    Ready,
    /// The last refresh failed; an earlier entry, if any, is still served.
    Degraded,
}

/// The call that a refresh asks for.
#[derive(Clone, Debug, PartialEq, Eq)]
pub struct FetchRequest {
    /// The upstream cluster to call.
    pub cluster: String,
    /// The path to ask for.
    pub path: String,
    /// The authority to name.
    pub authority: String,
    /// After how many seconds the call is given up.
    pub timeout_secs: u64,
}

/// A `FetchRequest` as plain values.
pub struct FetchRequestView {
    pub cluster: Seq<char>,
    pub path: Seq<char>,
    pub authority: Seq<char>,
    pub timeout_secs: u64,
}

impl View for FetchRequest {
    type V = FetchRequestView;

    open spec fn view(&self) -> FetchRequestView {
        FetchRequestView {
            cluster: self.cluster@,
            path: self.path@,
            authority: self.authority@,
            timeout_secs: self.timeout_secs,
        }
    }
}

/// What a completed refresh call led to.
#[derive(Clone, Copy, Debug, PartialEq, Eq, Structural)]
pub enum RefreshOutcome {
    /// No call was outstanding: nothing changed.
    Ignored,
    /// The entry was replaced; the next refresh is due after the given seconds.
    Refreshed { next_tick_secs: u64 },
    /// The call failed; the next refresh is due after the given seconds.
    Failed { next_tick_secs: u64 },
}

/// Whether `c` is a decimal digit.
pub open spec fn is_digit(c: char) -> bool {
    0x30 <= c as u32 <= 0x39
}

/// Whether the status of a response counts as a success: it is there and is
/// three digits of which the first is a 2.
pub open spec fn is_success(status: Option<Seq<char>>) -> bool {
    status matches Some(code) && code.len() == 3 && code[0] == '2' && is_digit(code[1])
        && is_digit(code[2])
}

/// Whether a completed call refreshes the cache: its status is a success and
/// its body is there and has the shape that the source asks for.
pub open spec fn refreshes(
    source: CacheSource,
    status: Option<Seq<char>>,
    body: Option<Seq<u8>>,
) -> bool {
    is_success(status) && (body matches Some(raw) && acceptable(source, raw))
}

/// The body that a completed call contributes to the cache: its own when the
/// call refreshes the cache, none otherwise.
pub open spec fn good_body(
    source: CacheSource,
    status: Option<Seq<char>>,
    body: Option<Seq<u8>>,
) -> Option<Seq<u8>> {
    if refreshes(source, status, body) {
        body
    } else {
        None
    }
}

/// The text of a host identity: empty when it is absent or not UTF-8.
pub open spec fn host_text(host: Option<Seq<u8>>) -> Seq<char> {
    match host {
        Some(raw) => if valid_utf8(raw) {
            decode_utf8(raw)
        } else {
            Seq::empty()
        },
        None => Seq::empty(),
    }
}

/// The refresh cycle as plain values.
pub struct CoordinatorModel {
    /// The validated configuration, once there is one.
    pub config: Option<FilterConfigView>,
    /// Where the cycle stands.
    pub state: RefreshState,
    /// The last good response, once there is one.
    pub entry: Option<CacheEntryView>,
    /// Whether a refresh call is outstanding.
    pub fetch_outstanding: bool,
    /// How responses are read.
    pub source: CacheSource,
}

impl CoordinatorModel {
    /// What holds of every coordinator: it is uninitialized exactly while it
    /// has no configuration, and then holds nothing; a call is outstanding
    /// only while a fetch is awaited; a ready coordinator has an entry; and an
    /// entry always has the shape that the source asks for.
    pub open spec fn wf(self) -> bool {
        &&& self.state is Uninitialized <==> self.config is None
        &&& self.config is None ==> self.entry is None && !self.fetch_outstanding
        &&& self.fetch_outstanding ==> self.state is AwaitingFetch
        &&& self.state is Ready ==> self.entry is Some
        &&& self.entry matches Some(entry) ==> entry.source == self.source && acceptable(
            self.source,
            entry.raw_value,
        )
    }

    /// A coordinator that has seen nothing yet.
    pub open spec fn initial(source: CacheSource) -> CoordinatorModel {
        CoordinatorModel {
            config: None,
            state: RefreshState::Uninitialized,
            entry: None,
            fetch_outstanding: false,
            source,
        }
    }

    /// After a configuration arrived: the cycle starts over, with the new
    /// configuration if it is valid and without any if it is not.
    pub open spec fn configure(
        self,
        outcome: Result<FilterConfigView, ConfigFault>,
    ) -> CoordinatorModel {
        match outcome {
            Ok(config) => CoordinatorModel {
                config: Some(config),
                state: RefreshState::AwaitingFetch,
                entry: None,
                fetch_outstanding: false,
                source: self.source,
            },
            Err(_) => CoordinatorModel::initial(self.source),
        }
    }

    /// Whether a tick starts a refresh: there is a configuration and no call
    /// is outstanding.
    pub open spec fn tick_fires(self) -> bool {
        self.config is Some && !self.fetch_outstanding
    }

    /// The call that a tick asks for, if it starts a refresh.
    pub open spec fn tick_request(self) -> Option<FetchRequestView> {
        if self.tick_fires() {
            let config = self.config->0;
            Some(
                FetchRequestView {
                    cluster: config.service_cluster,
                    path: fetch_path(config),
                    authority: config.service_authority,
                    timeout_secs: FETCH_TIMEOUT_SECS,
                },
            )
        } else {
            None
        }
    }

    /// After a tick: a refresh is awaited, unless the tick was ignored.
    pub open spec fn tick(self) -> CoordinatorModel {
        if self.tick_fires() {
            CoordinatorModel {
                state: RefreshState::AwaitingFetch,
                fetch_outstanding: true,
                ..self
            }
        } else {
            self
        }
    }

    /// After the refresh call could not be made: degraded, the entry kept.
    pub open spec fn dispatch_failed(self) -> CoordinatorModel {
        if self.fetch_outstanding {
            CoordinatorModel { state: RefreshState::Degraded, fetch_outstanding: false, ..self }
        } else {
            self
        }
    }

    /// What a settled call leads to, where `good` is the body that it
    /// contributes, if any.
    pub open spec fn settle_outcome(self, good: Option<Seq<u8>>) -> RefreshOutcome {
        if !self.fetch_outstanding || self.config is None {
            RefreshOutcome::Ignored
        } else if good is Some {
            RefreshOutcome::Refreshed { next_tick_secs: self.config->0.cache_seconds }
        } else {
            RefreshOutcome::Failed { next_tick_secs: INITIALIZATION_INTERVAL_SECS }
        }
    }

    /// After a call was settled at time `now`: a good body replaces the entry,
    /// the lack of one leaves the entry as it was.
    pub open spec fn settle(self, now: u64, good: Option<Seq<u8>>) -> CoordinatorModel {
        match self.settle_outcome(good) {
            RefreshOutcome::Ignored => self,
            RefreshOutcome::Refreshed { .. } => CoordinatorModel {
                state: RefreshState::Ready,
                entry: Some(
                    CacheEntryView { raw_value: good->0, written_at: now, source: self.source },
                ),
                fetch_outstanding: false,
                ..self
            },
            RefreshOutcome::Failed { .. } => CoordinatorModel {
                state: RefreshState::Degraded,
                fetch_outstanding: false,
                ..self
            },
        }
    }

    /// What a completed call leads to.
    pub open spec fn respond_outcome(
        self,
        status: Option<Seq<char>>,
        body: Option<Seq<u8>>,
    ) -> RefreshOutcome {
        self.settle_outcome(good_body(self.source, status, body))
    }

    /// After a call completed at time `now`: a good response replaces the
    /// entry, a bad one leaves it as it was.
    pub open spec fn respond(
        self,
        now: u64,
        status: Option<Seq<char>>,
        body: Option<Seq<u8>>,
    ) -> CoordinatorModel {
        self.settle(now, good_body(self.source, status, body))
    }

    /// The value that a new request behind `host` carries when `published` is
    /// the body in the cache: the configured constant when there is one, else
    /// what the body holds for the key of `host`, else nothing.
    pub open spec fn served_from(
        self,
        published: Option<Seq<u8>>,
        host: Option<Seq<u8>>,
    ) -> Seq<char> {
        match self.config {
            None => Seq::empty(),
            Some(config) => if config.burst_header.len() > 0 {
                config.burst_header
            } else {
                match published {
                    None => Seq::empty(),
                    Some(raw) => match body_value(
                        self.source,
                        raw,
                        resolved_key(host_text(host)),
                    ) {
                        Some(value) => value,
                        None => Seq::empty(),
                    },
                }
            },
        }
    }

    /// The context of a new request behind `host` when `published` is the
    /// body in the cache; none while there is no configuration.
    pub open spec fn context_from(
        self,
        published: Option<Seq<u8>>,
        host: Option<Seq<u8>>,
    ) -> Option<RequestContextView> {
        match self.config {
            None => None,
            Some(config) => Some(
                RequestContextView {
                    add_header: false,
                    user_agent: config.user_agent,
                    host_svc_header: self.served_from(published, host),
                },
            ),
        }
    }

    /// The body of the coordinator's own entry.
    pub open spec fn own_body(self) -> Option<Seq<u8>> {
        match self.entry {
            Some(entry) => Some(entry.raw_value),
            None => None,
        }
    }

    /// The value that a new request carries when it is served from the
    /// coordinator's own entry.
    pub open spec fn header_value(self, host: Option<Seq<u8>>) -> Seq<char> {
        self.served_from(self.own_body(), host)
    }

    /// The context of a new request that is served from the coordinator's own
    /// entry.
    pub open spec fn context(self, host: Option<Seq<u8>>) -> Option<RequestContextView> {
        self.context_from(self.own_body(), host)
    }
}

/// Every step keeps a coordinator well-formed.
pub proof fn lemma_steps_keep_wf(
    before: CoordinatorModel,
    outcome: Result<FilterConfigView, ConfigFault>,
    now: u64,
    status: Option<Seq<char>>,
    body: Option<Seq<u8>>,
)
    requires
        before.wf(),
    ensures
        CoordinatorModel::initial(before.source).wf(),
        before.configure(outcome).wf(),
        before.tick().wf(),
        before.dispatch_failed().wf(),
        before.respond(now, status, body).wf(),
{
}

/// Settling a call keeps a coordinator well-formed, as long as the body that
/// is handed over has the shape that the source asks for.
pub proof fn lemma_settle_keeps_wf(before: CoordinatorModel, now: u64, good: Option<Seq<u8>>)
    requires
        before.wf(),
        good matches Some(raw) ==> acceptable(before.source, raw),
    ensures
        before.settle(now, good).wf(),
{
}

/// While a call is outstanding a tick is dropped: it asks for no second call
/// and changes nothing.
pub proof fn lemma_one_fetch_at_a_time(before: CoordinatorModel)
    requires
        before.fetch_outstanding,
    ensures
        before.tick_request() is None,
        before.tick() == before,
{
}

/// A good response is kept for the configured lifetime: the next refresh is
/// due after `cache_seconds`, and until a tick starts it no completion and no
/// failed dispatch touches the coordinator, while the tick itself leaves the
/// entry in place.
pub proof fn lemma_entry_kept_until_next_tick(
    before: CoordinatorModel,
    now: u64,
    status: Option<Seq<char>>,
    body: Option<Seq<u8>>,
    later: u64,
    later_status: Option<Seq<char>>,
    later_body: Option<Seq<u8>>,
)
    requires
        before.wf(),
        before.fetch_outstanding,
        refreshes(before.source, status, body),
    ensures
        before.respond_outcome(status, body) == (RefreshOutcome::Refreshed {
            next_tick_secs: before.config->0.cache_seconds,
        }),
        before.respond(now, status, body).state == RefreshState::Ready,
        before.respond(now, status, body).entry == Some(
            CacheEntryView { raw_value: body->0, written_at: now, source: before.source },
        ),
        before.respond(now, status, body).respond(later, later_status, later_body)
            == before.respond(now, status, body),
        before.respond(now, status, body).dispatch_failed() == before.respond(now, status, body),
        before.respond(now, status, body).tick().entry == before.respond(now, status, body).entry,
{
}

/// A failed refresh keeps the entry as it was and asks for the next refresh
/// after the short interval, whether the call came back bad or could not be
/// made at all.
pub proof fn lemma_failed_refresh_keeps_entry(
    before: CoordinatorModel,
    now: u64,
    status: Option<Seq<char>>,
    body: Option<Seq<u8>>,
)
    requires
        before.wf(),
        before.fetch_outstanding,
        !refreshes(before.source, status, body),
    ensures
        before.respond(now, status, body).entry == before.entry,
        before.respond(now, status, body).state == RefreshState::Degraded,
        before.respond_outcome(status, body) == (RefreshOutcome::Failed {
            next_tick_secs: INITIALIZATION_INTERVAL_SECS,
        }),
        before.dispatch_failed().entry == before.entry,
        before.dispatch_failed().state == RefreshState::Degraded,
{
}

/// The entry changes in one way only: a good response to an outstanding call
/// replaces it. Ticks, failed dispatches and every other completion leave it.
pub proof fn lemma_entry_changes_only_on_refresh(
    before: CoordinatorModel,
    now: u64,
    status: Option<Seq<char>>,
    body: Option<Seq<u8>>,
)
    requires
        before.wf(),
    ensures
        before.tick().entry == before.entry,
        before.dispatch_failed().entry == before.entry,
        before.respond(now, status, body).entry != before.entry ==> before.fetch_outstanding
            && refreshes(before.source, status, body),
{
}

/// A host identity with fewer than two parts finds nothing in a map entry:
/// without a configured constant the request carries no value.
pub proof fn lemma_unresolvable_host_serves_nothing(model: CoordinatorModel, host: Option<Seq<u8>>)
    requires
        model.wf(),
        model.source == CacheSource::ClusterMap,
        model.config matches Some(config) && config.burst_header.len() == 0,
        !host_text(host).contains(SEPARATOR),
    ensures
        model.header_value(host) == Seq::<char>::empty(),
{
    lemma_single_token_has_no_key(host_text(host));
}

/// A configuration that may be absent, as plain values.
pub open spec fn config_view(config: Option<FilterConfig>) -> Option<FilterConfigView> {
    match config {
        Some(config) => Some(config@),
        None => None,
    }
}

/// An entry that may be absent, as plain values.
pub open spec fn entry_view(entry: Option<CacheEntry>) -> Option<CacheEntryView> {
    match entry {
        Some(entry) => Some(entry@),
        None => None,
    }
}

/// A body that may be absent, as plain values.
pub open spec fn body_view(body: Option<Vec<u8>>) -> Option<Seq<u8>> {
    match body {
        Some(raw) => Some(raw@),
        None => None,
    }
}

/// Bytes that may be absent, as plain values.
pub open spec fn bytes_view(bytes: Option<&[u8]>) -> Option<Seq<u8>> {
    match bytes {
        Some(raw) => Some(raw@),
        None => None,
    }
}

/// A request that may be absent, as plain values.
pub open spec fn request_view(request: Option<FetchRequest>) -> Option<FetchRequestView> {
    match request {
        Some(request) => Some(request@),
        None => None,
    }
}

/// A context that may be absent, as plain values.
pub open spec fn context_view(context: Option<RequestContext>) -> Option<RequestContextView> {
    match context {
        Some(context) => Some(context@),
        None => None,
    }
}

/// The text of a host identity as the topology gives it: empty when it is
/// absent or not UTF-8.
pub fn host_address<'a>(host: Option<&'a [u8]>) -> (text: &'a str)
    ensures
        text@ == host_text(bytes_view(host)),
{
    proof {
        reveal_strlit("");
        assert(""@ =~= Seq::<char>::empty());
    }
    match host {
        Some(raw) => match utf8_text(raw) {
            Some(text) => text,
            None => "",
        },
        None => "",
    }
}

/// Tells whether the status of a response counts as a success.
pub fn status_is_success(status: Option<&str>) -> (ok: bool)
    ensures
        ok == is_success(text_of(status)),
{
    match status {
        None => false,
        Some(code) => {
            if code.unicode_len() != 3 {
                return false;
            }
            let tens: u32 = code.get_char(1) as u32;
            let units: u32 = code.get_char(2) as u32;
            code.get_char(0) == '2' && 0x30 <= tens && tens <= 0x39 && 0x30 <= units && units
                <= 0x39
        },
    }
}

/// The owner of the refresh cycle and of the cache entry.
pub struct CacheCoordinator {
    config: Option<FilterConfig>,
    state: RefreshState,
    entry: Option<CacheEntry>,
    fetch_outstanding: bool,
    source: CacheSource,
}

impl View for CacheCoordinator {
    type V = CoordinatorModel;

    closed spec fn view(&self) -> CoordinatorModel {
        CoordinatorModel {
            config: config_view(self.config),
            state: self.state,
            entry: entry_view(self.entry),
            fetch_outstanding: self.fetch_outstanding,
            source: self.source,
        }
    }
}

impl CacheCoordinator {
    #[verifier::type_invariant]
    spec fn well_formed(self) -> bool {
        self@.wf()
    }

    /// A coordinator that reads responses as `source` says and has seen
    /// nothing yet.
    pub fn new(source: CacheSource) -> (coordinator: CacheCoordinator)
        ensures
            coordinator@ == CoordinatorModel::initial(source),
            coordinator@.wf(),
    {
        CacheCoordinator {
            config: None,
            state: RefreshState::Uninitialized,
            entry: None,
            fetch_outstanding: false,
            source,
        }
    }

    /// Where the cycle stands.
    pub fn state(&self) -> (state: RefreshState)
        ensures
            state == self@.state,
            self@.wf(),
    {
        proof {
            use_type_invariant(self);
        }
        self.state
    }

    /// How responses are read.
    pub fn source(&self) -> (source: CacheSource)
        ensures
            source == self@.source,
    {
        self.source
    }

    /// Whether a refresh call is outstanding.
    pub fn fetch_outstanding(&self) -> (outstanding: bool)
        ensures
            outstanding == self@.fetch_outstanding,
    {
        self.fetch_outstanding
    }

    /// The configuration, once there is a valid one.
    pub fn config(&self) -> (config: Option<&FilterConfig>)
        ensures
            match config {
                Some(config) => self@.config == Some(config@),
                None => self@.config is None,
            },
    {
        self.config.as_ref()
    }

    /// The last good response, once there is one.
    pub fn entry(&self) -> (entry: Option<&CacheEntry>)
        ensures
            match entry {
                Some(entry) => self@.entry == Some(entry@) && acceptable(
                    entry@.source,
                    entry@.raw_value,
                ),
                None => self@.entry is None,
            },
    {
        proof {
            use_type_invariant(self);
        }
        self.entry.as_ref()
    }

    /// Takes a configuration, absent or present, and starts the cycle over.
    /// A valid one is kept and the first refresh is due after the returned
    /// seconds; an invalid one leaves the coordinator without configuration.
    pub fn on_configure(&mut self, raw: Option<Result<ConfigFields, String>>) -> (r: Result<
        u64,
        FilterConfigError,
    >)
        ensures
            final(self)@ == old(self)@.configure(validated(raw_view(raw))),
            final(self)@.wf(),
            match r {
                Ok(delay) => validated(raw_view(raw)) is Ok && delay
                    == INITIALIZATION_INTERVAL_SECS,
                Err(e) => validated(raw_view(raw)) == Err::<FilterConfigView, ConfigFault>(e@),
            },
    {
        match validate(raw) {
            Ok(config) => {
                *self = CacheCoordinator {
                    config: Some(config),
                    state: RefreshState::AwaitingFetch,
                    entry: None,
                    fetch_outstanding: false,
                    source: self.source,
                };
                Ok(INITIALIZATION_INTERVAL_SECS)
            },
            Err(e) => {
                *self = CacheCoordinator {
                    config: None,
                    state: RefreshState::Uninitialized,
                    entry: None,
                    fetch_outstanding: false,
                    source: self.source,
                };
                Err(e)
            },
        }
    }

    /// The timer fired. Returns the call to make, or nothing when there is no
    /// configuration or a call is still outstanding: such a tick is dropped.
    pub fn on_tick(&mut self) -> (request: Option<FetchRequest>)
        ensures
            final(self)@ == old(self)@.tick(),
            final(self)@.wf(),
            request_view(request) == old(self)@.tick_request(),
    {
        proof {
            use_type_invariant(&*self);
        }
        if self.fetch_outstanding {
            return None;
        }
        let request = match &self.config {
            None => {
                return None;
            },
            Some(config) => FetchRequest {
                cluster: config.service_cluster.clone(),
                path: config.fetch_path(),
                authority: config.service_authority.clone(),
                timeout_secs: FETCH_TIMEOUT_SECS,
            },
        };
        self.state = RefreshState::AwaitingFetch;
        self.fetch_outstanding = true;
        Some(request)
    }

    /// The call that the last tick asked for could not be made. Returns the
    /// seconds after which to try again, or nothing when no call was asked
    /// for.
    pub fn on_dispatch_error(&mut self) -> (retry: Option<u64>)
        ensures
            final(self)@ == old(self)@.dispatch_failed(),
            final(self)@.wf(),
            retry == if old(self)@.fetch_outstanding {
                Some(INITIALIZATION_INTERVAL_SECS)
            } else {
                None
            },
    {
        proof {
            use_type_invariant(&*self);
        }
        if !self.fetch_outstanding {
            return None;
        }
        self.fetch_outstanding = false;
        self.state = RefreshState::Degraded;
        Some(INITIALIZATION_INTERVAL_SECS)
    }

    /// The outstanding call was settled at time `now`, and `good` is the body
    /// that it contributes: one of the shape that the source asks for, or none
    /// when the call failed. A good body replaces the entry, and the next
    /// refresh is due after the configured lifetime; without one the entry
    /// stays as it was, and the next refresh is due soon.
    pub fn settle(&mut self, now: u64, good: Option<Vec<u8>>) -> (outcome: RefreshOutcome)
        requires
            good matches Some(raw) ==> acceptable(old(self)@.source, raw@),
        ensures
            final(self)@ == old(self)@.settle(now, body_view(good)),
            final(self)@.wf(),
            outcome == old(self)@.settle_outcome(body_view(good)),
    {
        proof {
            use_type_invariant(&*self);
        }
        if !self.fetch_outstanding {
            return RefreshOutcome::Ignored;
        }
        let lifetime: u64 = match &self.config {
            None => {
                return RefreshOutcome::Ignored;
            },
            Some(config) => config.cache_seconds,
        };
        self.fetch_outstanding = false;
        match good {
            Some(raw) => {
                self.entry = Some(
                    CacheEntry { raw_value: raw, written_at: now, source: self.source },
                );
                self.state = RefreshState::Ready;
                RefreshOutcome::Refreshed { next_tick_secs: lifetime }
            },
            None => {
                self.state = RefreshState::Degraded;
                RefreshOutcome::Failed { next_tick_secs: INITIALIZATION_INTERVAL_SECS }
            },
        }
    }

    /// The outstanding call completed at time `now` with the status header
    /// `status` and with `body`, either of which is absent when it did not come
    /// back. The response is good when the status is a success and the body
    /// has the shape that the source asks for; it is then settled as `settle`
    /// says. A completion that no call is outstanding for is ignored.
    pub fn on_http_call_response(
        &mut self,
        now: u64,
        status: Option<&str>,
        body: Option<Vec<u8>>,
    ) -> (outcome: RefreshOutcome)
        ensures
            final(self)@ == old(self)@.respond(now, text_of(status), body_view(body)),
            final(self)@.wf(),
            outcome == old(self)@.respond_outcome(text_of(status), body_view(body)),
    {
        proof {
            use_type_invariant(&*self);
        }
        if !self.fetch_outstanding {
            return RefreshOutcome::Ignored;
        }
        let good = match body {
            Some(raw) => {
                if status_is_success(status) && accepts(self.source, raw.as_slice()) {
                    Some(raw)
                } else {
                    None
                }
            },
            None => None,
        };
        self.settle(now, good)
    }

    /// The entry could not be published to the shared store. Nothing changes
    /// here; the next refresh is due after the returned seconds.
    pub fn on_store_error(&self) -> (retry: u64)
        ensures
            retry == INITIALIZATION_INTERVAL_SECS,
    {
        INITIALIZATION_INTERVAL_SECS
    }

    /// The value that a new request behind `host` carries when `published` is
    /// the body in the cache, absent or present.
    pub fn served_from(&self, published: Option<&[u8]>, host: Option<&[u8]>) -> (value: String)
        ensures
            value@ == self@.served_from(bytes_view(published), bytes_view(host)),
    {
        let config = match &self.config {
            None => {
                return String::new();
            },
            Some(config) => config,
        };
        if !config.burst_header.as_str().is_empty() {
            return config.burst_header.clone();
        }
        let body = match published {
            None => {
                return String::new();
            },
            Some(body) => body,
        };
        let found = match self.source {
            CacheSource::Scalar => value_in(CacheSource::Scalar, body, ""),
            CacheSource::ClusterMap => {
                let key = resolve(host_address(host));
                value_in(CacheSource::ClusterMap, body, key.as_str())
            },
        };
        match found {
            Some(value) => value,
            None => String::new(),
        }
    }

    /// The value that a new request behind `host` carries when it is served
    /// from the coordinator's own entry.
    pub fn header_value(&self, host: Option<&[u8]>) -> (value: String)
        ensures
            value@ == self@.header_value(bytes_view(host)),
    {
        match &self.entry {
            Some(entry) => self.served_from(Some(entry.raw_value.as_slice()), host),
            None => self.served_from(None, host),
        }
    }

    /// The context of a new request behind `host` when `published` is the
    /// body in the cache. Both are as the host hands them over, absent or
    /// present. There is no context while the coordinator has no
    /// configuration.
    pub fn create_http_context_from(&self, published: Option<&[u8]>, host: Option<&[u8]>) -> (context:
        Option<RequestContext>)
        ensures
            context_view(context) == self@.context_from(bytes_view(published), bytes_view(host)),
    {
        let value = self.served_from(published, host);
        match &self.config {
            None => None,
            Some(config) => Some(RequestContext::new(config.user_agent.clone(), value)),
        }
    }

    /// The context of a new request behind `host` that is served from the
    /// coordinator's own entry.
    pub fn create_http_context(&self, host: Option<&[u8]>) -> (context: Option<RequestContext>)
        ensures
            context_view(context) == self@.context(bytes_view(host)),
    {
        match &self.entry {
            Some(entry) => self.create_http_context_from(Some(entry.raw_value.as_slice()), host),
            None => self.create_http_context_from(None, host),
        }
    }
}

} // verus!
