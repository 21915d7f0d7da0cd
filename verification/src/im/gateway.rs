//! Shared primitives of every adapter: the status record, the normalized
//! message, the event model and the deduplication cache.

use vstd::prelude::*;
use crate::im::http::HttpRequest;
use crate::im::http::HttpRequestView;
use crate::im::http::Json;
use crate::im::http::JsonView;
use crate::im::keyed::KeyedList;

verus! {

/// The characters of an optional string.
pub open spec fn opt_text(o: Option<String>) -> Option<Seq<char>> {
    match o {
        Some(s) => Some(s@),
        None => None,
    }
}

/// Copies an optional string.
pub fn clone_opt_string(o: &Option<String>) -> (r: Option<String>)
    ensures
        opt_text(r) == opt_text(*o),
{
    match o {
        Some(s) => Some(s.clone()),
        None => None,
    }
}

/// What a `GatewayStatus` holds, with strings as character sequences.
pub struct GatewayStatusView {
    pub enabled: bool,
    pub connected: bool,
    pub starting: bool,
    pub error: Option<Seq<char>>,
    pub started_at: Option<i64>,
    pub last_inbound_at: Option<i64>,
    pub last_outbound_at: Option<i64>,
    pub last_error: Option<Seq<char>>,
}

/// Connection state of one adapter. Well formed when `connected` and
/// `starting` are not both set.
#[derive(Debug)]
pub struct GatewayStatus {
    pub enabled: bool,
    pub connected: bool,
    pub starting: bool,
    pub error: Option<String>,
    pub started_at: Option<i64>,
    pub last_inbound_at: Option<i64>,
    pub last_outbound_at: Option<i64>,
    pub last_error: Option<String>,
}

impl View for GatewayStatus {
    type V = GatewayStatusView;

    open spec fn view(&self) -> GatewayStatusView {
        GatewayStatusView {
            enabled: self.enabled,
            connected: self.connected,
            starting: self.starting,
            error: opt_text(self.error),
            started_at: self.started_at,
            last_inbound_at: self.last_inbound_at,
            last_outbound_at: self.last_outbound_at,
            last_error: opt_text(self.last_error),
        }
    }
}

impl GatewayStatusView {
    /// `connected` and `starting` exclude each other.
    pub open spec fn wf(self) -> bool {
        !(self.connected && self.starting)
    }

    /// The status of an adapter that was never started.
    pub open spec fn initial() -> GatewayStatusView {
        GatewayStatusView {
            enabled: false,
            connected: false,
            starting: false,
            error: None,
            started_at: None,
            last_inbound_at: None,
            last_outbound_at: None,
            last_error: None,
        }
    }

    /// Entering the handshake: `starting` is set and the errors are cleared.
    pub open spec fn starting(self) -> GatewayStatusView {
        GatewayStatusView { starting: true, connected: false, error: None, last_error: None, ..self }
    }

    /// The handshake succeeded at `now_ms`.
    pub open spec fn connected(self, now_ms: i64) -> GatewayStatusView {
        GatewayStatusView {
            starting: false,
            connected: true,
            error: None,
            started_at: Some(now_ms),
            ..self
        }
    }

    /// An error is recorded; the connection flags stay.
    pub open spec fn with_error(self, message: Seq<char>) -> GatewayStatusView {
        GatewayStatusView { error: Some(message), last_error: Some(message), ..self }
    }

    /// The handshake failed with `message`.
    pub open spec fn failed(self, message: Seq<char>) -> GatewayStatusView {
        GatewayStatusView { starting: false, ..self.with_error(message) }
    }

    /// A deliberate stop.
    pub open spec fn stopped(self) -> GatewayStatusView {
        GatewayStatusView { connected: false, starting: false, error: None, ..self }
    }

    /// The connection was lost.
    pub open spec fn disconnected(self) -> GatewayStatusView {
        GatewayStatusView { connected: false, ..self }
    }

    /// Neither connected nor on the way to it.
    pub open spec fn idle(self) -> bool {
        !self.connected && !self.starting
    }
}

impl Default for GatewayStatus {
    fn default() -> (s: GatewayStatus)
        ensures
            s@ == GatewayStatusView::initial(),
    {
        GatewayStatus {
            enabled: false,
            connected: false,
            starting: false,
            error: None,
            started_at: None,
            last_inbound_at: None,
            last_outbound_at: None,
            last_error: None,
        }
    }
}

impl Clone for GatewayStatus {
    fn clone(&self) -> (s: GatewayStatus)
        ensures
            s@ == self@,
    {
        GatewayStatus {
            enabled: self.enabled,
            connected: self.connected,
            starting: self.starting,
            error: clone_opt_string(&self.error),
            started_at: self.started_at,
            last_inbound_at: self.last_inbound_at,
            last_outbound_at: self.last_outbound_at,
            last_error: clone_opt_string(&self.last_error),
        }
    }
}

impl GatewayStatus {
    /// Enters the handshake.
    pub fn mark_starting(&mut self)
        ensures
            final(self)@ == old(self)@.starting(),
            final(self)@.wf(),
    {
        self.starting = true;
        self.connected = false;
        self.error = None;
        self.last_error = None;
    }

    /// Records a successful handshake.
    pub fn mark_connected(&mut self, now_ms: i64)
        ensures
            final(self)@ == old(self)@.connected(now_ms),
            final(self)@.wf(),
    {
        self.starting = false;
        self.connected = true;
        self.error = None;
        self.started_at = Some(now_ms);
    }

    /// Records an error without touching the connection flags.
    pub fn record_error(&mut self, message: &str)
        ensures
            final(self)@ == old(self)@.with_error(message@),
            old(self)@.wf() ==> final(self)@.wf(),
    {
        self.error = Some(message.to_string());
        self.last_error = Some(message.to_string());
    }

    /// Records a failed handshake.
    pub fn mark_failed(&mut self, message: &str)
        ensures
            final(self)@ == old(self)@.failed(message@),
            final(self)@.wf(),
    {
        self.starting = false;
        self.error = Some(message.to_string());
        self.last_error = Some(message.to_string());
    }

    /// Records a deliberate stop.
    pub fn mark_stopped(&mut self)
        ensures
            final(self)@ == old(self)@.stopped(),
            final(self)@.wf(),
    {
        self.connected = false;
        self.starting = false;
        self.error = None;
    }

    /// Records a lost connection.
    pub fn mark_disconnected(&mut self)
        ensures
            final(self)@ == old(self)@.disconnected(),
            final(self)@.wf(),
    {
        self.connected = false;
    }

    /// Records the time of the last inbound message.
    pub fn touch_inbound(&mut self, now_ms: i64)
        ensures
            final(self)@ == (GatewayStatusView { last_inbound_at: Some(now_ms), ..old(self)@ }),
    {
        self.last_inbound_at = Some(now_ms);
    }

    /// Records the time of the last outbound message.
    pub fn touch_outbound(&mut self, now_ms: i64)
        ensures
            final(self)@ == (GatewayStatusView { last_outbound_at: Some(now_ms), ..old(self)@ }),
    {
        self.last_outbound_at = Some(now_ms);
    }
}

/// What an `IMMessage` holds, with strings as character sequences.
pub struct IMMessageView {
    pub id: Seq<char>,
    pub platform: Seq<char>,
    pub channel_id: Seq<char>,
    pub user_id: Seq<char>,
    pub user_name: Seq<char>,
    pub content: Seq<char>,
    pub timestamp: i64,
    pub is_mention: bool,
}

/// A message of any platform in one shape. `timestamp` counts seconds since
/// the epoch; `id` is the platform's own and unique only within one platform
/// and time window.
#[derive(Debug)]
pub struct IMMessage {
    pub id: String,
    pub platform: String,
    pub channel_id: String,
    pub user_id: String,
    pub user_name: String,
    pub content: String,
    pub timestamp: i64,
    pub is_mention: bool,
}

impl View for IMMessage {
    type V = IMMessageView;

    open spec fn view(&self) -> IMMessageView {
        IMMessageView {
            id: self.id@,
            platform: self.platform@,
            channel_id: self.channel_id@,
            user_id: self.user_id@,
            user_name: self.user_name@,
            content: self.content@,
            timestamp: self.timestamp,
            is_mention: self.is_mention,
        }
    }
}

impl Clone for IMMessage {
    fn clone(&self) -> (m: IMMessage)
        ensures
            m@ == self@,
    {
        IMMessage {
            id: self.id.clone(),
            platform: self.platform.clone(),
            channel_id: self.channel_id.clone(),
            user_id: self.user_id.clone(),
            user_name: self.user_name.clone(),
            content: self.content.clone(),
            timestamp: self.timestamp,
            is_mention: self.is_mention,
        }
    }
}

/// What a `GatewayEvent` holds.
pub enum GatewayEventView {
    StatusChanged(GatewayStatusView),
    Error(Seq<char>),
    Message(IMMessageView),
    Connected,
    Disconnected,
}

/// What an adapter reports upward. Besides `get_status` nothing else of an
/// adapter can be observed.
#[derive(Debug)]
pub enum GatewayEvent {
    StatusChanged(GatewayStatus),
    Error(String),
    Message(IMMessage),
    Connected,
    Disconnected,
}

impl View for GatewayEvent {
    type V = GatewayEventView;

    open spec fn view(&self) -> GatewayEventView {
        match self {
            GatewayEvent::StatusChanged(s) => GatewayEventView::StatusChanged(s@),
            GatewayEvent::Error(e) => GatewayEventView::Error(e@),
            GatewayEvent::Message(m) => GatewayEventView::Message(m@),
            GatewayEvent::Connected => GatewayEventView::Connected,
            GatewayEvent::Disconnected => GatewayEventView::Disconnected,
        }
    }
}

impl Clone for GatewayEvent {
    fn clone(&self) -> (e: GatewayEvent)
        ensures
            e@ == self@,
    {
        match self {
            GatewayEvent::StatusChanged(s) => GatewayEvent::StatusChanged(s.clone()),
            GatewayEvent::Error(e) => GatewayEvent::Error(e.clone()),
            GatewayEvent::Message(m) => GatewayEvent::Message(m.clone()),
            GatewayEvent::Connected => GatewayEvent::Connected,
            GatewayEvent::Disconnected => GatewayEvent::Disconnected,
        }
    }
}

/// The events of a list, each by its view.
pub open spec fn events_view(events: Seq<GatewayEvent>) -> Seq<GatewayEventView> {
    events.map_values(|e: GatewayEvent| e@)
}

/// The messages of a list, each by its view.
pub open spec fn messages_view(messages: Seq<IMMessage>) -> Seq<IMMessageView> {
    messages.map_values(|m: IMMessage| m@)
}

/// Entries older than this many seconds leave the cache at a sweep.
pub const SWEEP_TTL_SECONDS: i64 = 300;

/// Whether `id` was seen less than `ttl` seconds before `timestamp`.
pub open spec fn seen_recently(seen: Map<Seq<char>, i64>, id: Seq<char>, timestamp: i64, ttl: i64) -> bool {
    seen.contains_key(id) && timestamp - seen[id] < ttl
}

/// The entries of `seen` that are younger than the sweep limit at `now`.
pub open spec fn swept(seen: Map<Seq<char>, i64>, now: i64) -> Map<Seq<char>, i64> {
    Map::new(
        |id: Seq<char>| seen.contains_key(id) && now - seen[id] < SWEEP_TTL_SECONDS,
        |id: Seq<char>| seen[id],
    )
}

/// When each message id was last let through. Its view is the map from id to
/// that time, in seconds.
pub struct MessageDeduplicationCache {
    processed_messages: KeyedList<i64>,
}

impl View for MessageDeduplicationCache {
    type V = Map<Seq<char>, i64>;

    closed spec fn view(&self) -> Map<Seq<char>, i64> {
        self.processed_messages@
    }
}

impl MessageDeduplicationCache {
    /// A cache that has seen nothing.
    pub fn new() -> (cache: Self)
        ensures
            cache@ == Map::<Seq<char>, i64>::empty(),
    {
        MessageDeduplicationCache { processed_messages: KeyedList::new() }
    }

    /// How many ids the cache holds.
    pub fn len(&self) -> (n: usize)
        ensures
            n == self@.dom().len(),
            self@.dom().finite(),
    {
        self.processed_messages.check_wf();
        proof {
            let keys = self.processed_messages.keys();
            keys.unique_seq_to_set();
            assert(keys.to_set() =~= self@.dom());
        }
        self.processed_messages.len()
    }

    /// Whether the message `message_id`, arriving at `timestamp`, is a repeat:
    /// it is when the id was let through less than `ttl_seconds` before. A
    /// repeat leaves the cache as it is; anything else is recorded with
    /// `timestamp` and let through.
    pub fn check_and_mark(&mut self, message_id: &str, timestamp: i64, ttl_seconds: i64) -> (duplicate:
        bool)
        ensures
            duplicate == seen_recently(old(self)@, message_id@, timestamp, ttl_seconds),
            duplicate ==> final(self)@ == old(self)@,
            !duplicate ==> final(self)@ == old(self)@.insert(message_id@, timestamp),
    {
        match self.processed_messages.get(message_id) {
            Some(seen_at) => {
                if (timestamp as i128) - (*seen_at as i128) < ttl_seconds as i128 {
                    return true;
                }
            },
            None => {},
        }
        self.processed_messages.insert(message_id, timestamp);
        false
    }

    /// Drops every entry that is `SWEEP_TTL_SECONDS` old or older at `now`.
    pub fn cleanup(&mut self, now: i64)
        ensures
            final(self)@ == swept(old(self)@, now),
    {
        let mut i: usize = 0;
        while i < self.processed_messages.len()
            invariant
                i <= self.processed_messages.keys().len(),
                swept(self.processed_messages@, now) == swept(old(self)@, now),
                forall|j: int| 0 <= j < i ==> now - #[trigger] self.processed_messages.values()[j] < SWEEP_TTL_SECONDS,
            decreases self.processed_messages.keys().len() - i,
        {
            self.processed_messages.check_wf();
            let seen_at = *self.processed_messages.value_at(i);
            if (now as i128) - (seen_at as i128) < SWEEP_TTL_SECONDS as i128 {
                i += 1;
            } else {
                let ghost before = self.processed_messages@;
                let ghost gone = self.processed_messages.keys()[i as int];
                self.processed_messages.remove_at(i);
                assert(swept(self.processed_messages@, now) =~= swept(before, now));
            }
        }
        self.processed_messages.check_wf();
        proof {
            let list = self.processed_messages;
            assert forall|id: Seq<char>| list@.contains_key(id) implies now - list@[id] < SWEEP_TTL_SECONDS by {
                let j = list.keys().index_of(id);
                assert(list.keys().contains(id));
                assert(0 <= j < list.keys().len() && list.keys()[j] == id);
                assert(list@[list.keys()[j]] == list.values()[j]);
            }
            assert(list@ =~= swept(list@, now));
        }
    }
}

/// How far a sent message has got.
#[derive(Debug)]
pub enum MessageAckStatus {
    Pending,
    Sent,
    Delivered,
    Read,
    Failed(String),
}

/// What every adapter's configuration starts with.
#[derive(Debug, Clone, Copy, PartialEq, Eq)]
pub struct GatewayConfig {
    pub enabled: bool,
}

impl Default for GatewayConfig {
    fn default() -> (c: GatewayConfig)
        ensures
            !c.enabled,
    {
        GatewayConfig { enabled: false }
    }
}

/// What `start` found before any handshake.
#[derive(Debug, Clone, Copy, PartialEq, Eq, Structural)]
pub enum StartGate {
    /// Disabled, or connected already: nothing changes.
    Skip,
    /// Required credentials are missing: the error is recorded.
    Rejected,
    /// The status is `starting`: the handshake may begin.
    Open,
}

/// Which gate a start meets.
pub open spec fn start_gate(status: GatewayStatusView, enabled: bool, missing: Option<Seq<char>>) -> StartGate {
    if !enabled || status.connected {
        StartGate::Skip
    } else if missing is Some {
        StartGate::Rejected
    } else {
        StartGate::Open
    }
}

/// The status after a start has met its gate.
pub open spec fn status_after_gate(
    status: GatewayStatusView,
    enabled: bool,
    missing: Option<Seq<char>>,
) -> GatewayStatusView {
    match start_gate(status, enabled, missing) {
        StartGate::Skip => status,
        StartGate::Rejected => status.with_error(missing->0),
        StartGate::Open => status.starting(),
    }
}

/// The events that a start emits at its gate.
pub open spec fn events_at_gate(
    status: GatewayStatusView,
    enabled: bool,
    missing: Option<Seq<char>>,
) -> Seq<GatewayEventView> {
    let after = status_after_gate(status, enabled, missing);
    match start_gate(status, enabled, missing) {
        StartGate::Skip => Seq::empty(),
        StartGate::Rejected => seq![
            GatewayEventView::Error(missing->0),
            GatewayEventView::StatusChanged(after),
        ],
        StartGate::Open => seq![GatewayEventView::StatusChanged(after)],
    }
}

/// Whether `result` is what a start answers at its gate: nothing to do
/// where the start is skipped, the error where credentials are missing, and
/// a step to take where the handshake begins.
pub open spec fn answers_gate(
    status: GatewayStatusView,
    enabled: bool,
    missing: Option<Seq<char>>,
    result: Result<NextStepView, Seq<char>>,
) -> bool {
    match start_gate(status, enabled, missing) {
        StartGate::Skip => result == Ok::<NextStepView, Seq<char>>(NextStepView::Nothing),
        StartGate::Rejected => result == Err::<NextStepView, Seq<char>>(missing->0),
        StartGate::Open => result is Ok && result->Ok_0 != NextStepView::Nothing,
    }
}

/// The events that a stop emits: none where the adapter was idle.
pub open spec fn events_at_stop(status: GatewayStatusView) -> Seq<GatewayEventView> {
    if status.idle() {
        Seq::empty()
    } else {
        seq![GatewayEventView::StatusChanged(status.stopped()), GatewayEventView::Disconnected]
    }
}

impl GatewayStatus {
    /// The first half of every start. A disabled or connected adapter is left
    /// alone. One without its credentials records `missing` as its error. Any
    /// other enters the handshake with its errors cleared.
    pub fn begin_start(&mut self, enabled: bool, missing: Option<&str>) -> (r: (
        StartGate,
        Vec<GatewayEvent>,
    ))
        ensures
            r.0 == start_gate(old(self)@, enabled, opt_str_text(missing)),
            final(self)@ == status_after_gate(old(self)@, enabled, opt_str_text(missing)),
            events_view(r.1@) == events_at_gate(old(self)@, enabled, opt_str_text(missing)),
            old(self)@.wf() ==> final(self)@.wf(),
    {
        let mut events: Vec<GatewayEvent> = Vec::new();
        if !enabled || self.connected {
            assert(events_view(events@) =~= Seq::empty());
            return (StartGate::Skip, events);
        }
        match missing {
            Some(message) => {
                self.record_error(message);
                events.push(GatewayEvent::Error(message.to_string()));
                events.push(GatewayEvent::StatusChanged(self.clone()));
                assert(events_view(events@) =~= seq![
                    GatewayEventView::Error(message@),
                    GatewayEventView::StatusChanged(self@),
                ]);
                (StartGate::Rejected, events)
            },
            None => {
                self.mark_starting();
                events.push(GatewayEvent::StatusChanged(self.clone()));
                assert(events_view(events@) =~= seq![GatewayEventView::StatusChanged(self@)]);
                (StartGate::Open, events)
            },
        }
    }

    /// A handshake step failed with `message`: the status leaves `starting`
    /// and records the error.
    pub fn fail_start(&mut self, message: &str) -> (events: Vec<GatewayEvent>)
        ensures
            final(self)@ == old(self)@.failed(message@),
            events_view(events@) == seq![
                GatewayEventView::Error(message@),
                GatewayEventView::StatusChanged(final(self)@),
            ],
    {
        self.mark_failed(message);
        let mut events: Vec<GatewayEvent> = Vec::new();
        events.push(GatewayEvent::Error(message.to_string()));
        events.push(GatewayEvent::StatusChanged(self.clone()));
        assert(events_view(events@) =~= seq![
            GatewayEventView::Error(message@),
            GatewayEventView::StatusChanged(self@),
        ]);
        events
    }

    /// The handshake succeeded at `now_ms`.
    pub fn complete_start(&mut self, now_ms: i64) -> (events: Vec<GatewayEvent>)
        ensures
            final(self)@ == old(self)@.connected(now_ms),
            events_view(events@) == seq![
                GatewayEventView::StatusChanged(final(self)@),
                GatewayEventView::Connected,
            ],
    {
        self.mark_connected(now_ms);
        let mut events: Vec<GatewayEvent> = Vec::new();
        events.push(GatewayEvent::StatusChanged(self.clone()));
        events.push(GatewayEvent::Connected);
        assert(events_view(events@) =~= seq![
            GatewayEventView::StatusChanged(self@),
            GatewayEventView::Connected,
        ]);
        events
    }

    /// A deliberate stop. The flags and the error are cleared in any case;
    /// events are emitted only where the adapter was connected or starting.
    pub fn stop(&mut self) -> (events: Vec<GatewayEvent>)
        ensures
            final(self)@ == old(self)@.stopped(),
            events_view(events@) == events_at_stop(old(self)@),
    {
        let mut events: Vec<GatewayEvent> = Vec::new();
        let was_idle = !self.connected && !self.starting;
        self.mark_stopped();
        if was_idle {
            assert(events_view(events@) =~= Seq::empty());
        } else {
            events.push(GatewayEvent::StatusChanged(self.clone()));
            events.push(GatewayEvent::Disconnected);
            assert(events_view(events@) =~= seq![
                GatewayEventView::StatusChanged(self@),
                GatewayEventView::Disconnected,
            ]);
        }
        events
    }

    /// The connection was lost without a stop.
    pub fn drop_connection(&mut self) -> (events: Vec<GatewayEvent>)
        ensures
            final(self)@ == old(self)@.disconnected(),
            events_view(events@) == seq![GatewayEventView::Disconnected],
    {
        self.mark_disconnected();
        let mut events: Vec<GatewayEvent> = Vec::new();
        events.push(GatewayEvent::Disconnected);
        assert(events_view(events@) =~= seq![GatewayEventView::Disconnected]);
        events
    }
}

/// The characters of an optional string slice.
pub open spec fn opt_str_text(o: Option<&str>) -> Option<Seq<char>> {
    match o {
        Some(s) => Some(s@),
        None => None,
    }
}

/// What a `NextStep` holds.
pub enum NextStepView {
    Nothing,
    Request(HttpRequestView),
    Connect(Seq<char>),
    Poll,
    Send(JsonView),
}

/// What the caller of an adapter has to do next during a start.
#[derive(Debug)]
pub enum NextStep {
    /// Nothing.
    Nothing,
    /// Send this request and hand the answer to the adapter.
    Request(HttpRequest),
    /// Open a socket to this address and tell the adapter how it went.
    Connect(String),
    /// Begin to poll for updates.
    Poll,
    /// Send this frame on the socket that was opened.
    Send(Json),
}

impl View for NextStep {
    type V = NextStepView;

    open spec fn view(&self) -> NextStepView {
        match self {
            NextStep::Nothing => NextStepView::Nothing,
            NextStep::Request(r) => NextStepView::Request(r@),
            NextStep::Connect(url) => NextStepView::Connect(url@),
            NextStep::Poll => NextStepView::Poll,
            NextStep::Send(frame) => NextStepView::Send(frame@),
        }
    }
}

/// What a `StartReport` holds.
pub struct StartReportView {
    pub result: Result<NextStepView, Seq<char>>,
    pub events: Seq<GatewayEventView>,
}

/// How a step of a start went: what to do next, or why the start failed, and
/// the events that the step emitted.
#[derive(Debug)]
pub struct StartReport {
    pub result: Result<NextStep, String>,
    pub events: Vec<GatewayEvent>,
}

impl View for StartReport {
    type V = StartReportView;

    open spec fn view(&self) -> StartReportView {
        StartReportView {
            result: match self.result {
                Ok(step) => Ok(step@),
                Err(e) => Err(e@),
            },
            events: events_view(self.events@),
        }
    }
}

/// What a `Delivery` holds.
pub struct DeliveryView {
    pub request: HttpRequestView,
    pub attempts: u32,
    pub retry_delay_ms: u64,
    pub fallback: Option<HttpRequestView>,
}

/// One request to send, and what to do where it fails. The request is sent
/// up to `attempts` times, `retry_delay_ms` apart, until the platform
/// answers with success. Where it never does and there is a fallback, the
/// fallback is sent once.
#[derive(Debug)]
pub struct Delivery {
    pub request: HttpRequest,
    pub attempts: u32,
    pub retry_delay_ms: u64,
    pub fallback: Option<HttpRequest>,
}

impl View for Delivery {
    type V = DeliveryView;

    open spec fn view(&self) -> DeliveryView {
        DeliveryView {
            request: self.request@,
            attempts: self.attempts,
            retry_delay_ms: self.retry_delay_ms,
            fallback: match self.fallback {
                Some(f) => Some(f@),
                None => None,
            },
        }
    }
}

/// A request that is sent once.
pub open spec fn once(request: HttpRequestView) -> DeliveryView {
    DeliveryView { request, attempts: 1, retry_delay_ms: 0, fallback: None }
}

/// The deliveries of a list, each by its view.
pub open spec fn deliveries_view(list: Seq<Delivery>) -> Seq<DeliveryView> {
    Seq::new(list.len(), |i: int| list[i]@)
}

/// What an `Outbound` holds.
pub enum OutboundView {
    FetchToken(HttpRequestView),
    Deliver(Seq<DeliveryView>),
}

/// What has to go out for one operation.
#[derive(Debug)]
pub enum Outbound {
    /// The token is missing or about to expire: fetch one with this request,
    /// hand the answer to the adapter and ask again.
    FetchToken(HttpRequest),
    /// Make these deliveries in order.
    Deliver(Vec<Delivery>),
}

impl View for Outbound {
    type V = OutboundView;

    open spec fn view(&self) -> OutboundView {
        match self {
            Outbound::FetchToken(r) => OutboundView::FetchToken(r@),
            Outbound::Deliver(list) => OutboundView::Deliver(deliveries_view(list@)),
        }
    }
}

/// The view of the answer to a send.
pub open spec fn outbound_view(r: Result<Outbound, String>) -> Result<OutboundView, Seq<char>> {
    match r {
        Ok(o) => Ok(o@),
        Err(e) => Err(e@),
    }
}

/// One request to send once.
pub fn deliver_one(request: HttpRequest) -> (o: Outbound)
    ensures
        o@ == OutboundView::Deliver(seq![once(request@)]),
{
    let mut list: Vec<Delivery> = Vec::new();
    list.push(Delivery { request, attempts: 1, retry_delay_ms: 0, fallback: None });
    assert(deliveries_view(list@) =~= seq![once(request@)]);
    Outbound::Deliver(list)
}

/// The error of every send on an adapter that is not connected.
pub open spec fn not_connected_text() -> Seq<char> {
    "网关未连接"@
}

/// The error of every send on an adapter that is not connected.
pub fn not_connected() -> (e: String)
    ensures
        e@ == not_connected_text(),
{
    "网关未连接".to_string()
}

/// A start that changes nothing.
pub fn report_skip() -> (r: StartReport)
    ensures
        r@ == (StartReportView { result: Ok(NextStepView::Nothing), events: Seq::empty() }),
{
    let events: Vec<GatewayEvent> = Vec::new();
    assert(events_view(events@) =~= Seq::empty());
    StartReport { result: Ok(NextStep::Nothing), events }
}

/// What a platform lets an adapter do beyond sending text.
#[derive(Debug, Clone, Copy, PartialEq, Eq, Structural)]
pub struct Capabilities {
    pub media: bool,
    pub edit: bool,
    pub delete: bool,
    pub history: bool,
}

/// The contract that every platform's adapter keeps.
///
/// An adapter performs no request itself. `start` and the sends say what has
/// to be sent; the caller sends it and hands back what came of it.
pub trait Gateway {
    /// The adapter's status.
    spec fn status(&self) -> GatewayStatusView;

    /// Whether the configuration enables the adapter.
    spec fn enabled(&self) -> bool;

    /// The error of a start without the required credentials, where some are
    /// missing.
    spec fn missing_credentials(&self) -> Option<Seq<char>>;

    /// Whether a reconnect is held back although the adapter is not
    /// connected.
    spec fn reconnect_barred(&self) -> bool;

    /// Whether the adapter is connected.
    fn is_connected(&self) -> (connected: bool)
        ensures
            connected == self.status().connected,
    ;

    /// A copy of the status.
    fn get_status(&self) -> (status: GatewayStatus)
        ensures
            status@ == self.status(),
    ;

    /// Begins a start at `now`, in seconds. On a disabled or connected
    /// adapter nothing happens and nothing is asked for. Without credentials
    /// the start fails at once. Otherwise the status becomes `starting` and
    /// the first step of the handshake is handed out.
    fn start(&mut self, now: i64) -> (report: StartReport)
        ensures
            final(self).status() == status_after_gate(
                old(self).status(),
                old(self).enabled(),
                old(self).missing_credentials(),
            ),
            final(self).enabled() == old(self).enabled(),
            final(self).missing_credentials() == old(self).missing_credentials(),
            report@.events == events_at_gate(
                old(self).status(),
                old(self).enabled(),
                old(self).missing_credentials(),
            ),
            match start_gate(old(self).status(), old(self).enabled(), old(self).missing_credentials()) {
                StartGate::Skip => report@.result == Ok::<NextStepView, Seq<char>>(NextStepView::Nothing),
                StartGate::Rejected => report@.result == Err::<NextStepView, Seq<char>>(
                    old(self).missing_credentials()->0,
                ),
                StartGate::Open => report@.result is Ok && report@.result->Ok_0 != NextStepView::Nothing,
            },
    ;

    /// Stops the adapter: afterwards it is neither connected nor starting and
    /// holds no error. A second stop changes nothing and emits nothing.
    fn stop(&mut self) -> (events: Vec<GatewayEvent>)
        ensures
            final(self).status() == old(self).status().stopped(),
            final(self).enabled() == old(self).enabled(),
            final(self).missing_credentials() == old(self).missing_credentials(),
            events_view(events@) == events_at_stop(old(self).status()),
    ;

    /// Starts the adapter again where it is not connected and nothing bars a
    /// reconnect; otherwise nothing happens. A start that is due goes as
    /// `start` goes.
    fn reconnect_if_needed(&mut self, now: i64) -> (report: StartReport)
        ensures
            final(self).enabled() == old(self).enabled(),
            final(self).missing_credentials() == old(self).missing_credentials(),
            old(self).status().connected || old(self).reconnect_barred() ==> final(self).status() == old(self).status() && report@ == (StartReportView {
                result: Ok(NextStepView::Nothing),
                events: Seq::empty(),
            }),
            !old(self).status().connected && !old(self).reconnect_barred() ==> final(self).status()
                == status_after_gate(
                old(self).status(),
                old(self).enabled(),
                old(self).missing_credentials(),
            ) && report@.events == events_at_gate(
                old(self).status(),
                old(self).enabled(),
                old(self).missing_credentials(),
            ) && answers_gate(
                old(self).status(),
                old(self).enabled(),
                old(self).missing_credentials(),
                report@.result,
            ),
    ;

    /// What the platform lets an adapter do beyond sending text.
    spec fn capabilities_spec(&self) -> Capabilities;

    /// What the platform lets an adapter do beyond sending text.
    fn capabilities(&self) -> (c: Capabilities)
        ensures
            c == self.capabilities_spec(),
    ;

    /// What a send of `text` into the last conversation comes to at `now`.
    spec fn notification_plan(&self, text: Seq<char>, now: i64) -> Result<OutboundView, Seq<char>>;

    /// What a send of `text` into `conversation_id` comes to at `now`.
    spec fn message_plan(&self, conversation_id: Seq<char>, text: Seq<char>, now: i64) -> Result<
        OutboundView,
        Seq<char>,
    >;

    /// What has to go out to send `text` into the conversation that the last
    /// inbound message came from. `now` counts seconds.
    fn send_notification(&self, text: &str, now: i64) -> (r: Result<Outbound, String>)
        ensures
            outbound_view(r) == self.notification_plan(text@, now),
            !self.status().connected ==> outbound_view(r) == Err::<OutboundView, Seq<char>>(
                not_connected_text(),
            ),
    ;

    /// What has to go out to send `text` into `conversation_id`.
    fn send_message(&self, conversation_id: &str, text: &str, now: i64) -> (r: Result<
        Outbound,
        String,
    >)
        ensures
            outbound_view(r) == self.message_plan(conversation_id@, text@, now),
            !self.status().connected ==> outbound_view(r) == Err::<OutboundView, Seq<char>>(
                not_connected_text(),
            ),
    ;

    /// What sending the file at `file_path` into `conversation_id` comes to
    /// at `now`, where the file's name is `file_name` and its extension is
    /// `ext`.
    spec fn media_plan(
        &self,
        conversation_id: Seq<char>,
        file_path: Seq<char>,
        file_name: Seq<char>,
        ext: Seq<char>,
        now: i64,
    ) -> Result<OutboundView, Seq<char>>;

    /// What replacing the text of the message `message_id` comes to.
    spec fn edit_plan(&self, conversation_id: Seq<char>, message_id: Seq<char>, new_text: Seq<char>) -> Result<
        OutboundView,
        Seq<char>,
    >;

    /// What deleting the message `message_id` comes to.
    spec fn delete_plan(&self, conversation_id: Seq<char>, message_id: Seq<char>) -> Result<
        OutboundView,
        Seq<char>,
    >;

    /// What asking for the last `limit` messages of `conversation_id` comes
    /// to.
    spec fn history_plan(&self, conversation_id: Seq<char>, limit: u32) -> Result<OutboundView, Seq<char>>;

    /// What has to go out to send the file at `file_path` into
    /// `conversation_id`. A platform without media answers with an error.
    /// The file's name and extension are read off the path as the machine
    /// reads paths, and the result is the plan for that name and extension.
    fn send_media_message(&self, conversation_id: &str, file_path: &str, now: i64) -> (r: Result<
        Outbound,
        String,
    >)
        ensures
            !self.capabilities_spec().media || !self.status().connected ==> r is Err,
            exists|file_name: Seq<char>, ext: Seq<char>|
                outbound_view(r) == #[trigger] self.media_plan(conversation_id@, file_path@, file_name, ext, now),
    ;

    /// What has to go out to replace the text of a sent message. A platform
    /// that cannot edit answers with an error.
    fn edit_message(&self, conversation_id: &str, message_id: &str, new_text: &str) -> (r: Result<
        Outbound,
        String,
    >)
        ensures
            !self.capabilities_spec().edit || !self.status().connected ==> r is Err,
            outbound_view(r) == self.edit_plan(conversation_id@, message_id@, new_text@),
    ;

    /// What has to go out to delete a sent message. A platform that cannot
    /// delete answers with an error.
    fn delete_message(&self, conversation_id: &str, message_id: &str) -> (r: Result<Outbound, String>)
        ensures
            !self.capabilities_spec().delete || !self.status().connected ==> r is Err,
            outbound_view(r) == self.delete_plan(conversation_id@, message_id@),
    ;

    /// What has to go out to read the last `limit` messages of
    /// `conversation_id`. A platform without history answers with an error.
    fn get_message_history(&self, conversation_id: &str, limit: u32) -> (r: Result<Outbound, String>)
        ensures
            !self.capabilities_spec().history || !self.status().connected ==> r is Err,
            outbound_view(r) == self.history_plan(conversation_id@, limit),
    ;

    /// Records at `now_ms` that something was sent.
    fn record_outbound(&mut self, now_ms: i64)
        ensures
            final(self).status() == (GatewayStatusView {
                last_outbound_at: Some(now_ms),
                ..old(self).status()
            }),
            final(self).enabled() == old(self).enabled(),
            final(self).missing_credentials() == old(self).missing_credentials(),
    ;
}

} // verus!
