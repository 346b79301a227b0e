//! The streaming session as a state machine. The caller owns the connection: it
//! performs each action that `step` returns and hands back what came of it as the
//! next event, so every decision of the session is made here.
//!
//! Lifecycle: `Disconnected -> Connecting -> Subscribing -> Streaming`, then
//! `Closing -> Closed` on stop. A read failure while streaming drops the connection
//! and starts a new `Connecting` cycle at once; a failed connect, a failed instrument
//! lookup or an unknown frame ends the session.

use vstd::prelude::*;
use vstd::string::*;
use crate::advanced_trade_rest_client::AdvancedTradeRESTClient;
use crate::classify::{classify_message, inbound_matches, AdvancedTradeEvents};
use crate::config::CoinbaseConfig;
use crate::json::json_parse;
use crate::signing::string_views;
use crate::subscription::{new_subscription, subscription_json, subscription_matches};

verus! {

/// The host of the REST client that resolves the instrument list.
pub const REST_HOST: &'static str = "https://api.coinbase.com/api/v3";

/// The pause after each subscribe request, in milliseconds.
pub const SUBSCRIBE_PAUSE_MS: u64 = 100;

/// Which instruments to subscribe to.
#[derive(Debug, Clone)]
pub enum SubscribeProducts {
    /// Every instrument of the catalog, looked up on each connection.
    All,
    Custom(Vec<String>),
}

#[derive(Debug, Clone, Copy, PartialEq, Eq, Structural)]
pub enum SessionState {
    Disconnected,
    Connecting,
    Subscribing,
    Streaming,
    Closing,
    Closed,
}

/// What came of the last action.
#[derive(Debug, Clone)]
pub enum SessionEvent {
    /// The caller starts the session.
    Start,
    /// The connection was established.
    Connected,
    ConnectFailed,
    /// The instrument catalog was read.
    Instruments(Vec<String>),
    InstrumentsFailed,
    /// A subscribe request was written.
    Sent,
    /// A subscribe request could not be written.
    SendFailed,
    /// A text frame was read.
    Text(String),
    /// A ping, pong or binary frame was read.
    Control,
    /// A close frame was read.
    CloseFrame,
    /// A frame of any other kind was read.
    OtherFrame,
    /// Reading from the connection failed.
    ReadFailed,
    /// The close frame was sent, or sending it failed.
    CloseDone,
}

/// What the caller is to do next.
#[derive(Debug, Clone)]
pub enum SessionAction {
    /// Open a new connection, dropping any old one.
    Connect,
    /// Read the instrument catalog.
    ResolveInstruments,
    /// Write this text frame, then pause.
    Send { text: String, pause_ms: u64 },
    /// Wait for the next frame.
    Read,
    /// Send a close frame.
    CloseConnection,
    /// The session ended as asked.
    Done,
    /// The session ended on a fatal error.
    Fail,
    /// The event did not apply in this state; nothing to do.
    Ignore,
}

#[derive(Debug, Clone, Copy, PartialEq, Eq, Structural)]
pub enum ActionKind {
    Connect,
    ResolveInstruments,
    Send,
    Read,
    CloseConnection,
    Done,
    Fail,
    Ignore,
}

/// The result of one step: a classified message to hand to the application, if a
/// text frame came in, and the next action.
#[derive(Debug)]
pub struct SessionStep {
    pub dispatch: Option<AdvancedTradeEvents>,
    pub action: SessionAction,
}

/// The streaming session.
pub struct AdvancedTradeWebSockets {
    pub exchange: String,
    pub channels: Vec<String>,
    pub product_ids: SubscribeProducts,
    pub client: AdvancedTradeRESTClient,
    pub key: String,
    pub secret: String,
    pub state: SessionState,
    pub running: bool,
    /// Whether the instrument catalog is awaited.
    pub resolving: bool,
    /// The instruments of the current connection.
    pub instruments: Vec<String>,
    /// The pair whose subscribe request is in flight.
    pub channel_index: usize,
    pub instrument_index: usize,
    /// Connections asked for, and close frames asked for, so far.
    pub connects: Ghost<nat>,
    pub closes: Ghost<nat>,
}

/// The session as the state machine sees it.
pub struct SessionView {
    pub state: SessionState,
    pub running: bool,
    pub resolving: bool,
    pub target_all: bool,
    pub custom: Seq<Seq<char>>,
    pub channel_count: nat,
    pub instruments: Seq<Seq<char>>,
    pub channel_index: nat,
    pub instrument_index: nat,
    pub connects: nat,
    pub closes: nat,
}

pub open spec fn kind_of(a: SessionAction) -> ActionKind {
    match a {
        SessionAction::Connect => ActionKind::Connect,
        SessionAction::ResolveInstruments => ActionKind::ResolveInstruments,
        SessionAction::Send { .. } => ActionKind::Send,
        SessionAction::Read => ActionKind::Read,
        SessionAction::CloseConnection => ActionKind::CloseConnection,
        SessionAction::Done => ActionKind::Done,
        SessionAction::Fail => ActionKind::Fail,
        SessionAction::Ignore => ActionKind::Ignore,
    }
}

/// After a frame was handled: read on while running, else close.
pub open spec fn read_or_close(s: SessionView) -> (SessionView, ActionKind) {
    if s.running {
        (SessionView { state: SessionState::Streaming, ..s }, ActionKind::Read)
    } else {
        (SessionView { state: SessionState::Closing, closes: s.closes + 1, ..s }, ActionKind::CloseConnection)
    }
}

/// Subscribing starts at the first channel and the first instrument; with no pair
/// to subscribe to, the session streams at once.
pub open spec fn begin_sends(s: SessionView, instruments: Seq<Seq<char>>) -> (SessionView, ActionKind) {
    let t = SessionView { instruments, resolving: false, channel_index: 0, instrument_index: 0, ..s };
    if s.channel_count == 0 || instruments.len() == 0 {
        read_or_close(t)
    } else {
        (SessionView { state: SessionState::Subscribing, ..t }, ActionKind::Send)
    }
}

/// The next pair: the next instrument of the channel, else the first of the next
/// channel; after the last pair the session streams.
pub open spec fn advance(s: SessionView) -> (SessionView, ActionKind) {
    let t = if s.instrument_index + 1 < s.instruments.len() {
        SessionView { instrument_index: s.instrument_index + 1, ..s }
    } else {
        SessionView { channel_index: s.channel_index + 1, instrument_index: 0, ..s }
    };
    if t.channel_index >= s.channel_count {
        read_or_close(t)
    } else {
        (t, ActionKind::Send)
    }
}

pub open spec fn fail(s: SessionView) -> (SessionView, ActionKind) {
    (SessionView { state: SessionState::Closed, ..s }, ActionKind::Fail)
}

/// One transition of the session.
pub open spec fn transition(s: SessionView, e: SessionEvent) -> (SessionView, ActionKind) {
    match (s.state, e) {
        (SessionState::Disconnected, SessionEvent::Start) => (
            SessionView { state: SessionState::Connecting, connects: s.connects + 1, ..s },
            ActionKind::Connect,
        ),
        (SessionState::Connecting, SessionEvent::Connected) => if s.target_all {
            (SessionView { state: SessionState::Subscribing, resolving: true, ..s }, ActionKind::ResolveInstruments)
        } else {
            begin_sends(s, s.custom)
        },
        (SessionState::Connecting, SessionEvent::ConnectFailed) => fail(s),
        (SessionState::Subscribing, SessionEvent::Instruments(list)) if s.resolving => begin_sends(s, string_views(list@)),
        (SessionState::Subscribing, SessionEvent::InstrumentsFailed) if s.resolving => fail(s),
        (SessionState::Subscribing, SessionEvent::Sent) if !s.resolving => advance(s),
        (SessionState::Subscribing, SessionEvent::SendFailed) if !s.resolving => advance(s),
        (SessionState::Streaming, SessionEvent::Text(_)) => read_or_close(s),
        (SessionState::Streaming, SessionEvent::Control) => read_or_close(s),
        (SessionState::Streaming, SessionEvent::CloseFrame) => read_or_close(s),
        (SessionState::Streaming, SessionEvent::OtherFrame) => fail(s),
        (SessionState::Streaming, SessionEvent::ReadFailed) => if s.running {
            (SessionView { state: SessionState::Connecting, connects: s.connects + 1, ..s }, ActionKind::Connect)
        } else {
            (SessionView { state: SessionState::Closing, closes: s.closes + 1, ..s }, ActionKind::CloseConnection)
        },
        (SessionState::Closing, SessionEvent::CloseDone) => (SessionView { state: SessionState::Closed, ..s }, ActionKind::Done),
        _ => (s, ActionKind::Ignore),
    }
}

impl AdvancedTradeWebSockets {
    pub open spec fn view(&self) -> SessionView {
        SessionView {
            state: self.state,
            running: self.running,
            resolving: self.resolving,
            target_all: self.product_ids is All,
            custom: match self.product_ids {
                SubscribeProducts::Custom(list) => string_views(list@),
                SubscribeProducts::All => Seq::empty(),
            },
            channel_count: self.channels@.len(),
            instruments: string_views(self.instruments@),
            channel_index: self.channel_index as nat,
            instrument_index: self.instrument_index as nat,
            connects: self.connects@,
            closes: self.closes@,
        }
    }

    /// The pair in flight is a real pair while subscribing.
    pub open spec fn wf(&self) -> bool {
        self.state == SessionState::Subscribing && !self.resolving ==> {
            &&& self.channel_index < self.channels@.len()
            &&& self.instrument_index < self.instruments@.len()
        }
    }

    pub fn new(channels: Vec<String>, product_ids: SubscribeProducts, config: CoinbaseConfig) -> (r: AdvancedTradeWebSockets)
        ensures
            r.wf(),
            r.exchange@ == "coinbase-advanced-trade"@,
            r.channels@ == channels@,
            r.key@ == config.api_key@,
            r.secret@ == config.api_secret@,
            r.client.client.host@ == REST_HOST@,
            r.view().state == SessionState::Disconnected,
            r.view().running,
            r.view().connects == 0,
            r.view().closes == 0,
            r.view().target_all == (product_ids is All),
            product_ids matches SubscribeProducts::Custom(list) ==> r.view().custom == string_views(list@),
    {
        let client = AdvancedTradeRESTClient::new(REST_HOST, config.clone());
        AdvancedTradeWebSockets {
            exchange: String::from_str("coinbase-advanced-trade"),
            channels,
            product_ids,
            client,
            key: config.api_key,
            secret: config.api_secret,
            state: SessionState::Disconnected,
            running: true,
            resolving: false,
            instruments: Vec::new(),
            channel_index: 0,
            instrument_index: 0,
            connects: Ghost(0),
            closes: Ghost(0),
        }
    }

    /// Asks the session to stop: it closes the connection after the receive in flight.
    pub fn stop(&mut self)
        ensures
            final(self).view() == (SessionView { running: false, ..old(self).view() }),
            final(self).wf() == old(self).wf(),
            final(self).channels@ == old(self).channels@,
            final(self).client == old(self).client,
            final(self).exchange == old(self).exchange,
            final(self).key@ == old(self).key@,
            final(self).secret@ == old(self).secret@,
    {
        self.running = false;
    }

    /// The subscribe request for the pair in flight, signed at `now`.
    fn current_request(&self, now: u64) -> (r: SessionAction)
        requires
            self.channel_index < self.channels@.len(),
            self.instrument_index < self.instruments@.len(),
        ensures
            r matches SessionAction::Send { text, pause_ms } && pause_ms == SUBSCRIBE_PAUSE_MS && exists|m|
                subscription_matches(
                    m,
                    self.channels@[self.channel_index as int]@,
                    self.instruments@[self.instrument_index as int]@,
                    self.key@,
                    self.secret@,
                    now as nat,
                ) && text@ == subscription_json(m),
    {
        let m = new_subscription(
            &self.channels[self.channel_index],
            &self.instruments[self.instrument_index],
            &self.key,
            &self.secret,
            now,
        );
        SessionAction::Send { text: m.to_json(), pause_ms: SUBSCRIBE_PAUSE_MS }
    }

    fn read_or_close(&mut self) -> (r: SessionAction)
        ensures
            (final(self).view(), kind_of(r)) == read_or_close(old(self).view()),
            final(self).channels@ == old(self).channels@,
            final(self).client == old(self).client,
            final(self).exchange == old(self).exchange,
            final(self).instruments@ == old(self).instruments@,
            final(self).key@ == old(self).key@,
            final(self).secret@ == old(self).secret@,
            final(self).channel_index == old(self).channel_index,
            final(self).instrument_index == old(self).instrument_index,
            final(self).product_ids == old(self).product_ids,
            final(self).resolving == old(self).resolving,
    {
        if self.running {
            self.state = SessionState::Streaming;
            SessionAction::Read
        } else {
            self.state = SessionState::Closing;
            self.closes = Ghost(self.closes@ + 1);
            SessionAction::CloseConnection
        }
    }

    /// One step of the session: applies `event`, the outcome of the last action, at
    /// time `now` (seconds since the epoch), and says what to do next. A text frame
    /// read while streaming is classified and handed back for dispatch.
    pub fn step(&mut self, event: SessionEvent, now: u64) -> (r: SessionStep)
        requires
            old(self).wf(),
        ensures
            final(self).wf(),
            (final(self).view(), kind_of(r.action)) == transition(old(self).view(), event),
            final(self).channels@ == old(self).channels@,
            final(self).client == old(self).client,
            final(self).exchange == old(self).exchange,
            final(self).key@ == old(self).key@,
            final(self).secret@ == old(self).secret@,
            match event {
                SessionEvent::Text(t) => if old(self).state == SessionState::Streaming {
                    r.dispatch matches Some(d) && match json_parse(t@) {
                        Some(v) => inbound_matches(v, d),
                        None => d is Unknown,
                    }
                } else {
                    r.dispatch is None
                },
                _ => r.dispatch is None,
            },
            r.action matches SessionAction::Send { text, pause_ms } ==> pause_ms == SUBSCRIBE_PAUSE_MS && exists|m|
                subscription_matches(
                    m,
                    final(self).channels@[final(self).channel_index as int]@,
                    final(self).instruments@[final(self).instrument_index as int]@,
                    final(self).key@,
                    final(self).secret@,
                    now as nat,
                ) && text@ == subscription_json(m),
    {
        let mut dispatch: Option<AdvancedTradeEvents> = None;
        let action = match (self.state, event) {
            (SessionState::Disconnected, SessionEvent::Start) => {
                self.state = SessionState::Connecting;
                self.connects = Ghost(self.connects@ + 1);
                SessionAction::Connect
            },
            (SessionState::Connecting, SessionEvent::Connected) => {
                match &self.product_ids {
                    SubscribeProducts::All => {
                        self.state = SessionState::Subscribing;
                        self.resolving = true;
                        SessionAction::ResolveInstruments
                    },
                    SubscribeProducts::Custom(list) => {
                        let list = list.clone();
                        self.begin_sends(list, now)
                    },
                }
            },
            (SessionState::Connecting, SessionEvent::ConnectFailed) => {
                self.state = SessionState::Closed;
                SessionAction::Fail
            },
            (SessionState::Subscribing, SessionEvent::Instruments(list)) => {
                if self.resolving {
                    self.begin_sends(list, now)
                } else {
                    SessionAction::Ignore
                }
            },
            (SessionState::Subscribing, SessionEvent::InstrumentsFailed) => {
                if self.resolving {
                    self.state = SessionState::Closed;
                    SessionAction::Fail
                } else {
                    SessionAction::Ignore
                }
            },
            (SessionState::Subscribing, SessionEvent::Sent) | (SessionState::Subscribing, SessionEvent::SendFailed) => {
                if !self.resolving {
                    self.advance(now)
                } else {
                    SessionAction::Ignore
                }
            },
            (SessionState::Streaming, SessionEvent::Text(t)) => {
                dispatch = Some(classify_message(t.as_str()));
                self.read_or_close()
            },
            (SessionState::Streaming, SessionEvent::Control) | (SessionState::Streaming, SessionEvent::CloseFrame) => {
                self.read_or_close()
            },
            (SessionState::Streaming, SessionEvent::OtherFrame) => {
                self.state = SessionState::Closed;
                SessionAction::Fail
            },
            (SessionState::Streaming, SessionEvent::ReadFailed) => {
                if self.running {
                    self.state = SessionState::Connecting;
                    self.connects = Ghost(self.connects@ + 1);
                    SessionAction::Connect
                } else {
                    self.state = SessionState::Closing;
                    self.closes = Ghost(self.closes@ + 1);
                    SessionAction::CloseConnection
                }
            },
            (SessionState::Closing, SessionEvent::CloseDone) => {
                self.state = SessionState::Closed;
                SessionAction::Done
            },
            _ => SessionAction::Ignore,
        };
        SessionStep { dispatch, action }
    }

    fn begin_sends(&mut self, instruments: Vec<String>, now: u64) -> (r: SessionAction)
        ensures
            final(self).wf(),
            (final(self).view(), kind_of(r)) == begin_sends(old(self).view(), string_views(instruments@)),
            final(self).channels@ == old(self).channels@,
            final(self).client == old(self).client,
            final(self).exchange == old(self).exchange,
            final(self).key@ == old(self).key@,
            final(self).secret@ == old(self).secret@,
            r matches SessionAction::Send { text, pause_ms } ==> pause_ms == SUBSCRIBE_PAUSE_MS && exists|m|
                subscription_matches(
                    m,
                    final(self).channels@[final(self).channel_index as int]@,
                    final(self).instruments@[final(self).instrument_index as int]@,
                    final(self).key@,
                    final(self).secret@,
                    now as nat,
                ) && text@ == subscription_json(m),
    {
        self.instruments = instruments;
        self.resolving = false;
        self.channel_index = 0;
        self.instrument_index = 0;
        if self.channels.len() == 0 || self.instruments.len() == 0 {
            self.read_or_close()
        } else {
            self.state = SessionState::Subscribing;
            self.current_request(now)
        }
    }

    fn advance(&mut self, now: u64) -> (r: SessionAction)
        requires
            old(self).state == SessionState::Subscribing,
            !old(self).resolving,
            old(self).wf(),
        ensures
            final(self).wf(),
            (final(self).view(), kind_of(r)) == advance(old(self).view()),
            final(self).channels@ == old(self).channels@,
            final(self).client == old(self).client,
            final(self).exchange == old(self).exchange,
            final(self).key@ == old(self).key@,
            final(self).secret@ == old(self).secret@,
            r matches SessionAction::Send { text, pause_ms } ==> pause_ms == SUBSCRIBE_PAUSE_MS && exists|m|
                subscription_matches(
                    m,
                    final(self).channels@[final(self).channel_index as int]@,
                    final(self).instruments@[final(self).instrument_index as int]@,
                    final(self).key@,
                    final(self).secret@,
                    now as nat,
                ) && text@ == subscription_json(m),
    {
        let n: usize = self.instruments.len();
        let c: usize = self.channels.len();
        if self.instrument_index < n - 1 {
            self.instrument_index = self.instrument_index + 1;
        } else {
            assert(self.channel_index < c);
            self.channel_index = self.channel_index + 1;
            self.instrument_index = 0;
        }
        if self.channel_index >= self.channels.len() {
            self.read_or_close()
        } else {
            self.current_request(now)
        }
    }
}


/// The session after `n` written subscribe requests.
pub open spec fn after_sends(s: SessionView, n: nat) -> SessionView
    decreases n,
{
    if n == 0 {
        s
    } else {
        after_sends(transition(s, SessionEvent::Sent).0, (n - 1) as nat)
    }
}

/// The session after a run of events.
pub open spec fn after_events(s: SessionView, events: Seq<SessionEvent>) -> SessionView
    decreases events.len(),
{
    if events.len() == 0 {
        s
    } else {
        after_events(transition(s, events[0]).0, events.drop_first())
    }
}

/// The subscribe requests still to write, the one in flight included.
pub open spec fn pairs_left(s: SessionView) -> int {
    (s.channel_count - s.channel_index) * s.instruments.len() - s.instrument_index
}

proof fn lemma_sends_finish(s: SessionView)
    requires
        s.state == SessionState::Subscribing,
        !s.resolving,
        s.channel_index < s.channel_count,
        s.instrument_index < s.instruments.len(),
    ensures
        pairs_left(s) > 0,
        forall|k: nat| k < pairs_left(s) ==> (#[trigger] after_sends(s, k)).state == SessionState::Subscribing,
        after_sends(s, pairs_left(s) as nat).state == if s.running {
            SessionState::Streaming
        } else {
            SessionState::Closing
        },
        after_sends(s, pairs_left(s) as nat).running == s.running,
        after_sends(s, pairs_left(s) as nat).connects == s.connects,
        after_sends(s, pairs_left(s) as nat).closes == if s.running {
            s.closes
        } else {
            s.closes + 1
        },
    decreases pairs_left(s),
{
    let c: int = s.channel_count - s.channel_index;
    let l: int = s.instruments.len() as int;
    assert(c * l >= l) by (nonlinear_arith)
        requires
            c >= 1,
            l >= 1,
    ;
    let t = transition(s, SessionEvent::Sent).0;
    let last = t.channel_index >= s.channel_count;
    if s.instrument_index + 1 < s.instruments.len() {
        assert(pairs_left(t) == pairs_left(s) - 1);
        lemma_sends_finish(t);
    } else {
        assert((c - 1) * l == c * l - l) by (nonlinear_arith);
        assert(pairs_left(t) == pairs_left(s) - 1);
        if last {
            assert(c == 1);
            assert(c * l == l) by (nonlinear_arith)
                requires
                    c == 1,
            ;
            assert(pairs_left(s) == 1);
            assert(after_sends(t, 0) == t);
        } else {
            lemma_sends_finish(t);
        }
    }
    assert forall|k: nat| k < pairs_left(s) implies (#[trigger] after_sends(s, k)).state == SessionState::Subscribing by {
        if k > 0 {
            assert(after_sends(s, k) == after_sends(t, (k - 1) as nat));
            assert(!last);
            assert(after_sends(t, (k - 1) as nat).state == SessionState::Subscribing);
        }
    }
    assert(after_sends(s, pairs_left(s) as nat) == after_sends(t, (pairs_left(s) - 1) as nat));
}

/// When the running flag is off while subscribing, every remaining subscribe
/// request is still written, no frame is read in between, and after the last one
/// the connection is closed, once.
pub proof fn stop_while_subscribing_closes_once(s: SessionView)
    requires
        s.state == SessionState::Subscribing,
        !s.resolving,
        !s.running,
        s.channel_index < s.channel_count,
        s.instrument_index < s.instruments.len(),
    ensures
        forall|k: nat| k < pairs_left(s) ==> (#[trigger] after_sends(s, k)).state == SessionState::Subscribing,
        after_sends(s, pairs_left(s) as nat).state == SessionState::Closing,
        after_sends(s, pairs_left(s) as nat).closes == s.closes + 1,
        after_sends(s, pairs_left(s) as nat).connects == s.connects,
{
    lemma_sends_finish(s);
}

/// A read failure while streaming asks for exactly one new connection and leaves the
/// running flag as it was; once connected, subscribing starts again from the first
/// pair (or the catalog is looked up first), and after one written request per pair
/// the session streams again, with no further connection asked for.
pub proof fn read_failure_reconnects_once(s: SessionView)
    requires
        s.state == SessionState::Streaming,
        s.running,
    ensures
        transition(s, SessionEvent::ReadFailed).0 == (SessionView {
            state: SessionState::Connecting,
            connects: s.connects + 1,
            ..s
        }),
        transition(s, SessionEvent::ReadFailed).1 == ActionKind::Connect,
        s.target_all ==> transition(transition(s, SessionEvent::ReadFailed).0, SessionEvent::Connected).1
            == ActionKind::ResolveInstruments,
        !s.target_all && s.channel_count > 0 && s.custom.len() > 0 ==> ({
            let s2 = transition(transition(s, SessionEvent::ReadFailed).0, SessionEvent::Connected).0;
            &&& transition(transition(s, SessionEvent::ReadFailed).0, SessionEvent::Connected).1 == ActionKind::Send
            &&& s2.state == SessionState::Subscribing
            &&& s2.channel_index == 0 && s2.instrument_index == 0
            &&& after_sends(s2, pairs_left(s2) as nat).state == SessionState::Streaming
            &&& after_sends(s2, pairs_left(s2) as nat).running == s.running
            &&& after_sends(s2, pairs_left(s2) as nat).connects == s.connects + 1
        }),
{
    let s1 = transition(s, SessionEvent::ReadFailed).0;
    if !s.target_all && s.channel_count > 0 && s.custom.len() > 0 {
        let s2 = transition(s1, SessionEvent::Connected).0;
        lemma_sends_finish(s2);
    }
}

proof fn lemma_ending_stays_ending(s: SessionView, events: Seq<SessionEvent>)
    requires
        s.state == SessionState::Closing || s.state == SessionState::Closed,
    ensures
        after_events(s, events).closes == s.closes,
        after_events(s, events).connects == s.connects,
        after_events(s, events).state == SessionState::Closing || after_events(s, events).state == SessionState::Closed,
    decreases events.len(),
{
    if events.len() > 0 {
        lemma_ending_stays_ending(transition(s, events[0]).0, events.drop_first());
    }
}

/// Once the running flag is cleared, the receive that completes next (a frame or a
/// read failure) asks for the connection to be closed, and whatever follows asks
/// for no second close and no new connection.
pub proof fn stop_closes_once(s: SessionView, e: SessionEvent, later: Seq<SessionEvent>)
    requires
        s.state == SessionState::Streaming,
        !s.running,
        e is Text || e is Control || e is CloseFrame || e is ReadFailed,
    ensures
        transition(s, e).0.state == SessionState::Closing,
        transition(s, e).1 == ActionKind::CloseConnection,
        transition(s, e).0.closes == s.closes + 1,
        after_events(transition(s, e).0, later).closes == s.closes + 1,
        after_events(transition(s, e).0, later).connects == s.connects,
        transition(transition(s, e).0, SessionEvent::CloseDone) == ((
            SessionView { state: SessionState::Closed, ..transition(s, e).0 },
            ActionKind::Done,
        )),
{
    lemma_ending_stays_ending(transition(s, e).0, later);
}

} // verus!
