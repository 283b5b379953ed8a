use crate::config::BridgeSettings;
use crate::stats::{BridgeStats, StatsView};
use crate::topic::{destination_of, mqtt_to_kafka_topic};
use vstd::prelude::*;

verus! {

/// Reconnect attempts made after a loss of the inbound connection before the
/// bridge gives up.
pub const MAX_RECONNECT_ATTEMPTS: u32 = 12;

/// Milliseconds to wait before each reconnect attempt.
pub const RECONNECT_DELAY_MS: u64 = 5000;

/// A message received from the broker.
pub struct InboundMessage {
    pub topic: String,
    pub payload: Vec<u8>,
    /// Delivery-assurance level, for information only.
    pub qos: Option<u8>,
}

/// What the inbound stream yields: a message, or the mark of a lost connection.
pub enum ConnectionEvent {
    Message(InboundMessage),
    Disconnected,
}

/// A record to append to the event log.
pub struct OutboundRecord {
    pub destination: String,
    pub key: String,
    pub payload: Vec<u8>,
}

/// State of the inbound connection, as the control loop sees it.
#[derive(Clone, Copy, PartialEq, Eq, Debug, Structural)]
pub enum LinkState {
    Connected,
    Reconnecting { failed_attempts: u32 },
    /// The attempt budget is spent; nothing further is accepted.
    Failed,
}

/// What the control loop has to do next.
pub enum BridgeAction {
    /// Hand the record to a delivery task of its own, then pull the next event.
    Deliver(OutboundRecord),
    /// Wait the reconnect delay, then make one reconnect attempt.
    Reconnect,
    /// The connection is back: pull the next event.
    Resume,
    /// The connection cannot be recovered: stop the bridge.
    Stop,
}

/// An input of the control loop, as a mathematical value.
pub enum LoopInput {
    Message { topic: Seq<char>, payload: Seq<u8> },
    Disconnected,
    ReconnectOutcome(bool),
}

/// An action of the control loop, as a mathematical value. The key of a
/// record is random and is left out.
pub enum ActionView {
    Deliver { destination: Seq<char>, payload: Seq<u8> },
    Reconnect,
    Resume,
    Stop,
}

/// The control loop's state, as a mathematical value.
pub struct BridgeLoopView {
    pub filter: Seq<char>,
    pub max_attempts: nat,
    pub link: LinkState,
}

impl BridgeLoopView {
    /// The budget fits the executable counter, and while reconnecting fewer
    /// attempts have failed than the budget allows.
    pub open spec fn wf(self) -> bool {
        &&& self.max_attempts <= u32::MAX
        &&& self.link matches LinkState::Reconnecting { failed_attempts } ==> failed_attempts
            < self.max_attempts
    }
}

/// The filter that routes every topic.
pub open spec fn is_wildcard(filter: Seq<char>) -> bool {
    filter == seq!['*']
}

/// Lowercase hexadecimal digit.
pub open spec fn is_lower_hex(c: char) -> bool {
    ('0' <= c && c <= '9') || ('a' <= c && c <= 'f')
}

/// The text of a random (version 4) UUID: 36 characters, five groups of
/// lowercase hexadecimal digits joined by dashes, version digit `4`.
pub open spec fn is_v4_uuid_text(s: Seq<char>) -> bool {
    &&& s.len() == 36
    &&& forall|i: int|
        0 <= i < 36 ==> if i == 8 || i == 13 || i == 18 || i == 23 {
            #[trigger] s[i] == '-'
        } else {
            is_lower_hex(s[i])
        }
    &&& s[14] == '4'
}

/// Whether the loop takes the input in its current link state: events while
/// connected, reconnect outcomes while reconnecting, nothing once failed.
pub open spec fn accepts(link: LinkState, input: LoopInput) -> bool {
    match link {
        LinkState::Connected => !(input is ReconnectOutcome),
        LinkState::Reconnecting { .. } => input is ReconnectOutcome,
        LinkState::Failed => false,
    }
}

/// The link state after an input.
pub open spec fn next_link(b: BridgeLoopView, input: LoopInput) -> LinkState {
    if !accepts(b.link, input) {
        b.link
    } else {
        match input {
            LoopInput::Message { .. } => b.link,
            LoopInput::Disconnected => if b.max_attempts == 0 {
                LinkState::Failed
            } else {
                LinkState::Reconnecting { failed_attempts: 0 }
            },
            LoopInput::ReconnectOutcome(succeeded) => {
                let n = b.link->failed_attempts;
                if succeeded {
                    LinkState::Connected
                } else if n + 1 >= b.max_attempts {
                    LinkState::Failed
                } else {
                    LinkState::Reconnecting { failed_attempts: (n + 1) as u32 }
                }
            },
        }
    }
}

/// The counters after an input: a message is routed (and skipped as well
/// unless the filter is the wildcard), a disconnect is counted once, a
/// reconnect outcome changes nothing.
pub open spec fn next_stats(b: BridgeLoopView, s: StatsView, input: LoopInput) -> StatsView {
    if !accepts(b.link, input) {
        s
    } else {
        match input {
            LoopInput::Message { .. } => s.after_message(!is_wildcard(b.filter)),
            LoopInput::Disconnected => s.after_connection_loss(),
            LoopInput::ReconnectOutcome(_) => s,
        }
    }
}

/// The action that answers an input.
pub open spec fn next_action(b: BridgeLoopView, input: LoopInput) -> ActionView {
    if !accepts(b.link, input) {
        ActionView::Stop
    } else {
        match next_link(b, input) {
            LinkState::Failed => ActionView::Stop,
            LinkState::Reconnecting { .. } => ActionView::Reconnect,
            LinkState::Connected => match input {
                LoopInput::Message { topic, payload } => ActionView::Deliver {
                    destination: destination_of(topic),
                    payload,
                },
                _ => ActionView::Resume,
            },
        }
    }
}

/// One step of the control loop.
pub open spec fn step(b: BridgeLoopView, s: StatsView, input: LoopInput) -> (
    BridgeLoopView,
    StatsView,
    ActionView,
) {
    (
        BridgeLoopView { link: next_link(b, input), ..b },
        next_stats(b, s, input),
        next_action(b, input),
    )
}

/// The control loop fed a sequence of inputs: final state, final counters,
/// and the actions in order.
pub open spec fn run(b: BridgeLoopView, s: StatsView, inputs: Seq<LoopInput>) -> (
    BridgeLoopView,
    StatsView,
    Seq<ActionView>,
)
    decreases inputs.len(),
{
    if inputs.len() == 0 {
        (b, s, Seq::empty())
    } else {
        let (b1, s1, a) = step(b, s, inputs[0]);
        let (b2, s2, rest) = run(b1, s1, inputs.drop_first());
        (b2, s2, seq![a] + rest)
    }
}

/// Room in the counters for what the input counts.
pub open spec fn has_room(s: StatsView, input: LoopInput) -> bool {
    match input {
        LoopInput::Message { .. } => s.routed < u64::MAX && s.skipped < u64::MAX,
        LoopInput::Disconnected => s.losses < u64::MAX,
        LoopInput::ReconnectOutcome(_) => true,
    }
}

impl View for ConnectionEvent {
    type V = LoopInput;

    open spec fn view(&self) -> LoopInput {
        match self {
            ConnectionEvent::Message(m) => LoopInput::Message { topic: m.topic@, payload: m.payload@ },
            ConnectionEvent::Disconnected => LoopInput::Disconnected,
        }
    }
}

impl View for BridgeAction {
    type V = ActionView;

    open spec fn view(&self) -> ActionView {
        match self {
            BridgeAction::Deliver(r) => ActionView::Deliver {
                destination: r.destination@,
                payload: r.payload@,
            },
            BridgeAction::Reconnect => ActionView::Reconnect,
            BridgeAction::Resume => ActionView::Resume,
            BridgeAction::Stop => ActionView::Stop,
        }
    }
}

/// Relies on `uuid::Uuid::new_v4` and the `Display` form of `uuid::Uuid`: a
/// random version 4 UUID, written hyphenated in lowercase. `new_v4` panics
/// only when the operating system's random source fails, which no argument
/// can rule out.
#[verifier::external_body]
fn fresh_record_key() -> (r: String)
    ensures
        is_v4_uuid_text(r@),
{
    uuid::Uuid::new_v4().to_string()
}

/// Whether the destination filter routes every topic.
pub fn accepts_all(filter: &str) -> (r: bool)
    ensures
        r == is_wildcard(filter@),
{
    if filter.unicode_len() == 1 {
        let c = filter.get_char(0);
        if c == '*' {
            assert(filter@ =~= seq!['*']);
            true
        } else {
            false
        }
    } else {
        false
    }
}

/// The control loop of the bridge: it takes the events of the inbound stream
/// in arrival order, turns each message into a record to deliver, and drives
/// reconnection after a loss of the connection.
pub struct BridgeLoop {
    filter: String,
    max_attempts: u32,
    link: LinkState,
}

impl View for BridgeLoop {
    type V = BridgeLoopView;

    closed spec fn view(&self) -> BridgeLoopView {
        BridgeLoopView {
            filter: self.filter@,
            max_attempts: self.max_attempts as nat,
            link: self.link,
        }
    }
}

impl BridgeLoop {
    /// A connected loop that routes under `filter` and allows `max_attempts`
    /// reconnect attempts after each loss of the connection.
    pub fn new(filter: String, max_attempts: u32) -> (r: BridgeLoop)
        ensures
            r@ == (BridgeLoopView {
                filter: filter@,
                max_attempts: max_attempts as nat,
                link: LinkState::Connected,
            }),
            r@.wf(),
    {
        BridgeLoop { filter, max_attempts, link: LinkState::Connected }
    }

    /// A connected loop that routes under the event log's destination filter
    /// and allows the standard number of reconnect attempts.
    pub fn from_settings(settings: &BridgeSettings) -> (r: BridgeLoop)
        ensures
            r@ == (BridgeLoopView {
                filter: settings.kafka_settings.kafka_topic@,
                max_attempts: MAX_RECONNECT_ATTEMPTS as nat,
                link: LinkState::Connected,
            }),
            r@.wf(),
    {
        BridgeLoop::new(settings.kafka_settings.kafka_topic.clone(), MAX_RECONNECT_ATTEMPTS)
    }

    pub fn link(&self) -> (r: LinkState)
        ensures
            r == self@.link,
    {
        self.link
    }

    /// Handles one event of the inbound stream. A message is counted and
    /// becomes a record whose destination is derived from its topic, under a
    /// fresh key; a disconnect is counted and starts reconnection.
    pub fn on_event(&mut self, stats: &mut BridgeStats, event: ConnectionEvent) -> (a:
        BridgeAction)
        requires
            old(self)@.link == LinkState::Connected,
            old(self)@.wf(),
            has_room(old(stats)@, event@),
        ensures
            (final(self)@, final(stats)@, a@) == step(old(self)@, old(stats)@, event@),
            final(self)@.wf(),
            a matches BridgeAction::Deliver(r) ==> is_v4_uuid_text(r.key@),
    {
        match event {
            ConnectionEvent::Message(m) => {
                let skipped = !accepts_all(self.filter.as_str());
                stats.record_message(skipped);
                let destination = mqtt_to_kafka_topic(m.topic.as_str());
                let key = fresh_record_key();
                BridgeAction::Deliver(OutboundRecord { destination, key, payload: m.payload })
            },
            ConnectionEvent::Disconnected => {
                stats.record_connection_loss();
                if self.max_attempts == 0 {
                    self.link = LinkState::Failed;
                    BridgeAction::Stop
                } else {
                    self.link = LinkState::Reconnecting { failed_attempts: 0 };
                    BridgeAction::Reconnect
                }
            },
        }
    }

    /// Takes the outcome of one reconnect attempt: success resumes the loop,
    /// a failure asks for another attempt until the budget is spent.
    pub fn on_reconnect_attempt(&mut self, succeeded: bool) -> (a: BridgeAction)
        requires
            old(self)@.link is Reconnecting,
            old(self)@.wf(),
        ensures
            final(self)@ == (BridgeLoopView {
                link: next_link(old(self)@, LoopInput::ReconnectOutcome(succeeded)),
                ..old(self)@
            }),
            a@ == next_action(old(self)@, LoopInput::ReconnectOutcome(succeeded)),
            final(self)@.wf(),
    {
        match self.link {
            LinkState::Reconnecting { failed_attempts } => {
                if succeeded {
                    self.link = LinkState::Connected;
                    BridgeAction::Resume
                } else if failed_attempts + 1 >= self.max_attempts {
                    self.link = LinkState::Failed;
                    BridgeAction::Stop
                } else {
                    self.link = LinkState::Reconnecting { failed_attempts: failed_attempts + 1 };
                    BridgeAction::Reconnect
                }
            },
            _ => BridgeAction::Stop,
        }
    }
}

} // verus!
