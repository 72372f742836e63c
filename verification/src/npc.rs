//! The NPC controller state machine: per-agent state (idle, patrolling or
//! talking) that consumes elapsed time and the tick's events and decides
//! the next state, the movement intent, and any outbound completion
//! request. Transitions are total functions of (state, elapsed time, event
//! set); a player shout preempts everything, timeouts decay a stalled
//! dialogue back to idle, and completion replies are correlated to their
//! controller by id.

use vstd::prelude::*;

use crate::agent::{Action, Direction, Shout};
use crate::generator::{
    persona_turn, spec_new_conversation, turn, CompletionQuery, Conversation, MessageView, Role,
};

verus! {

/// Milliseconds an idle controller waits before starting to patrol.
pub const IDLE_PATROL_DELAY_MS: u64 = 2000;

/// Milliseconds a patrolling controller holds one leg of its patrol.
pub const PATROL_TURN_DELAY_MS: u64 = 4000;

/// Milliseconds a talking controller waits for the other side before the
/// episode decays back to idle.
pub const TALK_TIMEOUT_MS: u64 = 4000;

/// A broadcast event a controller may be interrupted by this tick.
#[derive(Clone, PartialEq, Eq, Debug)]
pub enum EventType {
    PlayerShout(String),
}

/// A completion-gateway callback already correlated to this controller.
#[derive(Clone, PartialEq, Eq, Debug)]
pub enum Callback {
    CompleterResponse(String),
}

/// The turn-taking protocol inside one dialogue episode.
#[derive(Clone, PartialEq, Eq, Debug)]
pub enum ConversationPhase {
    Opening,
    WaitingForCompleter,
    Respond(String),
    WaitingForPartner,
}

/// Per-agent controller state: exactly one of these describes an agent at
/// any instant.
#[derive(Clone, PartialEq, Eq, Debug)]
pub enum AiState {
    Idle,
    Patrolling(Action, Direction),
    Talking(ConversationPhase, Conversation),
}

/// Mathematical model of a `ConversationPhase`.
pub enum PhaseView {
    Opening,
    WaitingForCompleter,
    Respond(Seq<char>),
    WaitingForPartner,
}

/// Mathematical model of an `AiState`.
pub enum StateView {
    Idle,
    Patrolling(Action, Direction),
    Talking(PhaseView, Seq<MessageView>),
}

impl View for ConversationPhase {
    type V = PhaseView;

    open spec fn view(&self) -> PhaseView {
        match self {
            ConversationPhase::Opening => PhaseView::Opening,
            ConversationPhase::WaitingForCompleter => PhaseView::WaitingForCompleter,
            ConversationPhase::Respond(t) => PhaseView::Respond(t@),
            ConversationPhase::WaitingForPartner => PhaseView::WaitingForPartner,
        }
    }
}

impl View for AiState {
    type V = StateView;

    open spec fn view(&self) -> StateView {
        match self {
            AiState::Idle => StateView::Idle,
            AiState::Patrolling(a, d) => StateView::Patrolling(*a, *d),
            AiState::Talking(p, c) => StateView::Talking(p@, c@),
        }
    }
}

/// Patrol facings cycle west, north, east, south; any other facing
/// recovers to north.
pub open spec fn spec_next_patrol_direction(d: Direction) -> Direction {
    match d {
        Direction::W => Direction::N,
        Direction::N => Direction::E,
        Direction::E => Direction::S,
        Direction::S => Direction::W,
        _ => Direction::N,
    }
}

/// Patrol legs alternate between running and standing.
pub open spec fn spec_toggle_action(a: Action) -> Action {
    if a == Action::Running {
        Action::Idle
    } else {
        Action::Running
    }
}

/// The transcript a burst of shouts seeds: the persona preamble followed
/// by one partner turn per shout, in arrival order.
pub open spec fn spec_seeded_conversation(shouts: Seq<Seq<char>>) -> Seq<MessageView> {
    spec_new_conversation() + shouts.map(|i: int, t: Seq<char>| turn(Role::User, t))
}

/// The controller's transition function: total over (state, elapsed time,
/// this tick's shout texts, this tick's correlated reply texts). `None`
/// means the state stands. A shout preempts every other rule; an idle
/// controller starts patrolling westward after 2 s; a patrol leg turns and
/// toggles after 4 s; `Opening` and `Respond` pass through after one
/// evaluation; a controller waiting on either side of a dialogue decays to
/// idle after 4 s, and a waiting controller consumes the first reply of
/// the tick as a partner turn, carrying it for display.
pub open spec fn spec_next_state(
    s: StateView,
    elapsed_ms: u64,
    shouts: Seq<Seq<char>>,
    replies: Seq<Seq<char>>,
) -> Option<StateView> {
    if shouts.len() > 0 {
        Some(StateView::Talking(PhaseView::Opening, spec_seeded_conversation(shouts)))
    } else {
        match s {
            StateView::Idle => if elapsed_ms >= IDLE_PATROL_DELAY_MS {
                Some(StateView::Patrolling(Action::Running, Direction::W))
            } else {
                None
            },
            StateView::Patrolling(action, direction) => if elapsed_ms >= PATROL_TURN_DELAY_MS {
                Some(
                    StateView::Patrolling(
                        spec_toggle_action(action),
                        spec_next_patrol_direction(direction),
                    ),
                )
            } else {
                None
            },
            StateView::Talking(phase, conv) => match phase {
                PhaseView::Opening => Some(
                    StateView::Talking(PhaseView::WaitingForCompleter, conv),
                ),
                PhaseView::WaitingForCompleter => if replies.len() > 0 {
                    Some(
                        StateView::Talking(
                            PhaseView::Respond(replies[0]),
                            conv.push(turn(Role::User, replies[0])),
                        ),
                    )
                } else if elapsed_ms >= TALK_TIMEOUT_MS {
                    Some(StateView::Idle)
                } else {
                    None
                },
                PhaseView::Respond(_) => Some(
                    StateView::Talking(PhaseView::WaitingForPartner, conv),
                ),
                PhaseView::WaitingForPartner => if elapsed_ms >= TALK_TIMEOUT_MS {
                    Some(StateView::Idle)
                } else {
                    None
                },
            },
        }
    }
}

/// The movement an agent projects while in a state: patrols move as their
/// leg says; an idle or talking agent stands facing south.
pub open spec fn spec_projection(s: StateView) -> (Action, Direction) {
    match s {
        StateView::Idle => (Action::Idle, Direction::S),
        StateView::Patrolling(a, d) => (a, d),
        StateView::Talking(_, _) => (Action::Idle, Direction::S),
    }
}

/// The neutral placeholder shown while a completion request is in flight.
pub open spec fn thinking_text() -> Seq<char> {
    "..."@
}

/// The text carried by an interrupt event.
pub open spec fn spec_event_text(e: EventType) -> Seq<char> {
    match e {
        EventType::PlayerShout(m) => m@,
    }
}

/// The text carried by a completion callback event.
pub open spec fn spec_callback_text(c: Callback) -> Seq<char> {
    match c {
        Callback::CompleterResponse(m) => m@,
    }
}

/// The texts of a sequence of interrupt events, in order.
pub open spec fn spec_event_texts(events: Seq<EventType>) -> Seq<Seq<char>> {
    events.map(|i: int, e: EventType| spec_event_text(e))
}

/// The texts of a sequence of callback events, in order.
pub open spec fn spec_callback_event_texts(events: Seq<Callback>) -> Seq<Seq<char>> {
    events.map(|i: int, c: Callback| spec_callback_text(c))
}

/// The shout texts an optional interrupt batch carries.
pub open spec fn spec_interrupt_texts(o: Option<Vec<EventType>>) -> Seq<Seq<char>> {
    match o {
        Some(v) => spec_event_texts(v@),
        None => Seq::empty(),
    }
}

/// The reply texts an optional callback batch carries.
pub open spec fn spec_callback_texts(o: Option<Vec<Callback>>) -> Seq<Seq<char>> {
    match o {
        Some(v) => spec_callback_event_texts(v@),
        None => Seq::empty(),
    }
}

/// The texts of a tick's shout events, in arrival order.
pub open spec fn spec_shout_texts(shouts: Seq<Shout>) -> Seq<Seq<char>> {
    shouts.map(|i: int, s: Shout| s.message@)
}

/// The reply texts addressed to the controller with the given correlation
/// id, in arrival order; replies addressed elsewhere are dropped.
pub open spec fn spec_reply_texts(cbs: Seq<CompletionCallback>, id: u128) -> Seq<Seq<char>>
    decreases cbs.len(),
{
    if cbs.len() == 0 {
        Seq::empty()
    } else {
        let rest = spec_reply_texts(cbs.drop_last(), id);
        if cbs.last().id == id {
            rest.push(cbs.last().message@)
        } else {
            rest
        }
    }
}

/// `None` for an empty batch, the batch itself otherwise.
pub fn to_option<T>(vec: Vec<T>) -> (r: Option<Vec<T>>)
    ensures
        vec@.len() == 0 ==> r is None,
        vec@.len() > 0 ==> r == Some(vec),
{
    if vec.is_empty() {
        None
    } else {
        Some(vec)
    }
}

impl AiState {
    /// Decides this tick's transition, if any, from the elapsed time and
    /// the tick's (already correlated) events. Matches `spec_next_state`
    /// exactly.
    pub fn next_state(
        &self,
        time_since_change: u64,
        interrupts: Option<Vec<EventType>>,
        callbacks: Option<Vec<Callback>>,
    ) -> (r: Option<AiState>)
        ensures
            match r {
                Some(ns) => spec_next_state(
                    self@,
                    time_since_change,
                    spec_interrupt_texts(interrupts),
                    spec_callback_texts(callbacks),
                ) == Some(ns@),
                None => spec_next_state(
                    self@,
                    time_since_change,
                    spec_interrupt_texts(interrupts),
                    spec_callback_texts(callbacks),
                ) is None,
            },
    {
        let has_shouts = match &interrupts {
            Some(events) => events.len() > 0,
            None => false,
        };

        if has_shouts {
            let events = interrupts.unwrap();
            let ghost texts: Seq<Seq<char>> = spec_event_texts(events@);
            let mut convo = Conversation::new();
            proof {
                assert(convo@ =~= spec_seeded_conversation(texts.take(0)));
            }
            let mut i: usize = 0;
            while i < events.len()
                invariant
                    i <= events.len(),
                    texts == spec_event_texts(events@),
                    convo@ == spec_seeded_conversation(texts.take(i as int)),
                decreases events.len() - i,
            {
                let message = match &events[i] {
                    EventType::PlayerShout(message) => message.clone(),
                };
                convo.input_from_partner(message);
                proof {
                    assert(texts.take(i as int + 1) =~= texts.take(i as int).push(
                        texts[i as int],
                    ));
                    assert(convo@ =~= spec_seeded_conversation(texts.take(i as int + 1)));
                }
                i += 1;
            }
            proof {
                assert(texts.take(events@.len() as int) =~= texts);
            }
            return Some(AiState::Talking(ConversationPhase::Opening, convo));
        }

        match self {
            AiState::Idle => {
                if time_since_change >= IDLE_PATROL_DELAY_MS {
                    Some(AiState::Patrolling(Action::Running, Direction::W))
                } else {
                    None
                }
            },
            AiState::Patrolling(action, direction) => {
                if time_since_change >= PATROL_TURN_DELAY_MS {
                    let next_direction = match direction {
                        Direction::W => Direction::N,
                        Direction::N => Direction::E,
                        Direction::E => Direction::S,
                        Direction::S => Direction::W,
                        _ => Direction::N,
                    };
                    if *action == Action::Running {
                        Some(AiState::Patrolling(Action::Idle, next_direction))
                    } else {
                        Some(AiState::Patrolling(Action::Running, next_direction))
                    }
                } else {
                    None
                }
            },
            AiState::Talking(phase, conversation) => match phase {
                ConversationPhase::Opening => Some(
                    AiState::Talking(
                        ConversationPhase::WaitingForCompleter,
                        conversation.duplicate(),
                    ),
                ),
                ConversationPhase::WaitingForCompleter => {
                    let has_reply = match &callbacks {
                        Some(events) => events.len() > 0,
                        None => false,
                    };
                    if has_reply {
                        let events = callbacks.unwrap();
                        let text = match &events[0] {
                            Callback::CompleterResponse(message) => message.clone(),
                        };
                        let mut convo = conversation.duplicate();
                        convo.input_from_partner(text.clone());
                        Some(AiState::Talking(ConversationPhase::Respond(text), convo))
                    } else if time_since_change >= TALK_TIMEOUT_MS {
                        Some(AiState::Idle)
                    } else {
                        None
                    }
                },
                ConversationPhase::Respond(_) => Some(
                    AiState::Talking(
                        ConversationPhase::WaitingForPartner,
                        conversation.duplicate(),
                    ),
                ),
                ConversationPhase::WaitingForPartner => {
                    if time_since_change >= TALK_TIMEOUT_MS {
                        Some(AiState::Idle)
                    } else {
                        None
                    }
                },
            },
        }
    }
}

/// The movement an agent applies while in a state; see `spec_projection`.
pub fn ai_projection(state: &AiState) -> (r: (Action, Direction))
    ensures
        r == spec_projection(state@),
{
    match state {
        AiState::Idle => (Action::Idle, Direction::S),
        AiState::Patrolling(action, direction) => (*action, *direction),
        AiState::Talking(_, _) => (Action::Idle, Direction::S),
    }
}

/// A completion reply as delivered by the gateway: the correlation id it
/// answers, and the reply text.
#[derive(Clone, PartialEq, Eq, Debug)]
pub struct CompletionCallback {
    pub id: u128,
    pub message: String,
}

/// What one controller evaluation hands back to the runtime: the movement
/// to apply, the text (if any) to display near the agent, and the
/// completion request (if any) to submit under this controller's id.
#[derive(Clone, PartialEq, Eq, Debug)]
pub struct TickOutput {
    pub action: Action,
    pub direction: Direction,
    pub display: Option<String>,
    pub request: Option<CompletionQuery>,
}

/// The display text a freshly entered state owes: the thinking placeholder
/// on entering `Opening`, the carried reply text on entering `Respond`,
/// nothing otherwise.
pub open spec fn spec_display_for(ns: StateView) -> Option<Seq<char>> {
    match ns {
        StateView::Talking(PhaseView::Opening, _) => Some(thinking_text()),
        StateView::Talking(PhaseView::Respond(t), _) => Some(t),
        _ => None,
    }
}

/// The completion request a freshly entered state owes: the accumulated
/// transcript on entering `Opening`, nothing otherwise.
pub open spec fn spec_request_for(ns: StateView) -> Option<Seq<MessageView>> {
    match ns {
        StateView::Talking(PhaseView::Opening, conv) => Some(conv),
        _ => None,
    }
}

/// An optional display string carries exactly the owed text.
pub open spec fn display_matches(display: Option<String>, want: Option<Seq<char>>) -> bool {
    match want {
        Some(t) => display matches Some(d) && d@ == t,
        None => display is None,
    }
}

/// An optional request carries exactly the owed transcript.
pub open spec fn request_matches(req: Option<CompletionQuery>, want: Option<Seq<MessageView>>) -> bool {
    match want {
        Some(c) => req matches Some(q) && q@ == c,
        None => req is None,
    }
}

/// Addition on the elapsed-time counter, saturating at the top instead of
/// wrapping.
pub open spec fn spec_sat_add(a: u64, b: u64) -> u64 {
    if a + b > u64::MAX {
        u64::MAX
    } else {
        (a + b) as u64
    }
}

fn sat_add(a: u64, b: u64) -> (r: u64)
    ensures
        r == spec_sat_add(a, b),
{
    if a > u64::MAX - b {
        u64::MAX
    } else {
        a + b
    }
}

/// Relies on uuid::Uuid::new_v4 for a fresh random correlation
/// identifier; nothing is assumed of the value drawn.
#[verifier::external_body]
fn fresh_correlation_id() -> u128 {
    uuid::Uuid::new_v4().as_u128()
}

/// One per NPC agent: a stable correlation id used to route asynchronous
/// completion replies to this agent and no other, the time elapsed since
/// the last transition, and the current state.
#[derive(Clone, PartialEq, Eq, Debug)]
pub struct AiController {
    pub id: u128,
    pub ticks_since_last_action: u64,
    pub ai_state: AiState,
}

impl AiController {
    /// A controller for a freshly spawned agent: a fresh correlation id,
    /// and a standing northward patrol leg about to begin.
    pub fn new() -> (c: AiController)
        ensures
            c.ticks_since_last_action == 0,
            c.ai_state@ == StateView::Patrolling(Action::Idle, Direction::N),
    {
        AiController {
            id: fresh_correlation_id(),
            ticks_since_last_action: 0,
            ai_state: AiState::Patrolling(Action::Idle, Direction::N),
        }
    }

    /// One tick of the controller: accrues the elapsed time, correlates
    /// the tick's replies to this controller by id, applies the transition
    /// function, and hands back the movement to apply together with any
    /// owed display text and outbound completion request. The elapsed-time
    /// counter resets on every transition.
    pub fn evaluate(
        &mut self,
        delta_ms: u64,
        shouts: &Vec<Shout>,
        callbacks: &Vec<CompletionCallback>,
    ) -> (out: TickOutput)
        ensures
            final(self).id == old(self).id,
            ({
                let elapsed = spec_sat_add(old(self).ticks_since_last_action, delta_ms);
                let next = spec_next_state(
                    old(self).ai_state@,
                    elapsed,
                    spec_shout_texts(shouts@),
                    spec_reply_texts(callbacks@, old(self).id),
                );
                &&& match next {
                    Some(ns) => {
                        &&& final(self).ai_state@ == ns
                        &&& final(self).ticks_since_last_action == 0
                        &&& display_matches(out.display, spec_display_for(ns))
                        &&& request_matches(out.request, spec_request_for(ns))
                    },
                    None => {
                        &&& final(self).ai_state == old(self).ai_state
                        &&& final(self).ticks_since_last_action == elapsed
                        &&& out.display is None
                        &&& out.request is None
                    },
                }
                &&& (out.action, out.direction) == spec_projection(final(self).ai_state@)
            }),
    {
        let mut shout_events: Vec<EventType> = Vec::new();
        let mut i: usize = 0;
        while i < shouts.len()
            invariant
                i <= shouts.len(),
                shout_events@.len() == i as int,
                forall|j: int|
                    0 <= j < i as int ==> spec_event_text(#[trigger] shout_events@[j])
                        == shouts@[j].message@,
            decreases shouts.len() - i,
        {
            shout_events.push(EventType::PlayerShout(shouts[i].message.clone()));
            i += 1;
        }
        proof {
            assert(spec_event_texts(shout_events@) =~= spec_shout_texts(shouts@));
        }

        let mut completion_events: Vec<Callback> = Vec::new();
        proof {
            assert(spec_callback_event_texts(completion_events@) =~= spec_reply_texts(
                callbacks@.take(0),
                self.id,
            ));
        }
        let mut k: usize = 0;
        while k < callbacks.len()
            invariant
                k <= callbacks.len(),
                self.id == old(self).id,
                spec_callback_event_texts(completion_events@) == spec_reply_texts(
                    callbacks@.take(k as int),
                    old(self).id,
                ),
            decreases callbacks.len() - k,
        {
            if callbacks[k].id == self.id {
                completion_events.push(
                    Callback::CompleterResponse(callbacks[k].message.clone()),
                );
            }
            proof {
                assert(callbacks@.take(k as int + 1).drop_last() =~= callbacks@.take(k as int));
                assert(spec_callback_event_texts(completion_events@) =~= spec_reply_texts(
                    callbacks@.take(k as int + 1),
                    old(self).id,
                ));
            }
            k += 1;
        }
        proof {
            assert(callbacks@.take(callbacks@.len() as int) =~= callbacks@);
        }

        let interrupts = to_option(shout_events);
        let replies_opt = to_option(completion_events);
        proof {
            assert(spec_interrupt_texts(interrupts) =~= spec_shout_texts(shouts@));
            assert(spec_callback_texts(replies_opt) =~= spec_reply_texts(
                callbacks@,
                old(self).id,
            ));
        }

        self.ticks_since_last_action = sat_add(self.ticks_since_last_action, delta_ms);

        let maybe_next = self.ai_state.next_state(
            self.ticks_since_last_action,
            interrupts,
            replies_opt,
        );

        match maybe_next {
            Some(new_state) => {
                let display: Option<String>;
                let request: Option<CompletionQuery>;
                match &new_state {
                    AiState::Talking(ConversationPhase::Opening, conv) => {
                        display = Some("...".to_owned());
                        request = Some(conv.to_request());
                    },
                    AiState::Talking(ConversationPhase::Respond(text), _) => {
                        display = Some(text.clone());
                        request = None;
                    },
                    _ => {
                        display = None;
                        request = None;
                    },
                }
                self.ai_state = new_state;
                self.ticks_since_last_action = 0;
                let (action, direction) = ai_projection(&self.ai_state);
                TickOutput { action, direction, display, request }
            },
            None => {
                let (action, direction) = ai_projection(&self.ai_state);
                TickOutput { action, direction, display: None, request: None }
            },
        }
    }

    /// After a failed gateway submission the episode is abandoned: the
    /// controller returns to idle, a recoverable outcome rather than a
    /// crash.
    pub fn on_submission_failed(&mut self)
        ensures
            final(self).id == old(self).id,
            final(self).ai_state@ == StateView::Idle,
            final(self).ticks_since_last_action == 0,
    {
        self.ai_state = AiState::Idle;
        self.ticks_since_last_action = 0;
    }
}

/// Law: an idle controller that saw no events this tick becomes a running
/// westward patrol once at least two seconds have elapsed.
pub proof fn lemma_idle_starts_patrol(elapsed_ms: u64)
    requires
        elapsed_ms >= IDLE_PATROL_DELAY_MS,
    ensures
        spec_next_state(
            StateView::Idle,
            elapsed_ms,
            Seq::<Seq<char>>::empty(),
            Seq::<Seq<char>>::empty(),
        ) == Some(StateView::Patrolling(Action::Running, Direction::W)),
{
}

/// Law: a running patrol with no events turns to the next facing of the
/// west-north-east-south cycle and stands, once at least four seconds have
/// elapsed.
pub proof fn lemma_patrol_rotates(d: Direction, elapsed_ms: u64)
    requires
        elapsed_ms >= PATROL_TURN_DELAY_MS,
    ensures
        spec_next_state(
            StateView::Patrolling(Action::Running, d),
            elapsed_ms,
            Seq::<Seq<char>>::empty(),
            Seq::<Seq<char>>::empty(),
        ) == Some(StateView::Patrolling(Action::Idle, spec_next_patrol_direction(d))),
        spec_next_patrol_direction(Direction::W) == Direction::N,
        spec_next_patrol_direction(Direction::N) == Direction::E,
        spec_next_patrol_direction(Direction::E) == Direction::S,
        spec_next_patrol_direction(Direction::S) == Direction::W,
{
}

/// Law: a tick carrying at least one player shout moves any controller,
/// whatever its state or progress, to the opening of a fresh dialogue
/// whose partner turns are the shout texts in arrival order, after the
/// persona preamble at turn zero.
pub proof fn lemma_shout_interrupts_any_state(
    s: StateView,
    elapsed_ms: u64,
    shouts: Seq<Seq<char>>,
    replies: Seq<Seq<char>>,
)
    requires
        shouts.len() >= 1,
    ensures
        spec_next_state(s, elapsed_ms, shouts, replies) == Some(
            StateView::Talking(PhaseView::Opening, spec_seeded_conversation(shouts)),
        ),
        spec_seeded_conversation(shouts).len() == shouts.len() + 1,
        spec_seeded_conversation(shouts)[0] == persona_turn(),
        forall|i: int|
            0 <= i < shouts.len() ==> spec_seeded_conversation(shouts)[i + 1] == turn(
                Role::User,
                shouts[i],
            ),
{
}

/// Law: a controller waiting on the completion gateway with no reply this
/// tick abandons the episode once at least four seconds have elapsed; a
/// stale reply arriving on a later tick is dropped, because an idle
/// controller's transitions ignore completer events entirely.
pub proof fn lemma_completer_timeout_abandons(
    conv: Seq<MessageView>,
    elapsed_ms: u64,
    later_elapsed_ms: u64,
    stale_replies: Seq<Seq<char>>,
)
    requires
        elapsed_ms >= TALK_TIMEOUT_MS,
    ensures
        spec_next_state(
            StateView::Talking(PhaseView::WaitingForCompleter, conv),
            elapsed_ms,
            Seq::<Seq<char>>::empty(),
            Seq::<Seq<char>>::empty(),
        ) == Some(StateView::Idle),
        spec_next_state(
            StateView::Idle,
            later_elapsed_ms,
            Seq::<Seq<char>>::empty(),
            stale_replies,
        ) == spec_next_state(
            StateView::Idle,
            later_elapsed_ms,
            Seq::<Seq<char>>::empty(),
            Seq::<Seq<char>>::empty(),
        ),
{
}

} // verus!
