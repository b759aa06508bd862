use vstd::prelude::*;

use crate::codec::CodecError;
use crate::heartbeat::{spec_step, HeartbeatEvent, HeartbeatPhase, HeartbeatTask, Request};
use crate::messages::{
    event_data_wf, game_only_wire, trigger_wire, C2SGameCreate, C2SGameEventBind, C2SGameEventCreate, C2SGameEventRemove, C2SGameRemove,
    C2SHeartBeat, C2STriggerEvent, EventData,
};
use crate::types::ScreenHandler;

verus! {

/// The keep-alive interval used when the game does not give one.
pub const DEFAULT_HEARTBEAT_MS: u16 = 10000;

/// Why an operation was refused before anything was sent.
#[derive(Debug, PartialEq, Eq)]
pub enum SessionError {
    /// The session is not active: `setup` has not completed, or teardown has.
    NotActive,
    /// `setup` was already called on this client.
    AlreadySetUp,
    /// An event's minimum lies above its maximum.
    InvalidRange,
    /// A trigger's frame substitutions name the same key twice.
    DuplicateFrameKey,
    /// A payload could not be encoded.
    Encode(CodecError),
}

/// The lifecycle of a session.
#[derive(Clone, Copy, Debug, PartialEq, Eq, Structural)]
pub enum SessionPhase {
    Uninitialized,
    Active,
    Terminated,
}

#[derive(Debug)]
enum SessionState {
    Uninitialized,
    Active { game: String, update_interval: u16 },
    Terminated,
}

/// Only an active session accepts event operations, triggers and teardown.
pub open spec fn accepts_operations(p: SessionPhase) -> bool {
    p == SessionPhase::Active
}

/// The steps of the lifecycle.
#[derive(Clone, Copy, Debug, PartialEq, Eq, Structural)]
pub enum Transition {
    Activate,
    Teardown,
}

pub open spec fn next_phase(p: SessionPhase, t: Transition) -> SessionPhase {
    match (p, t) {
        (SessionPhase::Uninitialized, Transition::Activate) => SessionPhase::Active,
        (SessionPhase::Active, Transition::Teardown) => SessionPhase::Terminated,
        _ => p,
    }
}

/// The phase reached from `p` through the steps `ts`, in order.
pub open spec fn run_phases(p: SessionPhase, ts: Seq<Transition>) -> SessionPhase
    decreases ts.len(),
{
    if ts.len() == 0 {
        p
    } else {
        run_phases(next_phase(p, ts[0]), ts.drop_first())
    }
}

/// The full URL of endpoint `ep` on the engine at `server`.
pub open spec fn endpoint_url(server: Seq<char>, ep: Seq<char>) -> Seq<char> {
    "http://"@ + server + "/"@ + ep
}

/// A client of the engine's session protocol. It decides and builds every request;
/// its caller posts them and reports back.
#[derive(Debug)]
pub struct SSEngineAPI {
    server: String,
    state: SessionState,
}

impl SSEngineAPI {
    pub closed spec fn server(&self) -> Seq<char> {
        self.server@
    }

    pub closed spec fn phase(&self) -> SessionPhase {
        match self.state {
            SessionState::Uninitialized => SessionPhase::Uninitialized,
            SessionState::Active { .. } => SessionPhase::Active,
            SessionState::Terminated => SessionPhase::Terminated,
        }
    }

    /// The registered game; meaningful while active.
    pub closed spec fn game(&self) -> Seq<char> {
        match self.state {
            SessionState::Active { game, .. } => game@,
            _ => Seq::empty(),
        }
    }

    /// The negotiated keep-alive interval; meaningful while active.
    pub closed spec fn update_interval(&self) -> u16 {
        match self.state {
            SessionState::Active { update_interval, .. } => update_interval,
            _ => 0,
        }
    }

    /// A client of the engine at `server` (host and port), with no session yet.
    pub fn new(server: String) -> (r: SSEngineAPI)
        ensures
            r.server() == server@,
            r.phase() == SessionPhase::Uninitialized,
    {
        SSEngineAPI { server, state: SessionState::Uninitialized }
    }

    pub fn endpoint(&self, ep: &str) -> (r: String)
        ensures
            r@ == endpoint_url(self.server(), ep@),
    {
        let mut url = String::from_str("http://");
        url.append(self.server.as_str());
        url.append("/");
        url.append(ep);
        url
    }

    pub fn is_active(&self) -> (r: bool)
        ensures
            r == (self.phase() == SessionPhase::Active),
    {
        match self.state {
            SessionState::Active { .. } => true,
            _ => false,
        }
    }

    /// The keep-alive interval in milliseconds, while the session is active.
    pub fn heartbeat_interval(&self) -> (r: Option<u16>)
        ensures
            r == (if self.phase() == SessionPhase::Active { Some(self.update_interval()) } else { None::<u16> }),
    {
        match &self.state {
            SessionState::Active { update_interval, .. } => Some(*update_interval),
            _ => None,
        }
    }

    /// The game registration request; only a client with no session yet may send it.
    pub fn setup(&self, game: &C2SGameCreate) -> (r: Result<Request, SessionError>)
        ensures
            self.phase() != SessionPhase::Uninitialized ==> r == Err::<Request, SessionError>(
                SessionError::AlreadySetUp,
            ),
            self.phase() == SessionPhase::Uninitialized ==> (r matches Ok(req) && req.url@ == endpoint_url(
                self.server(),
                "game_metadata"@,
            ) && req.body@ == game.spec_wire()),
    {
        match self.state {
            SessionState::Uninitialized => Ok(Request { url: self.endpoint("game_metadata"), body: game.to_wire() }),
            _ => Err(SessionError::AlreadySetUp),
        }
    }

    /// Records a registration that the engine accepted: the session becomes active with
    /// the game's interval, or the default one, and its keep-alive task is returned.
    pub fn activate(&mut self, game: &C2SGameCreate) -> (r: Result<HeartbeatTask, SessionError>)
        ensures
            final(self).phase() == next_phase(old(self).phase(), Transition::Activate),
            old(self).phase() != SessionPhase::Uninitialized ==> r == Err::<HeartbeatTask, SessionError>(
                SessionError::AlreadySetUp,
            ) && *final(self) == *old(self),
            old(self).phase() == SessionPhase::Uninitialized ==> {
                &&& final(self).phase() == SessionPhase::Active
                &&& final(self).server() == old(self).server()
                &&& final(self).game() == game.game@
                &&& final(self).update_interval() == match game.deinitialize_timer_length_ms {
                    Some(ms) => ms,
                    None => DEFAULT_HEARTBEAT_MS,
                }
                &&& r matches Ok(t) && t.phase == HeartbeatPhase::Due
                &&& r matches Ok(t) && t.interval_ms == final(self).update_interval() as u64
                &&& r matches Ok(t) && t.request.url@ == endpoint_url(final(self).server(), "game_heartbeat"@)
                &&& r matches Ok(t) && t.request.body@ == game_only_wire(game.game@)
            },
    {
        match self.state {
            SessionState::Uninitialized => {},
            _ => return Err(SessionError::AlreadySetUp),
        }
        let update_interval = match game.deinitialize_timer_length_ms {
            Some(ms) => ms,
            None => DEFAULT_HEARTBEAT_MS,
        };
        self.state = SessionState::Active { game: game.game.clone(), update_interval };
        self.launch_heart_beat_task()
    }

    /// The keep-alive task of the active session.
    pub fn launch_heart_beat_task(&self) -> (r: Result<HeartbeatTask, SessionError>)
        ensures
            !accepts_operations(self.phase()) ==> r == Err::<HeartbeatTask, SessionError>(SessionError::NotActive),
            accepts_operations(self.phase()) ==> {
                &&& r matches Ok(t) && t.phase == HeartbeatPhase::Due
                &&& r matches Ok(t) && t.interval_ms == self.update_interval() as u64
                &&& r matches Ok(t) && t.request.url@ == endpoint_url(self.server(), "game_heartbeat"@)
                &&& r matches Ok(t) && t.request.body@ == game_only_wire(self.game())
            },
    {
        match &self.state {
            SessionState::Active { game, update_interval } => {
                let body = C2SHeartBeat { game: game.clone() };
                let request = Request { url: self.endpoint("game_heartbeat"), body: body.to_wire() };
                Ok(HeartbeatTask::new(request, *update_interval as u64))
            },
            _ => Err(SessionError::NotActive),
        }
    }

    /// The event declaration request, while active, for a range with min <= max.
    pub fn new_event(&self, event: &C2SGameEventCreate) -> (r: Result<Request, SessionError>)
        ensures
            !accepts_operations(self.phase()) ==> r == Err::<Request, SessionError>(SessionError::NotActive),
            accepts_operations(self.phase()) && event.min_value > event.max_value ==> r == Err::<
                Request,
                SessionError,
            >(SessionError::InvalidRange),
            accepts_operations(self.phase()) && event.min_value <= event.max_value ==> (r matches Ok(req)
                && req.url@ == endpoint_url(self.server(), "register_game_event"@) && req.body@ == event.spec_wire()),
    {
        if !self.is_active() {
            return Err(SessionError::NotActive);
        }
        if event.min_value > event.max_value {
            return Err(SessionError::InvalidRange);
        }
        Ok(Request { url: self.endpoint("register_game_event"), body: event.to_wire() })
    }

    /// The binding request, while active; a payload that cannot be encoded is an error.
    pub fn bind_event(&self, binding: &C2SGameEventBind) -> (r: Result<Request, SessionError>)
        ensures
            !accepts_operations(self.phase()) ==> r == Err::<Request, SessionError>(SessionError::NotActive),
            accepts_operations(self.phase()) && binding.min_value > binding.max_value ==> r == Err::<
                Request,
                SessionError,
            >(SessionError::InvalidRange),
            accepts_operations(self.phase()) && binding.min_value <= binding.max_value ==> match binding.spec_error() {
                Some(e) => r == Err::<Request, SessionError>(SessionError::Encode(e)),
                None => r matches Ok(req) && req.url@ == endpoint_url(self.server(), "bind_game_event"@)
                    && req.body@ == binding.spec_wire(),
            },
    {
        if !self.is_active() {
            return Err(SessionError::NotActive);
        }
        if binding.min_value > binding.max_value {
            return Err(SessionError::InvalidRange);
        }
        match binding.to_wire() {
            Ok(body) => Ok(Request { url: self.endpoint("bind_game_event"), body }),
            Err(e) => Err(SessionError::Encode(e)),
        }
    }

    /// The declaration request and then the binding request for the same event, to be
    /// sent in that order. A binding that fails after the declaration went through
    /// leaves the event declared and unbound.
    pub fn new_event_and_bind(&self, event: C2SGameEventCreate, handlers: Vec<ScreenHandler>) -> (r: Result<
        (Request, Request),
        SessionError,
    >)
        ensures
            !accepts_operations(self.phase()) ==> r == Err::<(Request, Request), SessionError>(
                SessionError::NotActive,
            ),
            accepts_operations(self.phase()) && event.min_value > event.max_value ==> r == Err::<
                (Request, Request),
                SessionError,
            >(SessionError::InvalidRange),
            accepts_operations(self.phase()) && event.min_value <= event.max_value ==> {
                let binding = C2SGameEventBind {
                    game: event.game,
                    event: event.event,
                    min_value: event.min_value,
                    max_value: event.max_value,
                    icon_id: event.icon_id,
                    handlers,
                };
                match binding.spec_error() {
                    Some(e) => r == Err::<(Request, Request), SessionError>(SessionError::Encode(e)),
                    None => r matches Ok((create, bind)) && create.url@ == endpoint_url(
                        self.server(),
                        "register_game_event"@,
                    ) && create.body@ == event.spec_wire() && bind.url@ == endpoint_url(
                        self.server(),
                        "bind_game_event"@,
                    ) && bind.body@ == binding.spec_wire(),
                }
            },
    {
        let create = match self.new_event(&event) {
            Ok(req) => req,
            Err(e) => return Err(e),
        };
        let binding = C2SGameEventBind {
            game: event.game,
            event: event.event,
            min_value: event.min_value,
            max_value: event.max_value,
            icon_id: event.icon_id,
            handlers,
        };
        match self.bind_event(&binding) {
            Ok(bind) => Ok((create, bind)),
            Err(e) => Err(e),
        }
    }

    /// The request that fires `event` of the active game with `data`.
    pub fn trigger_event(&self, event: String, data: Option<EventData>) -> (r: Result<Request, SessionError>)
        ensures
            !accepts_operations(self.phase()) ==> r == Err::<Request, SessionError>(SessionError::NotActive),
            accepts_operations(self.phase()) && !event_data_wf(data) ==> r == Err::<Request, SessionError>(
                SessionError::DuplicateFrameKey,
            ),
            accepts_operations(self.phase()) && event_data_wf(data) ==> (r matches Ok(req) && req.url@
                == endpoint_url(self.server(), "game_event"@) && req.body@ == trigger_wire(self.game(), event@, data)),
    {
        match &self.state {
            SessionState::Active { game, .. } => {
                if let Some(d) = &data {
                    if !d.has_unique_keys() {
                        return Err(SessionError::DuplicateFrameKey);
                    }
                }
                let url = self.endpoint("game_event");
                let body = C2STriggerEvent { game: game.clone(), event, data };
                let w = body.to_wire();
                Ok(Request { url, body: w })
            },
            _ => Err(SessionError::NotActive),
        }
    }

    /// The request that removes one event, while active.
    pub fn remove_event(&self, event: &C2SGameEventRemove) -> (r: Result<Request, SessionError>)
        ensures
            !accepts_operations(self.phase()) ==> r == Err::<Request, SessionError>(SessionError::NotActive),
            accepts_operations(self.phase()) ==> (r matches Ok(req) && req.url@ == endpoint_url(
                self.server(),
                "remove_game_event"@,
            ) && req.body@ == event.spec_wire()),
    {
        if !self.is_active() {
            return Err(SessionError::NotActive);
        }
        Ok(Request { url: self.endpoint("remove_game_event"), body: event.to_wire() })
    }

    /// Teardown: cancels the keep-alive task first, then ends the session and returns
    /// the game removal request. Nothing is allowed afterwards.
    pub fn done(&mut self, heartbeat: &mut HeartbeatTask) -> (r: Result<Request, SessionError>)
        ensures
            final(self).phase() == next_phase(old(self).phase(), Transition::Teardown),
            !accepts_operations(old(self).phase()) ==> r == Err::<Request, SessionError>(SessionError::NotActive)
                && *final(self) == *old(self) && *final(heartbeat) == *old(heartbeat),
            accepts_operations(old(self).phase()) ==> {
                &&& final(self).phase() == SessionPhase::Terminated
                &&& final(heartbeat).phase == spec_step(old(heartbeat).phase, HeartbeatEvent::Cancel)
                &&& final(heartbeat).request == old(heartbeat).request
                &&& final(heartbeat).interval_ms == old(heartbeat).interval_ms
                &&& r matches Ok(req) && req.url@ == endpoint_url(old(self).server(), "remove_game"@)
                &&& r matches Ok(req) && req.body@ == game_only_wire(old(self).game())
            },
    {
        let game = match &self.state {
            SessionState::Active { game, .. } => game.clone(),
            _ => return Err(SessionError::NotActive),
        };
        heartbeat.cancel();
        let url = self.endpoint("remove_game");
        let body = C2SGameRemove { game };
        self.state = SessionState::Terminated;
        Ok(Request { url, body: body.to_wire() })
    }
}

proof fn lemma_terminated_stays(ts: Seq<Transition>)
    ensures
        run_phases(SessionPhase::Terminated, ts) == SessionPhase::Terminated,
    decreases ts.len(),
{
    if ts.len() > 0 {
        lemma_terminated_stays(ts.drop_first());
    }
}

/// Operations are gated by the session's phase: a client that has not completed
/// `setup` accepts no event operation or trigger, and once torn down, no step of the
/// lifecycle brings the session back, so every operation fails from then on.
pub proof fn lemma_state_gated(ts: Seq<Transition>)
    ensures
        !accepts_operations(SessionPhase::Uninitialized),
        next_phase(SessionPhase::Active, Transition::Teardown) == SessionPhase::Terminated,
        run_phases(SessionPhase::Terminated, ts) == SessionPhase::Terminated,
        !accepts_operations(run_phases(SessionPhase::Terminated, ts)),
{
    lemma_terminated_stays(ts);
}

} // verus!
