//! How a running server treats its connections: which it admits, which it
//! refuses, and when it stops.

use vstd::prelude::*;

verus! {

/// How many connections a server may have open at one time.
#[derive(Clone, Copy)]
pub enum ConcurrencyThrottling {
    /// At most this many.
    Limited(u32),
    /// Any number.
    NoLimit,
}

impl ConcurrencyThrottling {
    /// The greatest number of open connections, if there is one.
    pub open spec fn limit(self) -> Option<nat> {
        match self {
            ConcurrencyThrottling::Limited(limit) => Some(limit as nat),
            ConcurrencyThrottling::NoLimit => None,
        }
    }
}

/// How far an open connection has come.
#[derive(Clone, Copy, Debug, PartialEq, Eq, Structural)]
pub enum ConnectionPhase {
    /// Admitted; the process at the other end is not known yet.
    Accepted,
    /// The service that will answer it is being made.
    Starting,
    /// The service answers its requests.
    Serving,
}

/// Whether a server still takes connections.
#[derive(Clone, Copy, Debug, PartialEq, Eq, Structural)]
pub enum ServerStatus {
    /// It does.
    Running,
    /// It ended as it was meant to.
    Stopped,
    /// It ended because of an error.
    Failed,
}

/// Something that happened to a server or to one of its connections. A
/// connection goes by the number under which it was admitted.
#[derive(Clone, Copy, Debug, PartialEq, Eq, Structural)]
pub enum ServerEvent {
    /// The listener handed out a new connection.
    Incoming,
    /// The process at the other end of a connection is known.
    PeerIdentified(usize),
    /// The process at the other end of a connection could not be found out.
    PeerUnknown(usize),
    /// The service for a connection is ready.
    ServiceReady(usize),
    /// The service for a connection could not be made.
    ServiceFailed(usize),
    /// A connection was served to its end.
    ConnectionClosed(usize),
    /// A connection broke off with an error.
    ConnectionFailed(usize),
    /// The listener has no more connections.
    IncomingClosed,
    /// The listener broke off with an error.
    IncomingFailed,
    /// The server was told to shut down.
    ShutdownRequested,
}

/// What is to be done about an event.
#[derive(Clone, Copy, Debug, PartialEq, Eq, Structural)]
pub enum ServerAction {
    /// Find out the process at the other end of the admitted connection.
    IdentifyPeer(usize),
    /// Drop the new connection: this many are open, and no more may be.
    Refuse(u32),
    /// Make the service for a connection.
    StartService(usize),
    /// Serve a connection.
    Serve(usize),
    /// A connection is over.
    Close(usize),
    /// A connection is over, and its error is to be reported.
    CloseReportingError(usize),
    /// The server is over, and all went well.
    Stop,
    /// The server is over, with a service error.
    StopWithServiceError,
    /// Nothing.
    Ignore,
}

/// A server as its contracts see it.
#[verifier::ext_equal]
pub struct ServerView {
    /// The greatest number of connections that may be open.
    pub limit: Option<nat>,
    /// The open connections.
    pub open: Map<usize, ConnectionPhase>,
    /// Whether the server still takes connections.
    pub status: ServerStatus,
}

impl ServerView {
    /// A server that has just begun to run.
    pub open spec fn fresh(limit: Option<nat>) -> ServerView {
        ServerView { limit, open: Map::empty(), status: ServerStatus::Running }
    }

    /// No more connections are open than may be.
    pub open spec fn within_limit(self) -> bool {
        &&& self.open.dom().finite()
        &&& self.limit matches Some(limit) ==> self.open.dom().len() <= limit
    }

    /// As many connections are open as may be.
    pub open spec fn full(self) -> bool {
        self.limit == Some(self.open.dom().len())
    }

    /// Connection `id` is open and in the given phase.
    pub open spec fn is_in(self, id: usize, phase: ConnectionPhase) -> bool {
        self.open.contains_key(id) && self.open[id] == phase
    }

    /// The same server with connection `id` open and in the given phase.
    pub open spec fn with(self, id: usize, phase: ConnectionPhase) -> ServerView {
        ServerView { open: self.open.insert(id, phase), ..self }
    }

    /// The same server without connection `id`.
    pub open spec fn without(self, id: usize) -> ServerView {
        ServerView { open: self.open.remove(id), ..self }
    }

    /// The same server in another status.
    pub open spec fn becoming(self, status: ServerStatus) -> ServerView {
        ServerView { status, ..self }
    }
}

/// The server `before` treats `event` by `action` and is `after` from then on.
pub open spec fn server_step(
    before: ServerView,
    event: ServerEvent,
    action: ServerAction,
    after: ServerView,
) -> bool {
    let running = before.status == ServerStatus::Running;
    match event {
        ServerEvent::Incoming => if !running {
            action == ServerAction::Ignore && after == before
        } else if before.full() {
            &&& action matches ServerAction::Refuse(limit)
            &&& before.limit == Some(limit as nat)
            &&& after == before
        } else {
            &&& action matches ServerAction::IdentifyPeer(id)
            &&& !before.open.contains_key(id)
            &&& after == before.with(id, ConnectionPhase::Accepted)
        },
        ServerEvent::PeerIdentified(id) => if before.is_in(id, ConnectionPhase::Accepted) {
            &&& action == ServerAction::StartService(id)
            &&& after == before.with(id, ConnectionPhase::Starting)
        } else {
            action == ServerAction::Ignore && after == before
        },
        ServerEvent::PeerUnknown(id) => if running && before.is_in(id, ConnectionPhase::Accepted) {
            &&& action == ServerAction::StopWithServiceError
            &&& after == before.becoming(ServerStatus::Failed)
        } else {
            action == ServerAction::Ignore && after == before
        },
        ServerEvent::ServiceReady(id) => if before.is_in(id, ConnectionPhase::Starting) {
            &&& action == ServerAction::Serve(id)
            &&& after == before.with(id, ConnectionPhase::Serving)
        } else {
            action == ServerAction::Ignore && after == before
        },
        ServerEvent::ServiceFailed(id) => if before.is_in(id, ConnectionPhase::Starting) {
            &&& action == ServerAction::CloseReportingError(id)
            &&& after == before.without(id)
        } else {
            action == ServerAction::Ignore && after == before
        },
        ServerEvent::ConnectionClosed(id) => if before.is_in(id, ConnectionPhase::Serving) {
            &&& action == ServerAction::Close(id)
            &&& after == before.without(id)
        } else {
            action == ServerAction::Ignore && after == before
        },
        ServerEvent::ConnectionFailed(id) => if before.is_in(id, ConnectionPhase::Serving) {
            &&& action == ServerAction::CloseReportingError(id)
            &&& after == before.without(id)
        } else {
            action == ServerAction::Ignore && after == before
        },
        ServerEvent::IncomingClosed | ServerEvent::ShutdownRequested => if running {
            &&& action == ServerAction::Stop
            &&& after == before.becoming(ServerStatus::Stopped)
        } else {
            action == ServerAction::Ignore && after == before
        },
        ServerEvent::IncomingFailed => if running {
            &&& action == ServerAction::StopWithServiceError
            &&& after == before.becoming(ServerStatus::Failed)
        } else {
            action == ServerAction::Ignore && after == before
        },
    }
}

/// A running server: its open connections and the slots that are left.
pub struct ServerState {
    throttling: ConcurrencyThrottling,
    /// With a limit, how many connections may still be admitted.
    free: u32,
    /// The phase of each connection, by its number; `None` where none is open.
    phases: Vec<Option<ConnectionPhase>>,
    /// The numbers under which no connection is open.
    vacant: Vec<usize>,
    status: ServerStatus,
}

/// The connections of a table of phases.
spec fn connections(phases: Seq<Option<ConnectionPhase>>) -> Map<usize, ConnectionPhase> {
    Map::new(
        |id: usize| id < phases.len() && phases[id as int] is Some,
        |id: usize| phases[id as int]->0,
    )
}

impl View for ServerState {
    type V = ServerView;

    closed spec fn view(&self) -> ServerView {
        ServerView {
            limit: self.throttling.limit(),
            open: connections(self.phases@),
            status: self.status,
        }
    }
}

impl ServerState {
    /// `vacant` lists each number without a connection once.
    spec fn vacancies_listed(self) -> bool {
        &&& self.vacant@.no_duplicates()
        &&& forall|i: int| 0 <= i < self.vacant@.len() ==> {
            &&& (#[trigger] self.vacant@[i]) < self.phases@.len()
            &&& self.phases@[self.vacant@[i] as int] is None
        }
        &&& forall|id: usize| id < self.phases@.len() && self.phases@[id as int] is None
            ==> #[trigger] self.vacant@.contains(id)
    }

    /// What holds of every server state.
    pub closed spec fn wf(self) -> bool {
        &&& self.vacancies_listed()
        &&& self.throttling matches ConcurrencyThrottling::Limited(limit)
            ==> self.free + self.phases@.len() - self.vacant@.len() == limit
    }

    /// As many connections are open as numbers are not vacant.
    proof fn lemma_open_count(self)
        requires
            self.vacancies_listed(),
        ensures
            self@.open.dom().finite(),
            self@.open.dom().len() == self.phases@.len() - self.vacant@.len(),
    {
        assert(self.phases.len() == self.phases@.len());
        let all = Seq::new(self.phases@.len(), |i: int| i as usize);
        assert(all.no_duplicates());
        all.unique_seq_to_set();
        self.vacant@.unique_seq_to_set();
        vstd::seq_lib::seq_to_set_is_finite(all);
        vstd::seq_lib::seq_to_set_is_finite(self.vacant@);
        let open = self@.open.dom();
        let vacant = self.vacant@.to_set();
        assert forall|id: usize| all.to_set().contains(id) <==> id < self.phases@.len() by {
            if id < self.phases@.len() {
                assert(all[id as int] == id);
            }
        }
        assert forall|id: usize| open.contains(id) || vacant.contains(id) implies all.to_set().contains(
            id,
        ) by {}
        assert forall|id: usize| all.to_set().contains(id) && !open.contains(id) implies vacant.contains(
            id,
        ) by {
            assert(self.phases@[id as int] is None);
            assert(self.vacant@.contains(id));
        }
        assert(open + vacant =~= all.to_set());
        assert(open.disjoint(vacant));
        vstd::set_lib::lemma_set_union_finite_implies_sets_finite(open, vacant);
        vstd::set_lib::lemma_set_disjoint_lens(open, vacant);
    }

    /// The state of a server that has just begun to run.
    pub fn new(throttling: ConcurrencyThrottling) -> (r: ServerState)
        ensures
            r.wf(),
            r@ == ServerView::fresh(throttling.limit()),
            r@.within_limit(),
            r@.limit == (match throttling {
                ConcurrencyThrottling::Limited(limit) => Some(limit as nat),
                ConcurrencyThrottling::NoLimit => None,
            }),
            r@.open == Map::<usize, ConnectionPhase>::empty(),
            r@.status == ServerStatus::Running,
    {
        let free: u32 = match throttling {
            ConcurrencyThrottling::Limited(limit) => limit,
            ConcurrencyThrottling::NoLimit => 0,
        };
        let r = ServerState {
            throttling,
            free,
            phases: Vec::new(),
            vacant: Vec::new(),
            status: ServerStatus::Running,
        };
        assert(r@.open =~= Map::empty());
        r
    }

    /// Whether the server still takes connections.
    pub fn status(&self) -> (r: ServerStatus)
        ensures
            r == self@.status,
    {
        self.status
    }

    /// The phase of connection `id`, if it is open.
    pub fn phase(&self, id: usize) -> (r: Option<ConnectionPhase>)
        ensures
            r == (if self@.open.contains_key(id) { Some(self@.open[id]) } else { None }),
    {
        if id < self.phases.len() {
            self.phases[id]
        } else {
            None
        }
    }

    /// How many connections are open.
    pub fn open_connections(&self) -> (r: usize)
        requires
            self.wf(),
        ensures
            r == self@.open.dom().len(),
    {
        proof {
            self.lemma_open_count();
        }
        self.phases.len() - self.vacant.len()
    }

    /// Whether connection `id` is open and in the given phase.
    fn is_in(&self, id: usize, phase: ConnectionPhase) -> (r: bool)
        ensures
            r == self@.is_in(id, phase),
    {
        match self.phase(id) {
            Some(current) => current == phase,
            None => false,
        }
    }

    /// Opens a connection under a number that none has.
    fn open(&mut self) -> (id: usize)
        requires
            old(self).wf(),
            !old(self)@.full(),
        ensures
            final(self).wf(),
            !old(self)@.open.contains_key(id),
            final(self)@ == old(self)@.with(id, ConnectionPhase::Accepted),
    {
        proof {
            self.lemma_open_count();
        }
        if let ConcurrencyThrottling::Limited(_) = self.throttling {
            self.free = self.free - 1;
        }
        let phase = Some(ConnectionPhase::Accepted);
        let id: usize = match self.vacant.pop() {
            Some(id) => {
                self.phases[id] = phase;
                id
            },
            None => {
                self.phases.push(phase);
                self.phases.len() - 1
            },
        };
        assert(self@.open =~= old(self)@.open.insert(id, ConnectionPhase::Accepted));
        assert(self.vacancies_listed()) by {
            assert forall|other: usize|
                other < self.phases@.len() && self.phases@[other as int] is None
                implies #[trigger] self.vacant@.contains(other) by {
                assert(old(self).vacant@.contains(other));
                let i = old(self).vacant@.index_of(other);
                assert(self.vacant@[i] == other);
            }
        }
        id
    }

    /// Moves an open connection to another phase.
    fn advance(&mut self, id: usize, phase: ConnectionPhase)
        requires
            old(self).wf(),
            old(self)@.open.contains_key(id),
        ensures
            final(self).wf(),
            final(self)@ == old(self)@.with(id, phase),
    {
        self.phases[id] = Some(phase);
        assert(self@.open =~= old(self)@.open.insert(id, phase));
    }

    /// Ends an open connection and gives back its slot.
    fn close(&mut self, id: usize)
        requires
            old(self).wf(),
            old(self)@.open.contains_key(id),
        ensures
            final(self).wf(),
            final(self)@ == old(self)@.without(id),
    {
        proof {
            self.lemma_open_count();
        }
        self.phases[id] = None;
        self.vacant.push(id);
        if let ConcurrencyThrottling::Limited(_) = self.throttling {
            self.free = self.free + 1;
        }
        assert(self@.open =~= old(self)@.open.remove(id));
        assert(self.vacancies_listed()) by {
            assert forall|other: usize|
                other < self.phases@.len() && self.phases@[other as int] is None
                implies #[trigger] self.vacant@.contains(other) by {
                if other == id {
                    assert(self.vacant@.last() == id);
                } else {
                    assert(old(self).vacant@.contains(other));
                    let i = old(self).vacant@.index_of(other);
                    assert(self.vacant@[i] == other);
                }
            }
        }
    }
}

impl ServerState {
    /// The limit, if as many connections are open as it allows.
    fn limit_reached(&self) -> (r: Option<u32>)
        requires
            self.wf(),
        ensures
            r is Some == self@.full(),
            r matches Some(limit) ==> self@.limit == Some(limit as nat),
    {
        proof {
            self.lemma_open_count();
        }
        match self.throttling {
            ConcurrencyThrottling::Limited(limit) => if self.free == 0 {
                Some(limit)
            } else {
                None
            },
            ConcurrencyThrottling::NoLimit => None,
        }
    }

    /// Takes note of an event and says what is to be done about it.
    pub fn handle(&mut self, event: ServerEvent) -> (action: ServerAction)
        requires
            old(self).wf(),
        ensures
            final(self).wf(),
            server_step(old(self)@, event, action, final(self)@),
            final(self)@.within_limit(),
            final(self)@.limit matches Some(limit) ==> final(self)@.open.dom().len() <= limit,
            event matches ServerEvent::ServiceFailed(id) ==> old(self)@.open.contains_key(id)
                && old(self)@.open[id] == ConnectionPhase::Starting ==> action
                == ServerAction::CloseReportingError(id) && final(self)@.open
                == old(self)@.open.remove(id),
            event matches ServerEvent::ConnectionClosed(id) ==> old(self)@.open.contains_key(id)
                && old(self)@.open[id] == ConnectionPhase::Serving ==> action
                == ServerAction::Close(id) && final(self)@.open == old(self)@.open.remove(id),
            event matches ServerEvent::ConnectionFailed(id) ==> old(self)@.open.contains_key(id)
                && old(self)@.open[id] == ConnectionPhase::Serving ==> action
                == ServerAction::CloseReportingError(id) && final(self)@.open
                == old(self)@.open.remove(id),
    {
        proof {
            self.lemma_open_count();
        }
        let running = self.status == ServerStatus::Running;
        match event {
            ServerEvent::Incoming => if running {
                match self.limit_reached() {
                    Some(limit) => ServerAction::Refuse(limit),
                    None => ServerAction::IdentifyPeer(self.open()),
                }
            } else {
                ServerAction::Ignore
            },
            ServerEvent::PeerIdentified(id) => if self.is_in(id, ConnectionPhase::Accepted) {
                self.advance(id, ConnectionPhase::Starting);
                ServerAction::StartService(id)
            } else {
                ServerAction::Ignore
            },
            ServerEvent::PeerUnknown(id) => if running && self.is_in(id, ConnectionPhase::Accepted) {
                self.status = ServerStatus::Failed;
                ServerAction::StopWithServiceError
            } else {
                ServerAction::Ignore
            },
            ServerEvent::ServiceReady(id) => if self.is_in(id, ConnectionPhase::Starting) {
                self.advance(id, ConnectionPhase::Serving);
                ServerAction::Serve(id)
            } else {
                ServerAction::Ignore
            },
            ServerEvent::ServiceFailed(id) => if self.is_in(id, ConnectionPhase::Starting) {
                self.close(id);
                ServerAction::CloseReportingError(id)
            } else {
                ServerAction::Ignore
            },
            ServerEvent::ConnectionClosed(id) => if self.is_in(id, ConnectionPhase::Serving) {
                self.close(id);
                ServerAction::Close(id)
            } else {
                ServerAction::Ignore
            },
            ServerEvent::ConnectionFailed(id) => if self.is_in(id, ConnectionPhase::Serving) {
                self.close(id);
                ServerAction::CloseReportingError(id)
            } else {
                ServerAction::Ignore
            },
            ServerEvent::IncomingClosed | ServerEvent::ShutdownRequested => if running {
                self.status = ServerStatus::Stopped;
                ServerAction::Stop
            } else {
                ServerAction::Ignore
            },
            ServerEvent::IncomingFailed => if running {
                self.status = ServerStatus::Failed;
                ServerAction::StopWithServiceError
            } else {
                ServerAction::Ignore
            },
        }
    }
}

/// One after the other, the server takes `events`, answers them by `actions`
/// and passes through `states`.
pub open spec fn server_run(
    states: Seq<ServerView>,
    events: Seq<ServerEvent>,
    actions: Seq<ServerAction>,
) -> bool {
    &&& states.len() == events.len() + 1
    &&& actions.len() == events.len()
    &&& forall|i: int| 0 <= i < events.len()
        ==> server_step(states[i], #[trigger] events[i], actions[i], states[i + 1])
}

/// No event brings more connections than the limit allows, and none changes the
/// limit.
pub proof fn law_step_keeps_limit(
    before: ServerView,
    event: ServerEvent,
    action: ServerAction,
    after: ServerView,
)
    requires
        before.open.dom().finite(),
        before.limit matches Some(limit) ==> before.open.dom().len() <= limit,
        server_step(before, event, action, after),
    ensures
        after.open.dom().finite(),
        after.within_limit(),
        after.limit == before.limit,
        after.limit matches Some(limit) ==> after.open.dom().len() <= limit,
{
}

/// From its start on, however events come, a server never has more connections
/// open than its throttling allows.
pub proof fn law_never_over_limit(
    throttling: ConcurrencyThrottling,
    states: Seq<ServerView>,
    events: Seq<ServerEvent>,
    actions: Seq<ServerAction>,
    n: int,
)
    requires
        server_run(states, events, actions),
        states[0] == ServerView::fresh(throttling.limit()),
        0 <= n < states.len(),
    ensures
        states[n].open.dom().finite(),
        states[n].within_limit(),
        states[n].limit == throttling.limit(),
        throttling matches ConcurrencyThrottling::Limited(limit) ==> states[n].open.dom().len()
            <= limit,
    decreases n,
{
    if n > 0 {
        law_never_over_limit(throttling, states, events, actions, n - 1);
        law_step_keeps_limit(states[n - 1], events[n - 1], actions[n - 1], states[n]);
    }
}

/// How many of the actions let a connection in.
pub open spec fn admissions(actions: Seq<ServerAction>) -> nat
    decreases actions.len(),
{
    if actions.len() == 0 {
        0
    } else {
        admissions(actions.drop_last()) + if actions.last() is IdentifyPeer {
            1nat
        } else {
            0
        }
    }
}

/// How many of the actions end a connection.
pub open spec fn endings(actions: Seq<ServerAction>) -> nat
    decreases actions.len(),
{
    if actions.len() == 0 {
        0
    } else {
        endings(actions.drop_last()) + if actions.last() is Close || actions.last()
            is CloseReportingError {
            1nat
        } else {
            0
        }
    }
}

/// Every connection that was let in is open until it ends, and it ends once:
/// from a server's start on, as many connections are open as were let in and
/// have not ended.
pub proof fn law_open_connections_add_up(
    limit: Option<nat>,
    states: Seq<ServerView>,
    events: Seq<ServerEvent>,
    actions: Seq<ServerAction>,
)
    requires
        server_run(states, events, actions),
        states[0] == ServerView::fresh(limit),
    ensures
        states.last().open.dom().finite(),
        states.last().open.dom().len() + endings(actions) == admissions(actions),
    decreases actions.len(),
{
    if actions.len() > 0 {
        let n = actions.len() - 1;
        let earlier = states.drop_last();
        assert(server_run(earlier, events.drop_last(), actions.drop_last())) by {
            assert forall|i: int| 0 <= i < events.drop_last().len() implies server_step(
                earlier[i],
                #[trigger] events.drop_last()[i],
                actions.drop_last()[i],
                earlier[i + 1],
            ) by {
                assert(events[i] == events.drop_last()[i]);
            }
        }
        law_open_connections_add_up(limit, earlier, events.drop_last(), actions.drop_last());
        assert(server_step(states[n], events[n], actions[n], states[n + 1]));
        assert(states[n] == earlier.last());
    }
}

/// A running server refuses a connection if and only if as many are open as
/// its throttling allows; without a limit it refuses none. A refusal names the
/// limit and changes nothing.
pub proof fn law_refusal(before: ServerView, action: ServerAction, after: ServerView)
    requires
        before.status == ServerStatus::Running,
        server_step(before, ServerEvent::Incoming, action, after),
    ensures
        action is Refuse <==> before.limit == Some(before.open.dom().len()),
        action matches ServerAction::Refuse(limit) ==> before.limit == Some(limit as nat) && after
            == before,
        before.limit is None ==> action is IdentifyPeer,
{
}

/// A connection that ends, well or not, gives its place back: one connection
/// fewer is open, all others are as they were, and a running server then admits
/// the next connection, even if it was full before.
pub proof fn law_end_frees_place(
    before: ServerView,
    event: ServerEvent,
    action: ServerAction,
    after: ServerView,
    next_action: ServerAction,
    next: ServerView,
)
    requires
        before.open.dom().finite(),
        before.limit matches Some(limit) ==> before.open.dom().len() <= limit,
        before.status == ServerStatus::Running,
        server_step(before, event, action, after),
        action is Close || action is CloseReportingError,
        server_step(after, ServerEvent::Incoming, next_action, next),
    ensures
        after.open.dom().len() == before.open.dom().len() - 1,
        after.open.submap_of(before.open),
        next_action is IdentifyPeer,
{
}

/// A connection that is admitted, has its service made and is served to its end
/// leaves the server as it found it.
pub proof fn law_served_connection_leaves_no_trace(
    states: Seq<ServerView>,
    events: Seq<ServerEvent>,
    actions: Seq<ServerAction>,
    id: usize,
)
    requires
        server_run(states, events, actions),
        events == seq![
            ServerEvent::Incoming,
            ServerEvent::PeerIdentified(id),
            ServerEvent::ServiceReady(id),
            ServerEvent::ConnectionClosed(id),
        ],
        actions[0] == ServerAction::IdentifyPeer(id),
    ensures
        actions == seq![
            ServerAction::IdentifyPeer(id),
            ServerAction::StartService(id),
            ServerAction::Serve(id),
            ServerAction::Close(id),
        ],
        states[4] == states[0],
{
    assert(server_step(states[0], events[0], actions[0], states[1]));
    assert(server_step(states[1], events[1], actions[1], states[2]));
    assert(server_step(states[2], events[2], actions[2], states[3]));
    assert(server_step(states[3], events[3], actions[3], states[4]));
    assert(states[4].open =~= states[0].open);
}

/// The connection that an event is about, if it is about one.
pub open spec fn event_subject(event: ServerEvent) -> Option<usize> {
    match event {
        ServerEvent::PeerIdentified(id) => Some(id),
        ServerEvent::PeerUnknown(id) => Some(id),
        ServerEvent::ServiceReady(id) => Some(id),
        ServerEvent::ServiceFailed(id) => Some(id),
        ServerEvent::ConnectionClosed(id) => Some(id),
        ServerEvent::ConnectionFailed(id) => Some(id),
        _ => None,
    }
}

/// An event leaves every open connection alone that it is not about.
pub proof fn law_other_connections_untouched(
    before: ServerView,
    event: ServerEvent,
    action: ServerAction,
    after: ServerView,
    other: usize,
)
    requires
        server_step(before, event, action, after),
        before.open.contains_key(other),
        event_subject(event) != Some(other),
    ensures
        after.open.contains_key(other),
        after.open[other] == before.open[other],
{
}

/// A server that has ended stays as it ended and admits no connection; the
/// connections that it still has go on to their own end.
pub proof fn law_ended_server_stays_ended(
    before: ServerView,
    event: ServerEvent,
    action: ServerAction,
    after: ServerView,
)
    requires
        before.status != ServerStatus::Running,
        server_step(before, event, action, after),
    ensures
        after.status == before.status,
        !(action is IdentifyPeer) && !(action is Refuse),
        !(action is Stop) && !(action is StopWithServiceError),
        after.open.dom().subset_of(before.open.dom()),
{
}

/// A running server ends if and only if it is told to shut down, its listener
/// closes or breaks off, or the peer of a new connection cannot be found out;
/// and it ends with a service error exactly in the last two cases.
pub proof fn law_when_a_server_ends(
    before: ServerView,
    event: ServerEvent,
    action: ServerAction,
    after: ServerView,
)
    requires
        before.status == ServerStatus::Running,
        server_step(before, event, action, after),
    ensures
        after.status == ServerStatus::Stopped <==> (event is ShutdownRequested || event is
            IncomingClosed),
        after.status == ServerStatus::Stopped <==> action is Stop,
        after.status == ServerStatus::Failed <==> (event is IncomingFailed || (event matches
            ServerEvent::PeerUnknown(id) && before.open.contains_key(id) && before.open[id]
            == ConnectionPhase::Accepted)),
        after.status == ServerStatus::Failed <==> action is StopWithServiceError,
        after.status != ServerStatus::Running ==> after.open == before.open && after.limit
            == before.limit,
{
}

/// A server allows as many connections as it is told to; if it is told none, any
/// number.
pub proof fn law_limit_is_as_told(n: u32, throttling: ConcurrencyThrottling, server: ServerState)
    requires
        call_ensures(ServerState::new, (throttling,), server),
    ensures
        throttling == ConcurrencyThrottling::Limited(n) ==> server@.limit == Some(n as nat),
        throttling == ConcurrencyThrottling::NoLimit ==> server@.limit is None,
        throttling.limit() == server@.limit,
{
}

/// A new server runs and has no connections.
pub proof fn law_new_server(throttling: ConcurrencyThrottling, server: ServerState, id: usize)
    requires
        call_ensures(ServerState::new, (throttling,), server),
    ensures
        server@.status == ServerStatus::Running,
        !server@.open.contains_key(id),
        server@ == ServerView::fresh(throttling.limit()),
{
}

/// A running server with fewer connections than it allows, or without a limit,
/// lets every new connection in: under a number that no open connection has,
/// with its peer to be found out. Nothing else changes.
pub proof fn law_connection_is_let_in(before: ServerView, action: ServerAction, after: ServerView)
    requires
        before.status == ServerStatus::Running,
        before.limit != Some(before.open.dom().len()),
        server_step(before, ServerEvent::Incoming, action, after),
    ensures
        action matches ServerAction::IdentifyPeer(id) && !before.open.contains_key(id)
            && after.open == before.open.insert(id, ConnectionPhase::Accepted),
        after.limit == before.limit,
        after.status == before.status,
{
}

/// When the peer of a new connection is known, its service is made; when the
/// service is ready, the connection is served. That holds of every server, also
/// of one that has ended. Nothing but the connection's phase changes.
pub proof fn law_connection_advances(
    before: ServerView,
    event: ServerEvent,
    action: ServerAction,
    after: ServerView,
    id: usize,
)
    requires
        before.open.contains_key(id),
        server_step(before, event, action, after),
    ensures
        event == ServerEvent::PeerIdentified(id) && before.open[id] == ConnectionPhase::Accepted
            ==> {
            &&& action == ServerAction::StartService(id)
            &&& after.open == before.open.insert(id, ConnectionPhase::Starting)
            &&& after.limit == before.limit
            &&& after.status == before.status
        },
        event == ServerEvent::ServiceReady(id) && before.open[id] == ConnectionPhase::Starting
            ==> {
            &&& action == ServerAction::Serve(id)
            &&& after.open == before.open.insert(id, ConnectionPhase::Serving)
            &&& after.limit == before.limit
            &&& after.status == before.status
        },
{
}

/// A connection ends when it was served to its end, when it breaks off, and when
/// its service cannot be made; in the last two cases the error is reported. That
/// holds of every server, running or not, full or not, with or without a limit.
/// The connection is not open any more, and nothing else changes.
pub proof fn law_connection_ends(
    before: ServerView,
    event: ServerEvent,
    action: ServerAction,
    after: ServerView,
    id: usize,
)
    requires
        before.open.contains_key(id),
        server_step(before, event, action, after),
        ({
            ||| event == ServerEvent::ConnectionClosed(id) && before.open[id]
                == ConnectionPhase::Serving
            ||| event == ServerEvent::ConnectionFailed(id) && before.open[id]
                == ConnectionPhase::Serving
            ||| event == ServerEvent::ServiceFailed(id) && before.open[id]
                == ConnectionPhase::Starting
        }),
    ensures
        event is ConnectionClosed ==> action == ServerAction::Close(id),
        !(event is ConnectionClosed) ==> action == ServerAction::CloseReportingError(id),
        !after.open.contains_key(id),
        after.open == before.open.remove(id),
        after.limit == before.limit,
        after.status == before.status,
{
}

/// A running server is ended well by a shutdown and by the end of its listener,
/// and with a service error by an error of its listener or a peer that cannot be
/// found out. Its connections stay as they are.
pub proof fn law_server_is_ended(
    before: ServerView,
    event: ServerEvent,
    action: ServerAction,
    after: ServerView,
    id: usize,
)
    requires
        before.status == ServerStatus::Running,
        server_step(before, event, action, after),
    ensures
        event == ServerEvent::ShutdownRequested || event == ServerEvent::IncomingClosed ==> action
            == ServerAction::Stop && after.status == ServerStatus::Stopped && after.open
            == before.open && after.limit == before.limit,
        event == ServerEvent::IncomingFailed || (event == ServerEvent::PeerUnknown(id)
            && before.open.contains_key(id) && before.open[id] == ConnectionPhase::Accepted)
            ==> action == ServerAction::StopWithServiceError && after.status
            == ServerStatus::Failed && after.open == before.open && after.limit == before.limit,
{
}

/// What happens out of turn has no effect: news of a connection that is not open
/// or not in the phase that the news belong to, and new connections, ends and
/// unknown peers of a server that has ended.
pub proof fn law_out_of_turn(
    before: ServerView,
    event: ServerEvent,
    action: ServerAction,
    after: ServerView,
    id: usize,
)
    requires
        server_step(before, event, action, after),
        ({
            ||| event == ServerEvent::PeerIdentified(id) && !(before.open.contains_key(id)
                && before.open[id] == ConnectionPhase::Accepted)
            ||| event == ServerEvent::PeerUnknown(id) && !(before.open.contains_key(id)
                && before.open[id] == ConnectionPhase::Accepted)
            ||| event == ServerEvent::ServiceReady(id) && !(before.open.contains_key(id)
                && before.open[id] == ConnectionPhase::Starting)
            ||| event == ServerEvent::ServiceFailed(id) && !(before.open.contains_key(id)
                && before.open[id] == ConnectionPhase::Starting)
            ||| event == ServerEvent::ConnectionClosed(id) && !(before.open.contains_key(id)
                && before.open[id] == ConnectionPhase::Serving)
            ||| event == ServerEvent::ConnectionFailed(id) && !(before.open.contains_key(id)
                && before.open[id] == ConnectionPhase::Serving)
            ||| before.status != ServerStatus::Running && (event == ServerEvent::Incoming || event
                == ServerEvent::IncomingClosed || event == ServerEvent::IncomingFailed || event
                == ServerEvent::ShutdownRequested || event == ServerEvent::PeerUnknown(id))
        }),
    ensures
        action == ServerAction::Ignore,
        after == before,
{
}

/// What is told of a server is what it is: its status, the number of its open
/// connections, and for each connection whether it is open and how far it has
/// come.
pub proof fn law_server_tells_its_state(
    server: ServerState,
    id: usize,
    status: ServerStatus,
    count: usize,
    phase: Option<ConnectionPhase>,
)
    requires
        call_ensures(ServerState::status, (&server,), status),
        call_ensures(ServerState::open_connections, (&server,), count),
        call_ensures(ServerState::phase, (&server, id), phase),
    ensures
        status == server@.status,
        count == server@.open.dom().len(),
        phase is Some <==> server@.open.contains_key(id),
        phase matches Some(current) ==> current == server@.open[id],
{
}

/// A run goes on with every further step from the state that it has reached.
pub proof fn law_run_goes_on(
    states: Seq<ServerView>,
    events: Seq<ServerEvent>,
    actions: Seq<ServerAction>,
    event: ServerEvent,
    action: ServerAction,
    after: ServerView,
)
    requires
        server_run(states, events, actions),
        server_step(states.last(), event, action, after),
    ensures
        server_run(states.push(after), events.push(event), actions.push(action)),
{
    let all = events.push(event);
    assert forall|i: int| 0 <= i < all.len() implies server_step(
        states.push(after)[i],
        #[trigger] all[i],
        actions.push(action)[i],
        states.push(after)[i + 1],
    ) by {
        if i < events.len() {
            assert(all[i] == events[i]);
        }
    }
}

/// A server that has taken no event has made a run.
pub proof fn law_run_begins(state: ServerView)
    ensures
        server_run(seq![state], Seq::empty(), Seq::empty()),
{
}

} // verus!
