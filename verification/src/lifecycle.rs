//! The application lifecycle: the startup order, the running bridge, and the
//! drain at shutdown.

use vstd::prelude::*;
use vstd::string::*;
use crate::dispatcher::{
    handler_for,
    link_reply,
    outcome_of,
    shutdown_reply,
    Dispatched,
    Dispatcher,
    InvocationRequest,
    InvocationResponse,
    Step,
    StepView,
};
use crate::error::{ErrorInfo, ErrorKind, ErrorView};
use crate::registry::{
    distinct_names,
    lemma_table_absent,
    lemma_table_lookup,
    table,
    CommandDescriptor,
    CommandRegistry,
    Handler,
};
use crate::window::{
    clamped,
    creation_error,
    positive,
    stale_error,
    Size,
    WindowConfig,
    WindowController,
    WindowHandle,
};

verus! {

#[derive(Clone, Copy, Debug, PartialEq, Eq, Structural)]
pub enum LifecycleState {
    Uninitialized,
    WindowCreated,
    CommandsRegistered,
    Running,
    ShuttingDown,
    Terminated,
}

/// What moves the lifecycle on.
#[derive(Clone, Copy, Debug, PartialEq, Eq, Structural)]
pub enum LifecycleEvent {
    /// The main window exists.
    WindowReady,
    /// The registry is filled.
    CommandsReady,
    /// The event loop was entered.
    LoopEntered,
    /// The window was closed.
    CloseRequested,
    /// The application was asked to quit.
    QuitRequested,
    /// No request is in flight any more.
    Drained,
    /// The shutdown deadline elapsed.
    DeadlineElapsed,
    /// Startup met a fatal error.
    StartupFailed,
}

impl LifecycleState {
    /// The position of a state in the lifecycle's order.
    pub open spec fn rank(self) -> nat {
        match self {
            LifecycleState::Uninitialized => 0,
            LifecycleState::WindowCreated => 1,
            LifecycleState::CommandsRegistered => 2,
            LifecycleState::Running => 3,
            LifecycleState::ShuttingDown => 4,
            LifecycleState::Terminated => 5,
        }
    }

    /// The state that `event` leads to from this one; `None` where the event
    /// has no place in this state.
    pub open spec fn successor(self, event: LifecycleEvent) -> Option<LifecycleState> {
        match (self, event) {
            (LifecycleState::Uninitialized, LifecycleEvent::WindowReady) => Some(
                LifecycleState::WindowCreated,
            ),
            (LifecycleState::WindowCreated, LifecycleEvent::CommandsReady) => Some(
                LifecycleState::CommandsRegistered,
            ),
            (LifecycleState::CommandsRegistered, LifecycleEvent::LoopEntered) => Some(
                LifecycleState::Running,
            ),
            (LifecycleState::Running, LifecycleEvent::CloseRequested) => Some(
                LifecycleState::ShuttingDown,
            ),
            (LifecycleState::Running, LifecycleEvent::QuitRequested) => Some(
                LifecycleState::ShuttingDown,
            ),
            (LifecycleState::ShuttingDown, LifecycleEvent::Drained) => Some(
                LifecycleState::Terminated,
            ),
            (LifecycleState::ShuttingDown, LifecycleEvent::DeadlineElapsed) => Some(
                LifecycleState::Terminated,
            ),
            (LifecycleState::Uninitialized, LifecycleEvent::StartupFailed) => Some(
                LifecycleState::Terminated,
            ),
            (LifecycleState::WindowCreated, LifecycleEvent::StartupFailed) => Some(
                LifecycleState::Terminated,
            ),
            _ => None,
        }
    }

    /// The state after `event`: its successor, or this state where the event
    /// has no place in it.
    pub open spec fn after(self, event: LifecycleEvent) -> LifecycleState {
        match self.successor(event) {
            Some(next) => next,
            None => self,
        }
    }

    /// The dispatcher is reachable in this state.
    pub open spec fn serves(self) -> bool {
        self == LifecycleState::Running
    }

    pub fn advance(self, event: LifecycleEvent) -> (next: Option<LifecycleState>)
        ensures
            next == self.successor(event),
    {
        match (self, event) {
            (LifecycleState::Uninitialized, LifecycleEvent::WindowReady) => Some(
                LifecycleState::WindowCreated,
            ),
            (LifecycleState::WindowCreated, LifecycleEvent::CommandsReady) => Some(
                LifecycleState::CommandsRegistered,
            ),
            (LifecycleState::CommandsRegistered, LifecycleEvent::LoopEntered) => Some(
                LifecycleState::Running,
            ),
            (LifecycleState::Running, LifecycleEvent::CloseRequested)
            | (LifecycleState::Running, LifecycleEvent::QuitRequested) => Some(
                LifecycleState::ShuttingDown,
            ),
            (LifecycleState::ShuttingDown, LifecycleEvent::Drained)
            | (LifecycleState::ShuttingDown, LifecycleEvent::DeadlineElapsed) => Some(
                LifecycleState::Terminated,
            ),
            (LifecycleState::Uninitialized, LifecycleEvent::StartupFailed)
            | (LifecycleState::WindowCreated, LifecycleEvent::StartupFailed) => Some(
                LifecycleState::Terminated,
            ),
            _ => None,
        }
    }

    pub fn step(self, event: LifecycleEvent) -> (next: LifecycleState)
        ensures
            next == self.after(event),
    {
        match self.advance(event) {
            Some(next) => next,
            None => self,
        }
    }

    pub fn accepts_requests(self) -> (b: bool)
        ensures
            b == self.serves(),
    {
        match self {
            LifecycleState::Running => true,
            _ => false,
        }
    }
}

/// The lifecycle only moves forward, and `Running` is entered from
/// `CommandsRegistered` alone: never before the window exists and the
/// registry is filled.
pub proof fn lemma_lifecycle_moves_forward(state: LifecycleState, event: LifecycleEvent)
    ensures
        state.successor(event) matches Some(next) ==> state.rank() < next.rank(),
        state.successor(event) == Some(LifecycleState::Running) ==> state
            == LifecycleState::CommandsRegistered,
        state == LifecycleState::Terminated ==> state.successor(event) is None,
{
}

/// `k` is the first position of `id` in `pending`.
pub open spec fn is_first(pending: Seq<u64>, id: u64, k: int) -> bool {
    0 <= k < pending.len() && pending[k] == id && forall|j: int| 0 <= j < k ==> pending[j] != id
}

/// The first position of `id` in `pending`, where it occurs.
pub open spec fn first_at(pending: Seq<u64>, id: u64) -> int {
    choose|k: int| is_first(pending, id, k)
}

proof fn lemma_first_up_to(pending: Seq<u64>, id: u64, n: int)
    requires
        0 <= n < pending.len(),
        pending[n] == id,
    ensures
        exists|k: int| is_first(pending, id, k),
    decreases n,
{
    if forall|j: int| 0 <= j < n ==> pending[j] != id {
        assert(is_first(pending, id, n));
    } else {
        let j = choose|j: int| 0 <= j < n && pending[j] == id;
        lemma_first_up_to(pending, id, j);
    }
}

/// An id that is in flight has a first place in the queue, and completing it
/// takes out that one occurrence: the oldest request under the id is settled,
/// every other request stays in flight, in its order.
pub proof fn lemma_completion_settles_one(pending: Seq<u64>, id: u64)
    requires
        pending.contains(id),
    ensures
        is_first(pending, id, first_at(pending, id)),
        pending.remove(first_at(pending, id)).len() == pending.len() - 1,
        forall|j: int|
            0 <= j < first_at(pending, id) ==> pending.remove(first_at(pending, id))[j]
                == pending[j],
        forall|j: int|
            first_at(pending, id) <= j < pending.len() - 1 ==> pending.remove(
                first_at(pending, id),
            )[j] == pending[j + 1],
{
    let n = choose|n: int| 0 <= n < pending.len() && pending[n] == id;
    lemma_first_up_to(pending, id, n);
}

/// The error that a repeated command name stops startup with: it carries the
/// name of the first descriptor that repeats an earlier one.
pub open spec fn repeated(entries: Seq<CommandDescriptor>, e: ErrorView) -> bool {
    e.kind == ErrorKind::DuplicateCommand && exists|i: int, j: int|
        0 <= i < j < entries.len() && distinct_names(entries.take(j)) && #[trigger] entries[i].name@
            == e.message && #[trigger] entries[j].name@ == e.message
}

/// The running application: the window, the dispatcher, and the requests that
/// wait for the platform.
pub struct Application {
    state: LifecycleState,
    window: WindowController,
    dispatcher: Dispatcher,
    pending: Vec<u64>,
}

impl Application {
    pub closed spec fn state(&self) -> LifecycleState {
        self.state
    }

    /// The bound commands.
    pub closed spec fn commands(&self) -> Map<Seq<char>, Handler> {
        self.dispatcher.commands()
    }

    pub closed spec fn version(&self) -> Seq<char> {
        self.dispatcher.version()
    }

    /// The live window handle.
    pub closed spec fn window(&self) -> Option<WindowHandle> {
        self.window.live()
    }

    /// The minimum size in force.
    pub closed spec fn minimum(&self) -> Option<Size> {
        self.window.minimum()
    }

    /// The ids of the requests in flight, oldest first.
    pub closed spec fn pending(&self) -> Seq<u64> {
        self.pending@
    }

    pub closed spec fn wf(&self) -> bool {
        &&& self.dispatcher.wf()
        &&& self.window.wf()
        &&& self.state.rank() >= LifecycleState::Running.rank()
        &&& self.state == LifecycleState::Running <==> self.window.live() is Some
        &&& self.state == LifecycleState::ShuttingDown ==> self.pending@.len() > 0
        &&& self.state == LifecycleState::Terminated ==> self.pending@.len() == 0
    }

    /// What holds of every application, in every state: it has been started;
    /// it has its window exactly while it runs; a minimum size is in force
    /// only on a live window; it drains only while requests are in flight,
    /// and once terminated none is.
    pub proof fn lemma_invariant(&self)
        requires
            self.wf(),
        ensures
            self.state().rank() >= LifecycleState::Running.rank(),
            self.state().serves() <==> self.window() is Some,
            self.minimum() is Some ==> self.window() is Some,
            self.state() == LifecycleState::ShuttingDown ==> self.pending().len() > 0,
            self.state() == LifecycleState::Terminated ==> self.pending().len() == 0,
    {
    }

    /// The bridge itself is as it was: same commands, same version.
    pub open spec fn same_bridge(&self, before: &Application) -> bool {
        self.commands() == before.commands() && self.version() == before.version()
    }

    /// The window is as it was.
    pub open spec fn same_window(&self, before: &Application) -> bool {
        self.window() == before.window() && self.minimum() == before.minimum()
    }

    /// Starts the application, in this order: take the window, apply the
    /// configured minimum size, register the commands, enter `Running`.
    ///
    /// `platform_window` is the window that the platform allocated, `None` if
    /// it could not. Without a window startup fails before any command is
    /// looked at. A repeated command name fails it too. A minimum size that
    /// cannot be applied is not fatal: the window then has none.
    pub fn start(
        config: &WindowConfig,
        platform_window: Option<u64>,
        commands: &Vec<CommandDescriptor>,
        version: &str,
    ) -> (r: Result<Application, ErrorInfo>)
        ensures
            r is Ok <==> platform_window is Some && distinct_names(commands@),
            r matches Ok(app) ==> {
                &&& app.wf()
                &&& app.state() == LifecycleState::Running
                &&& app.commands() == table(commands@)
                &&& app.version() == version@
                &&& app.window() == Some(WindowHandle { id: platform_window.unwrap() })
                &&& app.minimum() == (if positive(config.min_width, config.min_height) {
                    Some(Size { width: config.min_width, height: config.min_height })
                } else {
                    None
                })
                &&& app.pending() == Seq::<u64>::empty()
            },
            r matches Err(e) ==> (if platform_window is None {
                e@ == creation_error()
            } else {
                repeated(commands@, e@)
            }),
    {
        let state = LifecycleState::Uninitialized;
        let mut window = WindowController::new();
        let handle = match window.create_main_window(config, platform_window) {
            Ok(handle) => handle,
            Err(e) => {
                return Err(e);
            },
        };
        let _ = window.apply_minimum_size(handle, config.min_width, config.min_height);
        let state = state.step(LifecycleEvent::WindowReady);
        let mut registry = CommandRegistry::new();
        let mut i: usize = 0;
        while i < commands.len()
            invariant
                i <= commands@.len(),
                platform_window is Some,
                state == LifecycleState::WindowCreated,
                registry.wf(),
                registry@ == table(commands@.take(i as int)),
                distinct_names(commands@.take(i as int)),
            decreases commands@.len() - i,
        {
            let ghost seen = commands@.take(i as int);
            let ghost grown = commands@.take(i + 1);
            let ghost name = commands@[i as int].name@;
            proof {
                assert(grown.drop_last() =~= seen);
                assert(grown.last() == commands@[i as int]);
            }
            match registry.register(commands[i].name.as_str(), commands[i].handler) {
                Ok(_) => {
                    proof {
                        assert forall|a: int, b: int| 0 <= a < b < grown.len() implies
                            #[trigger] grown[a].name@ != #[trigger] grown[b].name@ by {
                            if b < i {
                                assert(seen[a] == grown[a] && seen[b] == grown[b]);
                            } else {
                                assert(seen[a] == grown[a]);
                                if seen[a].name@ == name {
                                    lemma_table_lookup(seen, a);
                                }
                            }
                        }
                    }
                },
                Err(e) => {
                    proof {
                        if forall|k: int|
                            0 <= k < seen.len() ==> (#[trigger] seen[k]).name@ != name {
                            lemma_table_absent(seen, name);
                        }
                        let k = choose|k: int|
                            0 <= k < seen.len() && (#[trigger] seen[k]).name@ == name;
                        assert(seen[k] == commands@[k]);
                        assert(commands@[k].name@ == e@.message);
                        assert(commands@[i as int].name@ == e@.message);
                        assert(repeated(commands@, e@));
                    }
                    return Err(e);
                },
            }
            i += 1;
        }
        proof {
            assert(commands@.take(i as int) =~= commands@);
        }
        Ok(
            Application {
                state: state.step(LifecycleEvent::CommandsReady).step(LifecycleEvent::LoopEntered),
                window,
                dispatcher: Dispatcher::new(registry, version),
                pending: Vec::new(),
            },
        )
    }

    pub fn current_state(&self) -> (s: LifecycleState)
        ensures
            s == self.state(),
    {
        self.state
    }

    pub fn main_window(&self) -> (h: Option<WindowHandle>)
        ensures
            h == self.window(),
    {
        self.window.handle()
    }

    pub fn minimum_size(&self) -> (m: Option<Size>)
        ensures
            m == self.minimum(),
    {
        self.window.minimum_size()
    }

    /// The size that the main window takes when `width` by `height` is asked
    /// for: never below the minimum in force. Fails once the window is gone.
    pub fn resize(&self, width: i32, height: i32) -> (r: Result<Size, ErrorInfo>)
        requires
            self.wf(),
        ensures
            r is Ok <==> self.window() is Some,
            r matches Ok(size) ==> size == clamped(self.minimum(), Size { width, height }),
            r matches Err(e) ==> e@ == stale_error(),
    {
        match self.window.handle() {
            Some(handle) => self.window.resize(handle, width, height),
            None => Err(ErrorInfo::new(ErrorKind::Constraint, "the window handle is stale")),
        }
    }

    /// How many requests are in flight.
    pub fn in_flight(&self) -> (n: usize)
        ensures
            n == self.pending().len(),
    {
        self.pending.len()
    }

    /// Answers a request from the UI surface. While `Running` the request is
    /// dispatched, and one that waits for the platform is noted as in flight.
    /// In any other state no handler runs and the request is refused.
    pub fn invoke(&mut self, request: &InvocationRequest) -> (d: Dispatched)
        requires
            old(self).wf(),
        ensures
            final(self).wf(),
            final(self).state() == old(self).state(),
            final(self).same_bridge(old(self)),
            final(self).same_window(old(self)),
            !old(self).state().serves() ==> d.handler is None && d.step@ == StepView::Reply(
                shutdown_reply(request.id),
            ) && final(self).pending() == old(self).pending(),
            old(self).state().serves() ==> d.handler == handler_for(
                old(self).commands(),
                request@,
            ) && d.step@ == outcome_of(old(self).commands(), old(self).version(), request@)
                && final(self).pending() == (if d.step@ is OpenLink {
                old(self).pending().push(request.id)
            } else {
                old(self).pending()
            }),
    {
        if !self.state.accepts_requests() {
            return Dispatched { handler: None, step: Step::Reply(Dispatcher::refuse(request.id)) };
        }
        let d = self.dispatcher.dispatch(request);
        match &d.step {
            Step::OpenLink { .. } => {
                self.pending.push(request.id);
            },
            Step::Reply(_) => {},
        }
        d
    }

    /// Settles the oldest request in flight under `id` with the platform's
    /// answer. An id that is not in flight gets no response: each request is
    /// answered once. The last completion during shutdown ends the drain.
    pub fn complete(&mut self, id: u64, launched: bool) -> (r: Option<InvocationResponse>)
        requires
            old(self).wf(),
        ensures
            final(self).wf(),
            final(self).same_bridge(old(self)),
            final(self).same_window(old(self)),
            r is Some <==> old(self).pending().contains(id),
            r is None ==> final(self).pending() == old(self).pending() && final(self).state()
                == old(self).state(),
            r matches Some(response) ==> {
                &&& response@ == link_reply(id, launched)
                &&& final(self).pending() == old(self).pending().remove(
                    first_at(old(self).pending(), id),
                )
                &&& final(self).state() == (if old(self).pending().len() == 1 {
                    old(self).state().after(LifecycleEvent::Drained)
                } else {
                    old(self).state()
                })
            },
    {
        let mut k: usize = 0;
        while k < self.pending.len()
            invariant
                k <= self.pending@.len(),
                *self == *old(self),
                self.wf(),
                forall|j: int| 0 <= j < k ==> self.pending@[j] != id,
            decreases self.pending@.len() - k,
        {
            if self.pending[k] == id {
                proof {
                    assert(is_first(self.pending@, id, k as int));
                    let first = first_at(self.pending@, id);
                    assert(is_first(self.pending@, id, first));
                    assert(first == k);
                }
                self.pending.remove(k);
                if self.pending.len() == 0 {
                    self.state = self.state.step(LifecycleEvent::Drained);
                }
                return Some(Dispatcher::complete_link(id, launched));
            }
            k += 1;
        }
        None
    }

    /// Begins shutdown on window-close or quit: releases the window and stops
    /// serving requests. With nothing in flight the drain is over at once and
    /// the application terminates; otherwise it drains. Outside `Running`
    /// nothing happens.
    pub fn request_shutdown(&mut self) -> (s: LifecycleState)
        requires
            old(self).wf(),
        ensures
            final(self).wf(),
            s == final(self).state(),
            final(self).same_bridge(old(self)),
            final(self).pending() == old(self).pending(),
            s == (if old(self).pending().len() == 0 {
                old(self).state().after(LifecycleEvent::CloseRequested).after(
                    LifecycleEvent::Drained,
                )
            } else {
                old(self).state().after(LifecycleEvent::CloseRequested)
            }),
            old(self).state() == LifecycleState::Running ==> final(self).window() is None
                && final(self).minimum() is None,
            old(self).state() != LifecycleState::Running ==> final(self).same_window(old(self)),
    {
        if let Some(handle) = self.window.handle() {
            self.window.destroy(handle);
        }
        self.state = self.state.step(LifecycleEvent::CloseRequested);
        if self.pending.len() == 0 {
            self.state = self.state.step(LifecycleEvent::Drained);
        }
        self.state
    }

    /// Ends the drain when the shutdown deadline elapses: every request still
    /// in flight is abandoned and answered with `ShutdownInProgress`, oldest
    /// first. Outside `ShuttingDown` nothing happens and nothing is returned.
    pub fn deadline_elapsed(&mut self) -> (abandoned: Vec<InvocationResponse>)
        requires
            old(self).wf(),
        ensures
            final(self).wf(),
            final(self).same_bridge(old(self)),
            final(self).same_window(old(self)),
            final(self).state() == old(self).state().after(LifecycleEvent::DeadlineElapsed),
            old(self).state() == LifecycleState::ShuttingDown ==> {
                &&& final(self).pending() == Seq::<u64>::empty()
                &&& abandoned@.len() == old(self).pending().len()
                &&& forall|i: int|
                    0 <= i < abandoned@.len() ==> (#[trigger] abandoned@[i])@ == shutdown_reply(
                        old(self).pending()[i],
                    )
            },
            old(self).state() != LifecycleState::ShuttingDown ==> {
                &&& final(self).pending() == old(self).pending()
                &&& abandoned@.len() == 0
            },
    {
        let mut abandoned: Vec<InvocationResponse> = Vec::new();
        match self.state {
            LifecycleState::ShuttingDown => {},
            _ => {
                return abandoned;
            },
        }
        let mut i: usize = 0;
        while i < self.pending.len()
            invariant
                i <= self.pending@.len(),
                *self == *old(self),
                abandoned@.len() == i,
                forall|j: int|
                    0 <= j < i ==> (#[trigger] abandoned@[j])@ == shutdown_reply(self.pending@[j]),
            decreases self.pending@.len() - i,
        {
            abandoned.push(Dispatcher::refuse(self.pending[i]));
            i += 1;
        }
        self.pending = Vec::new();
        self.state = self.state.step(LifecycleEvent::DeadlineElapsed);
        abandoned
    }
}

} // verus!
