//! The dispatch state machine: observe, execute, then re-arm.
//!
//! The caller performs each outstanding [`Action`] (a blocking read of the
//! notification queue, a report, a command sent to the child process, a new
//! registration) and hands back what came of it as an [`Input`]. The machine
//! decides what happens next.
use vstd::prelude::*;
use crate::events::{
    resolve_all, resolve_events, views, RawEvent, RawEventModel, ResolvedModel, ResolvedPath,
};
use crate::registry::{WatchHandle, WatchRegistry};

verus! {

/// What the caller has to do next.
#[derive(Debug, PartialEq, Eq)]
pub enum Action {
    /// Block on the notification queue and hand back what one read decoded.
    Poll,
    /// Report that a directory-level record for this entry was ignored.
    Ignore(String),
    /// Send the command to the child process for a change of this path.
    Execute(String),
    /// Register this path again: its watch fired and was dropped.
    Rearm(String),
}

/// What came of the outstanding action.
#[derive(Debug)]
pub enum Input {
    /// The records of one read of the notification queue.
    Polled(Vec<RawEvent>),
    /// The ignored record was reported.
    Ignored,
    /// The command was sent and its output read back.
    Executed,
    /// The new registration: its handle, or nothing when it failed.
    Rearmed(Option<WatchHandle>),
}

/// An [`Action`] as plain values.
pub enum ActionModel {
    Poll,
    Ignore(Seq<char>),
    Execute(Seq<char>),
    Rearm(Seq<char>),
}

/// An [`Input`] as plain values.
pub enum InputModel {
    Polled(Seq<RawEventModel>),
    Ignored,
    Executed,
    Rearmed(Option<WatchHandle>),
}

/// A [`Watcher`] as plain values: the registry, the resolved paths still to
/// dispatch, and the outstanding action.
pub struct WatcherModel {
    pub registry: Map<WatchHandle, Seq<char>>,
    pub pending: Seq<ResolvedModel>,
    pub action: ActionModel,
}

impl View for Action {
    type V = ActionModel;

    open spec fn view(&self) -> ActionModel {
        match self {
            Action::Poll => ActionModel::Poll,
            Action::Ignore(p) => ActionModel::Ignore(p@),
            Action::Execute(p) => ActionModel::Execute(p@),
            Action::Rearm(p) => ActionModel::Rearm(p@),
        }
    }
}

impl View for Input {
    type V = InputModel;

    open spec fn view(&self) -> InputModel {
        match self {
            Input::Polled(evs) => InputModel::Polled(views(evs@)),
            Input::Ignored => InputModel::Ignored,
            Input::Executed => InputModel::Executed,
            Input::Rearmed(h) => InputModel::Rearmed(*h),
        }
    }
}

/// Takes the next resolved path off `pending`: a directory-level one is to be
/// ignored, any other one executed. With nothing pending, the queue is polled.
pub open spec fn dispatch_next(
    registry: Map<WatchHandle, Seq<char>>,
    pending: Seq<ResolvedModel>,
) -> WatcherModel {
    if pending.len() == 0 {
        WatcherModel { registry, pending, action: ActionModel::Poll }
    } else {
        let x = pending[0];
        WatcherModel {
            registry,
            pending: pending.subrange(1, pending.len() as int),
            action: if x.1 {
                ActionModel::Ignore(x.0)
            } else {
                ActionModel::Execute(x.0)
            },
        }
    }
}

/// The transition on input `i` in state `s`. An input that does not answer
/// the outstanding action leaves the state as it is.
pub open spec fn step_model(s: WatcherModel, i: InputModel) -> WatcherModel {
    match s.action {
        ActionModel::Poll => match i {
            InputModel::Polled(evs) => dispatch_next(s.registry, resolve_all(s.registry, evs)),
            _ => s,
        },
        ActionModel::Ignore(_) => match i {
            InputModel::Ignored => dispatch_next(s.registry, s.pending),
            _ => s,
        },
        ActionModel::Execute(p) => match i {
            InputModel::Executed => WatcherModel {
                registry: s.registry,
                pending: s.pending,
                action: ActionModel::Rearm(p),
            },
            _ => s,
        },
        ActionModel::Rearm(p) => match i {
            InputModel::Rearmed(Some(h)) => dispatch_next(s.registry.insert(h, p), s.pending),
            InputModel::Rearmed(None) => dispatch_next(s.registry, s.pending),
            _ => s,
        },
    }
}

/// Why the watcher cannot start.
#[derive(Debug, Clone, Copy, PartialEq, Eq, Structural)]
pub enum StartupError {
    /// No path was supplied.
    NoPaths,
    /// Every supplied path failed to register.
    NothingWatched,
}

/// The registry after recording, in order, each registration that succeeded.
pub open spec fn register_model(
    m: Map<WatchHandle, Seq<char>>,
    regs: Seq<(Seq<char>, Option<WatchHandle>)>,
) -> Map<WatchHandle, Seq<char>>
    decreases regs.len(),
{
    if regs.len() == 0 {
        m
    } else {
        let before = register_model(m, regs.drop_last());
        match regs.last().1 {
            Some(h) => before.insert(h, regs.last().0),
            None => before,
        }
    }
}

/// The number of registrations that succeeded.
pub open spec fn count_registered(regs: Seq<(Seq<char>, Option<WatchHandle>)>) -> nat
    decreases regs.len(),
{
    if regs.len() == 0 {
        0
    } else {
        count_registered(regs.drop_last()) + if regs.last().1 is Some {
            1nat
        } else {
            0nat
        }
    }
}

/// The registrations of a list as plain values.
pub open spec fn registrations_model(regs: Seq<(String, Option<WatchHandle>)>) -> Seq<
    (Seq<char>, Option<WatchHandle>),
> {
    regs.map_values(|r: (String, Option<WatchHandle>)| (r.0@, r.1))
}

/// Re-arming follows execution: a step that leaves a re-arm of `p`
/// outstanding either changed nothing, a re-arm of `p` being outstanding
/// already, or answered the completed execution for that same path. The
/// registry changes only on the input that answers a re-arm.
pub proof fn lemma_rearm_follows_execute(s: WatcherModel, i: InputModel, p: Seq<char>)
    ensures
        step_model(s, i).action == ActionModel::Rearm(p) ==> (s.action == ActionModel::Rearm(p)
            && step_model(s, i) == s) || (s.action == ActionModel::Execute(p) && i
            == InputModel::Executed),
        s.action == ActionModel::Execute(p) ==> step_model(s, InputModel::Executed)
            == (WatcherModel { registry: s.registry, pending: s.pending, action: ActionModel::Rearm(p) }),
        step_model(s, i).registry != s.registry ==> s.action is Rearm && i is Rearmed,
{
}


/// The registry, the paths of the last read still to dispatch, and the
/// outstanding action.
pub struct Watcher {
    registry: WatchRegistry,
    pending: Vec<ResolvedPath>,
    next: usize,
    action: Action,
}

impl View for Watcher {
    type V = WatcherModel;

    closed spec fn view(&self) -> WatcherModel {
        WatcherModel {
            registry: self.registry@,
            pending: views(self.pending@).subrange(self.next as int, self.pending@.len() as int),
            action: self.action@,
        }
    }
}

fn copy_path(p: &String) -> (r: String)
    ensures
        r@ == p@,
{
    p.clone()
}

impl Watcher {
    /// The dispatch position lies within the paths of the last read.
    pub closed spec fn wf(&self) -> bool {
        self.next <= self.pending@.len()
    }

    /// A watcher with an empty registry, waiting to poll.
    pub fn new() -> (r: Self)
        ensures
            r.wf(),
            r@.registry == Map::<WatchHandle, Seq<char>>::empty(),
            r@.pending == Seq::<ResolvedModel>::empty(),
            r@.action == ActionModel::Poll,
    {
        let r = Watcher {
            registry: WatchRegistry::new(),
            pending: Vec::new(),
            next: 0,
            action: Action::Poll,
        };
        assert(r@.pending =~= Seq::<ResolvedModel>::empty());
        r
    }

    /// Records the outcome of registering `path`; see [`WatchRegistry::add`].
    /// Nothing else changes.
    pub fn add<E>(&mut self, path: String, outcome: Result<WatchHandle, E>) -> (r: Result<
        WatchHandle,
        E,
    >)
        requires
            old(self).wf(),
        ensures
            final(self).wf(),
            r == outcome,
            outcome is Ok ==> final(self)@.registry == old(self)@.registry.insert(
                outcome->Ok_0,
                path@,
            ),
            outcome is Err ==> final(self)@.registry == old(self)@.registry,
            final(self)@.pending == old(self)@.pending,
            final(self)@.action == old(self)@.action,
    {
        self.registry.add(path, outcome)
    }

    /// Records, in order, the outcomes of registering each supplied path at
    /// startup, and returns how many succeeded. Fails with `NoPaths` when no
    /// path was supplied, and with `NothingWatched` when every registration
    /// failed; the registry then holds what was recorded.
    pub fn register_all(&mut self, registrations: Vec<(String, Option<WatchHandle>)>) -> (r:
        Result<usize, StartupError>)
        requires
            old(self).wf(),
        ensures
            final(self).wf(),
            final(self)@.registry == register_model(
                old(self)@.registry,
                registrations_model(registrations@),
            ),
            final(self)@.pending == old(self)@.pending,
            final(self)@.action == old(self)@.action,
            registrations@.len() == 0 ==> r == Err::<usize, StartupError>(StartupError::NoPaths),
            registrations@.len() > 0 && count_registered(registrations_model(registrations@)) == 0
                ==> r == Err::<usize, StartupError>(StartupError::NothingWatched),
            count_registered(registrations_model(registrations@)) > 0 ==> r == Ok::<
                usize,
                StartupError,
            >(count_registered(registrations_model(registrations@)) as usize),
    {
        let ghost model = registrations_model(registrations@);
        let mut count: usize = 0;
        let mut i: usize = 0;
        while i < registrations.len()
            invariant
                self.wf(),
                0 <= i <= registrations@.len(),
                model == registrations_model(registrations@),
                count == count_registered(model.subrange(0, i as int)),
                count <= i,
                self@.registry == register_model(old(self)@.registry, model.subrange(0, i as int)),
                self@.pending == old(self)@.pending,
                self@.action == old(self)@.action,
            decreases registrations@.len() - i,
        {
            proof {
                assert(model.subrange(0, i + 1).drop_last() =~= model.subrange(0, i as int));
            }
            let path = copy_path(&registrations[i].0);
            match registrations[i].1 {
                Some(h) => {
                    let _ = self.add::<()>(path, Ok(h));
                    count = count + 1;
                },
                None => {},
            }
            i = i + 1;
        }
        proof {
            assert(model.subrange(0, registrations@.len() as int) =~= model);
        }
        if registrations.len() == 0 {
            Err(StartupError::NoPaths)
        } else if count == 0 {
            Err(StartupError::NothingWatched)
        } else {
            Ok(count)
        }
    }

    /// The registry of handles.
    pub fn registry(&self) -> (r: &WatchRegistry)
        ensures
            r@ == self@.registry,
    {
        &self.registry
    }

    /// The outstanding action.
    pub fn next_action(&self) -> (r: Action)
        ensures
            r@ == self@.action,
    {
        match &self.action {
            Action::Poll => Action::Poll,
            Action::Ignore(p) => Action::Ignore(copy_path(p)),
            Action::Execute(p) => Action::Execute(copy_path(p)),
            Action::Rearm(p) => Action::Rearm(copy_path(p)),
        }
    }

    /// Sets the outstanding action from the next pending path.
    fn dispatch(&mut self)
        requires
            old(self).wf(),
        ensures
            final(self).wf(),
            final(self)@ == dispatch_next(old(self)@.registry, old(self)@.pending),
    {
        if self.next < self.pending.len() {
            let x = &self.pending[self.next];
            let path = copy_path(&x.path);
            if x.from_directory {
                self.action = Action::Ignore(path);
            } else {
                self.action = Action::Execute(path);
            }
            self.next = self.next + 1;
        } else {
            self.action = Action::Poll;
        }
        proof {
            let a = views(old(self).pending@).subrange(old(self).next as int, old(self).pending@.len() as int);
            assert(self@.pending =~= (if a.len() == 0 { a } else { a.subrange(1, a.len() as int) }));
        }
    }

    /// Takes in what came of the outstanding action and returns the next
    /// one. An input that does not answer the outstanding action changes
    /// nothing.
    pub fn step(&mut self, input: Input) -> (r: Action)
        requires
            old(self).wf(),
        ensures
            final(self).wf(),
            final(self)@ == step_model(old(self)@, input@),
            r@ == final(self)@.action,
    {
        let ghost s = self@;
        let ghost i = input@;
        match (&self.action, input) {
            (Action::Poll, Input::Polled(events)) => {
                self.pending = resolve_events(&self.registry, &events);
                self.next = 0;
                proof {
                    assert(views(self.pending@).subrange(0, self.pending@.len() as int) =~= views(self.pending@));
                }
                self.dispatch();
            },
            (Action::Ignore(_), Input::Ignored) => {
                self.dispatch();
            },
            (Action::Execute(p), Input::Executed) => {
                self.action = Action::Rearm(copy_path(p));
            },
            (Action::Rearm(p), Input::Rearmed(outcome)) => {
                match outcome {
                    Some(h) => {
                        let path = copy_path(p);
                        let _ = self.registry.add::<()>(path, Ok(h));
                    },
                    None => {},
                }
                self.dispatch();
            },
            _ => {},
        }
        self.next_action()
    }
}

} // verus!
