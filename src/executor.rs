use vstd::prelude::*;

use crate::dispatcher::Msg;

verus! {

/// The kill / start decision for a change of rate, where a rate of zero means
/// "stopped": a non-zero rate that changes is killed, and a non-zero rate that
/// differs from the previous one is started.
pub open spec fn decide(last_rate: nat, rate: nat) -> (bool, bool) {
    (last_rate != 0 && rate != last_rate, rate != 0 && rate != last_rate)
}

/// Decides, for the rate last instructed and a newly instructed rate, whether
/// the running worker is to be killed and whether a worker is to be started.
pub fn decide_kill_run(last_rate: usize, rate: usize) -> (r: (bool, bool))
    ensures
        r == decide(last_rate as nat, rate as nat),
{
    let do_kill = last_rate > 0 && last_rate != rate;
    let do_run = rate > 0 && (last_rate == 0 || do_kill);
    (do_kill, do_run)
}

/// How killing the worker went.
#[derive(Clone, Copy, Debug, PartialEq, Eq, Structural)]
pub enum KillOutcome {
    /// It was signalled and reaped.
    Killed,
    /// It had already finished; nothing is wrong.
    AlreadyExited,
    /// Any other failure of the operating system.
    Failed,
}

/// What the executor is told: a message from its channel, or how the action
/// that it asked for went.
#[derive(Clone, Copy, Debug, PartialEq, Eq, Structural)]
pub enum Event {
    /// The next instruction from the channel.
    Message(Msg),
    /// The channel has no sender left.
    Disconnected,
    /// The worker was to be killed.
    KillDone(KillOutcome),
    /// The debounce wait returned: `true` when it ran out, `false` when it
    /// was cancelled.
    WaitDone(bool),
    /// A worker was to be spawned: `true` when it runs.
    SpawnDone(bool),
}

/// What the executor asks to be done next.
#[derive(Clone, Copy, Debug, PartialEq, Eq, Structural)]
pub enum Action {
    /// Take the next instruction from the channel.
    Receive,
    /// Kill the running worker and reap it.
    Kill,
    /// Raise the debounce flag, sleep this many milliseconds unless
    /// cancelled, then lower the flag.
    Wait(usize),
    /// Spawn the worker at this rate.
    Spawn(usize),
    /// End the executor normally.
    Exit,
    /// End the executor with an error.
    Fail,
}

/// Where the executor stands within the handling of an instruction; each
/// stage but `Ready` and `Finished` carries the rate being moved to.
#[derive(Clone, Copy, Debug, PartialEq, Eq, Structural)]
pub enum Stage {
    Ready,
    Killing(usize),
    Waiting(usize),
    Spawning(usize),
    Quitting,
    Finished,
}

/// An executor as a state: the last rate instructed (zero: stopped), whether
/// a worker is live, the debounce timeout in milliseconds, and the stage.
pub ghost struct ExecutorView {
    pub rate: usize,
    pub child: bool,
    pub timeout: usize,
    pub stage: Stage,
}

/// The rate of an instruction other than `Quit`; a stop is rate zero.
pub open spec fn rate_of(m: Msg) -> usize {
    match m {
        Msg::StartExec(r) => r,
        _ => 0,
    }
}

/// The states that an executor passes through: a worker is live while one is
/// being killed, and none while one is waited for or spawned, which is only
/// ever done for a non-zero rate; when ready, a live worker runs at the
/// non-zero rate last instructed.
pub open spec fn well_formed(v: ExecutorView) -> bool {
    match v.stage {
        Stage::Ready => v.child ==> v.rate != 0,
        Stage::Killing(_) => v.child,
        Stage::Quitting => v.child,
        Stage::Waiting(r) => !v.child && r != 0,
        Stage::Spawning(r) => !v.child && r != 0,
        Stage::Finished => true,
    }
}

/// The events that each stage takes.
pub open spec fn accepts(v: ExecutorView, ev: Event) -> bool {
    match v.stage {
        Stage::Ready => ev is Message || ev is Disconnected,
        Stage::Killing(_) => ev is KillDone,
        Stage::Quitting => ev is KillDone,
        Stage::Waiting(_) => ev is WaitDone,
        Stage::Spawning(_) => ev is SpawnDone,
        Stage::Finished => false,
    }
}

/// The start of a worker at `rate`: after a debounce wait where a timeout is
/// set, else at once.
pub open spec fn launch(v: ExecutorView, rate: usize) -> (ExecutorView, Action) {
    if v.timeout > 0 {
        (ExecutorView { stage: Stage::Waiting(rate), ..v }, Action::Wait(v.timeout))
    } else {
        (ExecutorView { stage: Stage::Spawning(rate), ..v }, Action::Spawn(rate))
    }
}

/// Back to ready, with `rate` recorded as the last rate instructed.
pub open spec fn settle(v: ExecutorView, rate: usize) -> (ExecutorView, Action) {
    (ExecutorView { rate, stage: Stage::Ready, ..v }, Action::Receive)
}

/// The end of the executor with `a`.
pub open spec fn finish(v: ExecutorView, a: Action) -> (ExecutorView, Action) {
    (ExecutorView { stage: Stage::Finished, ..v }, a)
}

/// The executor's next state and action on an event that its stage takes.
///
/// An instruction to move to a rate is decided by `decide`: a live worker
/// that is to be killed is killed first; a worker that is to be started is
/// started, after the debounce wait if there is one, unless the wait is
/// cancelled; the rate instructed is recorded in any case, also where no
/// worker came to run. `Quit` kills a live worker and ends the executor. A
/// closed channel ends the executor with an error, as a failed kill does.
pub open spec fn transition(v: ExecutorView, ev: Event) -> (ExecutorView, Action) {
    match (v.stage, ev) {
        (Stage::Ready, Event::Message(Msg::Quit)) => {
            if v.child {
                (ExecutorView { stage: Stage::Quitting, ..v }, Action::Kill)
            } else {
                finish(v, Action::Exit)
            }
        },
        (Stage::Ready, Event::Message(m)) => {
            let r = rate_of(m);
            let (kill, start) = decide(v.rate as nat, r as nat);
            if kill && v.child {
                (ExecutorView { stage: Stage::Killing(r), ..v }, Action::Kill)
            } else if start {
                launch(v, r)
            } else {
                settle(v, r)
            }
        },
        (Stage::Ready, _) => finish(v, Action::Fail),
        (Stage::Killing(r), Event::KillDone(o)) => {
            if o == KillOutcome::Failed {
                finish(v, Action::Fail)
            } else if r != 0 {
                launch(ExecutorView { child: false, ..v }, r)
            } else {
                settle(ExecutorView { child: false, ..v }, r)
            }
        },
        (Stage::Quitting, Event::KillDone(o)) => {
            if o == KillOutcome::Failed {
                finish(v, Action::Fail)
            } else {
                finish(ExecutorView { child: false, ..v }, Action::Exit)
            }
        },
        (Stage::Waiting(r), Event::WaitDone(elapsed)) => {
            if elapsed {
                (ExecutorView { stage: Stage::Spawning(r), ..v }, Action::Spawn(r))
            } else {
                settle(v, r)
            }
        },
        (Stage::Spawning(r), Event::SpawnDone(ok)) => settle(ExecutorView { child: ok, ..v }, r),
        _ => (v, Action::Fail),
    }
}

/// The decision logic of one direction's executor. It owns no process, timer
/// or channel: it is told what happened and answers with what to do next.
pub struct Executor {
    rate: usize,
    child: bool,
    timeout: usize,
    stage: Stage,
}

impl View for Executor {
    type V = ExecutorView;

    closed spec fn view(&self) -> ExecutorView {
        ExecutorView {
            rate: self.rate,
            child: self.child,
            timeout: self.timeout,
            stage: self.stage,
        }
    }
}

impl Executor {
    /// Every executor is well formed; `use_type_invariant` on an executor
    /// gives this, so that the laws below apply to its state.
    #[verifier::type_invariant]
    pub open spec fn inv(&self) -> bool {
        well_formed(self@)
    }

    /// A ready executor with no worker, stopped, debouncing starts by
    /// `timeout` milliseconds (zero: no debouncing).
    pub fn new(timeout: usize) -> (r: Self)
        ensures
            r@ == (ExecutorView { rate: 0, child: false, timeout, stage: Stage::Ready }),
    {
        Executor { rate: 0, child: false, timeout, stage: Stage::Ready }
    }

    /// The rate last instructed, zero when stopped.
    pub fn rate(&self) -> (r: usize)
        ensures
            r == self@.rate,
    {
        self.rate
    }

    /// Whether a worker is live.
    pub fn has_child(&self) -> (r: bool)
        ensures
            r == self@.child,
    {
        self.child
    }

    /// The stage within the handling of an instruction.
    pub fn stage(&self) -> (r: Stage)
        ensures
            r == self@.stage,
    {
        self.stage
    }

    /// Whether the current stage takes `ev`.
    pub fn accepts(&self, ev: Event) -> (r: bool)
        ensures
            r == accepts(self@, ev),
    {
        match self.stage {
            Stage::Ready => matches!(ev, Event::Message(_) | Event::Disconnected),
            Stage::Killing(_) | Stage::Quitting => matches!(ev, Event::KillDone(_)),
            Stage::Waiting(_) => matches!(ev, Event::WaitDone(_)),
            Stage::Spawning(_) => matches!(ev, Event::SpawnDone(_)),
            Stage::Finished => false,
        }
    }

    fn launch(&self, rate: usize) -> (r: (Stage, Action))
        ensures
            r == ({
                let (w, a) = launch(self@, rate);
                (w.stage, a)
            }),
    {
        if self.timeout > 0 {
            (Stage::Waiting(rate), Action::Wait(self.timeout))
        } else {
            (Stage::Spawning(rate), Action::Spawn(rate))
        }
    }

    /// Takes in `ev` and answers with the next action.
    pub fn step(&mut self, ev: Event) -> (a: Action)
        requires
            accepts(old(self)@, ev),
        ensures
            (final(self)@, a) == transition(old(self)@, ev),
    {
        proof {
            use_type_invariant(&*self);
        }
        match (self.stage, ev) {
            (Stage::Ready, Event::Message(Msg::Quit)) => {
                if self.child {
                    self.stage = Stage::Quitting;
                    Action::Kill
                } else {
                    self.stage = Stage::Finished;
                    Action::Exit
                }
            },
            (Stage::Ready, Event::Message(m)) => {
                let r = match m {
                    Msg::StartExec(r) => r,
                    _ => 0,
                };
                let (kill, start) = decide_kill_run(self.rate, r);
                if kill && self.child {
                    self.stage = Stage::Killing(r);
                    Action::Kill
                } else if start {
                    let (stage, a) = self.launch(r);
                    self.stage = stage;
                    a
                } else {
                    self.rate = r;
                    Action::Receive
                }
            },
            (Stage::Ready, _) => {
                self.stage = Stage::Finished;
                Action::Fail
            },
            (Stage::Killing(r), Event::KillDone(o)) => {
                if o == KillOutcome::Failed {
                    self.stage = Stage::Finished;
                    Action::Fail
                } else {
                    if r != 0 {
                        let (stage, a) = self.launch(r);
                        *self = Executor { child: false, stage, ..*self };
                        a
                    } else {
                        *self = Executor { rate: r, child: false, stage: Stage::Ready, ..*self };
                        Action::Receive
                    }
                }
            },
            (Stage::Quitting, Event::KillDone(o)) => {
                if o == KillOutcome::Failed {
                    self.stage = Stage::Finished;
                    Action::Fail
                } else {
                    *self = Executor { child: false, stage: Stage::Finished, ..*self };
                    Action::Exit
                }
            },
            (Stage::Waiting(r), Event::WaitDone(elapsed)) => {
                if elapsed {
                    self.stage = Stage::Spawning(r);
                    Action::Spawn(r)
                } else {
                    self.rate = r;
                    self.stage = Stage::Ready;
                    Action::Receive
                }
            },
            (Stage::Spawning(r), Event::SpawnDone(ok)) => {
                *self = Executor { rate: r, child: ok, stage: Stage::Ready, ..*self };
                Action::Receive
            },
            _ => Action::Fail,
        }
    }
}

/// The events that report how an asked-for action went.
pub open spec fn is_outcome(ev: Event) -> bool {
    ev is KillDone || ev is WaitDone || ev is SpawnDone
}

/// The rate that the executor is moving to, or the last rate instructed when
/// it is not moving.
pub open spec fn target_rate(v: ExecutorView) -> usize {
    match v.stage {
        Stage::Killing(r) => r,
        Stage::Waiting(r) => r,
        Stage::Spawning(r) => r,
        _ => v.rate,
    }
}

/// The state after taking `evs` in order.
pub open spec fn run(v: ExecutorView, evs: Seq<Event>) -> ExecutorView
    decreases evs.len(),
{
    if evs.len() == 0 {
        v
    } else {
        run(transition(v, evs[0]).0, evs.skip(1))
    }
}

/// Whether each of `evs`, in order, is taken by the stage it meets.
pub open spec fn runs(v: ExecutorView, evs: Seq<Event>) -> bool
    decreases evs.len(),
{
    evs.len() == 0 || (accepts(v, evs[0]) && runs(transition(v, evs[0]).0, evs.skip(1)))
}

/// At most one worker is live at a time: each event that an executor takes
/// leaves it well formed, a worker becomes live only by a spawn that was asked
/// for, and a spawn is asked for only while no worker is live: where one was,
/// only on the report that it was killed.
pub proof fn lemma_single_worker(v: ExecutorView, ev: Event)
    requires
        well_formed(v),
        accepts(v, ev),
    ensures
        well_formed(transition(v, ev).0),
        transition(v, ev).0.child && !v.child ==> ev == Event::SpawnDone(true),
        transition(v, ev).1 is Spawn ==> !transition(v, ev).0.child && (v.child ==> ev
            is KillDone && ev != Event::KillDone(KillOutcome::Failed)),
{
}

proof fn lemma_outcomes_keep_target(w: ExecutorView, outs: Seq<Event>)
    requires
        well_formed(w),
        forall|i: int| 0 <= i < outs.len() ==> is_outcome(#[trigger] outs[i]),
        runs(w, outs),
        run(w, outs).stage is Ready,
    ensures
        run(w, outs).rate == target_rate(w),
    decreases outs.len(),
{
    if outs.len() > 0 {
        let n = transition(w, outs[0]).0;
        lemma_single_worker(w, outs[0]);
        let rest = outs.skip(1);
        assert(run(w, outs) == run(n, rest));
        assert(runs(n, rest));
        assert forall|i: int| 0 <= i < rest.len() implies is_outcome(#[trigger] rest[i]) by {
            assert(rest[i] == outs[i + 1]);
        }
        if n.stage is Finished {
            if rest.len() > 0 {
                assert(!accepts(n, rest[0]));
            } else {
                assert(run(n, rest) == n);
            }
        } else {
            assert(target_rate(n) == target_rate(w));
            lemma_outcomes_keep_target(n, rest);
        }
    }
}

/// Once an instruction to run at `r` has been handled, however the kill, wait
/// and spawn that it asked for went, a second instruction to run at `r`
/// neither kills nor spawns: it is taken in with nothing to do.
pub proof fn lemma_repeated_start(v: ExecutorView, r: usize, outs: Seq<Event>)
    requires
        well_formed(v),
        v.stage is Ready,
        r != 0,
        forall|i: int| 0 <= i < outs.len() ==> is_outcome(#[trigger] outs[i]),
        runs(v, seq![Event::Message(Msg::StartExec(r))] + outs),
        run(v, seq![Event::Message(Msg::StartExec(r))] + outs).stage is Ready,
    ensures
        ({
            let w = run(v, seq![Event::Message(Msg::StartExec(r))] + outs);
            transition(w, Event::Message(Msg::StartExec(r))) == (w, Action::Receive)
        }),
{
    let evs = seq![Event::Message(Msg::StartExec(r))] + outs;
    assert(evs[0] == Event::Message(Msg::StartExec(r)));
    assert(evs.skip(1) =~= outs);
    let n = transition(v, evs[0]).0;
    lemma_single_worker(v, evs[0]);
    assert(target_rate(n) == r);
    lemma_outcomes_keep_target(n, outs);
}

/// `Quit` ends the executor: a live worker is killed, and whatever the kill
/// returns, no second kill is asked for and the executor is finished; with
/// no live worker it ends at once. A finished executor takes no event, so no
/// instruction after `Quit` is handled.
pub proof fn lemma_quit(v: ExecutorView, o: KillOutcome, ev: Event)
    requires
        well_formed(v),
        v.stage is Ready,
    ensures
        ({
            let (q, a) = transition(v, Event::Message(Msg::Quit));
            &&& v.child ==> {
                let (f, b) = transition(q, Event::KillDone(o));
                &&& a == Action::Kill
                &&& accepts(q, ev) <==> ev is KillDone
                &&& f.stage == Stage::Finished
                &&& b == if o == KillOutcome::Failed {
                    Action::Fail
                } else {
                    Action::Exit
                }
                &&& !accepts(f, ev)
            }
            &&& !v.child ==> a == Action::Exit && q.stage == Stage::Finished && !accepts(q, ev)
        }),
{
}

} // verus!
