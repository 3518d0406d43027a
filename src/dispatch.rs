//! Classification of filesystem change notices and the update step that an
//! actionable notice triggers.
use crate::registry::{survivors, Registry};
use vstd::prelude::*;

verus! {

/// One debounced filesystem notice, with its path(s) as text.
#[derive(Clone, Debug)]
pub enum RawNotice {
    NoticeWrite(String),
    NoticeRemove(String),
    Create(String),
    Write(String),
    Chmod(String),
    Remove(String),
    Rename(String, String),
    Rescan,
    /// An error of the notifier: its message and the path it concerns, if any.
    Error(String, Option<String>),
}

/// Everything that ends the process.
#[derive(Clone, Debug)]
pub enum FatalError {
    /// A watch target given at startup does not exist.
    WatchNotFound(String),
    /// A watch target given at startup could not be watched.
    WatchFailed(String),
    /// The listening socket could not be created.
    BindFailure,
    /// The command could not be started.
    LaunchFailure,
    /// A removed file could not be watched again.
    FileDeleted(String),
    /// A watched file was renamed.
    FileRenamed(String),
    /// The notifier reported an error: its message and path, if any.
    Notifier(String, Option<String>),
}

/// The one-line report of a fatal error, for a program called `prog`.
pub open spec fn message_text(e: FatalError, prog: Seq<char>) -> Seq<char> {
    match e {
        FatalError::WatchNotFound(p) => prog + ": "@ + p@ + ": file not found"@,
        FatalError::WatchFailed(p) => prog + ": "@ + p@ + ": file error"@,
        FatalError::BindFailure => prog + ": error starting the server"@,
        FatalError::LaunchFailure => "["@ + prog + "] Failed to run command"@,
        FatalError::FileDeleted(p) => "["@ + prog + "] "@ + p@ + ": File was deleted"@,
        FatalError::FileRenamed(p) => "["@ + prog + "] "@ + p@ + ": File was renamed"@,
        FatalError::Notifier(m, Some(p)) => "["@ + prog + "] "@ + p@ + ": "@ + m@,
        FatalError::Notifier(m, None) => "["@ + prog + "] "@ + m@,
    }
}

impl FatalError {
    /// The one-line report of this error, for a program called `prog`.
    pub fn message(&self, prog: &str) -> (r: String)
        ensures
            r@ == message_text(*self, prog@),
    {
        let mut out = String::new();
        match self {
            FatalError::WatchNotFound(p) => {
                out.append(prog);
                out.append(": ");
                out.append(p.as_str());
                out.append(": file not found");
            },
            FatalError::WatchFailed(p) => {
                out.append(prog);
                out.append(": ");
                out.append(p.as_str());
                out.append(": file error");
            },
            FatalError::BindFailure => {
                out.append(prog);
                out.append(": error starting the server");
            },
            FatalError::LaunchFailure => {
                out.append("[");
                out.append(prog);
                out.append("] Failed to run command");
            },
            FatalError::FileDeleted(p) => {
                out.append("[");
                out.append(prog);
                out.append("] ");
                out.append(p.as_str());
                out.append(": File was deleted");
            },
            FatalError::FileRenamed(p) => {
                out.append("[");
                out.append(prog);
                out.append("] ");
                out.append(p.as_str());
                out.append(": File was renamed");
            },
            FatalError::Notifier(m, path) => {
                out.append("[");
                out.append(prog);
                out.append("] ");
                if let Some(p) = path {
                    out.append(p.as_str());
                    out.append(": ");
                }
                out.append(m.as_str());
            },
        }
        proof {
            assert(out@ =~= message_text(*self, prog@));
        }
        out
    }
}

/// What a notice calls for.
#[derive(Clone, Debug)]
pub enum DispatchOutcome {
    Actionable,
    Ignored,
    FatalError(FatalError),
}

/// What the control loop does with an outcome.
#[derive(Clone, Copy, Debug, PartialEq, Eq, Structural)]
pub enum LoopStep {
    /// Wait for the next notice.
    Continue,
    /// Run one update, then wait for the next notice.
    Update,
    /// Stop processing notices.
    Halt,
}

/// How a command run came out.
#[derive(Clone, Copy, Debug, PartialEq, Eq, Structural)]
pub enum CommandRun {
    /// No command is configured.
    NotConfigured,
    /// The command ran to completion, whatever its exit status.
    Completed,
    /// The command could not be started.
    FailedToStart,
}

/// The outcome of a notice, given whether watching a removed path again
/// succeeded.
pub open spec fn outcome(n: RawNotice, rearmed: bool) -> DispatchOutcome {
    match n {
        RawNotice::NoticeWrite(_) | RawNotice::NoticeRemove(_) | RawNotice::Rescan => {
            DispatchOutcome::Ignored
        },
        RawNotice::Create(_) | RawNotice::Write(_) | RawNotice::Chmod(_) => {
            DispatchOutcome::Actionable
        },
        RawNotice::Remove(p) => if rearmed {
            DispatchOutcome::Actionable
        } else {
            DispatchOutcome::FatalError(FatalError::FileDeleted(p))
        },
        RawNotice::Rename(p, _) => DispatchOutcome::FatalError(FatalError::FileRenamed(p)),
        RawNotice::Error(m, p) => DispatchOutcome::FatalError(FatalError::Notifier(m, p)),
    }
}

pub open spec fn step_of(o: DispatchOutcome) -> LoopStep {
    match o {
        DispatchOutcome::Actionable => LoopStep::Update,
        DispatchOutcome::Ignored => LoopStep::Continue,
        DispatchOutcome::FatalError(_) => LoopStep::Halt,
    }
}

/// Whether some notice among `ns`, with rearm results `oks`, is fatal.
pub open spec fn halts(ns: Seq<RawNotice>, oks: Seq<bool>) -> bool {
    exists|j: int| 0 <= j < ns.len() && step_of(outcome(ns[j], oks[j])) == LoopStep::Halt
}

/// The positions of the notices on which the control loop runs an update,
/// when it takes `ns` in order and stops at the first fatal one.
pub open spec fn updates_run(ns: Seq<RawNotice>, oks: Seq<bool>) -> Seq<int>
    decreases ns.len(),
{
    if ns.len() == 0 {
        Seq::empty()
    } else {
        let prev = updates_run(ns.drop_last(), oks);
        if halts(ns.drop_last(), oks) {
            prev
        } else if step_of(outcome(ns.last(), oks[ns.len() - 1])) == LoopStep::Update {
            prev.push(ns.len() - 1)
        } else {
            prev
        }
    }
}

/// Whether a notice needs its path watched again before it is classified.
pub fn needs_rearm(n: &RawNotice) -> (r: bool)
    ensures
        r == (n is Remove),
{
    match n {
        RawNotice::Remove(_) => true,
        _ => false,
    }
}

/// Classifies one notice. `rearmed` says whether watching the path of a
/// removal again succeeded; it is not looked at for any other notice.
pub fn classify(n: &RawNotice, rearmed: bool) -> (r: DispatchOutcome)
    ensures
        r == outcome(*n, rearmed),
        n is NoticeWrite || n is NoticeRemove || n is Rescan ==> r is Ignored,
        n is Create || n is Write || n is Chmod ==> r is Actionable,
        n is Remove ==> (rearmed <==> r is Actionable),
        n is Rename ==> r is FatalError,
{
    match n {
        RawNotice::NoticeWrite(_) | RawNotice::NoticeRemove(_) | RawNotice::Rescan => {
            DispatchOutcome::Ignored
        },
        RawNotice::Create(_) | RawNotice::Write(_) | RawNotice::Chmod(_) => {
            DispatchOutcome::Actionable
        },
        RawNotice::Remove(p) => {
            if rearmed {
                DispatchOutcome::Actionable
            } else {
                DispatchOutcome::FatalError(FatalError::FileDeleted(p.clone()))
            }
        },
        RawNotice::Rename(p, _) => DispatchOutcome::FatalError(FatalError::FileRenamed(p.clone())),
        RawNotice::Error(m, p) => {
            let path = match p {
                Some(p) => Some(p.clone()),
                None => None,
            };
            DispatchOutcome::FatalError(FatalError::Notifier(m.clone(), path))
        },
    }
}

/// What the control loop does with an outcome: one update for an actionable
/// notice, nothing for an ignored one, and a halt on a fatal one.
pub fn next_step(o: &DispatchOutcome) -> (r: LoopStep)
    ensures
        r == step_of(*o),
{
    match o {
        DispatchOutcome::Actionable => LoopStep::Update,
        DispatchOutcome::Ignored => LoopStep::Continue,
        DispatchOutcome::FatalError(_) => LoopStep::Halt,
    }
}

/// A removal whose path could be watched again is actionable; one whose path
/// could not ends the loop with a "file was deleted" error on that path.
pub proof fn lemma_remove_outcome(p: String)
    ensures
        outcome(RawNotice::Remove(p), true) is Actionable,
        outcome(RawNotice::Remove(p), false) == DispatchOutcome::FatalError(
            FatalError::FileDeleted(p),
        ),
        step_of(outcome(RawNotice::Remove(p), false)) == LoopStep::Halt,
{
}

/// A rename is fatal whatever its destination and whatever a rearm gave.
pub proof fn lemma_rename_is_fatal(from: String, to: String, rearmed: bool)
    ensures
        outcome(RawNotice::Rename(from, to), rearmed) == DispatchOutcome::FatalError(
            FatalError::FileRenamed(from),
        ),
        step_of(outcome(RawNotice::Rename(from, to), rearmed)) == LoopStep::Halt,
{
}

/// Over any sequence of notices, the control loop runs one update for each
/// actionable notice before the first fatal one, and none for an ignored
/// notice or for anything after a fatal one; no notice gets two updates.
pub proof fn lemma_updates_match_actionable(ns: Seq<RawNotice>, oks: Seq<bool>)
    requires
        oks.len() == ns.len(),
    ensures
        forall|j: int, k: int|
            0 <= j < k < updates_run(ns, oks).len() ==> updates_run(ns, oks)[j] < updates_run(
                ns,
                oks,
            )[k],
        forall|i: int|
            #![trigger ns[i]]
            0 <= i < ns.len() ==> (updates_run(ns, oks).contains(i) <==> (outcome(
                ns[i],
                oks[i],
            ) is Actionable && !halts(ns.subrange(0, i), oks))),
    decreases ns.len(),
{
    if ns.len() > 0 {
        let n = ns.len() - 1;
        let ns0 = ns.drop_last();
        lemma_updates_match_actionable(ns0, oks.drop_last());
        lemma_updates_run_oks(ns0, oks);
        lemma_updates_run_oks(ns0, oks.drop_last());
        assert(oks.drop_last().subrange(0, n) == oks.subrange(0, n));
        let prev = updates_run(ns0, oks);
        assert(prev == updates_run(ns0, oks.drop_last()));
        let cur = updates_run(ns, oks);
        let grows = !halts(ns0, oks) && outcome(ns[n], oks[n]) is Actionable;
        assert(grows ==> cur == prev.push(n));
        assert(!grows ==> cur == prev);
        assert forall|i: int| #![trigger ns[i]] 0 <= i < ns.len() implies (updates_run(
            ns,
            oks,
        ).contains(i) <==> (outcome(ns[i], oks[i]) is Actionable && !halts(
            ns.subrange(0, i),
            oks,
        ))) by {
            if i < n {
                assert(ns0[i] == ns[i]);
                assert(ns0.subrange(0, i) == ns.subrange(0, i));
                lemma_updates_run_oks(ns.subrange(0, i), oks);
                lemma_updates_run_oks(ns.subrange(0, i), oks.drop_last());
                assert(oks.drop_last().subrange(0, i) == oks.subrange(0, i));
                assert(oks.drop_last()[i] == oks[i]);
                assert(prev.contains(i) <==> (outcome(ns0[i], oks.drop_last()[i]) is Actionable
                    && !halts(ns0.subrange(0, i), oks.drop_last())));
                assert(halts(ns0.subrange(0, i), oks.drop_last()) == halts(ns.subrange(0, i), oks));
                if updates_run(ns, oks).contains(i) {
                    let k = choose|k: int| 0 <= k < updates_run(ns, oks).len() && updates_run(ns, oks)[k] == i;
                    if k < prev.len() {
                        assert(prev.contains(i));
                    }
                }
                if prev.contains(i) {
                    let k = choose|k: int| 0 <= k < prev.len() && prev[k] == i;
                    assert(updates_run(ns, oks)[k] == i);
                }
            } else {
                assert(ns.subrange(0, n) == ns0);
                assert(!prev.contains(n));
                if grows {
                    assert(cur[prev.len() as int] == n);
                }
                if updates_run(ns, oks).contains(i) {
                    let k = choose|k: int| 0 <= k < updates_run(ns, oks).len() && updates_run(ns, oks)[k] == i;
                    if k < prev.len() {
                        assert(prev[k] < n);
                    }
                }
            }
        }
    }
}

/// The loop's updates over `ns` depend on the rearm results of `ns` alone.
proof fn lemma_updates_run_oks(ns: Seq<RawNotice>, oks: Seq<bool>)
    requires
        ns.len() <= oks.len(),
    ensures
        updates_run(ns, oks) == updates_run(ns, oks.subrange(0, ns.len() as int)),
        halts(ns, oks) == halts(ns, oks.subrange(0, ns.len() as int)),
        forall|k: int|
            #![trigger updates_run(ns, oks)[k]]
            0 <= k < updates_run(ns, oks).len() ==> 0 <= updates_run(ns, oks)[k] < ns.len(),
    decreases ns.len(),
{
    let o2 = oks.subrange(0, ns.len() as int);
    if ns.len() > 0 {
        let ns0 = ns.drop_last();
        lemma_updates_run_oks(ns0, oks);
        lemma_updates_run_oks(ns0, o2);
        assert(o2.subrange(0, ns0.len() as int) == oks.subrange(0, ns0.len() as int));
    }
    if halts(ns, oks) {
        let j = choose|j: int| 0 <= j < ns.len() && step_of(outcome(ns[j], oks[j])) == LoopStep::Halt;
        assert(o2[j] == oks[j]);
    }
    if halts(ns, o2) {
        let j = choose|j: int| 0 <= j < ns.len() && step_of(outcome(ns[j], o2[j])) == LoopStep::Halt;
        assert(o2[j] == oks[j]);
    }
}

/// The update step after the command has been run (or not): a command that
/// could not start is fatal and nothing is broadcast; otherwise, when
/// broadcasting, every subscriber is notified and those whose notification
/// failed are dropped. Returns the outcome of each notification.
pub fn update(run: CommandRun, registry: &mut Registry, broadcasting: bool) -> (r: Result<
    Vec<bool>,
    FatalError,
>)
    ensures
        run == CommandRun::FailedToStart ==> r == Err::<Vec<bool>, FatalError>(
            FatalError::LaunchFailure,
        ) && final(registry)@ == old(registry)@,
        run != CommandRun::FailedToStart && broadcasting ==> r is Ok && r->Ok_0@.len() == old(
            registry,
        )@.len() && final(registry)@ == survivors(old(registry)@, r->Ok_0@),
        run != CommandRun::FailedToStart && !broadcasting ==> r is Ok && r->Ok_0@.len() == 0
            && final(registry)@ == old(registry)@,
{
    if run == CommandRun::FailedToStart {
        return Err(FatalError::LaunchFailure);
    }
    if broadcasting {
        Ok(registry.broadcast_and_compact())
    } else {
        Ok(Vec::new())
    }
}

} // verus!
