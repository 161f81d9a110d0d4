//! The completions of the commands that the runtime has taken.

use std::collections::HashMap;

use vstd::prelude::*;

use crate::command::CommandCompletionState;
use crate::contract::{BackendError, Operation};
use crate::lanes::successor;
use crate::state::{next_number, Effect, RuntimeCounters, RuntimeView, SharedRuntime};

verus! {

broadcast use vstd::std_specs::hash::group_hash_axioms;

/// The effects of settling: whoever waits is told, once.
pub open spec fn settling(effects: Seq<Effect>, id: u64, settled_now: bool) -> Seq<Effect> {
    if settled_now {
        effects.push(Effect::Settled(id))
    } else {
        effects
    }
}

/// The effects of raising a signal, if there is one.
pub open spec fn signalling(effects: Seq<Effect>, signal: Option<u64>) -> Seq<Effect> {
    match signal {
        Some(signal) => effects.push(Effect::RaiseSignal(signal)),
        None => effects,
    }
}

impl RuntimeView {
    pub open spec fn completion_created(self) -> RuntimeView {
        let id = successor(self.counters.last_completion);
        RuntimeView {
            counters: RuntimeCounters { last_completion: id, ..self.counters },
            completions: self.completions.insert(id, CommandCompletionState::fresh()),
            ..self
        }
    }

    /// A completion gets its result, unless it has one.
    pub open spec fn completion_finished(
        self,
        id: Option<u64>,
        result: Result<(), BackendError>,
    ) -> RuntimeView {
        match id {
            Some(id) => if self.completions.contains_key(id) {
                RuntimeView {
                    completions: self.completions.insert(
                        id,
                        self.completions[id].finished(result),
                    ),
                    effects: settling(
                        self.effects,
                        id,
                        self.completions[id].settled_result is None,
                    ),
                    ..self
                }
            } else {
                self
            },
            None => self,
        }
    }

    /// Nobody waits for a command's result any more.
    pub open spec fn completion_forgotten(self, completion: u64) -> RuntimeView {
        RuntimeView { completions: self.completions.remove(completion), ..self }
    }

    /// A completion is cancelled: its signal is raised, and it settles unless a
    /// physical release is owed first.
    pub open spec fn completion_cancelled(
        self,
        id: Option<u64>,
        operation: Operation,
        release_on_cancel: bool,
    ) -> RuntimeView {
        match id {
            Some(id) => if self.completions.contains_key(id) {
                let before = self.completions[id];
                let after = before.after_cancel(operation, release_on_cancel);
                RuntimeView {
                    completions: self.completions.insert(id, after),
                    effects: settling(
                        signalling(self.effects, before.cancel_signal),
                        id,
                        before.settled_result is None && after.settled_result is Some,
                    ),
                    ..self
                }
            } else {
                self
            },
            None => self,
        }
    }

    /// A completion owes a physical release under this signal.
    pub open spec fn completion_releasing(self, id: u64, signal: u64) -> RuntimeView {
        if self.completions.contains_key(id) {
            RuntimeView {
                completions: self.completions.insert(id, self.completions[id].releasing(signal)),
                effects: signalling(
                    self.effects,
                    if self.completions[id].cancelled {
                        Some(signal)
                    } else {
                        None
                    },
                ),
                ..self
            }
        } else {
            self
        }
    }

    pub open spec fn is_completion_cancelled(self, id: Option<u64>) -> bool {
        id matches Some(id) && self.completions.contains_key(id) && self.completions[id].cancelled
    }

    pub open spec fn owes_release(self, id: Option<u64>) -> bool {
        id matches Some(id) && self.completions.contains_key(id)
            && self.completions[id].active_release
    }
}

/// Settles one of the completions; tells whether that settled it.
fn finish_in(
    completions: &mut HashMap<u64, CommandCompletionState>,
    id: u64,
    result: Result<(), BackendError>,
) -> (settled_now: bool)
    ensures
        final(completions)@ == (if old(completions)@.contains_key(id) {
            old(completions)@.insert(id, old(completions)@[id].finished(result))
        } else {
            old(completions)@
        }),
        settled_now == (old(completions)@.contains_key(id) && old(
            completions,
        )@[id].settled_result is None),
{
    let ghost before = completions@;
    match completions.remove(&id) {
        Some(found) => {
            let mut state = found;
            let settled_now = state.finish(result);
            completions.insert(id, state);
            assert(completions@ =~= before.insert(id, state));
            settled_now
        },
        None => {
            assert(completions@ =~= before);
            false
        },
    }
}

/// Cancels one of the completions; hands back its signal and whether that
/// settled it.
fn cancel_in(
    completions: &mut HashMap<u64, CommandCompletionState>,
    id: u64,
    operation: Operation,
    release_on_cancel: bool,
) -> (r: (Option<u64>, bool))
    ensures
        final(completions)@ == (if old(completions)@.contains_key(id) {
            old(completions)@.insert(
                id,
                old(completions)@[id].after_cancel(operation, release_on_cancel),
            )
        } else {
            old(completions)@
        }),
        r == (if old(completions)@.contains_key(id) {
            (
                old(completions)@[id].cancel_signal,
                old(completions)@[id].settled_result is None && old(completions)@[id].after_cancel(
                    operation,
                    release_on_cancel,
                ).settled_result is Some,
            )
        } else {
            (None, false)
        }),
{
    let ghost before = completions@;
    match completions.remove(&id) {
        Some(found) => {
            let mut state = found;
            let unsettled = state.settled_result.is_none();
            let signal = state.cancel(operation, release_on_cancel);
            let settled_now = unsettled && state.settled_result.is_some();
            completions.insert(id, state);
            assert(completions@ =~= before.insert(id, state));
            (signal, settled_now)
        },
        None => {
            assert(completions@ =~= before);
            (None, false)
        },
    }
}

/// Makes one of the completions owe a release; tells whether it was cancelled.
fn release_in(
    completions: &mut HashMap<u64, CommandCompletionState>,
    id: u64,
    signal: u64,
) -> (raise: bool)
    ensures
        final(completions)@ == (if old(completions)@.contains_key(id) {
            old(completions)@.insert(id, old(completions)@[id].releasing(signal))
        } else {
            old(completions)@
        }),
        raise == (old(completions)@.contains_key(id) && old(completions)@[id].cancelled),
{
    let ghost before = completions@;
    match completions.remove(&id) {
        Some(found) => {
            let mut state = found;
            let raise = state.begin_active_release(signal);
            completions.insert(id, state);
            assert(completions@ =~= before.insert(id, state));
            raise
        },
        None => {
            assert(completions@ =~= before);
            false
        },
    }
}

fn announce(effects: &mut Vec<Effect>, signal: Option<u64>, id: u64, settled_now: bool)
    ensures
        final(effects)@ == settling(signalling(old(effects)@, signal), id, settled_now),
{
    if let Some(signal) = signal {
        effects.push(Effect::RaiseSignal(signal));
    }
    if settled_now {
        effects.push(Effect::Settled(id));
    }
}

impl SharedRuntime {
    /// Creates a completion that is not settled.
    pub fn create_completion(&mut self) -> (id: u64)
        requires
            old(self)@.wf(),
        ensures
            id == successor(old(self)@.counters.last_completion),
            final(self)@ == old(self)@.completion_created(),
            final(self)@.wf(),
    {
        let id: u64 = next_number(self.counters.last_completion);
        self.counters.last_completion = id;
        self.completions.insert(id, CommandCompletionState::new());
        id
    }

    /// Settles a completion, unless it is settled already.
    pub fn finish_command(&mut self, completion: Option<u64>, result: Result<(), BackendError>)
        requires
            old(self)@.wf(),
        ensures
            final(self)@ == old(self)@.completion_finished(completion, result),
            final(self)@.wf(),
    {
        if let Some(id) = completion {
            if finish_in(&mut self.completions, id, result) {
                self.effects.push(Effect::Settled(id));
            }
        }
    }

    /// Cancels a completion.
    pub fn cancel_completion(
        &mut self,
        completion: Option<u64>,
        operation: Operation,
        release_on_cancel: bool,
    )
        requires
            old(self)@.wf(),
        ensures
            final(self)@ == old(self)@.completion_cancelled(
                completion,
                operation,
                release_on_cancel,
            ),
            final(self)@.wf(),
    {
        if let Some(id) = completion {
            let (signal, settled_now) = cancel_in(
                &mut self.completions,
                id,
                operation,
                release_on_cancel,
            );
            announce(&mut self.effects, signal, id, settled_now);
        }
    }

    /// Makes a completion owe a physical release.
    pub fn begin_active_release(&mut self, completion: u64, signal: u64)
        requires
            old(self)@.wf(),
        ensures
            final(self)@ == old(self)@.completion_releasing(completion, signal),
            final(self)@.wf(),
    {
        if release_in(&mut self.completions, completion, signal) {
            self.effects.push(Effect::RaiseSignal(signal));
        }
    }

    /// Tells whether a command was cancelled.
    pub fn completion_is_cancelled(&self, completion: Option<u64>) -> (r: bool)
        ensures
            r == self@.is_completion_cancelled(completion),
    {
        match completion {
            Some(id) => match self.completions.get(&id) {
                Some(state) => state.cancelled,
                None => false,
            },
            None => false,
        }
    }

    /// Tells whether a command owes a physical release.
    pub fn completion_owes_release(&self, completion: Option<u64>) -> (r: bool)
        ensures
            r == self@.owes_release(completion),
    {
        match completion {
            Some(id) => match self.completions.get(&id) {
                Some(state) => state.active_release,
                None => false,
            },
            None => false,
        }
    }

    /// The result of a command, once it has one.
    pub fn completion_result(&self, completion: u64) -> (result: Option<Result<(), BackendError>>)
        ensures
            result == (if self@.completions.contains_key(completion) {
                self@.completions[completion].settled_result
            } else {
                None
            }),
    {
        match self.completions.get(&completion) {
            Some(state) => match &state.settled_result {
                Some(Ok(done)) => Some(Ok(*done)),
                Some(Err(error)) => Some(Err(error.clone())),
                None => None,
            },
            None => None,
        }
    }

    /// Forgets a completion that nobody waits for any more.
    pub fn forget_completion(&mut self, completion: u64)
        requires
            old(self)@.wf(),
        ensures
            final(self)@ == old(self)@.completion_forgotten(completion),
            final(self)@.wf(),
    {
        let _ = self.completions.remove(&completion);
    }
}

/// A settled command keeps its result, whatever is tried afterwards.
pub proof fn law_settled_commands_keep_their_result(
    runtime: RuntimeView,
    id: u64,
    result: Result<(), BackendError>,
    operation: Operation,
    release_on_cancel: bool,
    signal: u64,
)
    requires
        runtime.completions.contains_key(id),
        runtime.completions[id].settled_result is Some,
    ensures
        runtime.completion_finished(Some(id), result).completions[id].settled_result
            == runtime.completions[id].settled_result,
        runtime.completion_cancelled(
            Some(id),
            operation,
            release_on_cancel,
        ).completions[id].settled_result == runtime.completions[id].settled_result,
        runtime.completion_finished(Some(id), result).effects == runtime.effects,
{
}

/// Whoever waits for a command is told exactly when it gets its result.
pub proof fn law_settling_is_announced(
    runtime: RuntimeView,
    id: u64,
    result: Result<(), BackendError>,
)
    requires
        runtime.completions.contains_key(id),
        runtime.completions[id].settled_result is None,
    ensures
        runtime.completion_finished(Some(id), result).completions[id].settled_result == Some(
            result,
        ),
        runtime.completion_finished(Some(id), result).effects == runtime.effects.push(
            Effect::Settled(id),
        ),
{
}

/// A command that is waited for gets the next number and has no result yet; the
/// others keep theirs.
pub proof fn law_new_completions_are_open(runtime: RuntimeView, other: u64)
    requires
        runtime.counters.last_completion < u64::MAX,
    ensures
        ({
            let after = runtime.completion_created();
            let id = (runtime.counters.last_completion + 1) as u64;
            &&& after.counters.last_completion == id
            &&& after.completions.contains_key(id)
            &&& after.completions[id].settled_result is None
            &&& !after.completions[id].cancelled
            &&& !after.completions[id].active_release
            &&& other != id ==> after.completions.contains_key(other)
                == runtime.completions.contains_key(other)
            &&& other != id && runtime.completions.contains_key(other) ==> after.completions[other]
                == runtime.completions[other]
        }),
{
}

/// A command that nobody waits for any more is forgotten, and no other is.
pub proof fn law_forgotten_completions_are_gone(runtime: RuntimeView, id: u64, other: u64)
    ensures
        !runtime.completion_forgotten(id).completions.contains_key(id),
        other != id ==> runtime.completion_forgotten(id).completions.contains_key(other)
            == runtime.completions.contains_key(other),
        other != id && runtime.completions.contains_key(other) ==> runtime.completion_forgotten(
            id,
        ).completions[other] == runtime.completions[other],
{
}

/// Cancelling a command raises its signal. If it owes a release that it is asked
/// to make, or was asked before, it waits for that; otherwise it settles as
/// cancelled, and whoever waits is told. No other command is touched.
pub proof fn law_cancelling_tells_or_waits(
    runtime: RuntimeView,
    id: u64,
    operation: Operation,
    release_on_cancel: bool,
    other: u64,
)
    requires
        runtime.completions.contains_key(id),
        runtime.completions[id].settled_result is None,
    ensures
        ({
            let before = runtime.completions[id];
            let after = runtime.completion_cancelled(Some(id), operation, release_on_cancel);
            let waits = before.active_release && (before.release_on_cancel || release_on_cancel);
            let raised = match before.cancel_signal {
                Some(signal) => runtime.effects.push(Effect::RaiseSignal(signal)),
                None => runtime.effects,
            };
            &&& after.completions[id].cancelled
            &&& waits ==> after.completions[id].settled_result is None
            &&& waits ==> after.completions[id].active_release
            &&& waits ==> after.effects == raised
            &&& !waits ==> after.completions[id].settled_result == Some(
                Err::<(), BackendError>(BackendError::Cancelled { operation }),
            )
            &&& !waits ==> after.effects == raised.push(Effect::Settled(id))
            &&& other != id ==> after.completions.contains_key(other)
                == runtime.completions.contains_key(other)
            &&& other != id && runtime.completions.contains_key(other) ==> after.completions[other]
                == runtime.completions[other]
            &&& after == (RuntimeView {
                completions: after.completions,
                effects: after.effects,
                ..runtime
            })
        }),
{
}

/// A command that begins to move owes a release under its signal; one that was
/// cancelled before is told at once.
pub proof fn law_moving_commands_owe_a_release(runtime: RuntimeView, id: u64, signal: u64)
    requires
        runtime.completions.contains_key(id),
    ensures
        ({
            let after = runtime.completion_releasing(id, signal);
            &&& after.completions[id].active_release
            &&& after.completions[id].cancel_signal == Some(signal)
            &&& after.completions[id].settled_result == runtime.completions[id].settled_result
            &&& after.completions[id].cancelled == runtime.completions[id].cancelled
            &&& after.effects == (if runtime.completions[id].cancelled {
                runtime.effects.push(Effect::RaiseSignal(signal))
            } else {
                runtime.effects
            })
        }),
{
}

/// Whether a command was cancelled, and whether it owes a release, is told of the
/// commands that are waited for; nothing is told of any other.
pub proof fn law_only_known_completions_are_told(runtime: RuntimeView, id: u64)
    ensures
        runtime.completions.contains_key(id) ==> runtime.is_completion_cancelled(Some(id))
            == runtime.completions[id].cancelled,
        runtime.completions.contains_key(id) ==> runtime.owes_release(Some(id))
            == runtime.completions[id].active_release,
        !runtime.completions.contains_key(id) ==> !runtime.is_completion_cancelled(Some(id)),
        !runtime.completions.contains_key(id) ==> !runtime.owes_release(Some(id)),
        !runtime.is_completion_cancelled(None),
        !runtime.owes_release(None),
{
}

} // verus!
