//! The host as the keeper takes it to be, and operations run against it.
//!
//! The secret store is a map from names to ciphertexts. A host is honest
//! when it answers each action with an event that can come of it: a lookup
//! is answered with what the store holds, a write may succeed or fail as a
//! whole, and cryptography answers as [`crate::engine::crypto_reply`] says.
//! A [`Run`] is an operation under way against such a host.
use vstd::prelude::*;
use crate::engine::crypto_reply;
use crate::machine::{
    StateView, awaits, initial, lemma_asks_what_it_awaits, lemma_start_is_consistent,
    lemma_starts_with_what_it_awaits, lemma_step_advances, next, remaining,
};
use crate::protocol::{ActionOf, ActionView, CommandView, ConfigView, EventOf, EventView};

verus! {

/// The secret store: the ciphertext held under each name.
pub type Store = Map<Seq<char>, Seq<u8>>;

/// An action together with the event that answered it.
pub struct Exchange {
    pub action: ActionView,
    pub event: EventView,
}

/// An operation under way: the state of the machine, the action it has
/// pending, the store as it stands, and all exchanges so far.
pub struct Run {
    pub state: StateView,
    pub action: ActionView,
    pub store: Store,
    pub history: Seq<Exchange>,
}

/// Whether `event` can be an honest host's answer to `action` when the store
/// holds `store`.
///
/// A lookup is answered with what the store holds: a store that cannot be
/// read is not honest. Everything else that the host does may fail.
pub open spec fn honest(store: Store, action: ActionView, event: EventView) -> bool {
    match action {
        ActionOf::Lookup { name } => if store.contains_key(name) {
            event == (EventView::Found { ciphertext: store[name] })
        } else {
            event is Missing
        },
        ActionOf::ListNames => match event {
            EventOf::Names { names } => names.no_duplicates() && names.to_set() == store.dom(),
            EventOf::Failed => true,
            _ => false,
        },
        ActionOf::Ask { .. } | ActionOf::ReadFile { .. } => event is Text || event is Failed,
        ActionOf::WriteFile { .. }
        | ActionOf::OpenStore { .. }
        | ActionOf::Put { .. }
        | ActionOf::Delete { .. }
        | ActionOf::Flush
        | ActionOf::Show { .. }
        | ActionOf::OpenClipboard
        | ActionOf::Deliver { .. } => event is Done || event is Failed,
        ActionOf::GenerateKeyPair { .. }
        | ActionOf::GenerateSecret
        | ActionOf::CheckPublicKey { .. }
        | ActionOf::Encrypt { .. }
        | ActionOf::Decrypt { .. } => crypto_reply(action, event),
        ActionOf::Finish | ActionOf::Fail { .. } => false,
    }
}

/// The store after `action` was answered by `event`: a write or a deletion
/// that was carried out shows in it, and nothing else does.
pub open spec fn store_after(store: Store, action: ActionView, event: EventView) -> Store {
    match action {
        ActionOf::Put { name, ciphertext } => if event is Done {
            store.insert(name, ciphertext)
        } else {
            store
        },
        ActionOf::Delete { name } => if event is Done {
            store.remove(name)
        } else {
            store
        },
        _ => store,
    }
}

/// The run of `command` at its start, against a store that holds `store`.
pub open spec fn opening(config: ConfigView, command: CommandView, store: Store) -> Run {
    Run {
        state: initial(config, command).0,
        action: initial(config, command).1,
        store,
        history: Seq::empty(),
    }
}

/// The run after its pending action was answered by `event`.
pub open spec fn advance(run: Run, event: EventView) -> Run {
    Run {
        state: next(run.state, event).0,
        action: next(run.state, event).1,
        store: store_after(run.store, run.action, event),
        history: run.history.push(Exchange { action: run.action, event }),
    }
}

/// The run after the events of `script`, each answering the action that is
/// pending when it comes.
pub open spec fn play(run: Run, script: Seq<EventView>) -> Run
    decreases script.len(),
{
    if script.len() == 0 {
        run
    } else {
        advance(play(run, script.drop_last()), script.last())
    }
}

/// Whether every event of `script` is an honest answer to the action that is
/// pending when it comes.
pub open spec fn faithful(run: Run, script: Seq<EventView>) -> bool
    decreases script.len(),
{
    script.len() == 0 || {
        let before = play(run, script.drop_last());
        faithful(run, script.drop_last()) && honest(before.store, before.action, script.last())
    }
}

/// Whether the run has asked for an action that satisfies `wanted`, be it
/// answered or still pending.
pub open spec fn has_asked(run: Run, wanted: spec_fn(ActionView) -> bool) -> bool {
    wanted(run.action) || exists|i: int|
        0 <= i < run.history.len() && wanted(#[trigger] run.history[i].action)
}

/// Whether `action` was answered by `event` in the run.
pub open spec fn was_answered(run: Run, action: ActionView, event: EventView) -> bool {
    exists|i: int| 0 <= i < run.history.len() && #[trigger] run.history[i] == (Exchange {
        action,
        event,
    })
}

/// The history of a run only grows: what was exchanged stays, and the last
/// exchange is the pending action with its answer.
pub proof fn lemma_history_grows(run: Run, event: EventView)
    ensures
        advance(run, event).history.len() == run.history.len() + 1,
        forall|i: int|
            0 <= i < run.history.len() ==> advance(run, event).history[i]
                == #[trigger] run.history[i],
        advance(run, event).history[run.history.len() as int] == (Exchange {
            action: run.action,
            event,
        }),
        forall|action: ActionView, answer: EventView| #[trigger]
            was_answered(run, action, answer) ==> was_answered(advance(run, event), action, answer),
        was_answered(advance(run, event), run.action, event),
{
    let after = advance(run, event);
    assert forall|action: ActionView, answer: EventView| #[trigger]
        was_answered(run, action, answer) implies was_answered(after, action, answer) by {
        let i = choose|i: int|
            0 <= i < run.history.len() && #[trigger] run.history[i] == (Exchange {
                action,
                event: answer,
            });
        assert(after.history[i] == run.history[i]);
    }
    assert(after.history[run.history.len() as int] == (Exchange { action: run.action, event }));
}

/// What holds of a run at its start, and still holds after each honest
/// answer if it held before, holds of the run after any faithful script.
pub proof fn lemma_holds_throughout(
    holds: spec_fn(Run) -> bool,
    run: Run,
    script: Seq<EventView>,
)
    requires
        holds(run),
        faithful(run, script),
        forall|r: Run, e: EventView|
            holds(r) && honest(r.store, r.action, e) ==> holds(#[trigger] advance(r, e)),
    ensures
        holds(play(run, script)),
    decreases script.len(),
{
    if script.len() > 0 {
        lemma_holds_throughout(holds, run, script.drop_last());
    }
}

/// Against an honest host the pending action is always one that the state
/// waits for, the run ends exactly when the machine says so, and the
/// machine is never surprised by an answer.
pub proof fn law_honest_answers_never_surprise(
    config: ConfigView,
    command: CommandView,
    store: Store,
    script: Seq<EventView>,
)
    requires
        faithful(opening(config, command, store), script),
    ensures
        awaits(
            play(opening(config, command, store), script).state,
            play(opening(config, command, store), script).action,
        ),
        play(opening(config, command, store), script).action != (ActionView::Fail {
            error: crate::error::KeeperError::UnexpectedEvent,
        }),
{
    let holds = |r: Run|
        awaits(r.state, r.action) && r.action != (ActionView::Fail {
            error: crate::error::KeeperError::UnexpectedEvent,
        });
    lemma_starts_with_what_it_awaits(config, command);
    assert forall|r: Run, e: EventView|
        holds(r) && honest(r.store, r.action, e) implies holds(#[trigger] advance(r, e)) by {
        lemma_asks_what_it_awaits(r.state, e);
    }
    lemma_holds_throughout(holds, opening(config, command, store), script);
}

/// Every operation ends: against an honest host it takes no more than ten
/// answers, and fewer the further it has come.
pub proof fn law_operations_end(
    config: ConfigView,
    command: CommandView,
    store: Store,
    script: Seq<EventView>,
)
    requires
        faithful(opening(config, command, store), script),
    ensures
        script.len() + remaining(play(opening(config, command, store), script).state) <= 10,
        play(opening(config, command, store), script).state is Finished <==> play(
            opening(config, command, store),
            script,
        ).action.is_terminal(),
    decreases script.len(),
{
    lemma_start_is_consistent(config, command);
    if script.len() > 0 {
        let before = play(opening(config, command, store), script.drop_last());
        law_operations_end(config, command, store, script.drop_last());
        lemma_step_advances(before.state, script.last());
    }
}

} // verus!
