//! Running an operation between two host actions.
//!
//! [`begin`] and [`resume`] are [`crate::machine::start`] and
//! [`crate::machine::step`] for a host that does no cryptography: where the
//! next action is cryptography, it is performed here and its result fed
//! back, until an action for the host comes up.
use vstd::prelude::*;
use crate::crypto::{
    check_public_key, decrypt, encrypt, generate_key_pair, generate_secret, is_generated_secret,
    refuses_decryption, refuses_encryption, refuses_key_pair, refuses_secret,
};
use crate::error::KeeperError;
use crate::machine::{
    State, StateView, initial, lemma_start_is_consistent, lemma_step_advances, next, remaining,
    start, step,
};
use crate::protocol::{
    Action, ActionOf, ActionView, Command, Config, Event, EventOf, EventView,
};

verus! {

/// Whether `event` is something that cryptography can answer to `action`.
pub open spec fn crypto_reply(action: ActionView, event: EventView) -> bool {
    match action {
        ActionOf::GenerateKeyPair { .. } => match event {
            EventOf::KeyPair { .. } => true,
            EventOf::Refused { error } => refuses_key_pair(error),
            _ => false,
        },
        ActionOf::GenerateSecret => match event {
            EventOf::Text { text } => is_generated_secret(text),
            EventOf::Refused { error } => refuses_secret(error),
            _ => false,
        },
        ActionOf::CheckPublicKey { .. } => match event {
            EventOf::Done => true,
            EventOf::Refused { error } => error == KeeperError::LoadPublicKey,
            _ => false,
        },
        ActionOf::Encrypt { .. } => match event {
            EventOf::Bytes { .. } => true,
            EventOf::Refused { error } => refuses_encryption(error),
            _ => false,
        },
        ActionOf::Decrypt { .. } => match event {
            EventOf::Bytes { .. } => true,
            EventOf::Refused { error } => refuses_decryption(error),
            _ => false,
        },
        _ => false,
    }
}

/// Where the machine stands after the events `replies`, taken in order from
/// `state` with `action` pending.
pub open spec fn follow(state: StateView, action: ActionView, replies: Seq<EventView>) -> (
    StateView,
    ActionView,
)
    decreases replies.len(),
{
    if replies.len() == 0 {
        (state, action)
    } else {
        next(follow(state, action, replies.drop_last()).0, replies.last())
    }
}

/// Whether each of `replies` is cryptography's answer to the action that is
/// pending when it comes.
pub open spec fn computed(state: StateView, action: ActionView, replies: Seq<EventView>) -> bool
    decreases replies.len(),
{
    replies.len() == 0 || (computed(state, action, replies.drop_last()) && crypto_reply(
        follow(state, action, replies.drop_last()).1,
        replies.last(),
    ))
}

/// Whether `result` is where the machine comes to rest from `state` with
/// `action` pending, once cryptography has answered every action that is
/// its own: `result` holds an action for the host, and some answers of
/// cryptography lead to it.
pub open spec fn settles(
    state: StateView,
    action: ActionView,
    result: (StateView, ActionView),
) -> bool {
    &&& !result.1.is_crypto()
    &&& exists|replies: Seq<EventView>|
        computed(state, action, replies) && #[trigger] follow(state, action, replies) == result
}

/// Performs `action` if it is cryptography, and gives its answer; gives
/// nothing for an action that is the host's.
pub fn perform(action: &Action) -> (r: Option<Event>)
    ensures
        r is Some <==> action@.is_crypto(),
        r matches Some(event) ==> crypto_reply(action@, event@),
{
    match action {
        ActionOf::GenerateKeyPair { passphrase } => Some(
            match generate_key_pair(passphrase.as_str()) {
                Ok(pair) => EventOf::KeyPair {
                    public_pem: pair.public_pem,
                    private_pem: pair.private_pem,
                },
                Err(error) => EventOf::Refused { error },
            },
        ),
        ActionOf::GenerateSecret => Some(
            match generate_secret() {
                Ok(text) => EventOf::Text { text },
                Err(error) => EventOf::Refused { error },
            },
        ),
        ActionOf::CheckPublicKey { pem } => Some(
            match check_public_key(pem.as_str()) {
                Ok(()) => EventOf::Done,
                Err(error) => EventOf::Refused { error },
            },
        ),
        ActionOf::Encrypt { pem, plaintext } => Some(
            match encrypt(pem.as_str(), plaintext.as_str()) {
                Ok(bytes) => EventOf::Bytes { bytes },
                Err(error) => EventOf::Refused { error },
            },
        ),
        ActionOf::Decrypt { pem, passphrase, ciphertext } => Some(
            match decrypt(pem.as_str(), passphrase.as_str(), ciphertext.as_slice()) {
                Ok(bytes) => EventOf::Bytes { bytes },
                Err(error) => EventOf::Refused { error },
            },
        ),
        _ => None,
    }
}

fn settle(state: State, action: Action) -> (r: (State, Action))
    requires
        state@ is Finished <==> action@.is_terminal(),
    ensures
        settles(state@, action@, (r.0@, r.1@)),
        r.0@ is Finished <==> r.1@.is_terminal(),
{
    let ghost first_state = state@;
    let ghost first_action = action@;
    let ghost mut replies: Seq<EventView> = Seq::empty();
    let mut state = state;
    let mut action = action;
    loop
        invariant_except_break
            computed(first_state, first_action, replies),
            follow(first_state, first_action, replies) == (state@, action@),
            state@ is Finished <==> action@.is_terminal(),
        ensures
            settles(first_state, first_action, (state@, action@)),
            state@ is Finished <==> action@.is_terminal(),
        decreases remaining(state@),
    {
        match perform(&action) {
            None => {
                break ;
            },
            Some(event) => {
                proof {
                    lemma_step_advances(state@, event@);
                    let longer = replies.push(event@);
                    assert(longer.drop_last() =~= replies);
                    replies = longer;
                }
                let r = step(state, event);
                state = r.0;
                action = r.1;
            },
        }
    }
    (state, action)
}

/// Starts an operation, and runs it up to its first action for the host.
pub fn begin(config: Config, command: Command) -> (r: (State, Action))
    ensures
        settles(initial(config@, command@).0, initial(config@, command@).1, (r.0@, r.1@)),
{
    proof {
        lemma_start_is_consistent(config@, command@);
    }
    let first = start(config, command);
    settle(first.0, first.1)
}

/// Takes the host's answer to the pending action, and runs the operation
/// up to its next action for the host.
pub fn resume(state: State, event: Event) -> (r: (State, Action))
    ensures
        settles(next(state@, event@).0, next(state@, event@).1, (r.0@, r.1@)),
{
    proof {
        lemma_step_advances(state@, event@);
    }
    let r = step(state, event);
    settle(r.0, r.1)
}

} // verus!
