//! The five operations as one state machine.
//!
//! A state says what the operation is waiting for. [`initial`] gives the
//! first state and the first action of an operation; [`next`] takes the state
//! and the event that answers the pending action to the next state and the
//! next action. [`start`] and [`step`] compute them.
use vstd::prelude::*;
use vstd::string::*;
use crate::error::{KeeperError, Setting};
use crate::protocol::{
    Action, ActionOf, ActionView, Command, CommandOf, CommandView, Config, ConfigView, Destination,
    Event, EventOf, EventView, Prompt, SourceOf, lines_view, text_view,
};
use crate::text::{confirms, is_confirmation};

verus! {

/// Where an operation stands: what it is waiting for, and what it has to
/// remember until then.
#[derive(Clone, Debug, PartialEq, Eq)]
#[allow(inconsistent_fields)]
pub enum StateOf<T, B> {
    /// Waiting for the passphrase of the key pair to be made.
    KeyPassphrase { directory: T },
    /// Waiting for the key pair.
    KeyGeneration { directory: T },
    /// Waiting for the public key record to be written.
    PublicKeyWrite { directory: T, private_pem: T },
    /// Waiting for the private key record to be written.
    PrivateKeyWrite,
    /// Waiting for the store to open, to add.
    OpeningForAdd { name: T, source: SourceOf<T>, public_key_path: Option<T> },
    /// Waiting for the store to open, to fetch.
    OpeningForFetch { name: T, destination: Destination, private_key_path: Option<T> },
    /// Waiting for the store to open, to remove.
    OpeningForRemove { name: T },
    /// Waiting for the store to open, to list.
    OpeningForList,
    /// Waiting for the generated secret.
    SecretGeneration { name: T, public_key_path: Option<T> },
    /// Waiting for the generated secret to be shown.
    SecretEcho { name: T, plaintext: T, public_key_path: Option<T> },
    /// Waiting for the content of the file that holds the secret.
    SecretFile { name: T, public_key_path: Option<T> },
    /// Waiting to learn whether the name is taken.
    AddLookup { name: T, plaintext: Option<T>, public_key_path: Option<T> },
    /// Waiting for the text of the public key record.
    PublicKeyRead { name: T, plaintext: Option<T> },
    /// Waiting to learn whether the text is a public key.
    PublicKeyCheck { name: T, plaintext: Option<T>, pem: T },
    /// Waiting for the secret to be typed.
    SecretPrompt { name: T, pem: T },
    /// Waiting for the ciphertext.
    Encryption { name: T },
    /// Waiting for the entry to be written.
    EntryWrite,
    /// Waiting for the written entry to be made durable.
    EntryFlush,
    /// Waiting for the stored ciphertext.
    FetchLookup { destination: Destination, private_key_path: Option<T> },
    /// Waiting for the passphrase of the private key.
    FetchPassphrase { ciphertext: B, destination: Destination, private_key_path: Option<T> },
    /// Waiting for the text of the private key record.
    PrivateKeyRead { ciphertext: B, passphrase: T, destination: Destination },
    /// Waiting for the plaintext.
    Decryption { destination: Destination },
    /// Waiting for the clipboard.
    ClipboardOpen { plaintext: B },
    /// Waiting for the plaintext to be handed over.
    Delivery { destination: Destination },
    /// Waiting to learn whether the entry to remove exists.
    RemoveLookup { name: T },
    /// Waiting for the name to be typed again.
    Confirmation { name: T },
    /// Waiting for the entry to be deleted.
    Deletion,
    /// Waiting for the deletion to be made durable.
    DeletionFlush,
    /// Waiting for the names.
    Listing,
    /// Waiting for the names to be shown.
    NamesShown,
    /// The operation has ended.
    Finished,
}

/// A state, as the host holds it.
pub type State = StateOf<String, Vec<u8>>;

/// The view of a state.
pub type StateView = StateOf<Seq<char>, Seq<u8>>;

impl View for StateOf<String, Vec<u8>> {
    type V = StateView;

    open spec fn view(&self) -> StateView {
        match *self {
            StateOf::KeyPassphrase { directory } => StateOf::KeyPassphrase {
                directory: directory@,
            },
            StateOf::KeyGeneration { directory } => StateOf::KeyGeneration {
                directory: directory@,
            },
            StateOf::PublicKeyWrite { directory, private_pem } => StateOf::PublicKeyWrite {
                directory: directory@,
                private_pem: private_pem@,
            },
            StateOf::PrivateKeyWrite => StateOf::PrivateKeyWrite,
            StateOf::OpeningForAdd { name, source, public_key_path } => StateOf::OpeningForAdd {
                name: name@,
                source: source@,
                public_key_path: text_view(public_key_path),
            },
            StateOf::OpeningForFetch {
                name,
                destination,
                private_key_path,
            } => StateOf::OpeningForFetch {
                name: name@,
                destination,
                private_key_path: text_view(private_key_path),
            },
            StateOf::OpeningForRemove { name } => StateOf::OpeningForRemove { name: name@ },
            StateOf::OpeningForList => StateOf::OpeningForList,
            StateOf::SecretGeneration { name, public_key_path } => StateOf::SecretGeneration {
                name: name@,
                public_key_path: text_view(public_key_path),
            },
            StateOf::SecretEcho { name, plaintext, public_key_path } => StateOf::SecretEcho {
                name: name@,
                plaintext: plaintext@,
                public_key_path: text_view(public_key_path),
            },
            StateOf::SecretFile { name, public_key_path } => StateOf::SecretFile {
                name: name@,
                public_key_path: text_view(public_key_path),
            },
            StateOf::AddLookup { name, plaintext, public_key_path } => StateOf::AddLookup {
                name: name@,
                plaintext: text_view(plaintext),
                public_key_path: text_view(public_key_path),
            },
            StateOf::PublicKeyRead { name, plaintext } => StateOf::PublicKeyRead {
                name: name@,
                plaintext: text_view(plaintext),
            },
            StateOf::PublicKeyCheck { name, plaintext, pem } => StateOf::PublicKeyCheck {
                name: name@,
                plaintext: text_view(plaintext),
                pem: pem@,
            },
            StateOf::SecretPrompt { name, pem } => StateOf::SecretPrompt { name: name@, pem: pem@ },
            StateOf::Encryption { name } => StateOf::Encryption { name: name@ },
            StateOf::EntryWrite => StateOf::EntryWrite,
            StateOf::EntryFlush => StateOf::EntryFlush,
            StateOf::FetchLookup { destination, private_key_path } => StateOf::FetchLookup {
                destination,
                private_key_path: text_view(private_key_path),
            },
            StateOf::FetchPassphrase {
                ciphertext,
                destination,
                private_key_path,
            } => StateOf::FetchPassphrase {
                ciphertext: ciphertext@,
                destination,
                private_key_path: text_view(private_key_path),
            },
            StateOf::PrivateKeyRead {
                ciphertext,
                passphrase,
                destination,
            } => StateOf::PrivateKeyRead {
                ciphertext: ciphertext@,
                passphrase: passphrase@,
                destination,
            },
            StateOf::Decryption { destination } => StateOf::Decryption { destination },
            StateOf::ClipboardOpen { plaintext } => StateOf::ClipboardOpen {
                plaintext: plaintext@,
            },
            StateOf::Delivery { destination } => StateOf::Delivery { destination },
            StateOf::RemoveLookup { name } => StateOf::RemoveLookup { name: name@ },
            StateOf::Confirmation { name } => StateOf::Confirmation { name: name@ },
            StateOf::Deletion => StateOf::Deletion,
            StateOf::DeletionFlush => StateOf::DeletionFlush,
            StateOf::Listing => StateOf::Listing,
            StateOf::NamesShown => StateOf::NamesShown,
            StateOf::Finished => StateOf::Finished,
        }
    }
}

/// The file of the public key record in `directory`.
pub open spec fn public_key_file(directory: Seq<char>) -> Seq<char> {
    directory + "/keeper_pub.pem"@
}

/// The file of the private key record in `directory`.
pub open spec fn private_key_file(directory: Seq<char>) -> Seq<char> {
    directory + "/keeper_pri.pem"@
}

/// The operation is abandoned because of `error`.
pub open spec fn abandon(error: KeeperError) -> (StateView, ActionView) {
    (StateOf::Finished, ActionOf::Fail { error })
}

/// The operation is complete.
pub open spec fn complete() -> (StateView, ActionView) {
    (StateOf::Finished, ActionOf::Finish)
}

/// Why the operation is abandoned when the host answers `event` where only
/// success or its failure, which is `error`, make sense.
pub open spec fn host_failure(event: EventView, error: KeeperError) -> KeeperError {
    if event is Failed {
        error
    } else {
        KeeperError::UnexpectedEvent
    }
}

/// Why the operation is abandoned when cryptography answers `event` where
/// only success or a refusal make sense.
pub open spec fn crypto_failure(event: EventView) -> KeeperError {
    match event {
        EventOf::Refused { error } => error,
        _ => KeeperError::UnexpectedEvent,
    }
}

/// The first state and the first action of an operation.
///
/// Making a key pair touches no store and starts by asking for the
/// passphrase. Every other operation starts by opening the store, and is
/// abandoned at once where the configuration does not say where it is.
pub open spec fn initial(config: ConfigView, command: CommandView) -> (StateView, ActionView) {
    match command {
        CommandOf::GenKey { directory } => (
            StateOf::KeyPassphrase { directory },
            ActionOf::Ask { prompt: Prompt::KeyPassphrase },
        ),
        _ => match config.data_path {
            None => abandon(KeeperError::MissingSetting(Setting::DataPath)),
            Some(path) => (
                match command {
                    CommandOf::Add { name, source } => StateOf::OpeningForAdd {
                        name,
                        source,
                        public_key_path: config.public_key_path,
                    },
                    CommandOf::Fetch { name, destination } => StateOf::OpeningForFetch {
                        name,
                        destination,
                        private_key_path: config.private_key_path,
                    },
                    CommandOf::Remove { name } => StateOf::OpeningForRemove { name },
                    _ => StateOf::OpeningForList,
                },
                ActionOf::OpenStore { path },
            ),
        },
    }
}

/// One step of making a key pair.
pub open spec fn next_gen_key(state: StateView, event: EventView) -> (
    StateView,
    ActionView,
) {
    match state {
        StateOf::KeyPassphrase { directory } => match event {
            EventOf::Text { text } => (
                StateOf::KeyGeneration { directory },
                ActionOf::GenerateKeyPair { passphrase: text },
            ),
            _ => abandon(host_failure(event, KeeperError::ReadPassword)),
        },
        StateOf::KeyGeneration { directory } => match event {
            EventOf::KeyPair { public_pem, private_pem } => (
                StateOf::PublicKeyWrite { directory, private_pem },
                ActionOf::WriteFile { path: public_key_file(directory), contents: public_pem },
            ),
            _ => abandon(crypto_failure(event)),
        },
        StateOf::PublicKeyWrite { directory, private_pem } => match event {
            EventOf::Done => (
                StateOf::PrivateKeyWrite,
                ActionOf::WriteFile { path: private_key_file(directory), contents: private_pem },
            ),
            _ => abandon(host_failure(event, KeeperError::WritePublicKey)),
        },
        StateOf::PrivateKeyWrite => match event {
            EventOf::Done => complete(),
            _ => abandon(host_failure(event, KeeperError::WritePrivateKey)),
        },
        _ => abandon(KeeperError::UnexpectedEvent),
    }
}

/// One step of adding a secret, up to the check of the name.
pub open spec fn next_add_check(state: StateView, event: EventView) -> (
    StateView,
    ActionView,
) {
    match state {
        StateOf::OpeningForAdd { name, source, public_key_path } => match event {
            EventOf::Done => match source {
                SourceOf::Prompt => (
                    StateOf::AddLookup { name, plaintext: None, public_key_path },
                    ActionOf::Lookup { name },
                ),
                SourceOf::Generated => (
                    StateOf::SecretGeneration { name, public_key_path },
                    ActionOf::GenerateSecret,
                ),
                SourceOf::File { path } => (
                    StateOf::SecretFile { name, public_key_path },
                    ActionOf::ReadFile { path },
                ),
            },
            _ => abandon(host_failure(event, KeeperError::OpenStore)),
        },
        StateOf::SecretGeneration { name, public_key_path } => match event {
            EventOf::Text { text } => (
                StateOf::SecretEcho { name, plaintext: text, public_key_path },
                ActionOf::Show { lines: seq![text] },
            ),
            _ => abandon(crypto_failure(event)),
        },
        StateOf::SecretEcho { name, plaintext, public_key_path } => match event {
            EventOf::Done => (
                StateOf::AddLookup { name, plaintext: Some(plaintext), public_key_path },
                ActionOf::Lookup { name },
            ),
            _ => abandon(host_failure(event, KeeperError::Output)),
        },
        StateOf::SecretFile { name, public_key_path } => match event {
            EventOf::Text { text } => (
                StateOf::AddLookup { name, plaintext: Some(text), public_key_path },
                ActionOf::Lookup { name },
            ),
            _ => abandon(host_failure(event, KeeperError::ReadFile)),
        },
        StateOf::AddLookup { name, plaintext, public_key_path } => match event {
            EventOf::Found { ciphertext } => abandon(KeeperError::NameExists),
            EventOf::Missing => match public_key_path {
                None => abandon(KeeperError::MissingSetting(Setting::PublicKeyPath)),
                Some(path) => (
                    StateOf::PublicKeyRead { name, plaintext },
                    ActionOf::ReadFile { path },
                ),
            },
            _ => abandon(host_failure(event, KeeperError::ReadStore)),
        },
        _ => abandon(KeeperError::UnexpectedEvent),
    }
}

/// One step of adding a secret, from the public key to the durable entry.
pub open spec fn next_add_store(state: StateView, event: EventView) -> (
    StateView,
    ActionView,
) {
    match state {
        StateOf::PublicKeyRead { name, plaintext } => match event {
            EventOf::Text { text } => (
                StateOf::PublicKeyCheck { name, plaintext, pem: text },
                ActionOf::CheckPublicKey { pem: text },
            ),
            _ => abandon(host_failure(event, KeeperError::ReadPublicKey)),
        },
        StateOf::PublicKeyCheck { name, plaintext, pem } => match event {
            EventOf::Done => match plaintext {
                Some(plaintext) => (
                    StateOf::Encryption { name },
                    ActionOf::Encrypt { pem, plaintext },
                ),
                None => (
                    StateOf::SecretPrompt { name, pem },
                    ActionOf::Ask { prompt: Prompt::Secret },
                ),
            },
            _ => abandon(crypto_failure(event)),
        },
        StateOf::SecretPrompt { name, pem } => match event {
            EventOf::Text { text } => (
                StateOf::Encryption { name },
                ActionOf::Encrypt { pem, plaintext: text },
            ),
            _ => abandon(host_failure(event, KeeperError::ReadPassword)),
        },
        StateOf::Encryption { name } => match event {
            EventOf::Bytes { bytes } => (
                StateOf::EntryWrite,
                ActionOf::Put { name, ciphertext: bytes },
            ),
            _ => abandon(crypto_failure(event)),
        },
        StateOf::EntryWrite => match event {
            EventOf::Done => (StateOf::EntryFlush, ActionOf::Flush),
            _ => abandon(host_failure(event, KeeperError::WriteEntry)),
        },
        StateOf::EntryFlush => match event {
            EventOf::Done => complete(),
            _ => abandon(host_failure(event, KeeperError::WriteEntry)),
        },
        _ => abandon(KeeperError::UnexpectedEvent),
    }
}

/// One step of fetching a secret.
pub open spec fn next_fetch(state: StateView, event: EventView) -> (
    StateView,
    ActionView,
) {
    match state {
        StateOf::OpeningForFetch { name, destination, private_key_path } => match event {
            EventOf::Done => (
                StateOf::FetchLookup { destination, private_key_path },
                ActionOf::Lookup { name },
            ),
            _ => abandon(host_failure(event, KeeperError::OpenStore)),
        },
        StateOf::FetchLookup { destination, private_key_path } => match event {
            EventOf::Found { ciphertext } => (
                StateOf::FetchPassphrase { ciphertext, destination, private_key_path },
                ActionOf::Ask { prompt: Prompt::KeyPassphrase },
            ),
            EventOf::Missing | EventOf::Failed => abandon(KeeperError::NameMissing),
            _ => abandon(KeeperError::UnexpectedEvent),
        },
        StateOf::FetchPassphrase { ciphertext, destination, private_key_path } => match event {
            EventOf::Text { text } => match private_key_path {
                None => abandon(KeeperError::MissingSetting(Setting::PrivateKeyPath)),
                Some(path) => (
                    StateOf::PrivateKeyRead { ciphertext, passphrase: text, destination },
                    ActionOf::ReadFile { path },
                ),
            },
            _ => abandon(host_failure(event, KeeperError::ReadPassword)),
        },
        StateOf::PrivateKeyRead { ciphertext, passphrase, destination } => match event {
            EventOf::Text { text } => (
                StateOf::Decryption { destination },
                ActionOf::Decrypt { pem: text, passphrase, ciphertext },
            ),
            _ => abandon(host_failure(event, KeeperError::ReadPrivateKey)),
        },
        StateOf::Decryption { destination } => match event {
            EventOf::Bytes { bytes } => match destination {
                Destination::Stdout => (
                    StateOf::Delivery { destination },
                    ActionOf::Deliver { destination, plaintext: bytes },
                ),
                Destination::Clipboard => (
                    StateOf::ClipboardOpen { plaintext: bytes },
                    ActionOf::OpenClipboard,
                ),
            },
            _ => abandon(crypto_failure(event)),
        },
        StateOf::ClipboardOpen { plaintext } => match event {
            EventOf::Done => (
                StateOf::Delivery { destination: Destination::Clipboard },
                ActionOf::Deliver { destination: Destination::Clipboard, plaintext },
            ),
            _ => abandon(host_failure(event, KeeperError::InitClipboard)),
        },
        StateOf::Delivery { destination } => match event {
            EventOf::Done => complete(),
            _ => abandon(
                host_failure(
                    event,
                    match destination {
                        Destination::Stdout => KeeperError::Output,
                        Destination::Clipboard => KeeperError::SetClipboard,
                    },
                ),
            ),
        },
        _ => abandon(KeeperError::UnexpectedEvent),
    }
}

/// One step of removing a secret.
pub open spec fn next_remove(state: StateView, event: EventView) -> (
    StateView,
    ActionView,
) {
    match state {
        StateOf::OpeningForRemove { name } => match event {
            EventOf::Done => (StateOf::RemoveLookup { name }, ActionOf::Lookup { name }),
            _ => abandon(host_failure(event, KeeperError::OpenStore)),
        },
        StateOf::RemoveLookup { name } => match event {
            EventOf::Found { ciphertext } => (
                StateOf::Confirmation { name },
                ActionOf::Ask { prompt: Prompt::Confirmation },
            ),
            EventOf::Missing | EventOf::Failed => abandon(KeeperError::NameMissing),
            _ => abandon(KeeperError::UnexpectedEvent),
        },
        StateOf::Confirmation { name } => match event {
            EventOf::Text { text } => if confirms(text, name) {
                (StateOf::Deletion, ActionOf::Delete { name })
            } else {
                complete()
            },
            _ => abandon(host_failure(event, KeeperError::InvalidInput)),
        },
        StateOf::Deletion => match event {
            EventOf::Done => (StateOf::DeletionFlush, ActionOf::Flush),
            _ => abandon(host_failure(event, KeeperError::DeleteEntry)),
        },
        StateOf::DeletionFlush => match event {
            EventOf::Done => complete(),
            _ => abandon(host_failure(event, KeeperError::DeleteEntry)),
        },
        _ => abandon(KeeperError::UnexpectedEvent),
    }
}

/// One step of listing the names.
pub open spec fn next_list(state: StateView, event: EventView) -> (
    StateView,
    ActionView,
) {
    match state {
        StateOf::OpeningForList => match event {
            EventOf::Done => (StateOf::Listing, ActionOf::ListNames),
            _ => abandon(host_failure(event, KeeperError::OpenStore)),
        },
        StateOf::Listing => match event {
            EventOf::Names { names } => (StateOf::NamesShown, ActionOf::Show { lines: names }),
            _ => abandon(host_failure(event, KeeperError::ListNames)),
        },
        StateOf::NamesShown => match event {
            EventOf::Done => complete(),
            _ => abandon(host_failure(event, KeeperError::Output)),
        },
        _ => abandon(KeeperError::UnexpectedEvent),
    }
}

/// The state and the action that follow when `event` answers the action
/// pending in `state`.
pub open spec fn next(state: StateView, event: EventView) -> (StateView, ActionView) {
    match state {
        StateOf::KeyPassphrase { .. }
        | StateOf::KeyGeneration { .. }
        | StateOf::PublicKeyWrite { .. }
        | StateOf::PrivateKeyWrite => next_gen_key(state, event),
        StateOf::OpeningForAdd { .. }
        | StateOf::SecretGeneration { .. }
        | StateOf::SecretEcho { .. }
        | StateOf::SecretFile { .. }
        | StateOf::AddLookup { .. } => next_add_check(state, event),
        StateOf::PublicKeyRead { .. }
        | StateOf::PublicKeyCheck { .. }
        | StateOf::SecretPrompt { .. }
        | StateOf::Encryption { .. }
        | StateOf::EntryWrite
        | StateOf::EntryFlush => next_add_store(state, event),
        StateOf::OpeningForFetch { .. }
        | StateOf::FetchLookup { .. }
        | StateOf::FetchPassphrase { .. }
        | StateOf::PrivateKeyRead { .. }
        | StateOf::Decryption { .. }
        | StateOf::ClipboardOpen { .. }
        | StateOf::Delivery { .. } => next_fetch(state, event),
        StateOf::OpeningForRemove { .. }
        | StateOf::RemoveLookup { .. }
        | StateOf::Confirmation { .. }
        | StateOf::Deletion
        | StateOf::DeletionFlush => next_remove(state, event),
        StateOf::OpeningForList | StateOf::Listing | StateOf::NamesShown => next_list(state, event),
        StateOf::Finished => abandon(KeeperError::UnexpectedEvent),
    }
}

/// Whether `action` is an action that `state` can be waiting for.
pub open spec fn awaits(state: StateView, action: ActionView) -> bool {
    match state {
        StateOf::KeyPassphrase { .. } => action == ActionView::Ask {
            prompt: Prompt::KeyPassphrase,
        },
        StateOf::KeyGeneration { .. } => action is GenerateKeyPair,
        StateOf::PublicKeyWrite { directory, .. } => action matches ActionOf::WriteFile { path, .. }
            && path == public_key_file(directory),
        StateOf::PrivateKeyWrite => action is WriteFile,
        StateOf::OpeningForAdd { .. } => action is OpenStore,
        StateOf::OpeningForFetch { .. } => action is OpenStore,
        StateOf::OpeningForRemove { .. } => action is OpenStore,
        StateOf::OpeningForList => action is OpenStore,
        StateOf::SecretGeneration { .. } => action is GenerateSecret,
        StateOf::SecretEcho { plaintext, .. } => action == ActionView::Show {
            lines: seq![plaintext],
        },
        StateOf::SecretFile { .. } => action is ReadFile,
        StateOf::AddLookup { name, .. } => action == ActionView::Lookup { name },
        StateOf::PublicKeyRead { .. } => action is ReadFile,
        StateOf::PublicKeyCheck { pem, .. } => action == ActionView::CheckPublicKey { pem },
        StateOf::SecretPrompt { .. } => action == ActionView::Ask { prompt: Prompt::Secret },
        StateOf::Encryption { .. } => action is Encrypt,
        StateOf::EntryWrite => action is Put,
        StateOf::EntryFlush => action is Flush,
        StateOf::FetchLookup { .. } => action is Lookup,
        StateOf::FetchPassphrase { .. } => action == ActionView::Ask {
            prompt: Prompt::KeyPassphrase,
        },
        StateOf::PrivateKeyRead { .. } => action is ReadFile,
        StateOf::Decryption { .. } => action is Decrypt,
        StateOf::ClipboardOpen { .. } => action is OpenClipboard,
        StateOf::Delivery { destination } => action matches ActionOf::Deliver {
            destination: to,
            ..
        } && to == destination,
        StateOf::RemoveLookup { name } => action == ActionView::Lookup { name },
        StateOf::Confirmation { .. } => action == ActionView::Ask { prompt: Prompt::Confirmation },
        StateOf::Deletion => action is Delete,
        StateOf::DeletionFlush => action is Flush,
        StateOf::Listing => action is ListNames,
        StateOf::NamesShown => action is Show,
        StateOf::Finished => action.is_terminal(),
    }
}

/// The machine only ever asks for what its state then waits for.
pub proof fn lemma_asks_what_it_awaits(state: StateView, event: EventView)
    ensures
        awaits(next(state, event).0, next(state, event).1),
{
}

/// An operation starts by asking for what its first state waits for.
pub proof fn lemma_starts_with_what_it_awaits(config: ConfigView, command: CommandView)
    ensures
        awaits(initial(config, command).0, initial(config, command).1),
{
}

/// An upper bound on the number of events that `state` can still take
/// before the operation has ended.
pub open spec fn remaining(state: StateView) -> nat {
    match state {
        StateOf::KeyPassphrase { .. } => 4,
        StateOf::KeyGeneration { .. } => 3,
        StateOf::PublicKeyWrite { .. } => 2,
        StateOf::PrivateKeyWrite => 1,
        StateOf::OpeningForAdd { .. } => 10,
        StateOf::SecretGeneration { .. } => 9,
        StateOf::SecretEcho { .. } => 8,
        StateOf::SecretFile { .. } => 8,
        StateOf::AddLookup { .. } => 7,
        StateOf::PublicKeyRead { .. } => 6,
        StateOf::PublicKeyCheck { .. } => 5,
        StateOf::SecretPrompt { .. } => 4,
        StateOf::Encryption { .. } => 3,
        StateOf::EntryWrite => 2,
        StateOf::EntryFlush => 1,
        StateOf::OpeningForFetch { .. } => 7,
        StateOf::FetchLookup { .. } => 6,
        StateOf::FetchPassphrase { .. } => 5,
        StateOf::PrivateKeyRead { .. } => 4,
        StateOf::Decryption { .. } => 3,
        StateOf::ClipboardOpen { .. } => 2,
        StateOf::Delivery { .. } => 1,
        StateOf::OpeningForRemove { .. } => 5,
        StateOf::RemoveLookup { .. } => 4,
        StateOf::Confirmation { .. } => 3,
        StateOf::Deletion => 2,
        StateOf::DeletionFlush => 1,
        StateOf::OpeningForList => 3,
        StateOf::Listing => 2,
        StateOf::NamesShown => 1,
        StateOf::Finished => 0,
    }
}

/// Every step brings the operation nearer to its end; the operation has
/// ended exactly when the action is the last one; and an operation that
/// has ended only ever fails.
pub proof fn lemma_step_advances(state: StateView, event: EventView)
    ensures
        !(state is Finished) ==> remaining(next(state, event).0) < remaining(state),
        next(state, event).0 is Finished <==> next(state, event).1.is_terminal(),
        state is Finished ==> next(state, event) == abandon(KeeperError::UnexpectedEvent),
{
}

/// An operation has ended at its start exactly when its first action is the
/// last one.
pub proof fn lemma_start_is_consistent(config: ConfigView, command: CommandView)
    ensures
        initial(config, command).0 is Finished <==> initial(config, command).1.is_terminal(),
        remaining(initial(config, command).0) <= 10,
{
}

fn abandoned(error: KeeperError) -> (r: (State, Action))
    ensures
        (r.0@, r.1@) == abandon(error),
{
    (StateOf::Finished, ActionOf::Fail { error })
}

fn completed() -> (r: (State, Action))
    ensures
        (r.0@, r.1@) == complete(),
{
    (StateOf::Finished, ActionOf::Finish)
}

fn abandoned_by_host(event: &Event, error: KeeperError) -> (r: (State, Action))
    ensures
        (r.0@, r.1@) == abandon(host_failure(event@, error)),
{
    match event {
        EventOf::Failed => abandoned(error),
        _ => abandoned(KeeperError::UnexpectedEvent),
    }
}

fn abandoned_by_crypto(event: &Event) -> (r: (State, Action))
    ensures
        (r.0@, r.1@) == abandon(crypto_failure(event@)),
{
    match event {
        EventOf::Refused { error } => abandoned(*error),
        _ => abandoned(KeeperError::UnexpectedEvent),
    }
}

/// The file of the public key record in `directory`.
pub fn public_key_path_in(directory: &str) -> (path: String)
    ensures
        path@ == public_key_file(directory@),
{
    String::from_str(directory).concat("/keeper_pub.pem")
}

/// The file of the private key record in `directory`.
pub fn private_key_path_in(directory: &str) -> (path: String)
    ensures
        path@ == private_key_file(directory@),
{
    String::from_str(directory).concat("/keeper_pri.pem")
}

/// Starts an operation: gives its first state and its first action.
pub fn start(config: Config, command: Command) -> (r: (State, Action))
    ensures
        (r.0@, r.1@) == initial(config@, command@),
{
    match command {
        CommandOf::GenKey { directory } => (
            StateOf::KeyPassphrase { directory },
            ActionOf::Ask { prompt: Prompt::KeyPassphrase },
        ),
        command => match config.data_path {
            None => abandoned(KeeperError::MissingSetting(Setting::DataPath)),
            Some(path) => {
                let state = match command {
                    CommandOf::Add { name, source } => StateOf::OpeningForAdd {
                        name,
                        source,
                        public_key_path: config.public_key_path,
                    },
                    CommandOf::Fetch { name, destination } => StateOf::OpeningForFetch {
                        name,
                        destination,
                        private_key_path: config.private_key_path,
                    },
                    CommandOf::Remove { name } => StateOf::OpeningForRemove { name },
                    _ => StateOf::OpeningForList,
                };
                (state, ActionOf::OpenStore { path })
            },
        },
    }
}

fn step_gen_key(state: State, event: Event) -> (r: (State, Action))
    ensures
        (r.0@, r.1@) == next_gen_key(state@, event@),
{
    match state {
        StateOf::KeyPassphrase { directory } => match event {
            EventOf::Text { text } => (
                StateOf::KeyGeneration { directory },
                ActionOf::GenerateKeyPair { passphrase: text },
            ),
            other => abandoned_by_host(&other, KeeperError::ReadPassword),
        },
        StateOf::KeyGeneration { directory } => match event {
            EventOf::KeyPair { public_pem, private_pem } => {
                let path = public_key_path_in(directory.as_str());
                (
                    StateOf::PublicKeyWrite { directory, private_pem },
                    ActionOf::WriteFile { path, contents: public_pem },
                )
            },
            other => abandoned_by_crypto(&other),
        },
        StateOf::PublicKeyWrite { directory, private_pem } => match event {
            EventOf::Done => {
                let path = private_key_path_in(directory.as_str());
                (StateOf::PrivateKeyWrite, ActionOf::WriteFile { path, contents: private_pem })
            },
            other => abandoned_by_host(&other, KeeperError::WritePublicKey),
        },
        StateOf::PrivateKeyWrite => match event {
            EventOf::Done => completed(),
            other => abandoned_by_host(&other, KeeperError::WritePrivateKey),
        },
        _ => abandoned(KeeperError::UnexpectedEvent),
    }
}

fn step_add_check(state: State, event: Event) -> (r: (State, Action))
    ensures
        (r.0@, r.1@) == next_add_check(state@, event@),
{
    match state {
        StateOf::OpeningForAdd { name, source, public_key_path } => match event {
            EventOf::Done => match source {
                SourceOf::Prompt => {
                    let wanted = name.clone();
                    (
                        StateOf::AddLookup { name, plaintext: None, public_key_path },
                        ActionOf::Lookup { name: wanted },
                    )
                },
                SourceOf::Generated => (
                    StateOf::SecretGeneration { name, public_key_path },
                    ActionOf::GenerateSecret,
                ),
                SourceOf::File { path } => (
                    StateOf::SecretFile { name, public_key_path },
                    ActionOf::ReadFile { path },
                ),
            },
            other => abandoned_by_host(&other, KeeperError::OpenStore),
        },
        StateOf::SecretGeneration { name, public_key_path } => match event {
            EventOf::Text { text } => {
                let mut lines: Vec<String> = Vec::new();
                lines.push(text.clone());
                assert(lines_view(lines) =~= seq![text@]);
                (
                    StateOf::SecretEcho { name, plaintext: text, public_key_path },
                    ActionOf::Show { lines },
                )
            },
            other => abandoned_by_crypto(&other),
        },
        StateOf::SecretEcho { name, plaintext, public_key_path } => match event {
            EventOf::Done => {
                let wanted = name.clone();
                (
                    StateOf::AddLookup { name, plaintext: Some(plaintext), public_key_path },
                    ActionOf::Lookup { name: wanted },
                )
            },
            other => abandoned_by_host(&other, KeeperError::Output),
        },
        StateOf::SecretFile { name, public_key_path } => match event {
            EventOf::Text { text } => {
                let wanted = name.clone();
                (
                    StateOf::AddLookup { name, plaintext: Some(text), public_key_path },
                    ActionOf::Lookup { name: wanted },
                )
            },
            other => abandoned_by_host(&other, KeeperError::ReadFile),
        },
        StateOf::AddLookup { name, plaintext, public_key_path } => match event {
            EventOf::Found { ciphertext: _ } => abandoned(KeeperError::NameExists),
            EventOf::Missing => match public_key_path {
                None => abandoned(KeeperError::MissingSetting(Setting::PublicKeyPath)),
                Some(path) => (
                    StateOf::PublicKeyRead { name, plaintext },
                    ActionOf::ReadFile { path },
                ),
            },
            other => abandoned_by_host(&other, KeeperError::ReadStore),
        },
        _ => abandoned(KeeperError::UnexpectedEvent),
    }
}

fn step_add_store(state: State, event: Event) -> (r: (State, Action))
    ensures
        (r.0@, r.1@) == next_add_store(state@, event@),
{
    match state {
        StateOf::PublicKeyRead { name, plaintext } => match event {
            EventOf::Text { text } => {
                let pem = text.clone();
                (
                    StateOf::PublicKeyCheck { name, plaintext, pem: text },
                    ActionOf::CheckPublicKey { pem },
                )
            },
            other => abandoned_by_host(&other, KeeperError::ReadPublicKey),
        },
        StateOf::PublicKeyCheck { name, plaintext, pem } => match event {
            EventOf::Done => match plaintext {
                Some(plaintext) => (
                    StateOf::Encryption { name },
                    ActionOf::Encrypt { pem, plaintext },
                ),
                None => (
                    StateOf::SecretPrompt { name, pem },
                    ActionOf::Ask { prompt: Prompt::Secret },
                ),
            },
            other => abandoned_by_crypto(&other),
        },
        StateOf::SecretPrompt { name, pem } => match event {
            EventOf::Text { text } => (
                StateOf::Encryption { name },
                ActionOf::Encrypt { pem, plaintext: text },
            ),
            other => abandoned_by_host(&other, KeeperError::ReadPassword),
        },
        StateOf::Encryption { name } => match event {
            EventOf::Bytes { bytes } => (
                StateOf::EntryWrite,
                ActionOf::Put { name, ciphertext: bytes },
            ),
            other => abandoned_by_crypto(&other),
        },
        StateOf::EntryWrite => match event {
            EventOf::Done => (StateOf::EntryFlush, ActionOf::Flush),
            other => abandoned_by_host(&other, KeeperError::WriteEntry),
        },
        StateOf::EntryFlush => match event {
            EventOf::Done => completed(),
            other => abandoned_by_host(&other, KeeperError::WriteEntry),
        },
        _ => abandoned(KeeperError::UnexpectedEvent),
    }
}

fn step_fetch(state: State, event: Event) -> (r: (State, Action))
    ensures
        (r.0@, r.1@) == next_fetch(state@, event@),
{
    match state {
        StateOf::OpeningForFetch { name, destination, private_key_path } => match event {
            EventOf::Done => (
                StateOf::FetchLookup { destination, private_key_path },
                ActionOf::Lookup { name },
            ),
            other => abandoned_by_host(&other, KeeperError::OpenStore),
        },
        StateOf::FetchLookup { destination, private_key_path } => match event {
            EventOf::Found { ciphertext } => (
                StateOf::FetchPassphrase { ciphertext, destination, private_key_path },
                ActionOf::Ask { prompt: Prompt::KeyPassphrase },
            ),
            EventOf::Missing | EventOf::Failed => abandoned(KeeperError::NameMissing),
            _ => abandoned(KeeperError::UnexpectedEvent),
        },
        StateOf::FetchPassphrase { ciphertext, destination, private_key_path } => match event {
            EventOf::Text { text } => match private_key_path {
                None => abandoned(KeeperError::MissingSetting(Setting::PrivateKeyPath)),
                Some(path) => (
                    StateOf::PrivateKeyRead { ciphertext, passphrase: text, destination },
                    ActionOf::ReadFile { path },
                ),
            },
            other => abandoned_by_host(&other, KeeperError::ReadPassword),
        },
        StateOf::PrivateKeyRead { ciphertext, passphrase, destination } => match event {
            EventOf::Text { text } => (
                StateOf::Decryption { destination },
                ActionOf::Decrypt { pem: text, passphrase, ciphertext },
            ),
            other => abandoned_by_host(&other, KeeperError::ReadPrivateKey),
        },
        StateOf::Decryption { destination } => match event {
            EventOf::Bytes { bytes } => match destination {
                Destination::Stdout => (
                    StateOf::Delivery { destination },
                    ActionOf::Deliver { destination, plaintext: bytes },
                ),
                Destination::Clipboard => (
                    StateOf::ClipboardOpen { plaintext: bytes },
                    ActionOf::OpenClipboard,
                ),
            },
            other => abandoned_by_crypto(&other),
        },
        StateOf::ClipboardOpen { plaintext } => match event {
            EventOf::Done => (
                StateOf::Delivery { destination: Destination::Clipboard },
                ActionOf::Deliver { destination: Destination::Clipboard, plaintext },
            ),
            other => abandoned_by_host(&other, KeeperError::InitClipboard),
        },
        StateOf::Delivery { destination } => match event {
            EventOf::Done => completed(),
            other => match destination {
                Destination::Stdout => abandoned_by_host(&other, KeeperError::Output),
                Destination::Clipboard => abandoned_by_host(&other, KeeperError::SetClipboard),
            },
        },
        _ => abandoned(KeeperError::UnexpectedEvent),
    }
}

fn step_remove(state: State, event: Event) -> (r: (State, Action))
    ensures
        (r.0@, r.1@) == next_remove(state@, event@),
{
    match state {
        StateOf::OpeningForRemove { name } => match event {
            EventOf::Done => {
                let wanted = name.clone();
                (StateOf::RemoveLookup { name }, ActionOf::Lookup { name: wanted })
            },
            other => abandoned_by_host(&other, KeeperError::OpenStore),
        },
        StateOf::RemoveLookup { name } => match event {
            EventOf::Found { ciphertext: _ } => (
                StateOf::Confirmation { name },
                ActionOf::Ask { prompt: Prompt::Confirmation },
            ),
            EventOf::Missing | EventOf::Failed => abandoned(KeeperError::NameMissing),
            _ => abandoned(KeeperError::UnexpectedEvent),
        },
        StateOf::Confirmation { name } => match event {
            EventOf::Text { text } => if is_confirmation(text.as_str(), name.as_str()) {
                (StateOf::Deletion, ActionOf::Delete { name })
            } else {
                completed()
            },
            other => abandoned_by_host(&other, KeeperError::InvalidInput),
        },
        StateOf::Deletion => match event {
            EventOf::Done => (StateOf::DeletionFlush, ActionOf::Flush),
            other => abandoned_by_host(&other, KeeperError::DeleteEntry),
        },
        StateOf::DeletionFlush => match event {
            EventOf::Done => completed(),
            other => abandoned_by_host(&other, KeeperError::DeleteEntry),
        },
        _ => abandoned(KeeperError::UnexpectedEvent),
    }
}

fn step_list(state: State, event: Event) -> (r: (State, Action))
    ensures
        (r.0@, r.1@) == next_list(state@, event@),
{
    match state {
        StateOf::OpeningForList => match event {
            EventOf::Done => (StateOf::Listing, ActionOf::ListNames),
            other => abandoned_by_host(&other, KeeperError::OpenStore),
        },
        StateOf::Listing => match event {
            EventOf::Names { names } => (StateOf::NamesShown, ActionOf::Show { lines: names }),
            other => abandoned_by_host(&other, KeeperError::ListNames),
        },
        StateOf::NamesShown => match event {
            EventOf::Done => completed(),
            other => abandoned_by_host(&other, KeeperError::Output),
        },
        _ => abandoned(KeeperError::UnexpectedEvent),
    }
}

/// Takes one step: `event` answers the action that is pending in `state`.
pub fn step(state: State, event: Event) -> (r: (State, Action))
    ensures
        (r.0@, r.1@) == next(state@, event@),
{
    match state {
        StateOf::KeyPassphrase { .. }
        | StateOf::KeyGeneration { .. }
        | StateOf::PublicKeyWrite { .. }
        | StateOf::PrivateKeyWrite => step_gen_key(state, event),
        StateOf::OpeningForAdd { .. }
        | StateOf::SecretGeneration { .. }
        | StateOf::SecretEcho { .. }
        | StateOf::SecretFile { .. }
        | StateOf::AddLookup { .. } => step_add_check(state, event),
        StateOf::PublicKeyRead { .. }
        | StateOf::PublicKeyCheck { .. }
        | StateOf::SecretPrompt { .. }
        | StateOf::Encryption { .. }
        | StateOf::EntryWrite
        | StateOf::EntryFlush => step_add_store(state, event),
        StateOf::OpeningForFetch { .. }
        | StateOf::FetchLookup { .. }
        | StateOf::FetchPassphrase { .. }
        | StateOf::PrivateKeyRead { .. }
        | StateOf::Decryption { .. }
        | StateOf::ClipboardOpen { .. }
        | StateOf::Delivery { .. } => step_fetch(state, event),
        StateOf::OpeningForRemove { .. }
        | StateOf::RemoveLookup { .. }
        | StateOf::Confirmation { .. }
        | StateOf::Deletion
        | StateOf::DeletionFlush => step_remove(state, event),
        StateOf::OpeningForList | StateOf::Listing | StateOf::NamesShown => step_list(state, event),
        StateOf::Finished => abandoned(KeeperError::UnexpectedEvent),
    }
}

} // verus!
