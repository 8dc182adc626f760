//! What passes between the secret keeper and its host.
//!
//! The keeper asks for one [`Action`] at a time; the host carries it out and
//! answers with one [`Event`]. Each type is written once, over the kinds of
//! text and bytes it holds: the executable form holds `String` and `Vec<u8>`,
//! its view holds `Seq<char>` and `Seq<u8>`.
use vstd::prelude::*;
use crate::error::KeeperError;

verus! {

/// What the user is asked to type.
#[derive(Clone, Copy, Debug, PartialEq, Eq, Structural)]
pub enum Prompt {
    /// The passphrase that protects the private key.
    KeyPassphrase,
    /// The secret to be stored.
    Secret,
    /// The name of the entry, typed again to confirm its deletion.
    Confirmation,
}

impl Prompt {
    /// The words shown to the user.
    pub open spec fn text_spec(self) -> Seq<char> {
        match self {
            Prompt::KeyPassphrase => "password for the private key: "@,
            Prompt::Secret => "input the password: "@,
            Prompt::Confirmation => "re-type the name to confirm the deletion: "@,
        }
    }

    /// Whether what is typed must not be echoed.
    pub open spec fn is_hidden_spec(self) -> bool {
        self != Prompt::Confirmation
    }

    /// The words shown to the user.
    pub fn text(&self) -> (s: &'static str)
        ensures
            s@ == self.text_spec(),
    {
        match self {
            Prompt::KeyPassphrase => "password for the private key: ",
            Prompt::Secret => "input the password: ",
            Prompt::Confirmation => "re-type the name to confirm the deletion: ",
        }
    }

    /// Whether what is typed must not be echoed.
    pub fn is_hidden(&self) -> (b: bool)
        ensures
            b == self.is_hidden_spec(),
    {
        match self {
            Prompt::Confirmation => false,
            _ => true,
        }
    }
}

/// Where a fetched secret goes.
#[derive(Clone, Copy, Debug, PartialEq, Eq, Structural)]
pub enum Destination {
    /// Standard output.
    Stdout,
    /// The clipboard of the operating environment, and nowhere else.
    Clipboard,
}

/// Where the plaintext of a new secret comes from.
#[derive(Clone, Debug, PartialEq, Eq)]
pub enum SourceOf<T> {
    /// It is typed at a hidden prompt.
    Prompt,
    /// It is freshly generated, and shown once before it is stored.
    Generated,
    /// It is the whole content of a file.
    File { path: T },
}

/// One operation of the secret keeper.
#[derive(Clone, Debug, PartialEq, Eq)]
pub enum CommandOf<T> {
    /// Make a key pair and write its two records into `directory`.
    GenKey { directory: T },
    /// Store a new secret under `name`.
    Add { name: T, source: SourceOf<T> },
    /// Read the secret stored under `name`.
    Fetch { name: T, destination: Destination },
    /// Delete the secret stored under `name`, once the user has confirmed.
    Remove { name: T },
    /// Show the names of all secrets.
    List,
}

/// The settings an operation may need. One that is absent is only missed
/// when an operation comes to need it.
#[derive(Clone, Debug, PartialEq, Eq)]
pub struct ConfigOf<T> {
    /// The directory of the secret store.
    pub data_path: Option<T>,
    /// The file of the public key record.
    pub public_key_path: Option<T>,
    /// The file of the private key record.
    pub private_key_path: Option<T>,
}

/// What the keeper wants done next.
#[derive(Clone, Debug, PartialEq, Eq)]
#[allow(inconsistent_fields)]
pub enum ActionOf<T, B, L> {
    /// Show the prompt and read what the user types; answered by `Text`.
    Ask { prompt: Prompt },
    /// Read a whole file as text; answered by `Text`.
    ReadFile { path: T },
    /// Write a whole file; answered by `Done`.
    WriteFile { path: T, contents: T },
    /// Open the secret store; answered by `Done`.
    OpenStore { path: T },
    /// Look an entry up; answered by `Found` or `Missing`.
    Lookup { name: T },
    /// Write an entry; answered by `Done`.
    Put { name: T, ciphertext: B },
    /// Delete an entry; answered by `Done`.
    Delete { name: T },
    /// Make what was written durable; answered by `Done`.
    Flush,
    /// Enumerate the names of all entries; answered by `Names`.
    ListNames,
    /// Print each line to standard output; answered by `Done`.
    Show { lines: L },
    /// Reach the clipboard; answered by `Done`.
    OpenClipboard,
    /// Hand the plaintext to its destination; answered by `Done`.
    Deliver { destination: Destination, plaintext: B },
    /// Make a key pair; answered by `KeyPair`.
    GenerateKeyPair { passphrase: T },
    /// Make a fresh secret; answered by `Text`.
    GenerateSecret,
    /// See whether the text is a public key; answered by `Done`.
    CheckPublicKey { pem: T },
    /// Encrypt under the public key; answered by `Bytes`.
    Encrypt { pem: T, plaintext: T },
    /// Decrypt with the private key; answered by `Bytes`.
    Decrypt { pem: T, passphrase: T, ciphertext: B },
    /// The operation is complete.
    Finish,
    /// The operation is abandoned.
    Fail { error: KeeperError },
}

/// What came of an action.
#[derive(Clone, Debug, PartialEq, Eq)]
pub enum EventOf<T, B, L> {
    /// The action was carried out.
    Done,
    /// The host could not carry the action out.
    Failed,
    /// The text that was typed, read or generated.
    Text { text: T },
    /// The bytes that were computed.
    Bytes { bytes: B },
    /// The two records of a new key pair.
    KeyPair { public_pem: T, private_pem: T },
    /// The entry exists, with this ciphertext.
    Found { ciphertext: B },
    /// No entry of that name exists.
    Missing,
    /// The names of all entries.
    Names { names: L },
    /// The cryptography failed, for this reason.
    Refused { error: KeeperError },
}

/// A source of plaintext, as the host writes it.
pub type Source = SourceOf<String>;

/// An operation, as the host writes it.
pub type Command = CommandOf<String>;

/// The settings, as the host writes them.
pub type Config = ConfigOf<String>;

/// An action, as the host reads it.
pub type Action = ActionOf<String, Vec<u8>, Vec<String>>;

/// An event, as the host writes it.
pub type Event = EventOf<String, Vec<u8>, Vec<String>>;

/// The view of a source of plaintext.
pub type SourceView = SourceOf<Seq<char>>;

/// The view of an operation.
pub type CommandView = CommandOf<Seq<char>>;

/// The view of the settings.
pub type ConfigView = ConfigOf<Seq<char>>;

/// The view of an action.
pub type ActionView = ActionOf<Seq<char>, Seq<u8>, Seq<Seq<char>>>;

/// The view of an event.
pub type EventView = EventOf<Seq<char>, Seq<u8>, Seq<Seq<char>>>;

/// The view of a text that may be absent.
pub open spec fn text_view(text: Option<String>) -> Option<Seq<char>> {
    match text {
        Some(t) => Some(t@),
        None => None,
    }
}

/// The view of a list of texts.
pub open spec fn lines_view(lines: Vec<String>) -> Seq<Seq<char>> {
    lines@.map_values(|line: String| line@)
}

impl View for SourceOf<String> {
    type V = SourceView;

    open spec fn view(&self) -> SourceView {
        match *self {
            SourceOf::Prompt => SourceOf::Prompt,
            SourceOf::Generated => SourceOf::Generated,
            SourceOf::File { path } => SourceOf::File { path: path@ },
        }
    }
}

impl View for CommandOf<String> {
    type V = CommandView;

    open spec fn view(&self) -> CommandView {
        match *self {
            CommandOf::GenKey { directory } => CommandOf::GenKey { directory: directory@ },
            CommandOf::Add { name, source } => CommandOf::Add { name: name@, source: source@ },
            CommandOf::Fetch { name, destination } => CommandOf::Fetch { name: name@, destination },
            CommandOf::Remove { name } => CommandOf::Remove { name: name@ },
            CommandOf::List => CommandOf::List,
        }
    }
}

impl View for ConfigOf<String> {
    type V = ConfigView;

    open spec fn view(&self) -> ConfigView {
        ConfigOf {
            data_path: text_view(self.data_path),
            public_key_path: text_view(self.public_key_path),
            private_key_path: text_view(self.private_key_path),
        }
    }
}

impl View for ActionOf<String, Vec<u8>, Vec<String>> {
    type V = ActionView;

    open spec fn view(&self) -> ActionView {
        match *self {
            ActionOf::Ask { prompt } => ActionOf::Ask { prompt },
            ActionOf::ReadFile { path } => ActionOf::ReadFile { path: path@ },
            ActionOf::WriteFile { path, contents } => ActionOf::WriteFile {
                path: path@,
                contents: contents@,
            },
            ActionOf::OpenStore { path } => ActionOf::OpenStore { path: path@ },
            ActionOf::Lookup { name } => ActionOf::Lookup { name: name@ },
            ActionOf::Put { name, ciphertext } => ActionOf::Put {
                name: name@,
                ciphertext: ciphertext@,
            },
            ActionOf::Delete { name } => ActionOf::Delete { name: name@ },
            ActionOf::Flush => ActionOf::Flush,
            ActionOf::ListNames => ActionOf::ListNames,
            ActionOf::Show { lines } => ActionOf::Show { lines: lines_view(lines) },
            ActionOf::OpenClipboard => ActionOf::OpenClipboard,
            ActionOf::Deliver { destination, plaintext } => ActionOf::Deliver {
                destination,
                plaintext: plaintext@,
            },
            ActionOf::GenerateKeyPair { passphrase } => ActionOf::GenerateKeyPair {
                passphrase: passphrase@,
            },
            ActionOf::GenerateSecret => ActionOf::GenerateSecret,
            ActionOf::CheckPublicKey { pem } => ActionOf::CheckPublicKey { pem: pem@ },
            ActionOf::Encrypt { pem, plaintext } => ActionOf::Encrypt {
                pem: pem@,
                plaintext: plaintext@,
            },
            ActionOf::Decrypt { pem, passphrase, ciphertext } => ActionOf::Decrypt {
                pem: pem@,
                passphrase: passphrase@,
                ciphertext: ciphertext@,
            },
            ActionOf::Finish => ActionOf::Finish,
            ActionOf::Fail { error } => ActionOf::Fail { error },
        }
    }
}

impl View for EventOf<String, Vec<u8>, Vec<String>> {
    type V = EventView;

    open spec fn view(&self) -> EventView {
        match *self {
            EventOf::Done => EventOf::Done,
            EventOf::Failed => EventOf::Failed,
            EventOf::Text { text } => EventOf::Text { text: text@ },
            EventOf::Bytes { bytes } => EventOf::Bytes { bytes: bytes@ },
            EventOf::KeyPair { public_pem, private_pem } => EventOf::KeyPair {
                public_pem: public_pem@,
                private_pem: private_pem@,
            },
            EventOf::Found { ciphertext } => EventOf::Found { ciphertext: ciphertext@ },
            EventOf::Missing => EventOf::Missing,
            EventOf::Names { names } => EventOf::Names { names: lines_view(names) },
            EventOf::Refused { error } => EventOf::Refused { error },
        }
    }
}

impl<T, B, L> ActionOf<T, B, L> {
    /// Whether the action ends the operation.
    pub open spec fn is_terminal(self) -> bool {
        self is Finish || self is Fail
    }

    /// Whether the action is cryptography, which the keeper does itself.
    pub open spec fn is_crypto(self) -> bool {
        ||| self is GenerateKeyPair
        ||| self is GenerateSecret
        ||| self is CheckPublicKey
        ||| self is Encrypt
        ||| self is Decrypt
    }

    /// Whether the action reads or changes the secret store.
    pub open spec fn is_store(self) -> bool {
        ||| self is Lookup
        ||| self is Put
        ||| self is Delete
        ||| self is Flush
        ||| self is ListNames
    }
}

} // verus!
