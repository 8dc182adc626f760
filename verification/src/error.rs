//! The fatal conditions of the secret keeper and their diagnostics.
use vstd::prelude::*;
use vstd::string::*;

verus! {

/// A value that is taken from the configuration.
#[derive(Clone, Copy, Debug, PartialEq, Eq, Structural)]
pub enum Setting {
    /// Where the secret store lives.
    DataPath,
    /// Where the public key record lives.
    PublicKeyPath,
    /// Where the private key record lives.
    PrivateKeyPath,
}

impl Setting {
    /// The name under which the setting is looked up in the environment.
    pub open spec fn name_spec(self) -> Seq<char> {
        match self {
            Setting::DataPath => "PASSKEEPER_DATA_PATH"@,
            Setting::PublicKeyPath => "PASSKEEPER_PUBLIC_KEY_PATH"@,
            Setting::PrivateKeyPath => "PASSKEEPER_PRIVATE_KEY_PATH"@,
        }
    }

    /// The name under which the setting is looked up in the environment.
    pub fn name(&self) -> (s: &'static str)
        ensures
            s@ == self.name_spec(),
    {
        match self {
            Setting::DataPath => "PASSKEEPER_DATA_PATH",
            Setting::PublicKeyPath => "PASSKEEPER_PUBLIC_KEY_PATH",
            Setting::PrivateKeyPath => "PASSKEEPER_PRIVATE_KEY_PATH",
        }
    }
}

/// Why an operation was abandoned. Every one of these is fatal: the
/// operation stops, nothing further is asked of the host, and the store is
/// left as it was before the step that failed.
#[derive(Clone, Copy, Debug, PartialEq, Eq, Structural)]
pub enum KeeperError {
    /// A required setting is absent from the configuration.
    MissingSetting(Setting),
    /// The secret store could not be opened.
    OpenStore,
    /// The secret store could not be read when a name was to be added.
    ReadStore,
    /// A hidden prompt could not be read.
    ReadPassword,
    /// The random number generator could not be set up.
    InitGenerator,
    /// No private key could be generated.
    CreatePrivateKey,
    /// The public key could not be derived from the private key.
    CreatePublicKey,
    /// The public key could not be put into armored text.
    EncodePublicKey,
    /// The private key could not be put into passphrase-protected armored text.
    EncodePrivateKey,
    /// The public key record could not be written.
    WritePublicKey,
    /// The private key record could not be written.
    WritePrivateKey,
    /// No random bytes could be drawn.
    GenerateRandom,
    /// The random bytes could not be put into text.
    EncodeRandom,
    /// The file that holds the secret could not be read.
    ReadFile,
    /// The public key record could not be read.
    ReadPublicKey,
    /// The public key record is not a public key.
    LoadPublicKey,
    /// The store already holds an entry of that name.
    NameExists,
    /// The encryption could not be set up.
    InitEncryptor,
    /// The secret could not be encrypted.
    Encrypt,
    /// The entry could not be written or made durable.
    WriteEntry,
    /// The store holds no entry of that name.
    NameMissing,
    /// The confirmation could not be read.
    InvalidInput,
    /// The entry could not be deleted, or the deletion not made durable.
    DeleteEntry,
    /// The private key record could not be read.
    ReadPrivateKey,
    /// The private key record could not be opened with the passphrase.
    LoadPrivateKey,
    /// The decryption could not be set up.
    InitDecryptor,
    /// The stored ciphertext could not be decrypted.
    Decrypt,
    /// The clipboard could not be reached.
    InitClipboard,
    /// The clipboard did not take the secret.
    SetClipboard,
    /// The names could not be enumerated.
    ListNames,
    /// Standard output did not take what was to be shown.
    Output,
    /// The host answered an action with an event that cannot answer it.
    UnexpectedEvent,
}

impl KeeperError {
    /// The one-line diagnostic of the condition.
    pub open spec fn message_spec(self) -> Seq<char> {
        match self {
            KeeperError::MissingSetting(setting) => "unable to get "@ + setting.name_spec(),
            KeeperError::OpenStore => "unable to open data base"@,
            KeeperError::ReadStore => "unable to read data base"@,
            KeeperError::ReadPassword => "unable to read the password"@,
            KeeperError::InitGenerator => "unable to initialize generator"@,
            KeeperError::CreatePrivateKey => "unable to create private key"@,
            KeeperError::CreatePublicKey => "unable to create public key"@,
            KeeperError::EncodePublicKey => "unable to encode the public key"@,
            KeeperError::EncodePrivateKey => "unable to encode the private key"@,
            KeeperError::WritePublicKey => "unable to write the public key"@,
            KeeperError::WritePrivateKey => "unable to write the private key"@,
            KeeperError::GenerateRandom => "unable to generate random bits"@,
            KeeperError::EncodeRandom => "unable to encode random bits"@,
            KeeperError::ReadFile => "unable to read file"@,
            KeeperError::ReadPublicKey => "failed to read public key"@,
            KeeperError::LoadPublicKey => "unable to load public key"@,
            KeeperError::NameExists => "name already exists"@,
            KeeperError::InitEncryptor => "unable to init the encryptor"@,
            KeeperError::Encrypt => "unable to encrypted the password"@,
            KeeperError::WriteEntry => "unable to write the key"@,
            KeeperError::NameMissing => "name does not exist"@,
            KeeperError::InvalidInput => "invalid input"@,
            KeeperError::DeleteEntry => "unable to delete the password from datebase"@,
            KeeperError::ReadPrivateKey => "failed to read private key"@,
            KeeperError::LoadPrivateKey => "unable to load private key"@,
            KeeperError::InitDecryptor => "unable to initalize decrypter"@,
            KeeperError::Decrypt => "unable to decrypt the password"@,
            KeeperError::InitClipboard => "unable to initalize clipboard"@,
            KeeperError::SetClipboard => "unable to set clipboard"@,
            KeeperError::ListNames => "unable to list the names"@,
            KeeperError::Output => "unable to write to standard output"@,
            KeeperError::UnexpectedEvent => "unexpected event"@,
        }
    }

    /// The line that reports the condition on the error stream.
    pub open spec fn diagnostic_spec(self) -> Seq<char> {
        "[ERROR] "@ + self.message_spec()
    }

    /// The line that reports the condition on the error stream.
    pub fn diagnostic(&self) -> (s: String)
        ensures
            s@ == self.diagnostic_spec(),
    {
        let message = self.message();
        String::from_str("[ERROR] ").concat(message.as_str())
    }

    /// The one-line diagnostic of the condition.
    pub fn message(&self) -> (s: String)
        ensures
            s@ == self.message_spec(),
    {
        match self {
            KeeperError::MissingSetting(setting) => {
                let s = String::from_str("unable to get ");
                s.concat(setting.name())
            },
            KeeperError::OpenStore => String::from_str("unable to open data base"),
            KeeperError::ReadStore => String::from_str("unable to read data base"),
            KeeperError::ReadPassword => String::from_str("unable to read the password"),
            KeeperError::InitGenerator => String::from_str("unable to initialize generator"),
            KeeperError::CreatePrivateKey => String::from_str("unable to create private key"),
            KeeperError::CreatePublicKey => String::from_str("unable to create public key"),
            KeeperError::EncodePublicKey => String::from_str("unable to encode the public key"),
            KeeperError::EncodePrivateKey => String::from_str("unable to encode the private key"),
            KeeperError::WritePublicKey => String::from_str("unable to write the public key"),
            KeeperError::WritePrivateKey => String::from_str("unable to write the private key"),
            KeeperError::GenerateRandom => String::from_str("unable to generate random bits"),
            KeeperError::EncodeRandom => String::from_str("unable to encode random bits"),
            KeeperError::ReadFile => String::from_str("unable to read file"),
            KeeperError::ReadPublicKey => String::from_str("failed to read public key"),
            KeeperError::LoadPublicKey => String::from_str("unable to load public key"),
            KeeperError::NameExists => String::from_str("name already exists"),
            KeeperError::InitEncryptor => String::from_str("unable to init the encryptor"),
            KeeperError::Encrypt => String::from_str("unable to encrypted the password"),
            KeeperError::WriteEntry => String::from_str("unable to write the key"),
            KeeperError::NameMissing => String::from_str("name does not exist"),
            KeeperError::InvalidInput => String::from_str("invalid input"),
            KeeperError::DeleteEntry => String::from_str(
                "unable to delete the password from datebase",
            ),
            KeeperError::ReadPrivateKey => String::from_str("failed to read private key"),
            KeeperError::LoadPrivateKey => String::from_str("unable to load private key"),
            KeeperError::InitDecryptor => String::from_str("unable to initalize decrypter"),
            KeeperError::Decrypt => String::from_str("unable to decrypt the password"),
            KeeperError::InitClipboard => String::from_str("unable to initalize clipboard"),
            KeeperError::SetClipboard => String::from_str("unable to set clipboard"),
            KeeperError::ListNames => String::from_str("unable to list the names"),
            KeeperError::Output => String::from_str("unable to write to standard output"),
            KeeperError::UnexpectedEvent => String::from_str("unexpected event"),
        }
    }
}

} // verus!
