use passkeeper::error::{KeeperError, Setting};
use passkeeper::protocol::Prompt;

#[test]
fn settings_have_their_environment_names() {
    assert_eq!(Setting::DataPath.name(), "PASSKEEPER_DATA_PATH");
    assert_eq!(Setting::PublicKeyPath.name(), "PASSKEEPER_PUBLIC_KEY_PATH");
    assert_eq!(Setting::PrivateKeyPath.name(), "PASSKEEPER_PRIVATE_KEY_PATH");
}

#[test]
fn every_condition_has_its_diagnostic() {
    let cases = [
        (KeeperError::MissingSetting(Setting::DataPath), "unable to get PASSKEEPER_DATA_PATH"),
        (
            KeeperError::MissingSetting(Setting::PublicKeyPath),
            "unable to get PASSKEEPER_PUBLIC_KEY_PATH",
        ),
        (
            KeeperError::MissingSetting(Setting::PrivateKeyPath),
            "unable to get PASSKEEPER_PRIVATE_KEY_PATH",
        ),
        (KeeperError::OpenStore, "unable to open data base"),
        (KeeperError::ReadStore, "unable to read data base"),
        (KeeperError::ReadPassword, "unable to read the password"),
        (KeeperError::InitGenerator, "unable to initialize generator"),
        (KeeperError::CreatePrivateKey, "unable to create private key"),
        (KeeperError::CreatePublicKey, "unable to create public key"),
        (KeeperError::EncodePublicKey, "unable to encode the public key"),
        (KeeperError::EncodePrivateKey, "unable to encode the private key"),
        (KeeperError::WritePublicKey, "unable to write the public key"),
        (KeeperError::WritePrivateKey, "unable to write the private key"),
        (KeeperError::GenerateRandom, "unable to generate random bits"),
        (KeeperError::EncodeRandom, "unable to encode random bits"),
        (KeeperError::ReadFile, "unable to read file"),
        (KeeperError::ReadPublicKey, "failed to read public key"),
        (KeeperError::LoadPublicKey, "unable to load public key"),
        (KeeperError::NameExists, "name already exists"),
        (KeeperError::InitEncryptor, "unable to init the encryptor"),
        (KeeperError::Encrypt, "unable to encrypted the password"),
        (KeeperError::WriteEntry, "unable to write the key"),
        (KeeperError::NameMissing, "name does not exist"),
        (KeeperError::InvalidInput, "invalid input"),
        (KeeperError::DeleteEntry, "unable to delete the password from datebase"),
        (KeeperError::ReadPrivateKey, "failed to read private key"),
        (KeeperError::LoadPrivateKey, "unable to load private key"),
        (KeeperError::InitDecryptor, "unable to initalize decrypter"),
        (KeeperError::Decrypt, "unable to decrypt the password"),
        (KeeperError::InitClipboard, "unable to initalize clipboard"),
        (KeeperError::SetClipboard, "unable to set clipboard"),
        (KeeperError::ListNames, "unable to list the names"),
        (KeeperError::Output, "unable to write to standard output"),
        (KeeperError::UnexpectedEvent, "unexpected event"),
    ];
    for (error, message) in cases {
        assert_eq!(error.message(), message);
    }
}

#[test]
fn prompts_have_their_words() {
    assert_eq!(Prompt::KeyPassphrase.text(), "password for the private key: ");
    assert_eq!(Prompt::Secret.text(), "input the password: ");
    assert_eq!(Prompt::Confirmation.text(), "re-type the name to confirm the deletion: ");
    assert!(Prompt::KeyPassphrase.is_hidden());
    assert!(Prompt::Secret.is_hidden());
    assert!(!Prompt::Confirmation.is_hidden());
}
