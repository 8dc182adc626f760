use passkeeper::error::{KeeperError, Setting};
use passkeeper::machine::{start, step, State, StateOf};
use passkeeper::protocol::{
    Action, ActionOf, Command, CommandOf, Config, ConfigOf, Destination, Event, EventOf, Prompt,
    SourceOf,
};

fn config() -> Config {
    ConfigOf {
        data_path: Some(String::from("/var/lib/keeper")),
        public_key_path: Some(String::from("/tmp/keys/keeper_pub.pem")),
        private_key_path: Some(String::from("/tmp/keys/keeper_pri.pem")),
    }
}

fn text(s: &str) -> Event {
    EventOf::Text { text: String::from(s) }
}

fn bytes(b: &[u8]) -> Event {
    EventOf::Bytes { bytes: b.to_vec() }
}

fn run(first: (State, Action), events: Vec<Event>) -> (State, Vec<Action>) {
    let (mut state, action) = first;
    let mut actions = vec![action];
    for event in events {
        let (s, a) = step(state, event);
        state = s;
        actions.push(a);
    }
    (state, actions)
}

fn add(name: &str, source: SourceOf<String>) -> Command {
    CommandOf::Add { name: String::from(name), source }
}

fn fetch(name: &str, destination: Destination) -> Command {
    CommandOf::Fetch { name: String::from(name), destination }
}

#[test]
fn gen_key_writes_both_records() {
    let command = CommandOf::GenKey { directory: String::from("/tmp/keys") };
    let events = vec![
        text("hunter2"),
        EventOf::KeyPair { public_pem: String::from("PUBLIC"), private_pem: String::from("PRIVATE") },
        EventOf::Done,
        EventOf::Done,
    ];
    let (state, actions) = run(start(config(), command), events);
    assert_eq!(state, StateOf::Finished);
    assert_eq!(
        actions,
        vec![
            ActionOf::Ask { prompt: Prompt::KeyPassphrase },
            ActionOf::GenerateKeyPair { passphrase: String::from("hunter2") },
            ActionOf::WriteFile {
                path: String::from("/tmp/keys/keeper_pub.pem"),
                contents: String::from("PUBLIC"),
            },
            ActionOf::WriteFile {
                path: String::from("/tmp/keys/keeper_pri.pem"),
                contents: String::from("PRIVATE"),
            },
            ActionOf::Finish,
        ]
    );
}

#[test]
fn gen_key_needs_no_configuration() {
    let empty = ConfigOf { data_path: None, public_key_path: None, private_key_path: None };
    let command = CommandOf::GenKey { directory: String::from("keys") };
    let (_, action) = start(empty, command);
    assert_eq!(action, ActionOf::Ask { prompt: Prompt::KeyPassphrase });
}

#[test]
fn gen_key_reports_the_record_that_was_not_written() {
    let command = CommandOf::GenKey { directory: String::from("d") };
    let pair = EventOf::KeyPair { public_pem: String::from("A"), private_pem: String::from("B") };
    let (_, actions) =
        run(start(config(), command.clone()), vec![text("p"), pair.clone(), EventOf::Failed]);
    assert_eq!(actions.last(), Some(&ActionOf::Fail { error: KeeperError::WritePublicKey }));
    let (_, actions) =
        run(start(config(), command), vec![text("p"), pair, EventOf::Done, EventOf::Failed]);
    assert_eq!(actions.last(), Some(&ActionOf::Fail { error: KeeperError::WritePrivateKey }));
}

#[test]
fn gen_key_reports_what_cryptography_refused() {
    let command = CommandOf::GenKey { directory: String::from("d") };
    let refused = EventOf::Refused { error: KeeperError::CreatePrivateKey };
    let (_, actions) = run(start(config(), command), vec![text("p"), refused]);
    assert_eq!(actions.last(), Some(&ActionOf::Fail { error: KeeperError::CreatePrivateKey }));
}

#[test]
fn add_typed_secret_stores_its_encryption() {
    let events = vec![
        EventOf::Done,
        EventOf::Missing,
        text("PUBLIC"),
        EventOf::Done,
        text("s3cr3t"),
        bytes(&[7, 8, 9]),
        EventOf::Done,
        EventOf::Done,
    ];
    let (state, actions) = run(start(config(), add("github", SourceOf::Prompt)), events);
    assert_eq!(state, StateOf::Finished);
    assert_eq!(
        actions,
        vec![
            ActionOf::OpenStore { path: String::from("/var/lib/keeper") },
            ActionOf::Lookup { name: String::from("github") },
            ActionOf::ReadFile { path: String::from("/tmp/keys/keeper_pub.pem") },
            ActionOf::CheckPublicKey { pem: String::from("PUBLIC") },
            ActionOf::Ask { prompt: Prompt::Secret },
            ActionOf::Encrypt { pem: String::from("PUBLIC"), plaintext: String::from("s3cr3t") },
            ActionOf::Put { name: String::from("github"), ciphertext: vec![7, 8, 9] },
            ActionOf::Flush,
            ActionOf::Finish,
        ]
    );
}

#[test]
fn add_generated_secret_shows_it_then_stores_it() {
    let secret = "q83vEjRWeJASNFZ4mrze8A==";
    let events = vec![
        EventOf::Done,
        text(secret),
        EventOf::Done,
        EventOf::Missing,
        text("PUBLIC"),
        EventOf::Done,
        bytes(&[1]),
        EventOf::Done,
        EventOf::Done,
    ];
    let (_, actions) = run(start(config(), add("x", SourceOf::Generated)), events);
    assert_eq!(
        actions,
        vec![
            ActionOf::OpenStore { path: String::from("/var/lib/keeper") },
            ActionOf::GenerateSecret,
            ActionOf::Show { lines: vec![String::from(secret)] },
            ActionOf::Lookup { name: String::from("x") },
            ActionOf::ReadFile { path: String::from("/tmp/keys/keeper_pub.pem") },
            ActionOf::CheckPublicKey { pem: String::from("PUBLIC") },
            ActionOf::Encrypt { pem: String::from("PUBLIC"), plaintext: String::from(secret) },
            ActionOf::Put { name: String::from("x"), ciphertext: vec![1] },
            ActionOf::Flush,
            ActionOf::Finish,
        ]
    );
}

#[test]
fn add_from_file_takes_the_whole_content() {
    let source = SourceOf::File { path: String::from("/tmp/secret.txt") };
    let events = vec![
        EventOf::Done,
        text("line one\nline two\n"),
        EventOf::Missing,
        text("PUBLIC"),
        EventOf::Done,
    ];
    let (_, actions) = run(start(config(), add("notes", source)), events);
    assert_eq!(actions[1], ActionOf::ReadFile { path: String::from("/tmp/secret.txt") });
    assert_eq!(
        actions.last(),
        Some(&ActionOf::Encrypt {
            pem: String::from("PUBLIC"),
            plaintext: String::from("line one\nline two\n"),
        })
    );
}

#[test]
fn add_of_taken_name_fails_before_anything_is_asked() {
    let events = vec![EventOf::Done, EventOf::Found { ciphertext: vec![1, 2, 3] }];
    let (state, actions) = run(start(config(), add("github", SourceOf::Prompt)), events);
    assert_eq!(state, StateOf::Finished);
    assert_eq!(
        actions,
        vec![
            ActionOf::OpenStore { path: String::from("/var/lib/keeper") },
            ActionOf::Lookup { name: String::from("github") },
            ActionOf::Fail { error: KeeperError::NameExists },
        ]
    );
}

#[test]
fn add_reports_each_failure() {
    let cases: Vec<(Vec<Event>, KeeperError)> = vec![
        (vec![EventOf::Failed], KeeperError::OpenStore),
        (vec![EventOf::Done, EventOf::Missing, EventOf::Failed], KeeperError::ReadPublicKey),
        (
            vec![
                EventOf::Done,
                EventOf::Missing,
                text("junk"),
                EventOf::Refused { error: KeeperError::LoadPublicKey },
            ],
            KeeperError::LoadPublicKey,
        ),
        (
            vec![EventOf::Done, EventOf::Missing, text("K"), EventOf::Done, EventOf::Failed],
            KeeperError::ReadPassword,
        ),
        (
            vec![
                EventOf::Done,
                EventOf::Missing,
                text("K"),
                EventOf::Done,
                text("s"),
                EventOf::Refused { error: KeeperError::Encrypt },
            ],
            KeeperError::Encrypt,
        ),
        (
            vec![
                EventOf::Done,
                EventOf::Missing,
                text("K"),
                EventOf::Done,
                text("s"),
                bytes(&[1]),
                EventOf::Failed,
            ],
            KeeperError::WriteEntry,
        ),
        (
            vec![
                EventOf::Done,
                EventOf::Missing,
                text("K"),
                EventOf::Done,
                text("s"),
                bytes(&[1]),
                EventOf::Done,
                EventOf::Failed,
            ],
            KeeperError::WriteEntry,
        ),
    ];
    for (events, error) in cases {
        let (state, actions) = run(start(config(), add("n", SourceOf::Prompt)), events);
        assert_eq!(state, StateOf::Finished);
        assert_eq!(actions.last(), Some(&ActionOf::Fail { error }));
    }
}

#[test]
fn add_from_sources_reports_their_failures() {
    let file = SourceOf::File { path: String::from("f") };
    let (_, actions) = run(start(config(), add("n", file)), vec![EventOf::Done, EventOf::Failed]);
    assert_eq!(actions.last(), Some(&ActionOf::Fail { error: KeeperError::ReadFile }));
    let refused = EventOf::Refused { error: KeeperError::GenerateRandom };
    let (_, actions) =
        run(start(config(), add("n", SourceOf::Generated)), vec![EventOf::Done, refused]);
    assert_eq!(actions.last(), Some(&ActionOf::Fail { error: KeeperError::GenerateRandom }));
    let (_, actions) = run(
        start(config(), add("n", SourceOf::Generated)),
        vec![EventOf::Done, text("c2VjcmV0"), EventOf::Failed],
    );
    assert_eq!(actions.last(), Some(&ActionOf::Fail { error: KeeperError::Output }));
}

#[test]
fn fetch_to_stdout_delivers_the_decryption() {
    let events = vec![
        EventOf::Done,
        EventOf::Found { ciphertext: vec![7, 8, 9] },
        text("hunter2"),
        text("PRIVATE"),
        bytes(b"s3cr3t"),
        EventOf::Done,
    ];
    let (state, actions) = run(start(config(), fetch("github", Destination::Stdout)), events);
    assert_eq!(state, StateOf::Finished);
    assert_eq!(
        actions,
        vec![
            ActionOf::OpenStore { path: String::from("/var/lib/keeper") },
            ActionOf::Lookup { name: String::from("github") },
            ActionOf::Ask { prompt: Prompt::KeyPassphrase },
            ActionOf::ReadFile { path: String::from("/tmp/keys/keeper_pri.pem") },
            ActionOf::Decrypt {
                pem: String::from("PRIVATE"),
                passphrase: String::from("hunter2"),
                ciphertext: vec![7, 8, 9],
            },
            ActionOf::Deliver { destination: Destination::Stdout, plaintext: b"s3cr3t".to_vec() },
            ActionOf::Finish,
        ]
    );
}

#[test]
fn fetch_to_clipboard_reaches_the_clipboard_first() {
    let events = vec![
        EventOf::Done,
        EventOf::Found { ciphertext: vec![7] },
        text("hunter2"),
        text("PRIVATE"),
        bytes(b"s3cr3t"),
        EventOf::Done,
        EventOf::Done,
    ];
    let (_, actions) = run(start(config(), fetch("github", Destination::Clipboard)), events);
    assert_eq!(actions[5], ActionOf::OpenClipboard);
    assert_eq!(
        actions[6],
        ActionOf::Deliver { destination: Destination::Clipboard, plaintext: b"s3cr3t".to_vec() }
    );
    assert_eq!(actions[7], ActionOf::Finish);
}

#[test]
fn fetch_with_wrong_passphrase_delivers_nothing() {
    let events = vec![
        EventOf::Done,
        EventOf::Found { ciphertext: vec![7, 8, 9] },
        text("wrong"),
        text("PRIVATE"),
        EventOf::Refused { error: KeeperError::LoadPrivateKey },
    ];
    let (state, actions) = run(start(config(), fetch("github", Destination::Stdout)), events);
    assert_eq!(state, StateOf::Finished);
    assert_eq!(actions.last(), Some(&ActionOf::Fail { error: KeeperError::LoadPrivateKey }));
    assert!(!actions.iter().any(|a| matches!(a, ActionOf::Deliver { .. })));
}

#[test]
fn fetch_with_mismatched_key_is_a_decryption_error() {
    let events = vec![
        EventOf::Done,
        EventOf::Found { ciphertext: vec![7, 8, 9] },
        text("hunter2"),
        text("OTHER PRIVATE"),
        EventOf::Refused { error: KeeperError::Decrypt },
    ];
    let (_, actions) = run(start(config(), fetch("github", Destination::Clipboard)), events);
    assert_eq!(actions.last(), Some(&ActionOf::Fail { error: KeeperError::Decrypt }));
    assert!(!actions.iter().any(|a| matches!(a, ActionOf::Deliver { .. } | ActionOf::OpenClipboard)));
}

#[test]
fn fetch_of_absent_name_asks_for_nothing() {
    for answer in [EventOf::Missing, EventOf::Failed] {
        let events = vec![EventOf::Done, answer];
        let (state, actions) = run(start(config(), fetch("nobody", Destination::Stdout)), events);
        assert_eq!(state, StateOf::Finished);
        assert_eq!(
            actions,
            vec![
                ActionOf::OpenStore { path: String::from("/var/lib/keeper") },
                ActionOf::Lookup { name: String::from("nobody") },
                ActionOf::Fail { error: KeeperError::NameMissing },
            ]
        );
    }
}

#[test]
fn fetch_reports_each_failure() {
    let found = EventOf::Found { ciphertext: vec![1] };
    let cases: Vec<(Destination, Vec<Event>, KeeperError)> = vec![
        (Destination::Stdout, vec![EventOf::Failed], KeeperError::OpenStore),
        (
            Destination::Stdout,
            vec![EventOf::Done, found.clone(), EventOf::Failed],
            KeeperError::ReadPassword,
        ),
        (
            Destination::Stdout,
            vec![EventOf::Done, found.clone(), text("p"), EventOf::Failed],
            KeeperError::ReadPrivateKey,
        ),
        (
            Destination::Clipboard,
            vec![EventOf::Done, found.clone(), text("p"), text("K"), bytes(b"s"), EventOf::Failed],
            KeeperError::InitClipboard,
        ),
        (
            Destination::Clipboard,
            vec![
                EventOf::Done,
                found.clone(),
                text("p"),
                text("K"),
                bytes(b"s"),
                EventOf::Done,
                EventOf::Failed,
            ],
            KeeperError::SetClipboard,
        ),
        (
            Destination::Stdout,
            vec![EventOf::Done, found, text("p"), text("K"), bytes(b"s"), EventOf::Failed],
            KeeperError::Output,
        ),
    ];
    for (destination, events, error) in cases {
        let (_, actions) = run(start(config(), fetch("n", destination)), events);
        assert_eq!(actions.last(), Some(&ActionOf::Fail { error }));
    }
}

#[test]
fn remove_confirmed_deletes_and_flushes() {
    let command = CommandOf::Remove { name: String::from("github") };
    let events = vec![
        EventOf::Done,
        EventOf::Found { ciphertext: vec![1] },
        text("  github\n"),
        EventOf::Done,
        EventOf::Done,
    ];
    let (state, actions) = run(start(config(), command), events);
    assert_eq!(state, StateOf::Finished);
    assert_eq!(
        actions,
        vec![
            ActionOf::OpenStore { path: String::from("/var/lib/keeper") },
            ActionOf::Lookup { name: String::from("github") },
            ActionOf::Ask { prompt: Prompt::Confirmation },
            ActionOf::Delete { name: String::from("github") },
            ActionOf::Flush,
            ActionOf::Finish,
        ]
    );
}

#[test]
fn remove_unconfirmed_is_a_silent_no_op() {
    for typed in ["githob\n", "", "GitHub", "git hub", "github x"] {
        let command = CommandOf::Remove { name: String::from("github") };
        let events = vec![EventOf::Done, EventOf::Found { ciphertext: vec![1] }, text(typed)];
        let (state, actions) = run(start(config(), command), events);
        assert_eq!(state, StateOf::Finished);
        assert_eq!(actions.last(), Some(&ActionOf::Finish));
        assert!(!actions.iter().any(|a| matches!(a, ActionOf::Delete { .. })));
    }
}

#[test]
fn remove_of_absent_name_issues_no_prompt() {
    let command = CommandOf::Remove { name: String::from("nobody") };
    let (_, actions) = run(start(config(), command), vec![EventOf::Done, EventOf::Missing]);
    assert_eq!(actions.last(), Some(&ActionOf::Fail { error: KeeperError::NameMissing }));
    assert!(!actions.iter().any(|a| matches!(a, ActionOf::Ask { .. })));
}

#[test]
fn remove_reports_each_failure() {
    let found = EventOf::Found { ciphertext: vec![1] };
    let cases: Vec<(Vec<Event>, KeeperError)> = vec![
        (vec![EventOf::Failed], KeeperError::OpenStore),
        (vec![EventOf::Done, found.clone(), EventOf::Failed], KeeperError::InvalidInput),
        (vec![EventOf::Done, found.clone(), text("n"), EventOf::Failed], KeeperError::DeleteEntry),
        (
            vec![EventOf::Done, found, text("n"), EventOf::Done, EventOf::Failed],
            KeeperError::DeleteEntry,
        ),
    ];
    for (events, error) in cases {
        let command = CommandOf::Remove { name: String::from("n") };
        let (_, actions) = run(start(config(), command), events);
        assert_eq!(actions.last(), Some(&ActionOf::Fail { error }));
    }
}

#[test]
fn list_shows_the_names_in_store_order() {
    let names = vec![String::from("github"), String::from("bank"), String::from("x")];
    let events = vec![EventOf::Done, EventOf::Names { names: names.clone() }, EventOf::Done];
    let (state, actions) = run(start(config(), CommandOf::List), events);
    assert_eq!(state, StateOf::Finished);
    assert_eq!(
        actions,
        vec![
            ActionOf::OpenStore { path: String::from("/var/lib/keeper") },
            ActionOf::ListNames,
            ActionOf::Show { lines: names },
            ActionOf::Finish,
        ]
    );
}

#[test]
fn list_reports_each_failure() {
    let (_, actions) = run(start(config(), CommandOf::List), vec![EventOf::Done, EventOf::Failed]);
    assert_eq!(actions.last(), Some(&ActionOf::Fail { error: KeeperError::ListNames }));
    let names = EventOf::Names { names: vec![] };
    let (_, actions) =
        run(start(config(), CommandOf::List), vec![EventOf::Done, names, EventOf::Failed]);
    assert_eq!(actions.last(), Some(&ActionOf::Fail { error: KeeperError::Output }));
}

#[test]
fn missing_settings_are_fatal_when_needed() {
    let none = ConfigOf { data_path: None, public_key_path: None, private_key_path: None };
    for command in [
        add("n", SourceOf::Prompt),
        fetch("n", Destination::Stdout),
        CommandOf::Remove { name: String::from("n") },
        CommandOf::List,
    ] {
        let (state, action) = start(none.clone(), command);
        assert_eq!(state, StateOf::Finished);
        assert_eq!(
            action,
            ActionOf::Fail { error: KeeperError::MissingSetting(Setting::DataPath) }
        );
    }
    let data_only = ConfigOf {
        data_path: Some(String::from("d")),
        public_key_path: None,
        private_key_path: None,
    };
    let (_, actions) = run(
        start(data_only.clone(), add("n", SourceOf::Prompt)),
        vec![EventOf::Done, EventOf::Missing],
    );
    assert_eq!(
        actions.last(),
        Some(&ActionOf::Fail { error: KeeperError::MissingSetting(Setting::PublicKeyPath) })
    );
    let (_, actions) = run(
        start(data_only, fetch("n", Destination::Stdout)),
        vec![EventOf::Done, EventOf::Found { ciphertext: vec![1] }, text("p")],
    );
    assert_eq!(
        actions.last(),
        Some(&ActionOf::Fail { error: KeeperError::MissingSetting(Setting::PrivateKeyPath) })
    );
}

#[test]
fn unexpected_events_end_the_operation() {
    let (state, action) = start(config(), CommandOf::List);
    let (state, action2) = step(state, text("what"));
    assert_eq!(action, ActionOf::OpenStore { path: String::from("/var/lib/keeper") });
    assert_eq!(state, StateOf::Finished);
    assert_eq!(action2, ActionOf::Fail { error: KeeperError::UnexpectedEvent });
    let (state, action3) = step(state, EventOf::Done);
    assert_eq!(state, StateOf::Finished);
    assert_eq!(action3, ActionOf::Fail { error: KeeperError::UnexpectedEvent });
}

#[test]
fn round_trip_against_a_store_in_memory() {
    let mut store: Vec<(String, Vec<u8>)> = Vec::new();
    let lookup = |store: &Vec<(String, Vec<u8>)>, name: &str| -> Event {
        match store.iter().find(|(n, _)| n == name) {
            Some((_, c)) => EventOf::Found { ciphertext: c.clone() },
            None => EventOf::Missing,
        }
    };
    let (mut state, mut action) = start(config(), add("github", SourceOf::Prompt));
    loop {
        let event = match &action {
            ActionOf::OpenStore { .. } | ActionOf::Flush | ActionOf::CheckPublicKey { .. } => {
                EventOf::Done
            }
            ActionOf::Lookup { name } => lookup(&store, name),
            ActionOf::ReadFile { .. } => text("PUBLIC"),
            ActionOf::Ask { .. } => text("s3cr3t"),
            ActionOf::Encrypt { plaintext, .. } => {
                EventOf::Bytes { bytes: plaintext.bytes().rev().collect() }
            }
            ActionOf::Put { name, ciphertext } => {
                store.push((name.clone(), ciphertext.clone()));
                EventOf::Done
            }
            _ => break,
        };
        let next = step(state, event);
        state = next.0;
        action = next.1;
    }
    assert_eq!(action, ActionOf::Finish);
    assert_eq!(store, vec![(String::from("github"), b"t3rc3s".to_vec())]);
    let (mut state, mut action) = start(config(), fetch("github", Destination::Stdout));
    let mut delivered: Vec<Vec<u8>> = Vec::new();
    loop {
        let event = match &action {
            ActionOf::OpenStore { .. } => EventOf::Done,
            ActionOf::Lookup { name } => lookup(&store, name),
            ActionOf::ReadFile { .. } => text("PRIVATE"),
            ActionOf::Ask { .. } => text("hunter2"),
            ActionOf::Decrypt { ciphertext, .. } => {
                EventOf::Bytes { bytes: ciphertext.iter().rev().cloned().collect() }
            }
            ActionOf::Deliver { plaintext, .. } => {
                delivered.push(plaintext.clone());
                EventOf::Done
            }
            _ => break,
        };
        let next = step(state, event);
        state = next.0;
        action = next.1;
    }
    assert_eq!(action, ActionOf::Finish);
    assert_eq!(delivered, vec![b"s3cr3t".to_vec()]);
    let (state, _) = start(config(), add("github", SourceOf::Prompt));
    let (state, _) = step(state, EventOf::Done);
    let (_, action) = step(state, lookup(&store, "github"));
    assert_eq!(action, ActionOf::Fail { error: KeeperError::NameExists });
    assert_eq!(store, vec![(String::from("github"), b"t3rc3s".to_vec())]);
}

#[test]
fn list_after_adds_and_removes_shows_what_is_left() {
    let mut store: Vec<(String, Vec<u8>)> = Vec::new();
    let mut shown: Vec<String> = Vec::new();
    let commands = vec![
        (add("github", SourceOf::Prompt), "s3cr3t"),
        (add("bank", SourceOf::Prompt), "p1n"),
        (add("mail", SourceOf::Prompt), "pw"),
        (add("bank", SourceOf::Prompt), "again"),
        (CommandOf::Remove { name: String::from("github") }, "github\n"),
        (CommandOf::Remove { name: String::from("mail") }, "no\n"),
        (CommandOf::Remove { name: String::from("nobody") }, "nobody\n"),
        (CommandOf::List, ""),
    ];
    let mut outcomes = Vec::new();
    for (command, typed) in commands {
        let (mut state, mut action) = start(config(), command);
        loop {
            let event = match &action {
                ActionOf::OpenStore { .. } | ActionOf::Flush | ActionOf::CheckPublicKey { .. } => {
                    EventOf::Done
                }
                ActionOf::Lookup { name } => match store.iter().find(|(n, _)| n == name) {
                    Some((_, c)) => EventOf::Found { ciphertext: c.clone() },
                    None => EventOf::Missing,
                },
                ActionOf::ReadFile { .. } => text("PUBLIC"),
                ActionOf::Ask { .. } => text(typed),
                ActionOf::Encrypt { plaintext, .. } => {
                    EventOf::Bytes { bytes: plaintext.bytes().collect() }
                }
                ActionOf::Put { name, ciphertext } => {
                    store.push((name.clone(), ciphertext.clone()));
                    EventOf::Done
                }
                ActionOf::Delete { name } => {
                    store.retain(|(n, _)| n != name);
                    EventOf::Done
                }
                ActionOf::ListNames => {
                    EventOf::Names { names: store.iter().map(|(n, _)| n.clone()).collect() }
                }
                ActionOf::Show { lines } => {
                    shown.extend(lines.iter().cloned());
                    EventOf::Done
                }
                _ => break,
            };
            let next = step(state, event);
            state = next.0;
            action = next.1;
        }
        outcomes.push(action);
    }
    assert_eq!(
        outcomes,
        vec![
            ActionOf::Finish,
            ActionOf::Finish,
            ActionOf::Finish,
            ActionOf::Fail { error: KeeperError::NameExists },
            ActionOf::Finish,
            ActionOf::Finish,
            ActionOf::Fail { error: KeeperError::NameMissing },
            ActionOf::Finish,
        ]
    );
    assert_eq!(shown, vec![String::from("bank"), String::from("mail")]);
    assert_eq!(
        store,
        vec![(String::from("bank"), b"p1n".to_vec()), (String::from("mail"), b"pw".to_vec())]
    );
}

#[test]
fn add_does_not_write_when_the_store_cannot_be_read() {
    let (state, actions) =
        run(start(config(), add("n", SourceOf::Prompt)), vec![EventOf::Done, EventOf::Failed]);
    assert_eq!(state, StateOf::Finished);
    assert_eq!(actions.last(), Some(&ActionOf::Fail { error: KeeperError::ReadStore }));
}

#[test]
fn refusals_of_cryptography_are_reported_as_they_are() {
    let refusals = [
        KeeperError::InitGenerator,
        KeeperError::CreatePrivateKey,
        KeeperError::CreatePublicKey,
        KeeperError::EncodePublicKey,
        KeeperError::EncodePrivateKey,
        KeeperError::GenerateRandom,
        KeeperError::EncodeRandom,
        KeeperError::LoadPublicKey,
        KeeperError::InitEncryptor,
        KeeperError::Encrypt,
        KeeperError::LoadPrivateKey,
        KeeperError::InitDecryptor,
        KeeperError::Decrypt,
    ];
    for error in refusals {
        let waiting: Vec<State> = vec![
            StateOf::KeyGeneration { directory: String::from("d") },
            StateOf::SecretGeneration { name: String::from("n"), public_key_path: None },
            StateOf::PublicKeyCheck {
                name: String::from("n"),
                plaintext: None,
                pem: String::from("K"),
            },
            StateOf::Encryption { name: String::from("n") },
            StateOf::Decryption { destination: Destination::Stdout },
        ];
        for state in waiting {
            let (state, action) = step(state, EventOf::Refused { error });
            assert_eq!(state, StateOf::Finished);
            assert_eq!(action, ActionOf::Fail { error });
        }
    }
}
