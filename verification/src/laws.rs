//! What holds of every operation, whatever an honest host answers.
//!
//! Each law speaks of a run of one operation against a store, as
//! [`crate::model`] defines it, and holds for every script of honest
//! answers, failures of the host and refusals of the cryptography included.
use vstd::prelude::*;
use crate::error::KeeperError;
use crate::machine::{
    StateOf, awaits, lemma_asks_what_it_awaits, lemma_starts_with_what_it_awaits,
    private_key_file, public_key_file,
};
use crate::text::confirms;
use crate::model::{
    Exchange, Run, Store, advance, faithful, has_asked, honest, lemma_history_grows,
    lemma_holds_throughout, opening, play, was_answered,
};
use crate::protocol::{
    ActionOf, ActionView, CommandOf, CommandView, ConfigView, Destination, EventOf, EventView,
    Prompt, SourceOf, SourceView,
};

verus! {

/// Whether the run has got as far as looking a name up in the store.
pub open spec fn has_looked_up(run: Run) -> bool {
    has_asked(run, |action: ActionView| action is Lookup)
}

/// Whether `action` changes the store or leads to a change of it.
pub open spec fn writes(action: ActionView) -> bool {
    action is Put || action is Delete || action is Encrypt
}

/// Whether `action` handles a passphrase or a plaintext.
pub open spec fn touches_secret(action: ActionView) -> bool {
    action is Ask || action is Decrypt || action is Deliver || action is OpenClipboard
}

/// Whether the key pair with these two records was made, under the
/// passphrase that the user typed.
pub open spec fn was_generated(run: Run, public_pem: Seq<char>, private_pem: Seq<char>) -> bool {
    exists|passphrase: Seq<char>|
        was_answered(
            run,
            ActionView::Ask { prompt: Prompt::KeyPassphrase },
            EventView::Text { text: passphrase },
        ) && #[trigger] was_answered(
            run,
            ActionView::GenerateKeyPair { passphrase },
            EventView::KeyPair { public_pem, private_pem },
        )
}

/// Whether the public record of the key pair was written into `directory`.
pub open spec fn was_public_key_written(
    run: Run,
    directory: Seq<char>,
    public_pem: Seq<char>,
) -> bool {
    was_answered(
        run,
        ActionView::WriteFile { path: public_key_file(directory), contents: public_pem },
        EventView::Done,
    )
}

/// Whether the private record of the key pair was written into `directory`.
pub open spec fn was_private_key_written(
    run: Run,
    directory: Seq<char>,
    private_pem: Seq<char>,
) -> bool {
    was_answered(
        run,
        ActionView::WriteFile { path: private_key_file(directory), contents: private_pem },
        EventView::Done,
    )
}

/// Whether a key pair was made and both its records were written into
/// `directory`.
pub open spec fn were_keys_written(run: Run, directory: Seq<char>) -> bool {
    exists|public_pem: Seq<char>, private_pem: Seq<char>| #[trigger]
        was_generated(run, public_pem, private_pem) && was_public_key_written(
            run,
            directory,
            public_pem,
        ) && was_private_key_written(run, directory, private_pem)
}

/// Whether `action` is one that making a key pair has no business with:
/// anything of the store, and anything that shows or hands over a text.
pub open spec fn strays_from_keys(action: ActionView) -> bool {
    ||| action.is_store()
    ||| action is OpenStore
    ||| action is ReadFile
    ||| action is Show
    ||| action is Deliver
    ||| action is OpenClipboard
}

spec fn gen_key_holds(run: Run, directory: Seq<char>, store: Store) -> bool {
    &&& run.store == store
    &&& !has_asked(run, |action: ActionView| strays_from_keys(action))
    &&& match run.state {
        StateOf::KeyPassphrase { directory: d } => d == directory && run.action == (
        ActionView::Ask { prompt: Prompt::KeyPassphrase }),
        StateOf::KeyGeneration { directory: d } => d == directory && (
        run.action matches ActionOf::GenerateKeyPair { passphrase } && was_answered(
            run,
            ActionView::Ask { prompt: Prompt::KeyPassphrase },
            EventView::Text { text: passphrase },
        )),
        StateOf::PublicKeyWrite { directory: d, private_pem } => d == directory && (
        run.action matches ActionOf::WriteFile { path, contents } && path == public_key_file(
            directory,
        ) && was_generated(run, contents, private_pem)),
        StateOf::PrivateKeyWrite => run.action matches ActionOf::WriteFile { path, contents }
            && path == private_key_file(directory) && (exists|public_pem: Seq<char>| #[trigger]
            was_generated(run, public_pem, contents) && was_public_key_written(
                run,
                directory,
                public_pem,
            )),
        StateOf::Finished => run.action.is_terminal() && (run.action is Finish
            ==> were_keys_written(run, directory)),
        _ => false,
    }
}

proof fn lemma_generation_stays(r: Run, e: EventView, public_pem: Seq<char>, private_pem: Seq<char>)
    requires
        was_generated(r, public_pem, private_pem),
    ensures
        was_generated(advance(r, e), public_pem, private_pem),
{
    lemma_history_grows(r, e);
    let passphrase = choose|passphrase: Seq<char>|
        was_answered(
            r,
            ActionView::Ask { prompt: Prompt::KeyPassphrase },
            EventView::Text { text: passphrase },
        ) && #[trigger] was_answered(
            r,
            ActionView::GenerateKeyPair { passphrase },
            EventView::KeyPair { public_pem, private_pem },
        );
    assert(was_answered(
        advance(r, e),
        ActionView::GenerateKeyPair { passphrase },
        EventView::KeyPair { public_pem, private_pem },
    ));
}

proof fn lemma_gen_key_step(r: Run, e: EventView, directory: Seq<char>, store: Store)
    requires
        gen_key_holds(r, directory, store),
        honest(r.store, r.action, e),
    ensures
        gen_key_holds(advance(r, e), directory, store),
{
    lemma_history_grows(r, e);
    let after = advance(r, e);
    assert(after.history[r.history.len() as int].action == r.action);
    match r.state {
        StateOf::KeyGeneration { .. } => {
            if e is KeyPair {
                let passphrase = r.action->GenerateKeyPair_passphrase;
                assert(was_answered(
                    after,
                    ActionView::GenerateKeyPair { passphrase },
                    EventView::KeyPair { public_pem: e->public_pem, private_pem: e->private_pem },
                ));
                assert(was_generated(after, e->public_pem, e->private_pem));
                assert(after.action->WriteFile_contents == e->public_pem);
            }
            assert(gen_key_holds(after, directory, store));
        },
        StateOf::PublicKeyWrite { private_pem, .. } => {
            let public_pem = r.action->WriteFile_contents;
            lemma_generation_stays(r, e, public_pem, private_pem);
            if e is Done {
                assert(was_public_key_written(after, directory, public_pem));
                assert(after.action->WriteFile_contents == private_pem);
                assert(was_generated(after, public_pem, after.action->WriteFile_contents));
            }
            assert(gen_key_holds(after, directory, store));
        },
        StateOf::PrivateKeyWrite => {
            let private_pem = r.action->WriteFile_contents;
            let public_pem = choose|public_pem: Seq<char>| #[trigger]
                was_generated(r, public_pem, private_pem) && was_public_key_written(
                    r,
                    directory,
                    public_pem,
                );
            lemma_generation_stays(r, e, public_pem, private_pem);
            if e is Done {
                assert(was_private_key_written(after, directory, private_pem));
                assert(was_public_key_written(after, directory, public_pem));
                assert(were_keys_written(after, directory));
            }
            assert(gen_key_holds(after, directory, store));
        },
        _ => {},
    }
}

/// Making a key pair writes both records or does not complete, and leaves
/// the store alone.
///
/// The store is neither opened nor read nor changed, and nothing is shown
/// or handed over. Where the operation completes, a key pair was made under
/// the passphrase that the user typed, its public record was written to
/// `keeper_pub.pem` and its private record to `keeper_pri.pem`, both in the
/// directory named.
pub proof fn law_gen_key(
    config: ConfigView,
    directory: Seq<char>,
    store: Store,
    script: Seq<EventView>,
)
    requires
        faithful(opening(config, CommandView::GenKey { directory }, store), script),
    ensures
        ({
            let run = play(opening(config, CommandView::GenKey { directory }, store), script);
            &&& run.store == store
            &&& !has_asked(run, |action: ActionView| strays_from_keys(action))
            &&& run.action is Finish ==> were_keys_written(run, directory)
        }),
{
    let holds = |run: Run| gen_key_holds(run, directory, store);
    assert forall|r: Run, e: EventView|
        holds(r) && honest(r.store, r.action, e) implies holds(#[trigger] advance(r, e)) by {
        lemma_gen_key_step(r, e, directory, store);
    }
    lemma_holds_throughout(
        holds,
        opening(config, CommandView::GenKey { directory }, store),
        script,
    );
}

spec fn add_of_taken_name_holds(run: Run, name: Seq<char>, store: Store) -> bool {
    &&& run.store == store
    &&& !has_asked(run, |action: ActionView| writes(action))
    &&& match run.state {
        StateOf::OpeningForAdd { name: n, .. } => n == name && run.action is OpenStore
            && !has_looked_up(run),
        StateOf::SecretGeneration { name: n, .. } => n == name && run.action is GenerateSecret
            && !has_looked_up(run),
        StateOf::SecretEcho { name: n, .. } => n == name && run.action is Show && !has_looked_up(
            run,
        ),
        StateOf::SecretFile { name: n, .. } => n == name && run.action is ReadFile
            && !has_looked_up(run),
        StateOf::AddLookup { name: n, .. } => n == name && run.action == (ActionView::Lookup {
            name,
        }),
        StateOf::Finished => run.action is Fail && (run.action == (ActionView::Fail {
            error: KeeperError::NameExists,
        }) || !has_looked_up(run)),
        _ => false,
    }
}

/// Adding under a name that is taken changes nothing: the store stays as it
/// is, nothing is encrypted or written, and the operation fails, with
/// "name already exists" unless it failed before it came to look the name
/// up.
pub proof fn law_add_of_taken_name(
    config: ConfigView,
    name: Seq<char>,
    source: SourceView,
    store: Store,
    script: Seq<EventView>,
)
    requires
        store.contains_key(name),
        faithful(opening(config, CommandView::Add { name, source }, store), script),
    ensures
        ({
            let run = play(opening(config, CommandView::Add { name, source }, store), script);
            &&& run.store == store
            &&& !has_asked(run, |action: ActionView| writes(action))
            &&& run.action != ActionView::Finish
            &&& run.action.is_terminal() ==> run.action == (ActionView::Fail {
                error: KeeperError::NameExists,
            }) || !has_looked_up(run)
        }),
{
    let holds = |run: Run| add_of_taken_name_holds(run, name, store);
    assert forall|r: Run, e: EventView|
        holds(r) && honest(r.store, r.action, e) implies holds(#[trigger] advance(r, e)) by {
        let after = advance(r, e);
        assert(forall|i: int|
            0 <= i < r.history.len() ==> after.history[i] == #[trigger] r.history[i]);
        assert(after.history[r.history.len() as int].action == r.action);
    }
    lemma_holds_throughout(
        holds,
        opening(config, CommandView::Add { name, source }, store),
        script,
    );
}

spec fn fetch_of_absent_name_holds(run: Run, name: Seq<char>, store: Store) -> bool {
    &&& run.store == store
    &&& !has_asked(run, |action: ActionView| touches_secret(action))
    &&& match run.state {
        StateOf::OpeningForFetch { name: n, .. } => n == name && run.action is OpenStore
            && !has_looked_up(run),
        StateOf::FetchLookup { .. } => run.action == (ActionView::Lookup { name }),
        StateOf::Finished => run.action is Fail && (run.action == (ActionView::Fail {
            error: KeeperError::NameMissing,
        }) || !has_looked_up(run)),
        _ => false,
    }
}

/// Fetching a name that the store does not hold asks for no passphrase,
/// decrypts nothing and delivers nothing: the store stays as it is and the
/// operation fails, with "name does not exist" unless it failed before it
/// came to look the name up.
pub proof fn law_fetch_of_absent_name(
    config: ConfigView,
    name: Seq<char>,
    destination: Destination,
    store: Store,
    script: Seq<EventView>,
)
    requires
        !store.contains_key(name),
        faithful(opening(config, CommandView::Fetch { name, destination }, store), script),
    ensures
        ({
            let run = play(
                opening(config, CommandView::Fetch { name, destination }, store),
                script,
            );
            &&& run.store == store
            &&& !has_asked(run, |action: ActionView| touches_secret(action))
            &&& run.action != ActionView::Finish
            &&& run.action.is_terminal() ==> run.action == (ActionView::Fail {
                error: KeeperError::NameMissing,
            }) || !has_looked_up(run)
        }),
{
    let holds = |run: Run| fetch_of_absent_name_holds(run, name, store);
    assert forall|r: Run, e: EventView|
        holds(r) && honest(r.store, r.action, e) implies holds(#[trigger] advance(r, e)) by {
        let after = advance(r, e);
        assert(forall|i: int|
            0 <= i < r.history.len() ==> after.history[i] == #[trigger] r.history[i]);
        assert(after.history[r.history.len() as int].action == r.action);
    }
    lemma_holds_throughout(
        holds,
        opening(config, CommandView::Fetch { name, destination }, store),
        script,
    );
}

/// Whether the user has typed the confirmation of the deletion of `name`.
pub open spec fn was_confirmed(run: Run, name: Seq<char>) -> bool {
    exists|i: int|
        0 <= i < run.history.len() && (#[trigger] run.history[i]).action == (ActionView::Ask {
            prompt: Prompt::Confirmation,
        }) && confirming(run.history[i].event, name)
}

/// Whether `event` is a typed line that confirms the deletion of `name`.
pub open spec fn confirming(event: EventView, name: Seq<char>) -> bool {
    event matches EventOf::Text { text } && confirms(text, name)
}

spec fn remove_holds(run: Run, name: Seq<char>, store: Store) -> bool {
    &&& run.store == store || run.store == store.remove(name)
    &&& !was_confirmed(run, name) ==> run.store == store
    &&& !store.contains_key(name) ==> !has_asked(
        run,
        |action: ActionView| action is Ask || action is Delete,
    )
    &&& match run.state {
        StateOf::OpeningForRemove { name: n } => n == name && run.action is OpenStore
            && !was_confirmed(run, name) && !has_looked_up(run),
        StateOf::RemoveLookup { name: n } => n == name && run.action == (ActionView::Lookup {
            name,
        }) && !was_confirmed(run, name),
        StateOf::Confirmation { name: n } => n == name && run.action == (ActionView::Ask {
            prompt: Prompt::Confirmation,
        }) && !was_confirmed(run, name) && store.contains_key(name),
        StateOf::Deletion => run.action == (ActionView::Delete { name }) && run.store == store
            && was_confirmed(run, name) && store.contains_key(name),
        StateOf::DeletionFlush => run.action is Flush && run.store == store.remove(name)
            && was_confirmed(run, name) && store.contains_key(name),
        StateOf::Finished => {
            &&& run.action.is_terminal()
            &&& run.action is Finish ==> store.contains_key(name) && (was_confirmed(run, name)
                ==> run.store == store.remove(name) && was_flushed(run))
            &&& !store.contains_key(name) ==> run.action == (ActionView::Fail {
                error: KeeperError::NameMissing,
            }) || !has_looked_up(run)
        },
        _ => false,
    }
}

/// Removing deletes the entry when the user confirms, and otherwise changes
/// nothing.
///
/// As long as no line was typed that, trimmed, is the name, the store stays
/// as it is. Where the operation completes and such a line was typed, the
/// entry is gone and every other entry is as it was. Whatever happens, no
/// other entry is touched. Where the store does not hold the name, nothing
/// is asked of the user and the operation fails, with "name does not
/// exist" unless it failed before it came to look the name up.
pub proof fn law_remove(config: ConfigView, name: Seq<char>, store: Store, script: Seq<EventView>)
    requires
        faithful(opening(config, CommandView::Remove { name }, store), script),
    ensures
        ({
            let run = play(opening(config, CommandView::Remove { name }, store), script);
            &&& !was_confirmed(run, name) ==> run.store == store
            &&& run.action is Finish && was_confirmed(run, name) ==> run.store == store.remove(
                name,
            ) && store.contains_key(name) && was_flushed(run)
            &&& run.store == store || run.store == store.remove(name)
            &&& !store.contains_key(name) ==> {
                &&& !has_asked(run, |action: ActionView| action is Ask || action is Delete)
                &&& run.action != ActionView::Finish
                &&& run.action.is_terminal() ==> run.action == (ActionView::Fail {
                    error: KeeperError::NameMissing,
                }) || !has_looked_up(run)
            }
        }),
{
    let holds = |run: Run| remove_holds(run, name, store);
    assert forall|r: Run, e: EventView|
        holds(r) && honest(r.store, r.action, e) implies holds(#[trigger] advance(r, e)) by {
        lemma_history_grows(r, e);
        let after = advance(r, e);
        if was_confirmed(after, name) && !was_confirmed(r, name) {
            let i = choose|i: int|
                0 <= i < after.history.len() && (#[trigger] after.history[i]).action == (
                ActionView::Ask { prompt: Prompt::Confirmation }) && confirming(
                    after.history[i].event,
                    name,
                );
            if i < r.history.len() {
                assert(r.history[i] == after.history[i]);
            }
        }
        if was_confirmed(r, name) {
            let i = choose|i: int|
                0 <= i < r.history.len() && (#[trigger] r.history[i]).action == (ActionView::Ask {
                    prompt: Prompt::Confirmation,
                }) && confirming(r.history[i].event, name);
            assert(after.history[i] == r.history[i]);
        }
        if r.state is Confirmation && confirming(e, name) {
            assert(after.history[r.history.len() as int] == (Exchange {
                action: r.action,
                event: e,
            }));
        }
        if !store.contains_key(name) {
            assert(store.remove(name) =~= store);
        }
    }
    lemma_holds_throughout(holds, opening(config, CommandView::Remove { name }, store), script);
    if !store.contains_key(name) {
        assert(store.remove(name) =~= store);
    }
}

/// Once an entry was removed, it cannot be fetched: a fetch of its name
/// asks for no passphrase, decrypts nothing and delivers nothing.
pub proof fn law_removed_name_is_gone(
    config: ConfigView,
    name: Seq<char>,
    destination: Destination,
    store: Store,
    removal: Seq<EventView>,
    fetch: Seq<EventView>,
)
    requires
        faithful(opening(config, CommandView::Remove { name }, store), removal),
        play(opening(config, CommandView::Remove { name }, store), removal).action is Finish,
        was_confirmed(play(opening(config, CommandView::Remove { name }, store), removal), name),
        faithful(
            opening(
                config,
                CommandView::Fetch { name, destination },
                play(opening(config, CommandView::Remove { name }, store), removal).store,
            ),
            fetch,
        ),
    ensures
        ({
            let removed = play(opening(config, CommandView::Remove { name }, store), removal);
            let run = play(
                opening(config, CommandView::Fetch { name, destination }, removed.store),
                fetch,
            );
            &&& !removed.store.contains_key(name)
            &&& !has_asked(run, |action: ActionView| touches_secret(action))
            &&& run.action != ActionView::Finish
        }),
{
    law_remove(config, name, store, removal);
    let removed = play(opening(config, CommandView::Remove { name }, store), removal);
    law_fetch_of_absent_name(config, name, destination, removed.store, fetch);
}

/// Whether the last thing that happened in the run is that the store made
/// durable what was written to it.
pub open spec fn was_flushed(run: Run) -> bool {
    run.history.len() > 0 && run.history.last() == (Exchange {
        action: ActionView::Flush,
        event: EventView::Done,
    })
}

/// The action that obtains the plaintext from `source`.
pub open spec fn source_action(source: SourceView) -> ActionView {
    match source {
        SourceOf::Prompt => ActionView::Ask { prompt: Prompt::Secret },
        SourceOf::Generated => ActionView::GenerateSecret,
        SourceOf::File { path } => ActionView::ReadFile { path },
    }
}

/// Whether `plaintext` is what the source of the secret gave.
pub open spec fn was_supplied(run: Run, source: SourceView, plaintext: Seq<char>) -> bool {
    was_answered(run, source_action(source), EventView::Text { text: plaintext })
}

/// Whether `ciphertext` is what encryption answered when it was handed
/// `plaintext`.
pub open spec fn was_encrypted(run: Run, plaintext: Seq<char>, ciphertext: Seq<u8>) -> bool {
    exists|pem: Seq<char>| #[trigger]
        was_answered(
            run,
            ActionView::Encrypt { pem, plaintext },
            EventView::Bytes { bytes: ciphertext },
        )
}

/// Whether the store of the run is `store` with one more entry: under
/// `name`, the encryption of what the source gave.
pub open spec fn was_added(run: Run, name: Seq<char>, source: SourceView, store: Store) -> bool {
    exists|plaintext: Seq<char>, ciphertext: Seq<u8>|
        was_supplied(run, source, plaintext) && #[trigger] was_encrypted(
            run,
            plaintext,
            ciphertext,
        ) && run.store == store.insert(name, ciphertext)
}

spec fn holds_plaintext(run: Run, source: SourceView, plaintext: Option<Seq<char>>) -> bool {
    match plaintext {
        Some(plaintext) => was_supplied(run, source, plaintext),
        None => source is Prompt,
    }
}

/// Whether `action` would put the plaintext of a secret from `source`
/// where it does not belong: into a file, to a destination, or on standard
/// output unless the secret was generated and is shown once.
pub open spec fn exposes(action: ActionView, source: SourceView) -> bool {
    ||| action is WriteFile
    ||| action is Deliver
    ||| action is OpenClipboard
    ||| action is Delete
    ||| action is Show && !(source is Generated)
}

spec fn add_holds(run: Run, name: Seq<char>, source: SourceView, store: Store) -> bool {
    &&& awaits(run.state, run.action)
    &&& !has_asked(run, |action: ActionView| exposes(action, source))
    &&& match run.state {
        StateOf::OpeningForAdd { name: n, source: s, .. } => n == name && s == source
            && run.action is OpenStore && run.store == store,
        StateOf::SecretGeneration { name: n, .. } => n == name && source is Generated
            && run.action is GenerateSecret && run.store == store,
        StateOf::SecretEcho { name: n, plaintext, .. } => n == name && run.store == store
            && was_supplied(run, source, plaintext),
        StateOf::SecretFile { name: n, .. } => n == name && run.store == store
            && run.action == source_action(source) && source is File,
        StateOf::AddLookup { name: n, plaintext, .. } => n == name && run.store == store
            && holds_plaintext(run, source, plaintext),
        StateOf::PublicKeyRead { name: n, plaintext } => n == name && run.store == store
            && holds_plaintext(run, source, plaintext),
        StateOf::PublicKeyCheck { name: n, plaintext, .. } => n == name && run.store == store
            && holds_plaintext(run, source, plaintext),
        StateOf::SecretPrompt { name: n, .. } => n == name && run.store == store
            && source is Prompt && run.action == source_action(source),
        StateOf::Encryption { name: n } => n == name && run.store == store && (
        run.action matches ActionOf::Encrypt { plaintext, .. } && was_supplied(
            run,
            source,
            plaintext,
        )),
        StateOf::EntryWrite => run.action matches ActionOf::Put { name: n, ciphertext } && n == name
            && run.store == store && (exists|plaintext: Seq<char>|
            was_supplied(run, source, plaintext) && #[trigger] was_encrypted(
                run,
                plaintext,
                ciphertext,
            )),
        StateOf::EntryFlush => run.action is Flush && was_added(run, name, source, store),
        StateOf::Finished => {
            &&& run.action.is_terminal()
            &&& run.store == store || was_added(run, name, source, store)
            &&& run.action is Finish ==> was_added(run, name, source, store) && was_flushed(run)
        },
        _ => false,
    }
}

/// Adding stores the encryption of the secret, and nothing else.
///
/// Where the operation completes, the store has one more entry: under the
/// name, the very bytes that encryption answered when it was handed the
/// very text that the source of the secret gave. Until then, and where the
/// operation fails, the store is as it was, unless the entry was written
/// and only the request to make it durable failed. The plaintext goes
/// nowhere but into the encryption, except that a generated secret is
/// shown once.
pub proof fn law_add(
    config: ConfigView,
    name: Seq<char>,
    source: SourceView,
    store: Store,
    script: Seq<EventView>,
)
    requires
        faithful(opening(config, CommandView::Add { name, source }, store), script),
    ensures
        ({
            let run = play(opening(config, CommandView::Add { name, source }, store), script);
            &&& run.action is Finish ==> was_added(run, name, source, store) && !store.contains_key(
                name,
            ) && was_flushed(run)
            &&& run.store == store || was_added(run, name, source, store)
            &&& !has_asked(run, |action: ActionView| exposes(action, source))
        }),
{
    let holds = |run: Run| add_holds(run, name, source, store);
    assert forall|r: Run, e: EventView|
        holds(r) && honest(r.store, r.action, e) implies holds(#[trigger] advance(r, e)) by {
        lemma_add_step(r, e, name, source, store);
    }
    let first = opening(config, CommandView::Add { name, source }, store);
    lemma_starts_with_what_it_awaits(config, CommandView::Add { name, source });
    lemma_holds_throughout(holds, first, script);
    if store.contains_key(name) {
        law_add_of_taken_name(config, name, source, store, script);
    }
}

proof fn lemma_add_step(r: Run, e: EventView, name: Seq<char>, source: SourceView, store: Store)
    requires
        add_holds(r, name, source, store),
        honest(r.store, r.action, e),
    ensures
        add_holds(advance(r, e), name, source, store),
{
    lemma_history_grows(r, e);
    lemma_asks_what_it_awaits(r.state, e);
    let after = advance(r, e);
    assert(after.history[r.history.len() as int].action == r.action);
    match r.state {
        StateOf::Encryption { .. } => {
            if e is Bytes {
                let plaintext = r.action->Encrypt_plaintext;
                let pem = r.action->Encrypt_pem;
                assert(was_answered(
                    after,
                    ActionView::Encrypt { pem, plaintext },
                    EventView::Bytes { bytes: e->bytes },
                ));
                assert(was_encrypted(after, plaintext, e->bytes));
                assert(was_supplied(after, source, plaintext));
                assert(after.state is EntryWrite);
                assert(after.action == (ActionView::Put { name, ciphertext: e->bytes }));
                assert(after.action->Put_ciphertext == e->bytes);
                assert(exists|p: Seq<char>|
                    was_supplied(after, source, p) && #[trigger] was_encrypted(
                        after,
                        p,
                        after.action->Put_ciphertext,
                    ));
            } else {
                assert(e is Refused);
                assert(after.state is Finished);
            }
            assert(after.store == store);
            assert(add_holds(after, name, source, store));
        },
        StateOf::EntryWrite => {
            let ciphertext = r.action->Put_ciphertext;
            let plaintext = choose|plaintext: Seq<char>|
                was_supplied(r, source, plaintext) && #[trigger] was_encrypted(
                    r,
                    plaintext,
                    ciphertext,
                );
            lemma_encryption_stays(r, e, plaintext, ciphertext);
            if e is Done {
                assert(was_added(after, name, source, store));
            }
        },
        StateOf::EntryFlush => {
            let (plaintext, ciphertext) = choose|plaintext: Seq<char>, ciphertext: Seq<u8>|
                was_supplied(r, source, plaintext) && #[trigger] was_encrypted(
                    r,
                    plaintext,
                    ciphertext,
                ) && r.store == store.insert(name, ciphertext);
            lemma_encryption_stays(r, e, plaintext, ciphertext);
            assert(was_added(after, name, source, store));
        },
        _ => {},
    }
}

proof fn lemma_encryption_stays(
    r: Run,
    e: EventView,
    plaintext: Seq<char>,
    ciphertext: Seq<u8>,
)
    requires
        was_encrypted(r, plaintext, ciphertext),
    ensures
        was_encrypted(advance(r, e), plaintext, ciphertext),
{
    lemma_history_grows(r, e);
    let pem = choose|pem: Seq<char>| #[trigger]
        was_answered(
            r,
            ActionView::Encrypt { pem, plaintext },
            EventView::Bytes { bytes: ciphertext },
        );
    assert(was_answered(
        advance(r, e),
        ActionView::Encrypt { pem, plaintext },
        EventView::Bytes { bytes: ciphertext },
    ));
}

/// Whether `plaintext` is what decryption answered when it was handed
/// `ciphertext`.
pub open spec fn was_decrypted(run: Run, ciphertext: Seq<u8>, plaintext: Seq<u8>) -> bool {
    exists|pem: Seq<char>, passphrase: Seq<char>| #[trigger]
        was_answered(
            run,
            ActionView::Decrypt { pem, passphrase, ciphertext },
            EventView::Bytes { bytes: plaintext },
        )
}

/// Whether `plaintext` was handed over at `destination`.
pub open spec fn was_delivered(run: Run, destination: Destination, plaintext: Seq<u8>) -> bool {
    was_answered(run, ActionView::Deliver { destination, plaintext }, EventView::Done)
}

/// Whether the decryption of `ciphertext` was handed over at `destination`.
pub open spec fn was_fetched(run: Run, destination: Destination, ciphertext: Seq<u8>) -> bool {
    exists|plaintext: Seq<u8>| #[trigger]
        was_decrypted(run, ciphertext, plaintext) && was_delivered(run, destination, plaintext)
}

/// Whether all that the run has handed over, or is about to, is what
/// decryption answered when it was handed `ciphertext`.
pub open spec fn delivers_only_decryptions(run: Run, ciphertext: Seq<u8>) -> bool {
    &&& run.action matches ActionOf::Deliver { plaintext, .. } ==> was_decrypted(
        run,
        ciphertext,
        plaintext,
    )
    &&& forall|i: int|
        0 <= i < run.history.len() ==> ((
        #[trigger] run.history[i]).action matches ActionOf::Deliver { plaintext, .. }
            ==> was_decrypted(run, ciphertext, plaintext))
}

/// Whether `action` puts something where it stays or can be read: a file,
/// the store, standard output, or any destination but `destination`.
pub open spec fn leaks(action: ActionView, destination: Destination) -> bool {
    ||| action is WriteFile
    ||| action is Put
    ||| action is Delete
    ||| action is Show
    ||| action matches ActionOf::Deliver { destination: other, .. } && other != destination
    ||| action is OpenClipboard && destination != Destination::Clipboard
}

/// Whether decryption has refused.
pub open spec fn decryption_was_refused(run: Run) -> bool {
    exists|i: int|
        0 <= i < run.history.len() && (#[trigger] run.history[i]).action is Decrypt
            && run.history[i].event is Refused
}

spec fn nothing_delivered(run: Run) -> bool {
    forall|i: int| 0 <= i < run.history.len() ==> !((#[trigger] run.history[i]).action is Deliver)
}

spec fn nothing_decrypted(run: Run) -> bool {
    forall|i: int| 0 <= i < run.history.len() ==> !((#[trigger] run.history[i]).action is Decrypt)
}

spec fn fetch_holds(run: Run, name: Seq<char>, destination: Destination, store: Store) -> bool {
    &&& run.store == store
    &&& !has_asked(run, |action: ActionView| leaks(action, destination))
    &&& match run.state {
        StateOf::OpeningForFetch { name: n, destination: d, .. } => n == name && d == destination
            && run.action is OpenStore && nothing_delivered(run) && nothing_decrypted(run),
        StateOf::FetchLookup { destination: d, .. } => d == destination && run.action == (
        ActionView::Lookup { name }) && nothing_delivered(run) && nothing_decrypted(run),
        StateOf::FetchPassphrase { ciphertext, destination: d, .. } => d == destination
            && store.contains_key(name) && ciphertext == store[name] && run.action is Ask
            && nothing_delivered(run) && nothing_decrypted(run),
        StateOf::PrivateKeyRead { ciphertext, destination: d, .. } => d == destination
            && store.contains_key(name) && ciphertext == store[name] && run.action is ReadFile
            && nothing_delivered(run) && nothing_decrypted(run),
        StateOf::Decryption { destination: d } => d == destination && store.contains_key(name) && (
        run.action matches ActionOf::Decrypt { ciphertext, .. } && ciphertext == store[name])
            && nothing_delivered(run) && nothing_decrypted(run),
        StateOf::ClipboardOpen { plaintext } => destination is Clipboard && store.contains_key(name)
            && run.action is OpenClipboard && was_decrypted(run, store[name], plaintext)
            && nothing_delivered(run) && !decryption_was_refused(run),
        StateOf::Delivery { destination: d } => d == destination && store.contains_key(name) && (
        run.action matches ActionOf::Deliver { destination: to, plaintext } && to == destination
            && was_decrypted(run, store[name], plaintext)) && nothing_delivered(run)
            && !decryption_was_refused(run),
        StateOf::Finished => {
            &&& run.action.is_terminal()
            &&& run.action is Finish ==> store.contains_key(name) && was_fetched(
                run,
                destination,
                store[name],
            )
            &&& store.contains_key(name) ==> delivers_only_decryptions(run, store[name])
            &&& decryption_was_refused(run) ==> run.action is Fail && nothing_delivered(run)
        },
        _ => false,
    }
}

/// Fetching hands over the decryption of the stored ciphertext, and
/// nothing else.
///
/// The store stays as it is. Where the operation completes, what was
/// handed over at the destination is the very bytes that decryption
/// answered when it was handed the very ciphertext stored under the name.
/// Nothing is ever handed over that decryption did not answer, and where
/// decryption refuses, as it does for a wrong passphrase, the operation
/// fails and nothing is handed over at all. Nothing is written to a file,
/// to the store or to standard output, and nothing goes to another
/// destination than the one asked for.
pub proof fn law_fetch(
    config: ConfigView,
    name: Seq<char>,
    destination: Destination,
    store: Store,
    script: Seq<EventView>,
)
    requires
        faithful(opening(config, CommandView::Fetch { name, destination }, store), script),
    ensures
        ({
            let run = play(
                opening(config, CommandView::Fetch { name, destination }, store),
                script,
            );
            &&& run.store == store
            &&& run.action is Finish ==> store.contains_key(name) && was_fetched(
                run,
                destination,
                store[name],
            )
            &&& store.contains_key(name) ==> delivers_only_decryptions(run, store[name])
            &&& decryption_was_refused(run) ==> run.action is Fail && !has_asked(
                run,
                |action: ActionView| action is Deliver,
            )
            &&& !has_asked(run, |action: ActionView| leaks(action, destination))
        }),
{
    let holds = |run: Run| fetch_holds(run, name, destination, store);
    assert forall|r: Run, e: EventView|
        holds(r) && honest(r.store, r.action, e) implies holds(#[trigger] advance(r, e)) by {
        lemma_fetch_step(r, e, name, destination, store);
    }
    let first = opening(config, CommandView::Fetch { name, destination }, store);
    lemma_holds_throughout(holds, first, script);
    let run = play(first, script);
    if !(run.state is Finished) && store.contains_key(name) {
        assert(delivers_only_decryptions(run, store[name]));
    }
}

proof fn lemma_decryption_stays(r: Run, e: EventView, ciphertext: Seq<u8>, plaintext: Seq<u8>)
    requires
        was_decrypted(r, ciphertext, plaintext),
    ensures
        was_decrypted(advance(r, e), ciphertext, plaintext),
{
    lemma_history_grows(r, e);
    let (pem, passphrase) = choose|pem: Seq<char>, passphrase: Seq<char>| #[trigger]
        was_answered(
            r,
            ActionView::Decrypt { pem, passphrase, ciphertext },
            EventView::Bytes { bytes: plaintext },
        );
    assert(was_answered(
        advance(r, e),
        ActionView::Decrypt { pem, passphrase, ciphertext },
        EventView::Bytes { bytes: plaintext },
    ));
}

proof fn lemma_fetch_step(
    r: Run,
    e: EventView,
    name: Seq<char>,
    destination: Destination,
    store: Store,
)
    requires
        fetch_holds(r, name, destination, store),
        honest(r.store, r.action, e),
    ensures
        fetch_holds(advance(r, e), name, destination, store),
{
    lemma_history_grows(r, e);
    let after = advance(r, e);
    match r.state {
        StateOf::Decryption { .. } => {
            if e is Bytes {
                let pem = r.action->Decrypt_pem;
                let passphrase = r.action->Decrypt_passphrase;
                assert(was_answered(
                    after,
                    ActionView::Decrypt { pem, passphrase, ciphertext: store[name] },
                    EventView::Bytes { bytes: e->bytes },
                ));
                assert(was_decrypted(after, store[name], e->bytes));
                assert forall|i: int| 0 <= i < after.history.len() implies !((
                #[trigger] after.history[i]).action is Decrypt
                    && after.history[i].event is Refused) by {
                    if i < r.history.len() {
                        assert(after.history[i] == r.history[i]);
                    }
                }
            } else {
                assert(after.history[r.history.len() as int].action is Decrypt);
                assert(decryption_was_refused(after));
                assert(delivers_only_decryptions(after, store[name]));
            }
        },
        StateOf::ClipboardOpen { plaintext } => {
            lemma_decryption_stays(r, e, store[name], plaintext);
            lemma_refusal_is_old(r, e);
            assert(delivers_only_decryptions(after, store[name]));
        },
        StateOf::Delivery { .. } => {
            let plaintext = r.action->Deliver_plaintext;
            lemma_decryption_stays(r, e, store[name], plaintext);
            lemma_refusal_is_old(r, e);
            if e is Done {
                assert(was_delivered(after, destination, plaintext));
                assert(was_fetched(after, destination, store[name]));
            }
            assert forall|i: int| 0 <= i < after.history.len() implies ((
            #[trigger] after.history[i]).action matches ActionOf::Deliver { plaintext: p, .. }
                ==> was_decrypted(after, store[name], p)) by {
                if i < r.history.len() {
                    assert(after.history[i] == r.history[i]);
                }
            }
        },
        StateOf::Finished => {},
        _ => {
            assert forall|i: int| 0 <= i < after.history.len() implies !((
            #[trigger] after.history[i]).action is Deliver) && !(
            after.history[i].action is Decrypt) by {
                if i < r.history.len() {
                    assert(after.history[i] == r.history[i]);
                }
            }
            if store.contains_key(name) {
                assert(delivers_only_decryptions(after, store[name]));
            }
        },
    }
}

proof fn lemma_refusal_is_old(r: Run, e: EventView)
    requires
        !(r.action is Decrypt),
        !decryption_was_refused(r),
    ensures
        !decryption_was_refused(advance(r, e)),
{
    lemma_history_grows(r, e);
    let after = advance(r, e);
    if decryption_was_refused(after) {
        let i = choose|i: int|
            0 <= i < after.history.len() && (#[trigger] after.history[i]).action is Decrypt
                && after.history[i].event is Refused;
        if i < r.history.len() {
            assert(after.history[i] == r.history[i]);
        }
    }
}

/// What is fetched is the decryption of the encryption of what was added.
///
/// A secret is added under a name that the store does not hold, and then
/// fetched, and both operations complete. Then the source of the secret
/// gave a text, encryption answered a ciphertext for that very text,
/// decryption answered a plaintext for that very ciphertext, and that very
/// plaintext was handed over. So the secret comes back exactly as it went
/// in wherever decryption undoes encryption, which is for the cryptography
/// to ensure.
pub proof fn law_round_trip(
    config: ConfigView,
    name: Seq<char>,
    source: SourceView,
    destination: Destination,
    store: Store,
    addition: Seq<EventView>,
    fetch: Seq<EventView>,
)
    requires
        !store.contains_key(name),
        faithful(opening(config, CommandView::Add { name, source }, store), addition),
        play(opening(config, CommandView::Add { name, source }, store), addition).action is Finish,
        faithful(
            opening(
                config,
                CommandView::Fetch { name, destination },
                play(opening(config, CommandView::Add { name, source }, store), addition).store,
            ),
            fetch,
        ),
        play(
            opening(
                config,
                CommandView::Fetch { name, destination },
                play(opening(config, CommandView::Add { name, source }, store), addition).store,
            ),
            fetch,
        ).action is Finish,
    ensures
        ({
            let added = play(opening(config, CommandView::Add { name, source }, store), addition);
            let fetched = play(
                opening(config, CommandView::Fetch { name, destination }, added.store),
                fetch,
            );
            exists|plaintext: Seq<char>, ciphertext: Seq<u8>, delivered: Seq<u8>|
                {
                    &&& was_supplied(added, source, plaintext)
                    &&& #[trigger] was_encrypted(added, plaintext, ciphertext)
                    &&& added.store == store.insert(name, ciphertext)
                    &&& #[trigger] was_decrypted(fetched, ciphertext, delivered)
                    &&& was_delivered(fetched, destination, delivered)
                    &&& fetched.store == added.store
                }
        }),
{
    law_add(config, name, source, store, addition);
    let added = play(opening(config, CommandView::Add { name, source }, store), addition);
    let (plaintext, ciphertext) = choose|plaintext: Seq<char>, ciphertext: Seq<u8>|
        was_supplied(added, source, plaintext) && #[trigger] was_encrypted(
            added,
            plaintext,
            ciphertext,
        ) && added.store == store.insert(name, ciphertext);
    law_fetch(config, name, destination, added.store, fetch);
    let fetched = play(
        opening(config, CommandView::Fetch { name, destination }, added.store),
        fetch,
    );
    let delivered = choose|delivered: Seq<u8>| #[trigger]
        was_decrypted(fetched, ciphertext, delivered) && was_delivered(
            fetched,
            destination,
            delivered,
        );
    assert(was_encrypted(added, plaintext, ciphertext) && was_decrypted(
        fetched,
        ciphertext,
        delivered,
    ));
}

/// Whether the run was given `names` as the names of the store, and showed
/// exactly them.
pub open spec fn were_listed(run: Run, names: Seq<Seq<char>>) -> bool {
    &&& was_answered(run, ActionView::ListNames, EventView::Names { names })
    &&& was_answered(run, ActionView::Show { lines: names }, EventView::Done)
}

/// Whether `action` handles a key, a passphrase, a plaintext or a
/// ciphertext.
pub open spec fn touches_entry(action: ActionView) -> bool {
    ||| touches_secret(action)
    ||| writes(action)
    ||| action is Lookup
    ||| action is ReadFile
    ||| action.is_crypto()
}

spec fn list_holds(run: Run, store: Store) -> bool {
    &&& run.store == store
    &&& !has_asked(run, |action: ActionView| touches_entry(action))
    &&& match run.state {
        StateOf::OpeningForList => run.action is OpenStore,
        StateOf::Listing => run.action is ListNames,
        StateOf::NamesShown => run.action matches ActionOf::Show { lines } && was_answered(
            run,
            ActionView::ListNames,
            EventView::Names { names: lines },
        ) && lines.no_duplicates() && lines.to_set() == store.dom(),
        StateOf::Finished => run.action.is_terminal() && (run.action is Finish ==> exists|
            names: Seq<Seq<char>>,
        | #[trigger]
            were_listed(run, names) && names.no_duplicates() && names.to_set() == store.dom()),
        _ => false,
    }
}

/// Listing shows every name once, and nothing but names.
///
/// The store stays as it is, and no entry, key or passphrase is touched.
/// Where the operation completes, what was shown is the names that the
/// store gave: each name of the store once, in the order in which the
/// store gave them, as many lines as the store has entries.
pub proof fn law_list(config: ConfigView, store: Store, script: Seq<EventView>)
    requires
        faithful(opening(config, CommandView::List, store), script),
    ensures
        ({
            let run = play(opening(config, CommandView::List, store), script);
            &&& run.store == store
            &&& !has_asked(run, |action: ActionView| touches_entry(action))
            &&& run.action is Finish ==> exists|names: Seq<Seq<char>>| #[trigger]
                were_listed(run, names) && names.no_duplicates() && names.to_set() == store.dom()
                    && names.len() == store.dom().len()
        }),
{
    let holds = |run: Run| list_holds(run, store);
    assert forall|r: Run, e: EventView|
        holds(r) && honest(r.store, r.action, e) implies holds(#[trigger] advance(r, e)) by {
        lemma_history_grows(r, e);
        let after = advance(r, e);
        assert(after.history[r.history.len() as int].action == r.action);
        match r.state {
            StateOf::NamesShown => {
                if e is Done {
                    assert(were_listed(after, r.action->lines));
                }
            },
            _ => {},
        }
    }
    let first = opening(config, CommandView::List, store);
    lemma_holds_throughout(holds, first, script);
    let run = play(first, script);
    if run.action is Finish {
        let names = choose|names: Seq<Seq<char>>| #[trigger]
            were_listed(run, names) && names.no_duplicates() && names.to_set() == store.dom();
        names.unique_seq_to_set();
    }
}

/// A change of the store that an operation has made.
pub enum Change {
    /// A completed addition: a new entry.
    Added { name: Seq<char>, ciphertext: Seq<u8> },
    /// A completed removal: an entry less.
    Removed { name: Seq<char> },
}

/// Whether `change` can be made to `store`: only a name that is free is
/// added, and only a name that is held is removed.
pub open spec fn can_change(store: Store, change: Change) -> bool {
    match change {
        Change::Added { name, .. } => !store.contains_key(name),
        Change::Removed { name } => store.contains_key(name),
    }
}

/// The store after `change`.
pub open spec fn changed(store: Store, change: Change) -> Store {
    match change {
        Change::Added { name, ciphertext } => store.insert(name, ciphertext),
        Change::Removed { name } => store.remove(name),
    }
}

/// The store after `changes`, made in order.
pub open spec fn changed_by_all(store: Store, changes: Seq<Change>) -> Store
    decreases changes.len(),
{
    if changes.len() == 0 {
        store
    } else {
        changed(changed_by_all(store, changes.drop_last()), changes.last())
    }
}

/// Whether each of `changes` can be made when its turn comes.
pub open spec fn can_change_by_all(store: Store, changes: Seq<Change>) -> bool
    decreases changes.len(),
{
    changes.len() == 0 || (can_change_by_all(store, changes.drop_last()) && can_change(
        changed_by_all(store, changes.drop_last()),
        changes.last(),
    ))
}

/// The number of additions among `changes`.
pub open spec fn additions(changes: Seq<Change>) -> nat
    decreases changes.len(),
{
    if changes.len() == 0 {
        0
    } else if changes.last() is Added {
        additions(changes.drop_last()) + 1
    } else {
        additions(changes.drop_last())
    }
}

/// The number of removals among `changes`.
pub open spec fn removals(changes: Seq<Change>) -> nat
    decreases changes.len(),
{
    if changes.len() == 0 {
        0
    } else if changes.last() is Removed {
        removals(changes.drop_last()) + 1
    } else {
        removals(changes.drop_last())
    }
}

/// A store that started empty holds as many names as were added and not
/// removed.
pub proof fn law_count_of_names(changes: Seq<Change>)
    requires
        can_change_by_all(Map::empty(), changes),
    ensures
        changed_by_all(Map::empty(), changes).dom().finite(),
        changed_by_all(Map::empty(), changes).dom().len() == additions(changes) - removals(changes),
    decreases changes.len(),
{
    if changes.len() > 0 {
        law_count_of_names(changes.drop_last());
    }
}

/// A completed addition is a change that adds, and a completed and
/// confirmed removal is a change that removes.
pub proof fn law_operations_are_changes(
    config: ConfigView,
    name: Seq<char>,
    source: SourceView,
    store: Store,
    script: Seq<EventView>,
)
    ensures
        ({
            let run = play(opening(config, CommandView::Add { name, source }, store), script);
            faithful(opening(config, CommandView::Add { name, source }, store), script)
                && run.action is Finish ==> exists|ciphertext: Seq<u8>|
                run.store == #[trigger] changed(store, Change::Added { name, ciphertext })
                    && can_change(store, Change::Added { name, ciphertext })
        }),
        ({
            let run = play(opening(config, CommandView::Remove { name }, store), script);
            faithful(opening(config, CommandView::Remove { name }, store), script)
                && run.action is Finish && was_confirmed(run, name) ==> can_change(
                store,
                Change::Removed { name },
            ) && run.store == changed(store, Change::Removed { name })
        }),
{
    let added = play(opening(config, CommandView::Add { name, source }, store), script);
    if faithful(opening(config, CommandView::Add { name, source }, store), script)
        && added.action is Finish {
        law_add(config, name, source, store, script);
        let (plaintext, ciphertext) = choose|plaintext: Seq<char>, ciphertext: Seq<u8>|
            was_supplied(added, source, plaintext) && #[trigger] was_encrypted(
                added,
                plaintext,
                ciphertext,
            ) && added.store == store.insert(name, ciphertext);
        assert(added.store == changed(store, Change::Added { name, ciphertext }));
    }
    if faithful(opening(config, CommandView::Remove { name }, store), script) {
        law_remove(config, name, store, script);
    }
}

/// After additions and removals on a store that started empty, listing
/// shows as many names as were added and not removed, each once.
pub proof fn law_list_after_changes(
    config: ConfigView,
    changes: Seq<Change>,
    script: Seq<EventView>,
)
    requires
        can_change_by_all(Map::empty(), changes),
        faithful(
            opening(config, CommandView::List, changed_by_all(Map::empty(), changes)),
            script,
        ),
        play(
            opening(config, CommandView::List, changed_by_all(Map::empty(), changes)),
            script,
        ).action is Finish,
    ensures
        ({
            let run = play(
                opening(config, CommandView::List, changed_by_all(Map::empty(), changes)),
                script,
            );
            exists|names: Seq<Seq<char>>| #[trigger]
                were_listed(run, names) && names.no_duplicates() && names.len() == additions(
                    changes,
                ) - removals(changes)
        }),
{
    law_count_of_names(changes);
    law_list(config, changed_by_all(Map::empty(), changes), script);
}

} // verus!
