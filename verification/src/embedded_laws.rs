//! How the embedded engine connects, and that what the user is told of a
//! failure names the key, the server and the failure itself.
use crate::embedded::{
    after_stage, auth_error, auth_rejection, bind_error, connect_error, key_error, login,
    AfterStage, ConnectStage, EmbeddedProxy, EmbeddedServer, StageOutcome,
};
use crate::launch_laws::{lemma_ends, names_place};
use crate::text::{endpoint, has_text};
use crate::text_laws::{ends_with, lemma_endpoint_is_place, starts_with};
use crate::unicode::{capital_letter, in_small, small_letter};
use vstd::prelude::*;
use vstd::utf8::is_ascii_chars;

verus! {

/// What the user is told of a key that cannot be loaded names its path. It is
/// said to be encrypted or missing exactly where the failure speaks of that, in
/// letters of any case, the first before the second; any other failure is
/// quoted at the end.
pub proof fn law_key_errors_name_the_key(path: Seq<char>, raw: Seq<char>, lower: Seq<char>)
    ensures
        ({
            let encrypted = has_text(lower, "encrypted"@) || has_text(lower, "passphrase"@);
            let missing = has_text(lower, "no such file"@) || has_text(lower, "not found"@);
            let told = key_error(path, raw, lower);
            &&& encrypted ==> starts_with(
                told,
                "Embedded SSH cannot open encrypted private key '"@ + path,
            ) && ends_with(
                told,
                "' yet. Use System OpenSSH or a dedicated key without passphrase for embedded mode."@,
            )
            &&& !encrypted && missing ==> told == "SSH key file not found: "@ + path
            &&& !encrypted && !missing ==> starts_with(
                told,
                "Cannot load SSH key for embedded engine '"@ + path,
            ) && ends_with(told, "': "@ + raw)
            &&& !encrypted && !missing ==> told.len() == (
            "Cannot load SSH key for embedded engine '"@ + path + "': "@ + raw).len()
        }),
{
    lemma_ends(
        "Embedded SSH cannot open encrypted private key '"@ + path,
        "' yet. Use System OpenSSH or a dedicated key without passphrase for embedded mode."@,
    );
    let front = "Cannot load SSH key for embedded engine '"@ + path;
    lemma_ends(front, "': "@ + raw);
    assert(front + ("': "@ + raw) =~= front + "': "@ + raw);
}

/// What the user is told of a server that cannot be reached names its host and
/// port. Which of the causes is told goes by what the failure speaks of, in
/// letters of any case; one that speaks of none is quoted at the end, with the
/// name of the server.
pub proof fn law_connect_errors_name_the_server(
    server: EmbeddedServer,
    raw: Seq<char>,
    lower: Seq<char>,
)
    ensures
        ({
            let rejected = (has_text(lower, "key"@) && has_text(lower, "reject"@)) || has_text(
                lower,
                "unknownkey"@,
            );
            let late = has_text(lower, "timed out"@) || has_text(lower, "timeout"@);
            let refused = has_text(lower, "connection refused"@);
            exists|before: Seq<char>, place: Seq<char>, after: Seq<char>|
                #[trigger] names_place(
                    connect_error(server, raw, lower),
                    before,
                    place,
                    after,
                    server.host@,
                    server.port,
                ) && if rejected {
                    before == "Embedded SSH rejected the server host key for "@ && after
                        == ". Check ~/.ssh/known_hosts or use StrictHostKeyChecking=accept-new for the first connection."@
                } else if late {
                    before == "Embedded SSH timed out connecting to "@ && after
                        == ". Check host, port, firewall, and network reachability."@
                } else if refused {
                    before == "Embedded SSH connection refused by "@ && after
                        == ". Check the SSH port and server firewall."@
                } else {
                    before == "Embedded SSH connect failed for '"@ + server.name@ + "' at "@
                        && after == ": "@ + raw
                }
        }),
{
    let rejected = (has_text(lower, "key"@) && has_text(lower, "reject"@)) || has_text(
        lower,
        "unknownkey"@,
    );
    let late = has_text(lower, "timed out"@) || has_text(lower, "timeout"@);
    let refused = has_text(lower, "connection refused"@);
    let place = endpoint(server.host@, server.port);
    lemma_endpoint_is_place(server.host@, server.port);
    let (before, after) = if rejected {
        (
            "Embedded SSH rejected the server host key for "@,
            ". Check ~/.ssh/known_hosts or use StrictHostKeyChecking=accept-new for the first connection."@,
        )
    } else if late {
        (
            "Embedded SSH timed out connecting to "@,
            ". Check host, port, firewall, and network reachability."@,
        )
    } else if refused {
        (
            "Embedded SSH connection refused by "@,
            ". Check the SSH port and server firewall."@,
        )
    } else {
        ("Embedded SSH connect failed for '"@ + server.name@ + "' at "@, ": "@ + raw)
    };
    assert(connect_error(server, raw, lower) =~= before + place + after);
    assert(names_place(
        connect_error(server, raw, lower),
        before,
        place,
        after,
        server.host@,
        server.port,
    ));
}

/// What the user is told of a failed authentication names the user at the host,
/// and quotes the failure where there is one. What is told of an address that
/// cannot be bound names it and quotes the failure at the end.
pub proof fn law_other_errors_name_their_subject(
    server: EmbeddedServer,
    proxy: EmbeddedProxy,
    raw: Seq<char>,
)
    ensures
        login(server.user@, server.host@) == server.user@.push('@') + server.host@,
        ({
            let who = "Embedded SSH public key authentication failed for "@ + server.user@.push(
                '@',
            ) + server.host@;
            let hint = ". Check username, key path, authorized_keys, and key permissions."@;
            &&& auth_error(server, raw) == who + ": "@ + raw + hint
            &&& auth_rejection(server) == who + hint
        }),
        exists|before: Seq<char>, place: Seq<char>, after: Seq<char>|
            #[trigger] names_place(
                bind_error(proxy, raw),
                before,
                place,
                after,
                proxy.host@,
                proxy.port,
            ) && before == "Cannot bind embedded SOCKS listener on "@ && after == ": "@ + raw,
{
    reveal_strlit("@");
    assert(login(server.user@, server.host@) =~= server.user@.push('@') + server.host@);
    let who = "Embedded SSH public key authentication failed for "@ + server.user@.push('@')
        + server.host@;
    let hint = ". Check username, key path, authorized_keys, and key permissions."@;
    assert(auth_error(server, raw) =~= who + ": "@ + raw + hint);
    assert(auth_rejection(server) =~= who + hint);
    let place = endpoint(proxy.host@, proxy.port);
    lemma_endpoint_is_place(proxy.host@, proxy.port);
    assert(bind_error(proxy, raw) =~= "Cannot bind embedded SOCKS listener on "@ + place + (": "@
        + raw));
    assert(names_place(
        bind_error(proxy, raw),
        "Cannot bind embedded SOCKS listener on "@,
        place,
        ": "@ + raw,
        proxy.host@,
        proxy.port,
    ));
}

/// The stages of a connection that goes well, from one on.
pub open spec fn stages_from(server: EmbeddedServer, stage: ConnectStage, most: nat) -> Seq<
    ConnectStage,
>
    decreases most,
{
    if most == 0 {
        Seq::empty()
    } else {
        match after_stage(server, stage, StageOutcome::Done { accepted: true }) {
            AfterStage::Stage(next) => seq![stage] + stages_from(server, next, (most - 1) as nat),
            _ => seq![stage],
        }
    }
}

/// A connection that goes well goes through all four stages, each once and in
/// their order. A stage that fails ends it, with the failure of its own kind.
pub proof fn law_connection_goes_through_its_stages(
    server: EmbeddedServer,
    stage: ConnectStage,
    error: String,
)
    ensures
        stages_from(server, ConnectStage::LoadKey, 9) == seq![
            ConnectStage::LoadKey,
            ConnectStage::Connect,
            ConnectStage::AgreeHash,
            ConnectStage::Authenticate,
        ],
        after_stage(server, stage, StageOutcome::Failed(error)) == AfterStage::GiveUp(
            match stage {
                ConnectStage::LoadKey => key_error(server.key_path@, error@, in_small(error@)),
                ConnectStage::Connect => connect_error(server, error@, in_small(error@)),
                ConnectStage::AgreeHash => error@,
                ConnectStage::Authenticate => auth_error(server, error@),
            },
        ),
        after_stage(
            server,
            ConnectStage::Authenticate,
            StageOutcome::Done { accepted: false },
        ) == AfterStage::GiveUp(auth_rejection(server)),
{
    reveal_with_fuel(stages_from, 6);
    assert(stages_from(server, ConnectStage::LoadKey, 9) =~= seq![
        ConnectStage::LoadKey,
        ConnectStage::Connect,
        ConnectStage::AgreeHash,
        ConnectStage::Authenticate,
    ]);
}

/// The letters of ASCII have a small and a capital form each, 32 apart, which go
/// back to each other; every other character is its own. A text in small
/// letters is as long as it was.
pub proof fn law_letters_go_back(c: char, s: Seq<char>)
    requires
        is_ascii_chars(s),
    ensures
        'A' <= c <= 'Z' ==> small_letter(c) as u32 == c as u32 + 32 && capital_letter(
            small_letter(c),
        ) == c,
        'a' <= c <= 'z' ==> capital_letter(c) as u32 == c as u32 - 32 && small_letter(
            capital_letter(c),
        ) == c,
        !('A' <= c <= 'Z') ==> small_letter(c) == c,
        !('a' <= c <= 'z') ==> capital_letter(c) == c,
        in_small(s).len() == s.len(),
        forall|i: int| 0 <= i < s.len() ==> #[trigger] in_small(s)[i] == small_letter(s[i]),
{
}

} // verus!
