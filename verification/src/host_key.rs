//! Whether a server's host key is trusted.
use crate::text::same_text;
use vstd::prelude::*;

verus! {

/// What the list of known hosts says of a key.
#[derive(Clone, Copy, Debug, PartialEq, Eq, Structural)]
pub enum KnownHost {
    /// The list holds this key for the host.
    Match,
    /// The list holds no key of this kind for the host.
    Unknown,
    /// The list holds another key of this kind for the host, or cannot be read.
    Conflict,
}

/// What to do about a key.
#[derive(Clone, Copy, Debug, PartialEq, Eq, Structural)]
pub enum HostKeyAction {
    /// Trust it.
    Accept,
    /// Do not trust it.
    Reject,
    /// Look it up in the list of known hosts.
    LookUp,
    /// Add it to the list of known hosts.
    Record,
}

/// What to do with a key that has just come.
pub open spec fn first_action(mode: Seq<char>) -> HostKeyAction {
    if mode == "no"@ {
        HostKeyAction::Accept
    } else {
        HostKeyAction::LookUp
    }
}

/// What to do with a key that was looked up.
pub open spec fn action_after_lookup(mode: Seq<char>, known: KnownHost) -> HostKeyAction {
    match known {
        KnownHost::Match => HostKeyAction::Accept,
        KnownHost::Unknown => if mode == "accept-new"@ {
            HostKeyAction::Record
        } else {
            HostKeyAction::Reject
        },
        KnownHost::Conflict => HostKeyAction::Reject,
    }
}

/// What to do with a key after an attempt to record it.
pub open spec fn action_after_record(recorded: bool) -> HostKeyAction {
    if recorded {
        HostKeyAction::Accept
    } else {
        HostKeyAction::Reject
    }
}

/// Decides what to do with a key that has just come.
pub fn start_host_key_check(mode: &str) -> (r: HostKeyAction)
    ensures
        r == first_action(mode@),
{
    if same_text(mode, "no") {
        HostKeyAction::Accept
    } else {
        HostKeyAction::LookUp
    }
}

/// Decides what to do with a key that was looked up.
pub fn host_key_looked_up(mode: &str, known: KnownHost) -> (r: HostKeyAction)
    ensures
        r == action_after_lookup(mode@, known),
{
    match known {
        KnownHost::Match => HostKeyAction::Accept,
        KnownHost::Unknown => if same_text(mode, "accept-new") {
            HostKeyAction::Record
        } else {
            HostKeyAction::Reject
        },
        KnownHost::Conflict => HostKeyAction::Reject,
    }
}

/// Decides what to do with a key after an attempt to record it.
pub fn host_key_recorded(recorded: bool) -> (r: HostKeyAction)
    ensures
        r == action_after_record(recorded),
{
    if recorded {
        HostKeyAction::Accept
    } else {
        HostKeyAction::Reject
    }
}

/// What a check comes to: whether the key is trusted, and whether it was to be
/// recorded. `known` is what the list of known hosts says, and `recordable`
/// whether a key can be added to it.
pub open spec fn check_host_key(mode: Seq<char>, known: KnownHost, recordable: bool) -> (bool, bool) {
    let first = first_action(mode);
    let second = if first == HostKeyAction::LookUp {
        action_after_lookup(mode, known)
    } else {
        first
    };
    let third = if second == HostKeyAction::Record {
        action_after_record(recordable)
    } else {
        second
    };
    (third == HostKeyAction::Accept, second == HostKeyAction::Record)
}

proof fn lemma_modes_differ()
    ensures
        "yes"@ != "no"@,
        "yes"@ != "accept-new"@,
        "accept-new"@ != "no"@,
{
    reveal_strlit("yes");
    reveal_strlit("no");
    reveal_strlit("accept-new");
    assert("yes"@.len() == 3 && "no"@.len() == 2 && "accept-new"@.len() == 10);
}

/// `yes` trusts a key that is known for the host, no other, and records none.
pub proof fn law_yes_requires_known_key(known: KnownHost, recordable: bool)
    ensures
        check_host_key("yes"@, known, recordable) == (known == KnownHost::Match, false),
{
    lemma_modes_differ();
}

/// `accept-new` records the first key of a host, trusts it from then on, and
/// rejects a changed one.
pub proof fn law_accept_new_records_first_key(known: KnownHost, recordable: bool)
    ensures
        check_host_key("accept-new"@, known, recordable) == match known {
            KnownHost::Match => (true, false),
            KnownHost::Unknown => (recordable, true),
            KnownHost::Conflict => (false, false),
        },
{
    lemma_modes_differ();
}

/// `no` trusts any key.
pub proof fn law_no_accepts_any_key(known: KnownHost, recordable: bool)
    ensures
        check_host_key("no"@, known, recordable) == (true, false),
{
}

/// Any other mode is as strict as `yes`.
pub proof fn law_other_modes_are_strict(mode: Seq<char>, known: KnownHost, recordable: bool)
    requires
        mode != "no"@,
        mode != "accept-new"@,
    ensures
        check_host_key(mode, known, recordable) == check_host_key("yes"@, known, recordable),
{
    lemma_modes_differ();
}

} // verus!
