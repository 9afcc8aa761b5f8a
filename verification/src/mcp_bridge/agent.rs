//! The bridge agent has no human to answer permission prompts: every
//! request is answered by picking an allowing option. Its streamed message
//! chunks are collected, in order, for the `failure_send_message` call
//! that waits on their session.
use vstd::prelude::*;

verus! {

/// The kinds of option a permission request offers.
#[derive(Debug, Clone, Copy, PartialEq, Eq, Structural)]
pub enum PermissionOptionKind {
    AllowOnce,
    AllowAlways,
    RejectOnce,
    RejectAlways,
}

/// One option of a permission request.
pub struct PermissionOption {
    pub option_id: String,
    pub kind: PermissionOptionKind,
}

/// The index of the first option of `kind`, if any.
pub open spec fn first_of_kind(options: Seq<PermissionOption>, kind: PermissionOptionKind) -> Option<int>
    decreases options.len(),
{
    if options.len() == 0 {
        None
    } else if options.last().kind == kind && first_of_kind(options.drop_last(), kind) is None {
        Some(options.len() - 1)
    } else {
        first_of_kind(options.drop_last(), kind)
    }
}

/// The option chosen: the first "allow once" option, else the first
/// "allow always" option; `None` (the request is cancelled) when the
/// request offers neither.
pub open spec fn spec_permission_choice(options: Seq<PermissionOption>) -> Option<Seq<char>> {
    match first_of_kind(options, PermissionOptionKind::AllowOnce) {
        Some(i) => Some(options[i].option_id@),
        None => match first_of_kind(options, PermissionOptionKind::AllowAlways) {
            Some(i) => Some(options[i].option_id@),
            None => None,
        },
    }
}

proof fn lemma_first_of_kind(options: Seq<PermissionOption>, kind: PermissionOptionKind, n: int)
    requires
        0 <= n <= options.len(),
        forall|j: int| 0 <= j < n ==> options[j].kind != kind,
    ensures
        n < options.len() && options[n].kind == kind ==> first_of_kind(options.take(n + 1), kind) == Some(n),
        first_of_kind(options.take(n), kind) is None,
    decreases n,
{
    if n > 0 {
        lemma_first_of_kind(options, kind, n - 1);
        assert(options.take(n).drop_last() =~= options.take(n - 1));
    }
    if n < options.len() {
        assert(options.take(n + 1).drop_last() =~= options.take(n));
    }
}

proof fn lemma_first_of_kind_extend(options: Seq<PermissionOption>, kind: PermissionOptionKind, n: int)
    requires
        0 <= n < options.len(),
        first_of_kind(options.take(n + 1), kind) matches Some(i) && i == n,
    ensures
        first_of_kind(options, kind) == Some(n),
    decreases options.len() - n,
{
    if n + 1 < options.len() {
        let m = options.len() - 1;
        assert(options.drop_last().take(n + 1) =~= options.take(n + 1));
        lemma_first_of_kind_extend(options.drop_last(), kind, n);
    } else {
        assert(options.take(n + 1) =~= options);
    }
}

proof fn lemma_first_of_kind_none(options: Seq<PermissionOption>, kind: PermissionOptionKind)
    requires
        forall|j: int| 0 <= j < options.len() ==> options[j].kind != kind,
    ensures
        first_of_kind(options, kind) is None,
{
    lemma_first_of_kind(options, kind, options.len() as int);
    assert(options.take(options.len() as int) =~= options);
}

fn first_index_of_kind(options: &Vec<PermissionOption>, kind: PermissionOptionKind) -> (r: Option<usize>)
    ensures
        match r {
            Some(i) => first_of_kind(options@, kind) == Some(i as int) && i < options@.len(),
            None => first_of_kind(options@, kind) is None,
        },
{
    let mut i: usize = 0;
    while i < options.len()
        invariant
            i <= options@.len(),
            forall|j: int| 0 <= j < i ==> options@[j].kind != kind,
        decreases options@.len() - i,
    {
        if options[i].kind == kind {
            proof {
                lemma_first_of_kind(options@, kind, i as int);
                lemma_first_of_kind_extend(options@, kind, i as int);
            }
            return Some(i);
        }
        i = i + 1;
    }
    proof {
        lemma_first_of_kind_none(options@, kind);
    }
    None
}

/// The option id to answer a permission request with, preferring a
/// one-time allowance over a standing one.
pub fn auto_respond_to_permissions(options: &Vec<PermissionOption>) -> (choice: Option<String>)
    ensures
        match choice {
            Some(id) => spec_permission_choice(options@) == Some(id@),
            None => spec_permission_choice(options@) is None,
        },
{
    match first_index_of_kind(options, PermissionOptionKind::AllowOnce) {
        Some(i) => Some(options[i].option_id.clone()),
        None => match first_index_of_kind(options, PermissionOptionKind::AllowAlways) {
            Some(i) => Some(options[i].option_id.clone()),
            None => None,
        },
    }
}


/// A message from the bridge agent's connection, as far as the bridge
/// tells them apart.
pub enum BridgeMessage {
    /// A session update; `text` is the text of an agent message chunk with
    /// text content, `None` for any other update.
    SessionUpdate { session_id: String, text: Option<String> },
    /// A permission request offering these options.
    RequestPermission { options: Vec<PermissionOption> },
    /// An extension notification.
    ExtNotification,
    /// A request to wait for a terminal to exit.
    WaitForTerminalExit,
    /// Anything else.
    Other,
}

/// How the bridge answers a message of its agent.
#[derive(Debug, PartialEq, Eq)]
pub enum BridgeReply {
    /// Acknowledge; hand `text` to the `failure_send_message` call that
    /// listens on `session_id`, if one does, when there is text to hand on.
    Ack { forward: Option<(String, String)> },
    /// Answer the permission request: the chosen option, or cancelled.
    Permission(Option<String>),
    /// Refuse: the bridge runs no terminals.
    TerminalUnsupported,
    /// No answer is owed.
    Ignore,
}

/// Every notification is acknowledged, a non-empty message chunk is
/// forwarded to its session's listener, every permission request is
/// answered (no human is there to do it), and terminal waits are refused.
pub fn handle_bridge_message(msg: BridgeMessage) -> (reply: BridgeReply)
    ensures
        match msg {
            BridgeMessage::SessionUpdate { session_id, text } => reply matches BridgeReply::Ack { forward }
                && match text {
                Some(t) if t@.len() > 0 => forward matches Some(f) && f.0@ == session_id@ && f.1@ == t@,
                _ => forward is None,
            },
            BridgeMessage::RequestPermission { options } => reply matches BridgeReply::Permission(choice)
                && match choice {
                Some(id) => spec_permission_choice(options@) == Some(id@),
                None => spec_permission_choice(options@) is None,
            },
            BridgeMessage::ExtNotification => reply == (BridgeReply::Ack { forward: None }),
            BridgeMessage::WaitForTerminalExit => reply == BridgeReply::TerminalUnsupported,
            BridgeMessage::Other => reply == BridgeReply::Ignore,
        },
{
    match msg {
        BridgeMessage::SessionUpdate { session_id, text } => {
            let forward = match text {
                Some(t) => if t.as_str().is_empty() {
                    None
                } else {
                    Some((session_id, t))
                },
                None => None,
            };
            BridgeReply::Ack { forward }
        },
        BridgeMessage::RequestPermission { options } => BridgeReply::Permission(
            auto_respond_to_permissions(&options),
        ),
        BridgeMessage::ExtNotification => BridgeReply::Ack { forward: None },
        BridgeMessage::WaitForTerminalExit => BridgeReply::TerminalUnsupported,
        BridgeMessage::Other => BridgeReply::Ignore,
    }
}

/// The text that a reply hands to the listener of `session`: a forwarded
/// chunk of that session, nothing otherwise.
pub open spec fn chunk_for(session: Seq<char>, reply: BridgeReply) -> Seq<char> {
    match reply {
        BridgeReply::Ack { forward: Some(f) } => if f.0@ == session {
            f.1@
        } else {
            Seq::empty()
        },
        _ => Seq::empty(),
    }
}

/// The text of a run of replies for `session`, in the order they came.
pub open spec fn chunks_for(session: Seq<char>, replies: Seq<BridgeReply>) -> Seq<char>
    decreases replies.len(),
{
    if replies.len() == 0 {
        Seq::empty()
    } else {
        chunks_for(session, replies.drop_last()) + chunk_for(session, replies.last())
    }
}

/// Appends to `acc` the text that `reply` hands to `session`.
pub fn collect_chunk(acc: &mut String, session: &str, reply: &BridgeReply)
    ensures
        final(acc)@ == old(acc)@ + chunk_for(session@, *reply),
{
    match reply {
        BridgeReply::Ack { forward: Some(f) } => {
            if crate::text::str_eq(f.0.as_str(), session) {
                acc.append(f.1.as_str());
            } else {
                proof {
                    assert(old(acc)@ + Seq::<char>::empty() =~= old(acc)@);
                }
            }
        },
        _ => {
            proof {
                assert(old(acc)@ + Seq::<char>::empty() =~= old(acc)@);
            }
        },
    }
}

/// Appends to `acc` the text that a run of replies hands to `session`, in
/// their order.
pub fn collect_chunks(acc: &mut String, session: &str, replies: &Vec<BridgeReply>)
    ensures
        final(acc)@ == old(acc)@ + chunks_for(session@, replies@),
{
    let mut i: usize = 0;
    while i < replies.len()
        invariant
            i <= replies@.len(),
            acc@ == old(acc)@ + chunks_for(session@, replies@.take(i as int)),
        decreases replies@.len() - i,
    {
        proof {
            assert(replies@.take(i + 1).drop_last() =~= replies@.take(i as int));
        }
        collect_chunk(acc, session, &replies[i]);
        i = i + 1;
    }
    proof {
        assert(replies@.take(replies@.len() as int) =~= replies@);
    }
}

/// The text `{:?}` gives of a `Duration` of `ms` milliseconds.
pub uninterp spec fn duration_debug(ms: u64) -> Seq<char>;

/// `format!("{:?}", Duration::from_millis(ms))`; the text is named by
/// `duration_debug` of `ms`.
#[verifier::external_body]
fn duration_debug_text(ms: u64) -> (s: String)
    ensures
        s@ == duration_debug(ms),
{
    format!("{:?}", std::time::Duration::from_millis(ms))
}

/// The error of a `failure_send_message` prompt that outlived its timeout.
pub fn prompt_timeout_error(timeout_ms: u64) -> (e: String)
    ensures
        e@ == "MCP bridge: prompt timed out after "@ + duration_debug(timeout_ms),
{
    let mut e = "MCP bridge: prompt timed out after ".to_owned();
    let d = duration_debug_text(timeout_ms);
    e.append(d.as_str());
    e
}

proof fn lemma_first_of_kind_found(options: Seq<PermissionOption>, kind: PermissionOptionKind)
    ensures
        match first_of_kind(options, kind) {
            Some(i) => 0 <= i < options.len() && options[i].kind == kind,
            None => forall|j: int| 0 <= j < options.len() ==> options[j].kind != kind,
        },
    decreases options.len(),
{
    if options.len() > 0 {
        lemma_first_of_kind_found(options.drop_last(), kind);
        assert forall|j: int| 0 <= j < options.len() - 1 implies options[j] == options.drop_last()[j] by {}
    }
}

/// A permission request is answered with one of its own options: a
/// one-time allowance when it offers one, else a standing allowance when
/// it offers one; it is cancelled only when it offers no allowance.
pub proof fn law_permission_choice_allows(options: Seq<PermissionOption>)
    ensures
        (exists|i: int| 0 <= i < options.len() && options[i].kind == PermissionOptionKind::AllowOnce)
            ==> exists|i: int| 0 <= i < options.len() && options[i].kind == PermissionOptionKind::AllowOnce
            && spec_permission_choice(options) == Some(options[i].option_id@),
        (!exists|i: int| 0 <= i < options.len() && options[i].kind == PermissionOptionKind::AllowOnce)
            && (exists|i: int| 0 <= i < options.len() && options[i].kind == PermissionOptionKind::AllowAlways)
            ==> exists|i: int| 0 <= i < options.len() && options[i].kind == PermissionOptionKind::AllowAlways
            && spec_permission_choice(options) == Some(options[i].option_id@),
        spec_permission_choice(options) is None <==> forall|i: int| 0 <= i < options.len() ==> options[i].kind
            != PermissionOptionKind::AllowOnce && options[i].kind != PermissionOptionKind::AllowAlways,
{
    lemma_first_of_kind_found(options, PermissionOptionKind::AllowOnce);
    lemma_first_of_kind_found(options, PermissionOptionKind::AllowAlways);
}

} // verus!
