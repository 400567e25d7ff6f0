//! The process-controller decisions: the session lifecycle, the preparation
//! of item lines pushed into the finder's input, and the meaning of the
//! output captured when the finder exits.  The shell that actually spawns
//! the subprocess performs each action and feeds the outcome back in; every
//! decision is made here.

use vstd::prelude::*;

use crate::text::trimmed;
use crate::text::trim_text;

verus! {

/// The lifecycle of one finder session.  A session starts unstarted, runs
/// once spawned, and is finished — consumed — once its output is taken;
/// there is no pause, restart or respawn.
#[derive(Debug, Clone, Copy, PartialEq, Eq, Structural)]
pub enum SessionState {
    /// No subprocess has been spawned.
    Unstarted,
    /// The subprocess is live and owns the write end of its input stream.
    Running,
    /// The output has been taken; the session is spent.
    Finished,
}

/// What happened to the session: the outcome of a spawn attempt, a pushed
/// item, or the blocking wait for output.
#[derive(Debug, Clone, Copy, PartialEq, Eq, Structural)]
pub enum SessionEvent {
    /// The subprocess was spawned with piped input and output.
    SpawnSucceeded,
    /// The spawn failed; no subprocess and no partial state exist.
    SpawnFailed,
    /// One item line was written to the subprocess input.
    ItemPushed,
    /// The subprocess exited and its output was captured.
    OutputAwaited,
}

/// The transition relation of the session lifecycle.  A failed spawn leaves
/// the session unstarted; pushing is only possible while running; taking
/// the output finishes the session.  Everything else — pushing before the
/// spawn or after the output, spawning twice — is a contract violation and
/// has no next state.
pub open spec fn stepped(s: SessionState, e: SessionEvent) -> Option<SessionState> {
    match (s, e) {
        (SessionState::Unstarted, SessionEvent::SpawnSucceeded) => Some(SessionState::Running),
        (SessionState::Unstarted, SessionEvent::SpawnFailed) => Some(SessionState::Unstarted),
        (SessionState::Running, SessionEvent::ItemPushed) => Some(SessionState::Running),
        (SessionState::Running, SessionEvent::OutputAwaited) => Some(SessionState::Finished),
        _ => Option::None,
    }
}

/// Advances the session lifecycle by one event; `None` marks a forbidden
/// use of the session, which a caller must surface loudly rather than act
/// on.
pub fn step(s: SessionState, e: SessionEvent) -> (t: Option<SessionState>)
    ensures
        t == stepped(s, e),
{
    match (s, e) {
        (SessionState::Unstarted, SessionEvent::SpawnSucceeded) => Some(SessionState::Running),
        (SessionState::Unstarted, SessionEvent::SpawnFailed) => Some(SessionState::Unstarted),
        (SessionState::Running, SessionEvent::ItemPushed) => Some(SessionState::Running),
        (SessionState::Running, SessionEvent::OutputAwaited) => Some(SessionState::Finished),
        _ => Option::None,
    }
}

/// Whether an item may be pushed in state `s`: only while running.
pub fn may_push(s: SessionState) -> (r: bool)
    ensures
        r == (s is Running),
{
    match s {
        SessionState::Running => true,
        _ => false,
    }
}

/// Prepares one item for the finder's input: trims surrounding white space
/// and appends exactly one line terminator.
pub fn prepare_item(item: &str) -> (line: String)
    ensures
        line@ == trimmed(item@).push('\n'),
{
    let mut line = trim_text(item);
    line.append("\n");
    proof {
        reveal_strlit("\n");
        assert(trimmed(item@) + "\n"@ =~= trimmed(item@).push('\n'));
    }
    line
}

/// What the finder's standard output decodes to.  The decoding is
/// permissive: invalid byte sequences are replaced, never fatal.
pub uninterp spec fn lossy_decoded(bytes: Seq<u8>) -> Seq<char>;

/// Relies on String::from_utf8_lossy: the result is a function of the bytes
/// alone, and bytes that are valid UTF-8 decode to exactly their characters;
/// invalid sequences are replaced instead of failing.
#[verifier::external_body]
fn decode_lossy(bytes: &Vec<u8>) -> (r: String)
    ensures
        r@ == lossy_decoded(bytes@),
        vstd::utf8::valid_utf8(bytes@) ==> r@ == vstd::utf8::decode_utf8(bytes@),
{
    String::from_utf8_lossy(bytes.as_slice()).into_owned()
}

/// Decides what the captured output means once the subprocess has exited.
/// No bytes at all mean the user made no selection — an expected outcome,
/// not an error.  Any output is decoded permissively, trimmed of
/// surrounding white space, and returned as the selection.
pub fn selection_from_output(stdout: &Vec<u8>) -> (r: Option<String>)
    ensures
        stdout@.len() == 0 ==> r is None,
        stdout@.len() > 0 ==> (r matches Some(s) && s@ == trimmed(lossy_decoded(stdout@))),
{
    if stdout.len() == 0 {
        Option::None
    } else {
        let text = decode_lossy(stdout);
        Some(trim_text(text.as_str()))
    }
}

} // verus!
