//! How a slot of the pool comes to life: the dial-and-retry policy and the
//! fragments that frame a document on the stream to a backend.

use vstd::prelude::*;
use vstd::slice::slice_to_vec;

verus! {

/// Number of times a slot dials the backend before it gives up.
pub const CONNECT_ATTEMPTS: u32 = 3;

/// Seconds a slot waits between a refused dial and the next one.
pub const CONNECT_BACKOFF_SECS: u64 = 1;

/// What a slot does after a dial.
#[derive(Clone, Copy, Debug, PartialEq, Eq, Structural)]
pub enum ConnectAction {
    /// The stream is open: send the opening fragment; the slot is then
    /// ready, or has failed if the write fails.
    Handshake,
    /// Wait for `CONNECT_BACKOFF_SECS`, then dial again.
    Backoff,
    /// Report failure to the pool.
    GiveUp,
}

/// The action after a dial, `refused` dials having been refused before it.
pub open spec fn connect_action(refused: nat, established: bool) -> ConnectAction {
    if established {
        ConnectAction::Handshake
    } else if refused + 1 < CONNECT_ATTEMPTS {
        ConnectAction::Backoff
    } else {
        ConnectAction::GiveUp
    }
}

/// What becomes of a slot whose dials end as `dials` says (`true` for an
/// open stream), in that order, after `refused` refusals; `None` while it
/// is still dialling or backing off.
pub open spec fn slot_fate(refused: nat, dials: Seq<bool>) -> Option<ConnectAction>
    decreases dials.len(),
{
    if dials.len() == 0 {
        None
    } else {
        match connect_action(refused, dials[0]) {
            ConnectAction::Backoff => slot_fate(refused + 1, dials.drop_first()),
            action => Some(action),
        }
    }
}

/// Decides what a slot does after a dial, `refused` dials having been
/// refused before it.
pub fn after_dial(refused: u32, established: bool) -> (action: ConnectAction)
    ensures
        action == connect_action(refused as nat, established),
{
    if established {
        ConnectAction::Handshake
    } else if refused < CONNECT_ATTEMPTS - 1 {
        ConnectAction::Backoff
    } else {
        ConnectAction::GiveUp
    }
}

/// A slot gives up after exactly `CONNECT_ATTEMPTS` refused dials and not
/// before; an open stream within those dials leads to the handshake.
pub proof fn lemma_slot_gives_up_after_three(dials: Seq<bool>)
    requires
        dials.len() >= CONNECT_ATTEMPTS,
    ensures
        !dials[0] && !dials[1] && !dials[2] ==> slot_fate(0, dials) == Some(ConnectAction::GiveUp),
        dials[0] || dials[1] || dials[2] ==> slot_fate(0, dials) == Some(ConnectAction::Handshake),
{
    let one = dials.drop_first();
    let two = one.drop_first();
    assert(one[0] == dials[1]);
    assert(two[0] == dials[2]);
    assert(slot_fate(2, two) == match connect_action(2, two[0]) {
        ConnectAction::Backoff => slot_fate(3, two.drop_first()),
        action => Some(action),
    });
    assert(slot_fate(1, one) == match connect_action(1, one[0]) {
        ConnectAction::Backoff => slot_fate(2, two),
        action => Some(action),
    });
}

/// The bytes `\begin{document}` and a line feed.
pub open spec fn opening() -> Seq<u8> {
    seq![
        0x5cu8, 0x62, 0x65, 0x67, 0x69, 0x6e, 0x7b, 0x64, 0x6f, 0x63, 0x75, 0x6d, 0x65, 0x6e, 0x74,
        0x7d, 0x0a,
    ]
}

/// The bytes of a line feed, `\end{document}` and a line feed.
pub open spec fn closing() -> Seq<u8> {
    seq![
        0x0au8, 0x5c, 0x65, 0x6e, 0x64, 0x7b, 0x64, 0x6f, 0x63, 0x75, 0x6d, 0x65, 0x6e, 0x74, 0x7d,
        0x0a,
    ]
}

/// What a job puts on the stream once the opening fragment has gone out.
pub open spec fn job_of(body: Seq<u8>) -> Seq<u8> {
    body + closing()
}

/// The fragment that a slot sends as soon as its stream is open.
pub fn opening_fragment() -> (bytes: Vec<u8>)
    ensures
        bytes@ == opening(),
{
    let bytes: Vec<u8> = vec![
        0x5cu8, 0x62, 0x65, 0x67, 0x69, 0x6e, 0x7b, 0x64, 0x6f, 0x63, 0x75, 0x6d, 0x65, 0x6e, 0x74,
        0x7d, 0x0a,
    ];
    assert(bytes@ =~= opening());
    bytes
}

/// The fragment that follows the document body.
pub fn closing_fragment() -> (bytes: Vec<u8>)
    ensures
        bytes@ == closing(),
{
    let bytes: Vec<u8> = vec![
        0x0au8, 0x5c, 0x65, 0x6e, 0x64, 0x7b, 0x64, 0x6f, 0x63, 0x75, 0x6d, 0x65, 0x6e, 0x74, 0x7d,
        0x0a,
    ];
    assert(bytes@ =~= closing());
    bytes
}

/// The bytes of one job: the document body as it is, then the closing
/// fragment.
pub fn job_bytes(body: &[u8]) -> (bytes: Vec<u8>)
    ensures
        bytes@ == job_of(body@),
{
    let mut bytes = slice_to_vec(body);
    let mut tail = closing_fragment();
    bytes.append(&mut tail);
    bytes
}

} // verus!
