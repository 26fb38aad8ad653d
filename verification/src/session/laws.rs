//! What a terminal session answers and hands on to the clipboard.

use vstd::prelude::*;

use crate::session::parser::{answer_to, decoded_size, trailing_pads, PtyQueues};
use crate::text::{bytes_of, decimal};

verus! {

/// The size of what is copied is told from its base64 form without decoding it:
/// bytes in threes become characters in fours, closed with one or two `=`, which
/// may be left off.
pub proof fn encoded_sizes_are_exact(b64: Seq<u8>, n: nat)
    ensures
        b64.len() == 4 * ((n + 2) / 3) && trailing_pads(b64) == (3 - n % 3) % 3 ==> decoded_size(
            b64,
        ) == n,
        b64.len() == (4 * n + 2) / 3 && trailing_pads(b64) == 0 ==> decoded_size(b64) == n,
{
    let k: nat = n / 3;
    let r: nat = n % 3;
    assert(n == 3 * k + r);
    if b64.len() == 4 * ((n + 2) / 3) && trailing_pads(b64) == (3 - n % 3) % 3 {
        let groups: nat = (n + 2) / 3;
        assert(b64.len() == 4 * groups);
        assert(b64.len() / 4 == groups && b64.len() % 4 == 0);
        if r == 0 {
            assert(groups == k);
        } else {
            assert(groups == k + 1);
        }
    }
    if b64.len() == (4 * n + 2) / 3 && trailing_pads(b64) == 0 {
        if r == 0 {
            assert(b64.len() == 4 * k);
        } else if r == 1 {
            assert(b64.len() == 4 * k + 2);
        } else {
            assert(b64.len() == 4 * k + 3);
        }
    }
}

/// What a session copies is handed on in the order in which it was copied, and
/// copying adds nothing to what is answered.
pub proof fn copies_are_kept_in_order(queues: PtyQueues, data: Seq<u8>)
    ensures
        queues.pending.is_prefix_of(queues.copied(data).pending),
        queues.copied(data).pending.len() <= queues.pending.len() + 1,
        queues.copied(data).replies == queues.replies,
        data.len() == 0 ==> queues.copied(data) == queues,
{
    assert(queues.pending.is_prefix_of(queues.pending));
}

/// Answers are sent in the order in which they are owed, each whole or not at
/// all, and they copy nothing.
pub proof fn answers_are_kept_in_order(queues: PtyQueues, reply: Seq<u8>)
    ensures
        queues.answered(reply).replies == queues.replies + reply || queues.answered(reply)
            == queues,
        queues.answered(reply).pending == queues.pending,
        queues.answered(reply).drops == queues.drops,
{
}

/// A program that asks where the cursor is, is told its row and then its column,
/// counted from one; one that asks in a private way is told nothing.
pub proof fn cursors_are_reported_by_row_and_column(
    row: u16,
    col: u16,
    rows: u16,
    cols: u16,
    param: u16,
    c: char,
)
    requires
        row < rows,
        col < cols,
    ensures
        answer_to((row, col), (rows, cols), false, 6, 'n') == Some(
            bytes_of(
                "\x1b["@ + decimal((row + 1) as nat) + ";"@ + decimal((col + 1) as nat) + "R"@,
            ),
        ),
        answer_to((row, col), (rows, cols), true, param, c) is None,
        c != 'n' && c != 'c' ==> answer_to((row, col), (rows, cols), false, param, c) is None,
{
}

} // verus!
