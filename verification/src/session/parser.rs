//! VT100 parser wrapper. Maintains an in-memory `vt100::Screen`, relays the
//! OSC 52 clipboard writes that applications inside the PTY emit, and answers
//! the terminal status queries they send: `vt100` implements none of the
//! latter, and an application that asks and hears nothing back blocks until its
//! own timeout.

use vstd::prelude::*;

use crate::text::{
    bytes_of, cat5, decimal, decode_utf8, lemma_views_empty, lemma_views_push, to_bytes, to_decimal,
    views,
};

verus! {

broadcast use crate::text::group_views;

/// Largest decoded payload relayed from the PTY to the host clipboard
/// (64 KiB). Keeps a remote from flooding the clipboard with a huge write.
pub const CLIPBOARD_RELAY_MAX_BYTES: usize = 65536;

/// How many clipboard writes are buffered between drains. A remote stuck in a
/// copy loop can't grow the queue without bound; the excess is dropped.
pub const CLIPBOARD_RELAY_MAX_QUEUED: usize = 8;

/// Largest queue of answers to terminal status queries held between drains
/// (1 KiB).
pub const REPLY_QUEUE_MAX_BYTES: usize = 1024;

/// How many rows of history a session keeps.
pub const SCROLLBACK_ROWS: usize = 10000;

/// How many `=` characters `b64` ends in.
pub open spec fn trailing_pads(b64: Seq<u8>) -> nat
    decreases b64.len(),
{
    if b64.len() > 0 && b64.last() == 61u8 {
        1 + trailing_pads(b64.drop_last())
    } else {
        0
    }
}

/// The number of bytes a base64 payload stands for: three for each whole group
/// of four characters, less one for each `=` (two at most) that closes the last
/// group; an unpadded tail of two or three characters carries one or two bytes
/// more, and a single stray character carries none.
pub open spec fn decoded_size(b64: Seq<u8>) -> int {
    let full = b64.len() / 4 * 3;
    let tail = b64.len() % 4;
    if tail == 0 {
        let pads = trailing_pads(b64);
        if pads >= 2 && full >= 2 {
            full - 2
        } else if pads == 1 {
            full - 1
        } else {
            full as int
        }
    } else if tail == 1 {
        full as int
    } else {
        full + tail - 1
    }
}

/// Exact decoded byte length of a base64 payload, without decoding it. The
/// payload is relayed verbatim; this only enforces the size cap.
pub fn decoded_len(b64: &[u8]) -> (r: usize)
    ensures
        r == decoded_size(b64@),
{
    let n: usize = b64.len();
    let full: usize = n / 4 * 3;
    let tail: usize = n % 4;
    if tail == 0 {
        if n >= 1 && b64[n - 1] == 61u8 {
            assert(b64@.drop_last().len() > 0);
            assert(b64@.drop_last().last() == b64@[n - 2]);
            reveal_with_fuel(trailing_pads, 3);
            if b64[n - 2] == 61u8 {
                full - 2
            } else {
                full - 1
            }
        } else {
            full
        }
    } else if tail == 1 {
        full
    } else {
        full + (tail - 1)
    }
}

/// Why a clipboard write coming out of the PTY never made it to the queue.
#[derive(Debug, Clone, Copy, PartialEq, Eq, Structural)]
pub struct ClipboardDrops {
    /// Writes whose decoded payload exceeded [`CLIPBOARD_RELAY_MAX_BYTES`].
    pub oversize: usize,
    /// Writes that arrived with the queue already full.
    pub queue_full: usize,
}

impl Default for ClipboardDrops {
    fn default() -> (r: Self)
        ensures
            r.oversize == 0 && r.queue_full == 0,
    {
        ClipboardDrops { oversize: 0, queue_full: 0 }
    }
}

/// Everything the emulator has to answer for, collected per drain: OSC 52
/// clipboard writes headed for the real terminal, and answers to terminal
/// status queries headed back into the PTY.
pub struct PtyCallbacks {
    /// Pending base64 payloads, in arrival order.
    pub pending: Vec<String>,
    /// Writes rejected since the last drain, by reason.
    pub drops: ClipboardDrops,
    /// Answers to terminal status queries, waiting to go back into the PTY.
    pub replies: Vec<u8>,
}

/// What [`PtyCallbacks`] holds.
#[verifier::ext_equal]
pub struct PtyQueues {
    pub pending: Seq<Seq<char>>,
    pub drops: ClipboardDrops,
    pub replies: Seq<u8>,
}

impl View for PtyCallbacks {
    type V = PtyQueues;

    open spec fn view(&self) -> PtyQueues {
        PtyQueues { pending: views(self.pending@), drops: self.drops, replies: self.replies@ }
    }
}

/// A drop counter after one more drop; it stays at its maximum.
pub open spec fn bumped(n: usize) -> usize {
    if n < usize::MAX {
        (n + 1) as usize
    } else {
        n
    }
}

fn bump(n: usize) -> (r: usize)
    ensures
        r == bumped(n),
{
    if n < usize::MAX {
        n + 1
    } else {
        n
    }
}

impl PtyQueues {
    /// The queues of a parser that has seen nothing yet.
    pub open spec fn empty() -> PtyQueues {
        PtyQueues {
            pending: Seq::empty(),
            drops: ClipboardDrops { oversize: 0, queue_full: 0 },
            replies: Seq::empty(),
        }
    }

    /// Neither queue is over its bound, and nothing queued for the clipboard is
    /// over the size cap or empty.
    pub open spec fn bounded(self) -> bool {
        &&& self.pending.len() <= CLIPBOARD_RELAY_MAX_QUEUED
        &&& self.replies.len() <= REPLY_QUEUE_MAX_BYTES
        &&& forall|i: int|
            0 <= i < self.pending.len() ==> {
                let data = vstd::utf8::encode_utf8(#[trigger] self.pending[i]);
                0 < data.len() && decoded_size(data) <= CLIPBOARD_RELAY_MAX_BYTES
            }
    }

    /// The queues after the PTY asked to copy `data`. An empty payload is a
    /// clipboard clear and is ignored; one over the size cap counts as
    /// oversize, whatever the queue holds; one that finds the queue full counts
    /// as that; the rest are queued verbatim.
    pub open spec fn copied(self, data: Seq<u8>) -> PtyQueues {
        if data.len() == 0 {
            self
        } else if decoded_size(data) > CLIPBOARD_RELAY_MAX_BYTES {
            PtyQueues {
                drops: ClipboardDrops { oversize: bumped(self.drops.oversize), ..self.drops },
                ..self
            }
        } else if self.pending.len() >= CLIPBOARD_RELAY_MAX_QUEUED {
            PtyQueues {
                drops: ClipboardDrops { queue_full: bumped(self.drops.queue_full), ..self.drops },
                ..self
            }
        } else if vstd::utf8::valid_utf8(data) {
            PtyQueues { pending: self.pending.push(vstd::utf8::decode_utf8(data)), ..self }
        } else {
            self
        }
    }

    /// The queues after the answer `reply` was offered: it is queued whole, or
    /// not at all where it would pass the bound.
    pub open spec fn answered(self, reply: Seq<u8>) -> PtyQueues {
        if self.replies.len() + reply.len() <= REPLY_QUEUE_MAX_BYTES {
            PtyQueues { replies: self.replies + reply, ..self }
        } else {
            self
        }
    }
}

/// The 1-based coordinate reported for the 0-based `at` on a side of `len`
/// cells: a cursor parked past the margin is reported on it.
pub open spec fn reported(at: u16, len: u16) -> nat {
    if at < len {
        (at + 1) as nat
    } else {
        len as nat
    }
}

/// The first number of the first parameter of a control sequence, or zero.
pub open spec fn first_param(params: Seq<&[u16]>) -> u16 {
    if params.len() > 0 && params[0]@.len() > 0 {
        params[0]@[0]
    } else {
        0
    }
}

/// The answer owed to the control sequence that ends in `c`, if any: the cursor
/// position for DSR 6, "ok" for DSR 5, a VT100 with advanced video for DA1.
/// Private sequences, which carry an intermediate byte, get none.
pub open spec fn answer_to(
    cursor: (u16, u16),
    size: (u16, u16),
    private: bool,
    param: u16,
    c: char,
) -> Option<Seq<u8>> {
    if private {
        None
    } else if c == 'n' && param == 6 {
        Some(
            bytes_of(
                "\x1b["@ + decimal(reported(cursor.0, size.0)) + ";"@ + decimal(
                    reported(cursor.1, size.1),
                ) + "R"@,
            ),
        )
    } else if c == 'n' && param == 5 {
        Some(bytes_of("\x1b[0n"@))
    } else if c == 'c' && param == 0 {
        Some(bytes_of("\x1b[?1;2c"@))
    } else {
        None
    }
}

fn report_coordinate(at: u16, len: u16) -> (r: u64)
    ensures
        r == reported(at, len),
{
    if at < len {
        (at + 1) as u64
    } else {
        len as u64
    }
}

#[verifier::external_type_specification]
#[verifier::external_body]
pub struct ExScreen(vt100::Screen);

/// The cursor of a screen as `Screen::cursor_position` reports it: row and
/// column, both from zero.
pub uninterp spec fn screen_cursor(screen: vt100::Screen) -> (u16, u16);

/// The size of a screen as `Screen::size` reports it: rows and columns.
pub uninterp spec fn screen_size(screen: vt100::Screen) -> (u16, u16);

/// How far a screen is scrolled back, as `Screen::scrollback` reports it.
pub uninterp spec fn screen_offset(screen: vt100::Screen) -> usize;

/// How many rows of history a screen holds.
pub uninterp spec fn screen_history(screen: vt100::Screen) -> usize;

/// Whether no character of a screen is cut in two by its right edge. A character
/// two cells wide is, once the screen is made narrower between its halves, and
/// the crate panics when that cell is written again.
pub uninterp spec fn screen_whole(screen: vt100::Screen) -> bool;

/// How many rows of history a screen keeps at most: what its emulator was made
/// with.
pub uninterp spec fn screen_limit(screen: vt100::Screen) -> usize;

/// The empty screen that an emulator of this size and history starts with.
pub uninterp spec fn screen_fresh(rows: u16, cols: u16, limit: usize) -> vt100::Screen;

/// What `Screen::set_size` makes of a screen.
pub uninterp spec fn screen_resized(screen: vt100::Screen, rows: u16, cols: u16) -> vt100::Screen;

/// What `Screen::set_scrollback` makes of a screen.
pub uninterp spec fn screen_scrolled(screen: vt100::Screen, rows: usize) -> vt100::Screen;

/// The most columns on which the crate's tab stops can be counted: the one after
/// the last must still be a column number.
pub const MAX_COLS: u16 = 65527;

/// Whether the crate can draw any character on a screen of `size`. A line that
/// wraps needs a row to go on in, and the widest character, the Khmer sign
/// U+17D8, takes three columns.
pub open spec fn drawable(size: (u16, u16)) -> bool {
    size.0 >= 2 && 3 <= size.1 <= MAX_COLS
}

/// A cursor on a screen of this size, on its edge if it would be outside.
pub open spec fn clamped_cursor(cursor: (u16, u16), rows: u16, cols: u16) -> (u16, u16) {
    (
        if cursor.0 < rows {
            cursor.0
        } else {
            (rows - 1) as u16
        },
        if cursor.1 < cols {
            cursor.1
        } else {
            (cols - 1) as u16
        },
    )
}

/// The control sequence that resets a terminal, `ESC c`.
pub open spec fn full_reset() -> Seq<u8> {
    seq![0x1bu8, 0x63u8]
}

/// `Screen::cursor_position` returns the cursor.
pub assume_specification[ vt100::Screen::cursor_position ](screen: &vt100::Screen) -> (r: (
    u16,
    u16,
))
    ensures
        r == screen_cursor(*screen),
;

/// `Screen::size` returns rows and columns.
pub assume_specification[ vt100::Screen::size ](screen: &vt100::Screen) -> (r: (u16, u16))
    ensures
        r == screen_size(*screen),
;

/// `Screen::scrollback` returns the scrollback position, zero for the live view.
pub assume_specification[ vt100::Screen::scrollback ](screen: &vt100::Screen) -> (r: usize)
    ensures
        r == screen_offset(*screen),
;

/// `Screen::set_scrollback` moves to the given position, clamped to the rows of
/// history there are, and changes nothing else of what is named here. The new
/// screen depends on the old one and the position alone.
pub assume_specification[ vt100::Screen::set_scrollback ](screen: &mut vt100::Screen, rows: usize)
    ensures
        *final(screen) == screen_scrolled(*old(screen), rows),
        screen_limit(*final(screen)) == screen_limit(*old(screen)),
        screen_offset(*final(screen)) == (if rows <= screen_history(*old(screen)) {
            rows
        } else {
            screen_history(*old(screen))
        }),
        screen_history(*final(screen)) == screen_history(*old(screen)),
        screen_cursor(*final(screen)) == screen_cursor(*old(screen)),
        screen_size(*final(screen)) == screen_size(*old(screen)),
        screen_whole(*final(screen)) == screen_whole(*old(screen)),
;

/// `Screen::set_size` resizes the screen. Neither side may be zero: the crate
/// subtracts one from both. It leaves the scrollback alone, puts a cursor that
/// would be outside on the last row or column, and cuts no character in two unless
/// it makes the screen narrower. The new screen depends on the old one and the
/// size alone.
pub assume_specification[ vt100::Screen::set_size ](
    screen: &mut vt100::Screen,
    rows: u16,
    cols: u16,
)
    requires
        rows >= 1,
        cols >= 1,
    ensures
        *final(screen) == screen_resized(*old(screen), rows, cols),
        screen_limit(*final(screen)) == screen_limit(*old(screen)),
        screen_cursor(*final(screen)) == clamped_cursor(screen_cursor(*old(screen)), rows, cols),
        screen_size(*final(screen)) == (rows, cols),
        screen_offset(*final(screen)) == screen_offset(*old(screen)),
        screen_history(*final(screen)) == screen_history(*old(screen)),
        screen_whole(*old(screen)) && cols >= screen_size(*old(screen)).1 ==> screen_whole(
            *final(screen),
        ),
;

impl PtyCallbacks {
    pub fn new() -> (r: Self)
        ensures
            r@ == PtyQueues::empty(),
    {
        broadcast use lemma_views_empty;

        PtyCallbacks { pending: Vec::new(), drops: ClipboardDrops::default(), replies: Vec::new() }
    }

    /// Queue one clipboard write for the host terminal, or count why not.
    pub fn relay_copy(&mut self, data: &[u8])
        ensures
            final(self)@ == old(self)@.copied(data@),
    {
        broadcast use {lemma_views_push, vstd::utf8::encode_utf8_decode_utf8};

        if data.len() == 0 {
            return;
        }
        if decoded_len(data) > CLIPBOARD_RELAY_MAX_BYTES {
            self.drops.oversize = bump(self.drops.oversize);
            return;
        }
        if self.pending.len() >= CLIPBOARD_RELAY_MAX_QUEUED {
            self.drops.queue_full = bump(self.drops.queue_full);
            return;
        }
        if let Some(payload) = decode_utf8(data) {
            self.pending.push(payload);
        }
    }

    /// Answer one terminal query, if it is one that is answered.
    pub fn answer_query(
        &mut self,
        cursor: (u16, u16),
        size: (u16, u16),
        private: bool,
        param: u16,
        c: char,
    )
        ensures
            final(self)@ == match answer_to(cursor, size, private, param, c) {
                Some(reply) => old(self)@.answered(reply),
                None => old(self)@,
            },
    {
        if private {
            return;
        }
        let mut reply: Vec<u8>;
        if c == 'n' && param == 6 {
            let row = to_decimal(report_coordinate(cursor.0, size.0));
            let col = to_decimal(report_coordinate(cursor.1, size.1));
            let text = cat5("\x1b[", row.as_str(), ";", col.as_str(), "R");
            reply = to_bytes(text.as_str());
        } else if c == 'n' && param == 5 {
            reply = to_bytes("\x1b[0n");
        } else if c == 'c' && param == 0 {
            reply = to_bytes("\x1b[?1;2c");
        } else {
            return;
        }
        if reply.len() <= REPLY_QUEUE_MAX_BYTES && self.replies.len() <= REPLY_QUEUE_MAX_BYTES
            - reply.len() {
            self.replies.append(&mut reply);
        }
    }
}

impl vt100::Callbacks for PtyCallbacks {
    fn copy_to_clipboard(&mut self, _screen: &mut vt100::Screen, _ty: &[u8], data: &[u8])
        ensures
            final(self)@ == old(self)@.copied(data@),
            *final(_screen) == *old(_screen),
    {
        self.relay_copy(data);
    }

    // `paste_from_clipboard` keeps its default, which does nothing: answering
    // it would let any host on the other side read the local clipboard.

    fn unhandled_csi(
        &mut self,
        screen: &mut vt100::Screen,
        i1: Option<u8>,
        _i2: Option<u8>,
        params: &[&[u16]],
        c: char,
    )
        ensures
            final(self)@ == match answer_to(
                screen_cursor(*old(screen)),
                screen_size(*old(screen)),
                i1 is Some,
                first_param(params@),
                c,
            ) {
                Some(reply) => old(self)@.answered(reply),
                None => old(self)@,
            },
            *final(screen) == *old(screen),
    {
        let param: u16 = if params.len() > 0 && params[0].len() > 0 {
            params[0][0]
        } else {
            0
        };
        self.answer_query(screen.cursor_position(), screen.size(), i1.is_some(), param, c);
    }
}

/// The `vt100` parser with its screen and the callbacks it reports to. It stands
/// apart because a parser is generic over the crate's own callback trait.
#[verifier::external_body]
pub struct Emulator {
    inner: vt100::Parser<PtyCallbacks>,
}

/// The screen inside an emulator.
pub uninterp spec fn emulator_screen(emulator: Emulator) -> vt100::Screen;

/// The callbacks inside an emulator.
pub uninterp spec fn emulator_callbacks(emulator: Emulator) -> PtyCallbacks;

/// What an emulator becomes by reading `bytes`: the terminal emulation itself.
pub uninterp spec fn emulator_after(emulator: Emulator, bytes: Seq<u8>) -> Emulator;

impl Emulator {
    /// `Parser::new_with_callbacks`: an empty screen of the given size, in the
    /// live view, with no history but room for the given number of rows, around
    /// the given callbacks. The crate subtracts one from the number of rows, so
    /// there must be one.
    #[verifier::external_body]
    fn new_with_callbacks(rows: u16, cols: u16, history: usize, callbacks: PtyCallbacks) -> (r: Self)
        requires
            rows >= 1,
        ensures
            emulator_callbacks(r) == callbacks,
            emulator_screen(r) == screen_fresh(rows, cols, history),
            screen_limit(emulator_screen(r)) == history,
            screen_size(emulator_screen(r)) == (rows, cols),
            screen_cursor(emulator_screen(r)) == (0u16, 0u16),
            screen_offset(emulator_screen(r)) == 0,
            screen_history(emulator_screen(r)) == 0,
            screen_whole(emulator_screen(r)),
    {
        Emulator { inner: vt100::Parser::new_with_callbacks(rows, cols, history, callbacks) }
    }

    /// `Parser::process`: the emulator reads `bytes`. It reaches the callbacks
    /// only through the two methods implemented above, so what both of them keep
    /// is kept; the size of the screen and the room for its history never change,
    /// the history stays within that room, and no character is cut in two. The screen must be one that any character can be drawn on; but a full
    /// reset draws nothing, breaks off whatever sequence was begun and puts an
    /// empty screen of the same size in place of any other.
    #[verifier::external_body]
    fn process(&mut self, bytes: &[u8])
        requires
            screen_size(emulator_screen(*old(self))).0 >= 1,
            bytes@ == full_reset() || drawable(screen_size(emulator_screen(*old(self))))
                && screen_whole(emulator_screen(*old(self))),
        ensures
            screen_whole(emulator_screen(*final(self))),
            screen_limit(emulator_screen(*final(self))) == screen_limit(
                emulator_screen(*old(self)),
            ),
            screen_history(emulator_screen(*final(self))) <= screen_limit(
                emulator_screen(*final(self)),
            ),
            bytes@ == full_reset() ==> {
                &&& emulator_screen(*final(self)) == screen_fresh(
                    screen_size(emulator_screen(*old(self))).0,
                    screen_size(emulator_screen(*old(self))).1,
                    screen_limit(emulator_screen(*old(self))),
                )
                &&& screen_cursor(emulator_screen(*final(self))) == (0u16, 0u16)
                &&& screen_offset(emulator_screen(*final(self))) == 0
                &&& screen_history(emulator_screen(*final(self))) == 0
            },
            *final(self) == emulator_after(*old(self), bytes@),
            emulator_callbacks(*old(self))@.bounded() ==> emulator_callbacks(
                *final(self),
            )@.bounded(),
            screen_size(emulator_screen(*final(self))) == screen_size(emulator_screen(*old(self))),
    {
        self.inner.process(bytes);
    }

    /// `Parser::screen`: the screen, to read.
    #[verifier::external_body]
    fn screen(&self) -> (r: &vt100::Screen)
        ensures
            *r == emulator_screen(*self),
    {
        self.inner.screen()
    }

    /// `Parser::screen_mut`: the screen, to change; the callbacks stay.
    #[verifier::external_body]
    fn screen_mut(&mut self) -> (r: &mut vt100::Screen)
        ensures
            *r == emulator_screen(*old(self)),
            emulator_screen(*final(self)) == *final(r),
            emulator_callbacks(*final(self)) == emulator_callbacks(*old(self)),
    {
        self.inner.screen_mut()
    }

    /// `Parser::callbacks_mut`: the callbacks, to change; the screen stays.
    #[verifier::external_body]
    fn callbacks_mut(&mut self) -> (r: &mut PtyCallbacks)
        ensures
            *r == emulator_callbacks(*old(self)),
            emulator_callbacks(*final(self)) == *final(r),
            emulator_screen(*final(self)) == emulator_screen(*old(self)),
    {
        self.inner.callbacks_mut()
    }
}

/// One session's terminal.
pub struct ParserState {
    inner: Emulator,
    /// The screen was made narrower since it was last empty, so that a character
    /// may have been cut in two.
    narrowed: bool,
}

impl ParserState {
    /// What waits to be taken.
    pub closed spec fn queues(&self) -> PtyQueues {
        emulator_callbacks(self.inner)@
    }

    /// The screen.
    pub closed spec fn screen_spec(&self) -> vt100::Screen {
        emulator_screen(self.inner)
    }

    /// Whether the screen was made narrower since it was last empty.
    pub closed spec fn narrowed(&self) -> bool {
        self.narrowed
    }

    /// A screen that was not made narrower is whole.
    pub open spec fn wf(&self) -> bool {
        !self.narrowed() ==> screen_whole(self.screen_spec())
    }

    /// The emulator behind the session.
    pub closed spec fn emulator(&self) -> Emulator {
        self.inner
    }

    pub fn new(rows: u16, cols: u16) -> (r: Self)
        requires
            rows >= 1,
        ensures
            r.queues() == PtyQueues::empty(),
            r.queues().bounded(),
            r.screen_spec() == screen_fresh(rows, cols, SCROLLBACK_ROWS),
            screen_limit(r.screen_spec()) == SCROLLBACK_ROWS,
            screen_size(r.screen_spec()) == (rows, cols),
            screen_cursor(r.screen_spec()) == (0u16, 0u16),
            screen_offset(r.screen_spec()) == 0,
            screen_history(r.screen_spec()) == 0,
            screen_whole(r.screen_spec()),
            !r.narrowed(),
            r.wf(),
    {
        ParserState {
            inner: Emulator::new_with_callbacks(rows, cols, SCROLLBACK_ROWS, PtyCallbacks::new()),
            narrowed: false,
        }
    }

    /// Take the answers to terminal queries seen since the last call.
    pub fn take_replies(&mut self) -> (r: Vec<u8>)
        ensures
            r@ == old(self).queues().replies,
            final(self).queues() == (PtyQueues { replies: Seq::empty(), ..old(self).queues() }),
            final(self).screen_spec() == old(self).screen_spec(),
            final(self).narrowed() == old(self).narrowed(),
    {
        let mut out: Vec<u8> = Vec::new();
        core::mem::swap(&mut out, &mut self.inner.callbacks_mut().replies);
        out
    }

    /// Take the drops recorded since the last call, resetting the counters.
    pub fn take_clipboard_drops(&mut self) -> (r: ClipboardDrops)
        ensures
            r == old(self).queues().drops,
            final(self).queues() == (PtyQueues {
                drops: ClipboardDrops { oversize: 0, queue_full: 0 },
                ..old(self).queues()
            }),
            final(self).screen_spec() == old(self).screen_spec(),
            final(self).narrowed() == old(self).narrowed(),
    {
        let mut out = ClipboardDrops::default();
        core::mem::swap(&mut out, &mut self.inner.callbacks_mut().drops);
        out
    }

    /// Take the clipboard writes seen since the last call. Each entry is a
    /// base64 payload ready for the host terminal.
    pub fn take_clipboard_writes(&mut self) -> (r: Vec<String>)
        ensures
            views(r@) == old(self).queues().pending,
            final(self).queues() == (PtyQueues { pending: Seq::empty(), ..old(self).queues() }),
            final(self).screen_spec() == old(self).screen_spec(),
            final(self).narrowed() == old(self).narrowed(),
    {
        broadcast use lemma_views_empty;

        let mut out: Vec<String> = Vec::new();
        core::mem::swap(&mut out, &mut self.inner.callbacks_mut().pending);
        out
    }

    /// Read bytes from the PTY. The queues stay within their bounds.
    pub fn process(&mut self, bytes: &[u8])
        requires
            drawable(screen_size(old(self).screen_spec())),
            screen_whole(old(self).screen_spec()),
        ensures
            screen_whole(final(self).screen_spec()),
            final(self).emulator() == emulator_after(old(self).emulator(), bytes@),
            old(self).queues().bounded() ==> final(self).queues().bounded(),
            screen_size(final(self).screen_spec()) == screen_size(old(self).screen_spec()),
            screen_limit(final(self).screen_spec()) == screen_limit(old(self).screen_spec()),
            screen_history(final(self).screen_spec()) <= screen_limit(final(self).screen_spec()),
            final(self).narrowed() == old(self).narrowed(),
            final(self).wf(),
    {
        self.inner.process(bytes);
    }

    /// Whether bytes can be read: any character can be drawn, and none has been
    /// cut in two by a narrower window.
    pub open spec fn readable(&self) -> bool {
        drawable(screen_size(self.screen_spec())) && !self.narrowed()
    }

    /// Read bytes from the PTY if the screen is ready for them. Where it is not,
    /// nothing changes; [`ParserState::reset`] makes a narrowed screen ready.
    pub fn read(&mut self, bytes: &[u8]) -> (r: bool)
        requires
            old(self).wf(),
        ensures
            r == old(self).readable(),
            r ==> final(self).emulator() == emulator_after(old(self).emulator(), bytes@),
            r ==> screen_whole(final(self).screen_spec()),
            r ==> screen_size(final(self).screen_spec()) == screen_size(old(self).screen_spec()),
            r ==> screen_history(final(self).screen_spec()) <= screen_limit(
                final(self).screen_spec(),
            ),
            screen_limit(final(self).screen_spec()) == screen_limit(old(self).screen_spec()),
            r && old(self).queues().bounded() ==> final(self).queues().bounded(),
            !r ==> *final(self) == *old(self),
            final(self).narrowed() == old(self).narrowed(),
            final(self).wf(),
    {
        let (rows, cols) = self.inner.screen().size();
        if self.narrowed || rows < 2 || cols < 3 || cols > MAX_COLS {
            return false;
        }
        self.process(bytes);
        true
    }

    /// Reset the terminal: an empty screen of the same size. Whatever a narrower
    /// window cut in two is gone, so that bytes can be read again.
    pub fn reset(&mut self)
        requires
            screen_size(old(self).screen_spec()).0 >= 1,
        ensures
            final(self).screen_spec() == screen_fresh(
                screen_size(old(self).screen_spec()).0,
                screen_size(old(self).screen_spec()).1,
                screen_limit(old(self).screen_spec()),
            ),
            screen_limit(final(self).screen_spec()) == screen_limit(old(self).screen_spec()),
            screen_whole(final(self).screen_spec()),
            screen_size(final(self).screen_spec()) == screen_size(old(self).screen_spec()),
            screen_cursor(final(self).screen_spec()) == (0u16, 0u16),
            screen_offset(final(self).screen_spec()) == 0,
            screen_history(final(self).screen_spec()) == 0,
            final(self).emulator() == emulator_after(old(self).emulator(), full_reset()),
            old(self).queues().bounded() ==> final(self).queues().bounded(),
            !final(self).narrowed(),
            final(self).wf(),
    {
        let bytes: Vec<u8> = vec![0x1b, 0x63];
        assert(bytes@ =~= full_reset());
        self.inner.process(bytes.as_slice());
        self.narrowed = false;
    }

    pub fn set_size(&mut self, rows: u16, cols: u16)
        requires
            rows >= 1,
            cols >= 1,
        ensures
            final(self).screen_spec() == screen_resized(old(self).screen_spec(), rows, cols),
            screen_limit(final(self).screen_spec()) == screen_limit(old(self).screen_spec()),
            screen_cursor(final(self).screen_spec()) == clamped_cursor(
                screen_cursor(old(self).screen_spec()),
                rows,
                cols,
            ),
            screen_size(final(self).screen_spec()) == (rows, cols),
            screen_offset(final(self).screen_spec()) == screen_offset(old(self).screen_spec()),
            screen_history(final(self).screen_spec()) == screen_history(old(self).screen_spec()),
            screen_whole(old(self).screen_spec()) && cols >= screen_size(
                old(self).screen_spec(),
            ).1 ==> screen_whole(final(self).screen_spec()),
            final(self).queues() == old(self).queues(),
            final(self).narrowed() == (old(self).narrowed() || cols < screen_size(
                old(self).screen_spec(),
            ).1),
            old(self).wf() ==> final(self).wf(),
    {
        if cols < self.inner.screen().size().1 {
            self.narrowed = true;
        }
        self.inner.screen_mut().set_size(rows, cols);
    }

    pub fn screen(&self) -> (r: &vt100::Screen)
        ensures
            *r == self.screen_spec(),
    {
        self.inner.screen()
    }

    /// Current scrollback offset (0 = pinned to bottom).
    pub fn scrollback(&self) -> (r: usize)
        ensures
            r == screen_offset(self.screen_spec()),
    {
        self.inner.screen().scrollback()
    }

    /// The view moved to `rows` back from the live view, or to the oldest row.
    pub open spec fn scrolled_to(self, before: ParserState, rows: int) -> bool {
        &&& screen_offset(self.screen_spec()) == if rows <= screen_history(before.screen_spec()) {
            rows
        } else {
            screen_history(before.screen_spec()) as int
        }
        &&& self.screen_spec() == screen_scrolled(
            before.screen_spec(),
            if rows > usize::MAX {
                usize::MAX
            } else {
                rows as usize
            },
        )
        &&& screen_limit(self.screen_spec()) == screen_limit(before.screen_spec())
        &&& screen_history(self.screen_spec()) == screen_history(before.screen_spec())
        &&& screen_cursor(self.screen_spec()) == screen_cursor(before.screen_spec())
        &&& screen_size(self.screen_spec()) == screen_size(before.screen_spec())
        &&& screen_whole(self.screen_spec()) == screen_whole(before.screen_spec())
        &&& self.narrowed() == before.narrowed()
        &&& self.queues() == before.queues()
    }

    pub fn set_scrollback(&mut self, rows: usize)
        ensures
            final(self).scrolled_to(*old(self), rows as int),
    {
        self.inner.screen_mut().set_scrollback(rows);
    }

    /// Bump the scrollback offset up by `rows` (showing older content).
    pub fn scroll_up(&mut self, rows: usize)
        ensures
            final(self).scrolled_to(*old(self), screen_offset(old(self).screen_spec()) + rows),
    {
        let now: usize = self.scrollback();
        let next: usize = if rows <= usize::MAX - now {
            now + rows
        } else {
            usize::MAX
        };
        self.set_scrollback(next);
    }

    /// Reduce the scrollback offset by `rows` (toward the live view).
    pub fn scroll_down(&mut self, rows: usize)
        ensures
            final(self).scrolled_to(
                *old(self),
                if rows <= screen_offset(old(self).screen_spec()) {
                    screen_offset(old(self).screen_spec()) - rows
                } else {
                    0
                },
            ),
    {
        let now: usize = self.scrollback();
        let next: usize = if rows <= now {
            now - rows
        } else {
            0
        };
        self.set_scrollback(next);
    }

    pub fn snap_to_bottom(&mut self)
        ensures
            final(self).scrolled_to(*old(self), 0),
            screen_offset(final(self).screen_spec()) == 0,
    {
        self.inner.screen_mut().set_scrollback(0);
    }
}

/// However a remote behaves, what waits between two drains is bounded: a copy
/// request leaves bounded queues bounded.
pub proof fn copy_keeps_queues_bounded(queues: PtyQueues, data: Seq<u8>)
    requires
        queues.bounded(),
    ensures
        queues.copied(data).bounded(),
{
    broadcast use vstd::utf8::decode_utf8_encode_utf8;

}

/// However a remote behaves, what waits between two drains is bounded: an
/// answer leaves bounded queues bounded.
pub proof fn answer_keeps_queues_bounded(queues: PtyQueues, reply: Seq<u8>)
    requires
        queues.bounded(),
    ensures
        queues.answered(reply).bounded(),
{
}

/// A huge write is reported as oversize even when the queue is full as well.
pub proof fn oversize_is_named_first(queues: PtyQueues, data: Seq<u8>)
    requires
        decoded_size(data) > CLIPBOARD_RELAY_MAX_BYTES,
    ensures
        queues.copied(data).drops.oversize == bumped(queues.drops.oversize),
        queues.copied(data).drops.queue_full == queues.drops.queue_full,
        queues.copied(data).pending == queues.pending,
{
}

/// A queued payload is exactly the bytes that were copied, behind everything
/// queued before it.
pub proof fn queued_payload_is_verbatim(queues: PtyQueues, data: Seq<u8>)
    requires
        0 < data.len(),
        decoded_size(data) <= CLIPBOARD_RELAY_MAX_BYTES,
        queues.pending.len() < CLIPBOARD_RELAY_MAX_QUEUED,
        vstd::utf8::valid_utf8(data),
    ensures
        queues.copied(data).pending.drop_last() == queues.pending,
        vstd::utf8::encode_utf8(queues.copied(data).pending.last()) == data,
        queues.copied(data).drops == queues.drops,
{
    broadcast use vstd::utf8::decode_utf8_encode_utf8;

    assert(queues.copied(data).pending.drop_last() =~= queues.pending);
}

/// The position reported for a cursor is a cell of the screen, wherever the
/// emulator has parked the cursor.
pub proof fn reported_position_is_on_screen(at: u16, len: u16)
    requires
        len >= 1,
    ensures
        1 <= reported(at, len) <= len,
        at < len ==> reported(at, len) == at + 1,
{
}

/// Scrolling up and then down by the same amount returns to where the view was,
/// as long as the history reaches that far.
pub proof fn scroll_up_then_down(before: ParserState, up: ParserState, down: ParserState, rows: nat)
    requires
        screen_offset(before.screen_spec()) + rows <= screen_history(before.screen_spec()),
        up.scrolled_to(before, screen_offset(before.screen_spec()) + rows),
        down.scrolled_to(up, screen_offset(up.screen_spec()) - rows),
    ensures
        screen_offset(down.screen_spec()) == screen_offset(before.screen_spec()),
{
}

} // verus!
