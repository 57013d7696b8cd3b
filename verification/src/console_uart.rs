//! Console seams: command sources, response sinks, and the fixed-capacity
//! framing buffer between a byte transport and the control protocol.
use vstd::prelude::*;
use crate::framing::{
    decode_command, encode_response, spec_decode_command, spec_find_byte,
    spec_response_text, FrameError, FRAME_TERMINATOR,
};
use crate::messages::{Command, Response};
use crate::usb_host::next_count;

verus! {

/// Fixed-capacity RX buffer size for framed console bytes.
pub const RX_BUFFER_CAPACITY: usize = 128;

/// Fixed-capacity TX buffer size for framed console bytes.
pub const TX_BUFFER_CAPACITY: usize = 128;

/// Errors that can occur when using the console boundary.
#[derive(Debug, Clone, Copy, PartialEq, Eq, Structural)]
pub enum ConsoleError {
    /// The console transport is not ready.
    NotReady,
    /// A transport-level failure occurred.
    Transport,
}

/// Command ingress boundary.
///
/// An implementation describes its behaviour through `poll_effect`; by
/// default it promises nothing.
pub trait CommandSource {
    /// Whether a poll may turn this source into `after` and return `command`.
    open spec fn poll_effect(&self, after: &Self, command: Option<Command>) -> bool {
        true
    }

    /// Returns the next available command, if any.
    fn poll_command(&mut self) -> (r: Option<Command>)
        ensures
            old(self).poll_effect(&*final(self), r),
    ;
}

/// Response egress boundary.
///
/// An implementation describes its behaviour through `send_effect`; by
/// default it promises nothing.
pub trait ResponseSink {
    /// Whether sending `response` may turn this sink into `after` and answer `result`.
    open spec fn send_effect(&self, after: &Self, response: Response, result: Result<(), ConsoleError>) -> bool {
        true
    }

    /// Sends a typed protocol response.
    fn send_response(&mut self, response: Response) -> (r: Result<(), ConsoleError>)
        ensures
            old(self).send_effect(&*final(self), response, r),
    ;
}

/// Errors that can occur while buffering or framing console traffic.
#[derive(Debug, Clone, Copy, PartialEq, Eq, Structural)]
pub enum FrameBufferError {
    /// Appending bytes to RX would exceed the fixed RX buffer.
    RxOverflow {
        /// The total RX length that was attempted.
        attempted: usize,
        /// The maximum RX buffer capacity.
        max: usize,
    },
    /// Appending bytes to TX would exceed the fixed TX buffer.
    TxOverflow {
        /// The total TX length that was attempted.
        attempted: usize,
        /// The maximum TX buffer capacity.
        max: usize,
    },
    /// Decoding a newline-terminated command frame failed.
    Decode(FrameError),
    /// Encoding a typed response frame failed.
    Encode(FrameError),
}

/// Fixed-capacity RX/TX framing buffer between a byte transport and the
/// control protocol.
#[derive(Debug, Clone, Copy, PartialEq, Eq)]
pub struct FramedConsoleBuffer {
    rx: [u8; 128],
    rx_len: usize,
    tx: [u8; 128],
    tx_len: usize,
}

/// The storage after dropping the first `consumed` of its first `len` bytes:
/// the rest of those bytes move to the front and the tail stays as it was.
pub open spec fn spec_consume(storage: Seq<u8>, len: int, consumed: int) -> Seq<u8> {
    if consumed >= len {
        storage
    } else {
        storage.subrange(consumed, len) + storage.subrange(len - consumed, storage.len() as int)
    }
}

/// What appending `input` to RX of `before` does: input that would overflow
/// RX changes nothing and is refused; otherwise it is appended in full.
pub open spec fn push_effect(
    before: FramedConsoleBuffer,
    after: FramedConsoleBuffer,
    input: Seq<u8>,
    r: Result<(), FrameBufferError>,
) -> bool {
    let attempted = before.rx_content().len() + input.len();
    &&& attempted > 128 ==> r == Err::<(), FrameBufferError>(
        FrameBufferError::RxOverflow { attempted: attempted as usize, max: 128 },
    ) && after == before
    &&& attempted <= 128 ==> {
        &&& r is Ok
        &&& after.rx_content() == before.rx_content() + input
        &&& after.rx_storage() == before.rx_content() + input + before.rx_storage().skip(attempted as int)
        &&& after.tx_content() == before.tx_content()
        &&& after.tx_storage() == before.tx_storage()
    }
}

/// What decoding one frame from `before` does: with no terminator buffered
/// nothing changes; otherwise the bytes up to and including the first
/// terminator are decoded and dropped from RX.
pub open spec fn decode_effect(
    before: FramedConsoleBuffer,
    after: FramedConsoleBuffer,
    r: Result<Option<Command>, FrameBufferError>,
) -> bool {
    match spec_find_byte(before.rx_content(), FRAME_TERMINATOR, 0) {
        None => r == Ok::<Option<Command>, FrameBufferError>(None) && after == before,
        Some(p) => {
            &&& r == match spec_decode_command(before.rx_content().take(p + 1)) {
                Ok(command) => Ok::<Option<Command>, FrameBufferError>(Some(command)),
                Err(e) => Err(FrameBufferError::Decode(e)),
            }
            &&& after.rx_content() == before.rx_content().skip(p + 1)
            &&& after.rx_storage() == spec_consume(
                before.rx_storage(),
                before.rx_content().len() as int,
                p + 1,
            )
            &&& after.tx_content() == before.tx_content()
            &&& after.tx_storage() == before.tx_storage()
        },
    }
}

/// What queueing `response` on `before` does: a response longer than a frame
/// or one that does not fit in TX changes nothing and is refused; otherwise
/// its frame is appended to TX.
pub open spec fn queue_effect(
    before: FramedConsoleBuffer,
    after: FramedConsoleBuffer,
    response: Response,
    r: Result<(), FrameBufferError>,
) -> bool {
    let text = spec_response_text(response);
    let queued = before.tx_content();
    &&& text.len() > 96 ==> r == Err::<(), FrameBufferError>(
        FrameBufferError::Encode(
            FrameError::TooLong { attempted: text.len() as usize, max: 96 },
        ),
    ) && after == before
    &&& text.len() <= 96 && queued.len() + text.len() > 128 ==> r == Err::<
        (),
        FrameBufferError,
    >(
        FrameBufferError::TxOverflow {
            attempted: (queued.len() + text.len()) as usize,
            max: 128,
        },
    ) && after == before
    &&& text.len() <= 96 && queued.len() + text.len() <= 128 ==> {
        &&& r is Ok
        &&& after.tx_content() == queued + text
        &&& after.tx_storage() == queued + text + before.tx_storage().skip(
            (queued.len() + text.len()) as int,
        )
        &&& after.rx_content() == before.rx_content()
        &&& after.rx_storage() == before.rx_storage()
    }
}

/// Searching the bytes after the first `k` from `from` finds what searching
/// the whole sequence from `from + k` finds, shifted by `k`.
proof fn lemma_find_after_skip(c: Seq<u8>, b: u8, k: int, from: int)
    requires
        0 <= k <= c.len(),
        0 <= from,
    ensures
        spec_find_byte(c.skip(k), b, from) == match spec_find_byte(c, b, from + k) {
            Some(i) => Some(i - k),
            None => None::<int>,
        },
    decreases c.len() - k - from,
{
    if from < c.len() - k && c.skip(k)[from] != b {
        lemma_find_after_skip(c, b, k, from + 1);
    }
}

/// Frames leave the RX buffer in the order they arrived: with two
/// terminators buffered at `first` and `second`, two decodes answer the
/// first frame and then the next, and only the bytes after the second
/// terminator stay buffered.
pub proof fn lemma_frames_decode_in_order(
    b0: FramedConsoleBuffer,
    b1: FramedConsoleBuffer,
    b2: FramedConsoleBuffer,
    r1: Result<Option<Command>, FrameBufferError>,
    r2: Result<Option<Command>, FrameBufferError>,
    first: int,
    second: int,
)
    requires
        spec_find_byte(b0.rx_content(), FRAME_TERMINATOR, 0) == Some(first),
        spec_find_byte(b0.rx_content(), FRAME_TERMINATOR, first + 1) == Some(second),
        decode_effect(b0, b1, r1),
        decode_effect(b1, b2, r2),
    ensures
        r1 == match spec_decode_command(b0.rx_content().take(first + 1)) {
            Ok(command) => Ok::<Option<Command>, FrameBufferError>(Some(command)),
            Err(e) => Err(FrameBufferError::Decode(e)),
        },
        r2 == match spec_decode_command(b0.rx_content().subrange(first + 1, second + 1)) {
            Ok(command) => Ok::<Option<Command>, FrameBufferError>(Some(command)),
            Err(e) => Err(FrameBufferError::Decode(e)),
        },
        b2.rx_content() == b0.rx_content().skip(second + 1),
{
    let c = b0.rx_content();
    crate::framing::lemma_find_byte_range(c, FRAME_TERMINATOR, 0);
    crate::framing::lemma_find_byte_range(c, FRAME_TERMINATOR, first + 1);
    lemma_find_after_skip(c, FRAME_TERMINATOR, first + 1, 0);
    assert(b1.rx_content() == c.skip(first + 1));
    let p = second - first - 1;
    assert(spec_find_byte(b1.rx_content(), FRAME_TERMINATOR, 0) == Some(p));
    assert(b1.rx_content().take(p + 1) =~= c.subrange(first + 1, second + 1));
    assert(b1.rx_content().skip(p + 1) =~= c.skip(second + 1));
}

fn consume_prefix(buffer: [u8; 128], len: usize, consumed: usize) -> (r: ([u8; 128], usize))
    requires
        len <= 128,
    ensures
        r.0@ == spec_consume(buffer@, len as int, consumed as int),
        r.1 == if consumed >= len {
            0
        } else {
            len - consumed
        },
{
    if consumed >= len {
        return (buffer, 0);
    }
    let mut out = buffer;
    let mut i: usize = 0;
    let count = len - consumed;
    while i < count
        invariant
            len <= 128,
            consumed < len,
            count == len - consumed,
            i <= count,
            out@.len() == 128,
            forall|k: int| 0 <= k < i ==> out@[k] == buffer@[k + consumed],
            forall|k: int| i <= k < 128 ==> out@[k] == buffer@[k],
        decreases count - i,
    {
        out[i] = buffer[i + consumed];
        i = i + 1;
    }
    assert(out@ =~= spec_consume(buffer@, len as int, consumed as int));
    (out, count)
}

impl FramedConsoleBuffer {
    #[verifier::type_invariant]
    spec fn lengths_in_range(self) -> bool {
        self.rx_len <= 128 && self.tx_len <= 128
    }

    /// The buffered RX bytes.
    pub closed spec fn rx_content(self) -> Seq<u8> {
        self.rx@.take(if self.rx_len <= 128 { self.rx_len as int } else { 128 })
    }

    /// The queued TX bytes.
    pub closed spec fn tx_content(self) -> Seq<u8> {
        self.tx@.take(if self.tx_len <= 128 { self.tx_len as int } else { 128 })
    }

    /// The whole RX storage, including stale bytes past the buffered ones.
    pub closed spec fn rx_storage(self) -> Seq<u8> {
        self.rx@
    }

    /// The whole TX storage, including stale bytes past the queued ones.
    pub closed spec fn tx_storage(self) -> Seq<u8> {
        self.tx@
    }

    /// Both buffers hold at most their capacity.
    pub proof fn lemma_lengths(self)
        ensures
            self.rx_content().len() <= 128,
            self.tx_content().len() <= 128,
            self.rx_storage().len() == 128,
            self.tx_storage().len() == 128,
            self.rx_content() == self.rx_storage().take(self.rx_content().len() as int),
            self.tx_content() == self.tx_storage().take(self.tx_content().len() as int),
    {
    }

    /// Creates an empty framed console buffer with zeroed RX and TX storage.
    pub fn new() -> (r: Self)
        ensures
            r.rx_content() == Seq::<u8>::empty(),
            r.tx_content() == Seq::<u8>::empty(),
            r.rx_storage() == Seq::new(128, |i: int| 0u8),
            r.tx_storage() == Seq::new(128, |i: int| 0u8),
    {
        let r = FramedConsoleBuffer { rx: [0u8;128], rx_len: 0, tx: [0u8;128], tx_len: 0 };
        assert(r.rx_storage() =~= Seq::new(128, |i: int| 0u8));
        assert(r.tx_storage() =~= Seq::new(128, |i: int| 0u8));
        assert(r.rx_content() =~= Seq::<u8>::empty());
        assert(r.tx_content() =~= Seq::<u8>::empty());
        r
    }

    /// Returns the number of valid bytes currently buffered in RX.
    pub fn rx_len(&self) -> (r: usize)
        ensures
            r == self.rx_content().len(),
    {
        proof {
            use_type_invariant(self);
        }
        self.rx_len
    }

    /// Returns the number of valid bytes currently buffered in TX.
    pub fn tx_len(&self) -> (r: usize)
        ensures
            r == self.tx_content().len(),
    {
        proof {
            use_type_invariant(self);
        }
        self.tx_len
    }

    /// Returns the valid queued TX bytes without trailing zeroes.
    pub fn tx_bytes(&self) -> (r: &[u8])
        ensures
            r@ == self.tx_content(),
    {
        proof {
            use_type_invariant(self);
        }
        vstd::slice::slice_subrange(self.tx.as_slice(), 0, self.tx_len)
    }

    /// Clears the RX buffer length without overwriting prior bytes.
    pub fn clear_rx(&mut self)
        ensures
            final(self).rx_content() == Seq::<u8>::empty(),
            final(self).rx_storage() == old(self).rx_storage(),
            final(self).tx_content() == old(self).tx_content(),
            final(self).tx_storage() == old(self).tx_storage(),
    {
        proof {
            use_type_invariant(&*self);
        }
        self.rx_len = 0;
        assert(self.rx_content() =~= Seq::<u8>::empty());
    }

    /// Clears the TX buffer length without overwriting prior bytes.
    pub fn clear_tx(&mut self)
        ensures
            final(self).tx_content() == Seq::<u8>::empty(),
            final(self).tx_storage() == old(self).tx_storage(),
            final(self).rx_content() == old(self).rx_content(),
            final(self).rx_storage() == old(self).rx_storage(),
    {
        proof {
            use_type_invariant(&*self);
        }
        self.tx_len = 0;
        assert(self.tx_content() =~= Seq::<u8>::empty());
    }

    /// Appends raw bytes into the RX buffer without partial writes.
    pub fn push_rx_bytes(&mut self, input: &[u8]) -> (r: Result<(), FrameBufferError>)
        requires
            old(self).rx_content().len() + input@.len() <= usize::MAX,
        ensures
            push_effect(*old(self), *final(self), input@, r),
    {
        proof {
            use_type_invariant(&*self);
        }
        let attempted = self.rx_len + input.len();
        if attempted > RX_BUFFER_CAPACITY {
            return Err(FrameBufferError::RxOverflow { attempted, max: RX_BUFFER_CAPACITY });
        }
        let ghost start = self.rx@;
        let base = self.rx_len;
        let mut rx = self.rx;
        let mut i: usize = 0;
        while i < input.len()
            invariant
                base + input@.len() <= 128,
                i <= input@.len(),
                rx@.len() == 128,
                forall|k: int| 0 <= k < base ==> rx@[k] == start[k],
                forall|k: int| base <= k < base + i ==> rx@[k] == input@[k - base],
                forall|k: int| base + i <= k < 128 ==> rx@[k] == start[k],
            decreases input@.len() - i,
        {
            rx[base + i] = input[i];
            i = i + 1;
        }
        self.rx = rx;
        self.rx_len = attempted;
        assert(self.rx_content() =~= old(self).rx_content() + input@);
        assert(self.rx_storage() =~= old(self).rx_content() + input@ + start.skip(base + input@.len()));
        Ok(())
    }

    /// Attempts to decode one newline-terminated command frame from RX.
    pub fn try_decode_command(&mut self) -> (r: Result<Option<Command>, FrameBufferError>)
        ensures
            decode_effect(*old(self), *final(self), r),
    {
        proof {
            use_type_invariant(&*self);
        }
        let buffered = vstd::slice::slice_subrange(self.rx.as_slice(), 0, self.rx_len);
        let frame_len = match find_terminator(buffered) {
            Some(index) => index + 1,
            None => {
                return Ok(None);
            },
        };
        let frame = vstd::slice::slice_subrange(buffered, 0, frame_len);
        assert(frame@ =~= buffered@.take(frame_len as int));
        let decoded = decode_command(frame);
        let (rx, rx_len) = consume_prefix(self.rx, self.rx_len, frame_len);
        let ghost old_content = buffered@;
        self.rx = rx;
        self.rx_len = rx_len;
        assert(self.rx_content() =~= old_content.skip(frame_len as int));
        match decoded {
            Ok(command) => Ok(Some(command)),
            Err(error) => Err(FrameBufferError::Decode(error)),
        }
    }

    /// Encodes and appends one typed response frame into TX.
    pub fn queue_response(&mut self, response: Response) -> (r: Result<(), FrameBufferError>)
        requires
            spec_response_text(response).len() <= usize::MAX,
        ensures
            queue_effect(*old(self), *final(self), response, r),
    {
        proof {
            use_type_invariant(&*self);
        }
        let encoded = match encode_response(response) {
            Ok(frame) => frame,
            Err(error) => {
                return Err(FrameBufferError::Encode(error));
            },
        };
        let bytes = encoded.as_bytes();
        let attempted = self.tx_len + bytes.len();
        if attempted > TX_BUFFER_CAPACITY {
            return Err(FrameBufferError::TxOverflow { attempted, max: TX_BUFFER_CAPACITY });
        }
        let ghost start = self.tx@;
        let base = self.tx_len;
        let mut tx = self.tx;
        let mut i: usize = 0;
        while i < bytes.len()
            invariant
                base + bytes@.len() <= 128,
                i <= bytes@.len(),
                tx@.len() == 128,
                forall|k: int| 0 <= k < base ==> tx@[k] == start[k],
                forall|k: int| base <= k < base + i ==> tx@[k] == bytes@[k - base],
                forall|k: int| base + i <= k < 128 ==> tx@[k] == start[k],
            decreases bytes@.len() - i,
        {
            tx[base + i] = bytes[i];
            i = i + 1;
        }
        self.tx = tx;
        self.tx_len = attempted;
        assert(self.tx_content() =~= old(self).tx_content() + bytes@);
        assert(self.tx_storage() =~= old(self).tx_content() + bytes@ + start.skip(base + bytes@.len()));
        Ok(())
    }

    /// Drains as many queued TX bytes as will fit into the provided output buffer.
    pub fn drain_tx_into(&mut self, out: &mut [u8]) -> (r: usize)
        ensures
            r == if old(self).tx_content().len() < old(out)@.len() {
                old(self).tx_content().len()
            } else {
                old(out)@.len()
            },
            final(out)@ == old(self).tx_content().take(r as int) + old(out)@.skip(r as int),
            final(self).tx_content() == old(self).tx_content().skip(r as int),
            r > 0 ==> final(self).tx_storage() == spec_consume(
                old(self).tx_storage(),
                old(self).tx_content().len() as int,
                r as int,
            ),
            r == 0 ==> *final(self) == *old(self),
            final(self).rx_content() == old(self).rx_content(),
            final(self).rx_storage() == old(self).rx_storage(),
    {
        proof {
            use_type_invariant(&*self);
        }
        if self.tx_len == 0 || out.len() == 0 {
            assert(old(self).tx_content().take(0) + old(out)@.skip(0) =~= old(out)@);
            assert(old(self).tx_content().skip(0) =~= old(self).tx_content());
            return 0;
        }
        let copy_len = if self.tx_len < out.len() {
            self.tx_len
        } else {
            out.len()
        };
        let ghost start = out@;
        let mut i: usize = 0;
        while i < copy_len
            invariant
                copy_len <= self.tx_len <= 128,
                copy_len <= out@.len(),
                out@.len() == start.len(),
                i <= copy_len,
                forall|k: int| 0 <= k < i ==> out@[k] == self.tx@[k],
                forall|k: int| i <= k < out@.len() ==> out@[k] == start[k],
            decreases copy_len - i,
        {
            out[i] = self.tx[i];
            i = i + 1;
        }
        assert(out@ =~= old(self).tx_content().take(copy_len as int) + start.skip(copy_len as int));
        let ghost old_content = self.tx_content();
        let (tx, tx_len) = consume_prefix(self.tx, self.tx_len, copy_len);
        self.tx = tx;
        self.tx_len = tx_len;
        assert(self.tx_content() =~= old_content.skip(copy_len as int));
        copy_len
    }
}

impl Default for FramedConsoleBuffer {
    fn default() -> (r: Self)
        ensures
            r.rx_content() == Seq::<u8>::empty(),
            r.tx_content() == Seq::<u8>::empty(),
            r.rx_storage() == Seq::new(128, |i: int| 0u8),
            r.tx_storage() == Seq::new(128, |i: int| 0u8),
    {
        Self::new()
    }
}

fn find_terminator(s: &[u8]) -> (r: Option<usize>)
    ensures
        match spec_find_byte(s@, FRAME_TERMINATOR, 0) {
            Some(p) => r == Some(p as usize) && 0 <= p < s@.len(),
            None => r is None,
        },
{
    let mut i: usize = 0;
    while i < s.len()
        invariant
            i <= s@.len(),
            spec_find_byte(s@, FRAME_TERMINATOR, 0) == spec_find_byte(s@, FRAME_TERMINATOR, i as int),
        decreases s@.len() - i,
    {
        if s[i] == FRAME_TERMINATOR {
            return Some(i);
        }
        i = i + 1;
    }
    None
}

/// The largest chunk moved between the UART and the buffer in one call.
pub const UART_CHUNK_LEN: usize = 64;

/// Accepting a chunk read from the UART into RX: an empty read changes
/// nothing; a chunk that would overflow RX is refused as a transport error
/// and changes nothing; otherwise it is appended and its length answered.
pub fn accept_uart_rx(buffer: &mut FramedConsoleBuffer, read: &[u8]) -> (r: Result<usize, ConsoleError>)
    requires
        read@.len() <= UART_CHUNK_LEN,
    ensures
        read@.len() == 0 ==> r == Ok::<usize, ConsoleError>(0) && *final(buffer) == *old(buffer),
        read@.len() > 0 ==> exists|pushed: Result<(), FrameBufferError>|
            #[trigger] push_effect(*old(buffer), *final(buffer), read@, pushed) && r == match pushed {
                Ok(()) => Ok::<usize, ConsoleError>(read@.len() as usize),
                Err(_) => Err(ConsoleError::Transport),
            },
{
    if read.len() == 0 {
        return Ok(0);
    }
    proof {
        buffer.lemma_lengths();
    }
    match buffer.push_rx_bytes(read) {
        Ok(()) => Ok(read.len()),
        Err(_) => Err(ConsoleError::Transport),
    }
}

/// Host stand-in for the ESP-IDF UART console transport, which is
/// unavailable outside the embedded target.
pub struct EspUartBufferedConsole;

impl EspUartBufferedConsole {
    /// Off target the UART cannot be opened.
    pub fn new_default() -> (r: Result<Self, ConsoleError>)
        ensures
            r matches Err(e) && e == ConsoleError::NotReady,
    {
        Err(ConsoleError::NotReady)
    }

    /// Off target there is no UART to read from; the buffer is untouched.
    pub fn pull_rx_into(&mut self, buffer: &mut FramedConsoleBuffer) -> (r: Result<usize, ConsoleError>)
        ensures
            r == Err::<usize, ConsoleError>(ConsoleError::NotReady),
            *final(buffer) == *old(buffer),
    {
        Err(ConsoleError::NotReady)
    }

    /// Off target there is no UART to write to; the buffer is untouched.
    pub fn flush_tx_from(&mut self, buffer: &mut FramedConsoleBuffer) -> (r: Result<usize, ConsoleError>)
        ensures
            r == Err::<usize, ConsoleError>(ConsoleError::NotReady),
            *final(buffer) == *old(buffer),
    {
        Err(ConsoleError::NotReady)
    }
}

/// In-memory single-slot command source for host-side use.
#[derive(Debug, Clone, Copy, PartialEq, Eq)]
pub struct QueuedCommandSource {
    next_command: Option<Command>,
    poll_calls: usize,
}

impl QueuedCommandSource {
    /// The command waiting to be returned, if any.
    pub closed spec fn pending(self) -> Option<Command> {
        self.next_command
    }

    /// How many polls have been made.
    pub closed spec fn polls(self) -> usize {
        self.poll_calls
    }

    /// Creates an empty queued command source.
    pub fn new() -> (r: Self)
        ensures
            r.pending() is None,
            r.polls() == 0,
    {
        QueuedCommandSource { next_command: None, poll_calls: 0 }
    }

    /// Creates a queued command source with one pending command.
    pub fn with_command(command: Command) -> (r: Self)
        ensures
            r.pending() == Some(command),
            r.polls() == 0,
    {
        QueuedCommandSource { next_command: Some(command), poll_calls: 0 }
    }

    /// Queues or replaces the next command to be returned.
    pub fn queue_command(&mut self, command: Command)
        ensures
            final(self).pending() == Some(command),
            final(self).polls() == old(self).polls(),
    {
        self.next_command = Some(command);
    }

    /// Returns how many times the source has been polled.
    pub fn poll_calls(&self) -> (r: usize)
        ensures
            r == self.polls(),
    {
        self.poll_calls
    }
}

impl Default for QueuedCommandSource {
    fn default() -> (r: Self)
        ensures
            r.pending() is None,
            r.polls() == 0,
    {
        Self::new()
    }
}

impl CommandSource for QueuedCommandSource {
    /// A poll hands out the pending command, leaves none, and counts itself.
    open spec fn poll_effect(&self, after: &Self, command: Option<Command>) -> bool {
        &&& command == self.pending()
        &&& after.pending() is None
        &&& after.polls() == next_count(self.polls())
    }

    fn poll_command(&mut self) -> (r: Option<Command>) {
        self.poll_calls = if self.poll_calls == usize::MAX {
            0
        } else {
            self.poll_calls + 1
        };
        self.next_command.take()
    }
}

/// In-memory response sink that records the last sent response.
#[derive(Debug, Clone, Copy, PartialEq, Eq)]
pub struct RecordingResponseSink {
    last_response: Option<Response>,
    send_calls: usize,
    fail_with: Option<ConsoleError>,
}

impl RecordingResponseSink {
    /// The last response accepted, if any.
    pub closed spec fn recorded(self) -> Option<Response> {
        self.last_response
    }

    /// How many sends were attempted.
    pub closed spec fn sends(self) -> usize {
        self.send_calls
    }

    /// The error that sends are forced to fail with, if any.
    pub closed spec fn forced_failure(self) -> Option<ConsoleError> {
        self.fail_with
    }

    /// Creates an empty recording response sink.
    pub fn new() -> (r: Self)
        ensures
            r.recorded() is None,
            r.sends() == 0,
            r.forced_failure() is None,
    {
        RecordingResponseSink { last_response: None, send_calls: 0, fail_with: None }
    }

    /// Returns the most recently sent response, if any.
    pub fn last_response(&self) -> (r: Option<Response>)
        ensures
            r == self.recorded(),
    {
        self.last_response
    }

    /// Returns how many times a response send was attempted.
    pub fn send_calls(&self) -> (r: usize)
        ensures
            r == self.sends(),
    {
        self.send_calls
    }

    /// Forces future sends to fail with the provided error.
    pub fn set_fail_with(&mut self, error: ConsoleError)
        ensures
            final(self).forced_failure() == Some(error),
            final(self).recorded() == old(self).recorded(),
            final(self).sends() == old(self).sends(),
    {
        self.fail_with = Some(error);
    }

    /// Clears any forced send failure.
    pub fn clear_failure(&mut self)
        ensures
            final(self).forced_failure() is None,
            final(self).recorded() == old(self).recorded(),
            final(self).sends() == old(self).sends(),
    {
        self.fail_with = None;
    }

    /// Clears the last recorded response.
    pub fn clear_last_response(&mut self)
        ensures
            final(self).recorded() is None,
            final(self).forced_failure() == old(self).forced_failure(),
            final(self).sends() == old(self).sends(),
    {
        self.last_response = None;
    }
}

impl Default for RecordingResponseSink {
    fn default() -> (r: Self)
        ensures
            r.recorded() is None,
            r.sends() == 0,
            r.forced_failure() is None,
    {
        Self::new()
    }
}

impl ResponseSink for RecordingResponseSink {
    /// Every send is counted; a forced failure is answered and records
    /// nothing, otherwise the response is recorded.
    open spec fn send_effect(&self, after: &Self, response: Response, result: Result<(), ConsoleError>) -> bool {
        &&& after.sends() == next_count(self.sends())
        &&& after.forced_failure() == self.forced_failure()
        &&& match self.forced_failure() {
            Some(e) => result == Err::<(), ConsoleError>(e) && after.recorded() == self.recorded(),
            None => result is Ok && after.recorded() == Some(response),
        }
    }

    fn send_response(&mut self, response: Response) -> (r: Result<(), ConsoleError>) {
        self.send_calls = if self.send_calls == usize::MAX {
            0
        } else {
            self.send_calls + 1
        };
        match self.fail_with {
            Some(error) => Err(error),
            None => {
                self.last_response = Some(response);
                Ok(())
            },
        }
    }
}

} // verus!
