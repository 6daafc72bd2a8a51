//! Length-prefixed message framing.
//!
//! A framed message is the payload's length, written as a little-endian
//! integer one machine word wide, followed by the payload itself.

use vstd::prelude::*;

verus! {

/// Width of the length prefix in bytes: one machine word.
pub open spec fn prefix_len() -> nat {
    (usize::BITS / 8) as nat
}

/// The first `width` little-endian base-256 digits of `n`.
pub open spec fn le_bytes(n: nat, width: nat) -> Seq<u8>
    decreases width,
{
    if width == 0 {
        Seq::empty()
    } else {
        seq![(n % 256) as u8] + le_bytes(n / 256, (width - 1) as nat)
    }
}

/// The number whose little-endian base-256 digits are `s`.
pub open spec fn le_value(s: Seq<u8>) -> nat
    decreases s.len(),
{
    if s.len() == 0 {
        0
    } else {
        s[0] as nat + 256 * le_value(s.drop_first())
    }
}

/// One more than the largest number that `width` bytes can hold.
pub open spec fn word_limit(width: nat) -> nat
    decreases width,
{
    if width == 0 {
        1
    } else {
        256 * word_limit((width - 1) as nat)
    }
}

/// The bytes on the wire for one message: the prefix, then the payload.
pub open spec fn frame(payload: Seq<u8>) -> Seq<u8> {
    le_bytes(payload.len(), prefix_len()) + payload
}

/// The payload length that the first word of `bytes` announces.
pub open spec fn announced_len(bytes: Seq<u8>) -> nat
    recommends
        bytes.len() >= prefix_len(),
{
    le_value(bytes.subrange(0, prefix_len() as int))
}

/// `bytes` starts with a whole frame: a full prefix and all the payload
/// bytes that the prefix announces.
pub open spec fn starts_with_frame(bytes: Seq<u8>) -> bool {
    bytes.len() >= prefix_len() && bytes.len() - prefix_len() >= announced_len(bytes)
}

/// Length of the frame at the start of `bytes`.
pub open spec fn first_frame_len(bytes: Seq<u8>) -> nat
    recommends
        starts_with_frame(bytes),
{
    prefix_len() + announced_len(bytes)
}

/// Payload of the frame at the start of `bytes`.
pub open spec fn first_payload(bytes: Seq<u8>) -> Seq<u8>
    recommends
        starts_with_frame(bytes),
{
    bytes.subrange(prefix_len() as int, first_frame_len(bytes) as int)
}

/// A number written at a width has that many digits.
pub proof fn lemma_le_bytes_len(n: nat, width: nat)
    ensures
        le_bytes(n, width).len() == width,
    decreases width,
{
    if width > 0 {
        lemma_le_bytes_len(n / 256, (width - 1) as nat);
    }
}

/// The value of some digits is below the limit of their width.
pub proof fn lemma_le_value_bound(s: Seq<u8>)
    ensures
        le_value(s) < word_limit(s.len()),
    decreases s.len(),
{
    if s.len() > 0 {
        lemma_le_value_bound(s.drop_first());
    }
}

/// Decoding the digits of a number that fits gives the number back.
pub proof fn lemma_le_value_of_le_bytes(n: nat, width: nat)
    requires
        n < word_limit(width),
    ensures
        le_value(le_bytes(n, width)) == n,
    decreases width,
{
    if width > 0 {
        let rest = le_bytes(n / 256, (width - 1) as nat);
        lemma_le_bytes_len(n / 256, (width - 1) as nat);
        lemma_le_value_of_le_bytes(n / 256, (width - 1) as nat);
        assert(le_bytes(n, width).drop_first() =~= rest);
    }
}

/// Encoding the value of `s` at its own width gives `s` back.
pub proof fn lemma_le_bytes_of_le_value(s: Seq<u8>)
    ensures
        le_bytes(le_value(s), s.len()) == s,
    decreases s.len(),
{
    if s.len() > 0 {
        lemma_le_bytes_of_le_value(s.drop_first());
        let v = le_value(s.drop_first());
        assert((s[0] as nat + 256 * v) % 256 == s[0] as nat && (s[0] as nat + 256 * v) / 256 == v);
        assert(le_bytes(le_value(s), s.len()) =~= s);
    } else {
        assert(le_bytes(le_value(s), s.len()) =~= s);
    }
}

/// A machine word holds exactly the numbers below `word_limit(prefix_len())`.
pub proof fn lemma_word_limit()
    ensures
        word_limit(prefix_len()) == usize::MAX + 1,
        prefix_len() == 4 || prefix_len() == 8,
{
    reveal_with_fuel(word_limit, 9);
    assert(usize::BITS == 32 || usize::BITS == 64);
    if usize::BITS == 32 {
        assert(word_limit(4) == 0x1_0000_0000);
        assert(usize::MAX == 0xffff_ffff);
    } else {
        assert(word_limit(8) == 0x1_0000_0000_0000_0000);
        assert(usize::MAX == 0xffff_ffff_ffff_ffff);
    }
}

/// A frame survives the trip: its bytes start with a whole frame whose
/// payload is the one that was framed, whatever follows it on the wire.
pub proof fn lemma_frame_round_trip(payload: Seq<u8>, rest: Seq<u8>)
    requires
        payload.len() <= usize::MAX,
    ensures
        starts_with_frame(frame(payload) + rest),
        first_payload(frame(payload) + rest) == payload,
        first_frame_len(frame(payload) + rest) == frame(payload).len(),
        (frame(payload) + rest).skip(frame(payload).len() as int) == rest,
{
    let wire = frame(payload) + rest;
    let prefix = le_bytes(payload.len(), prefix_len());
    lemma_word_limit();
    lemma_le_bytes_len(payload.len(), prefix_len());
    lemma_le_value_of_le_bytes(payload.len(), prefix_len());
    assert(wire.subrange(0, prefix_len() as int) =~= prefix);
    assert(wire.subrange(prefix_len() as int, (prefix_len() + payload.len()) as int) =~= payload);
    assert(wire.skip(frame(payload).len() as int) =~= rest);
}

/// What can go wrong on a framed channel.
#[derive(Clone, Copy, Debug, PartialEq, Eq, Structural)]
pub enum FrameError {
    /// The channel was already closed by an earlier failure.
    Closed,
    /// The channel could not take the whole frame.
    ShortWrite,
    /// The channel ended before a whole frame had arrived.
    UnexpectedEof,
}

/// Width of the length prefix in bytes.
pub fn prefix_width() -> (width: usize)
    ensures
        width == prefix_len(),
{
    (usize::BITS / 8) as usize
}

/// The length prefix for a payload of `len` bytes.
pub fn encode_len(len: usize) -> (out: Vec<u8>)
    ensures
        out@ == le_bytes(len as nat, prefix_len()),
{
    let width: usize = prefix_width();
    let mut out: Vec<u8> = Vec::new();
    let mut rest: usize = len;
    let mut i: usize = 0;
    while i < width
        invariant
            i <= width,
            width == prefix_len(),
            out@ + le_bytes(rest as nat, (width - i) as nat) == le_bytes(len as nat, prefix_len()),
        decreases width - i,
    {
        let ghost before = out@;
        let ghost tail = le_bytes((rest / 256) as nat, (width - i - 1) as nat);
        out.push((rest % 256) as u8);
        assert(out@ + tail =~= before + (seq![(rest % 256) as u8] + tail));
        rest = rest / 256;
        i += 1;
    }
    assert(out@ + Seq::<u8>::empty() =~= out@);
    out
}

/// The payload length that a length prefix announces, or `None` where
/// `prefix` is not exactly one machine word wide.
pub fn decode_len(prefix: &[u8]) -> (len: Option<usize>)
    ensures
        len.is_some() <==> prefix@.len() == prefix_len(),
        len.is_some() ==> len.unwrap() == le_value(prefix@),
{
    let width: usize = prefix_width();
    if prefix.len() != width {
        return None;
    }
    let mut acc: usize = 0;
    let mut i: usize = width;
    while i > 0
        invariant
            i <= width,
            width == prefix_len(),
            prefix@.len() == width,
            acc == le_value(prefix@.subrange(i as int, width as int)),
        decreases i,
    {
        let ghost upper = prefix@.subrange(i as int, width as int);
        let ghost lower = prefix@.subrange(i - 1, width as int);
        proof {
            lemma_le_value_bound(lower);
            lemma_word_limit_monotone(lower.len(), prefix_len());
            lemma_word_limit();
            assert(lower.drop_first() =~= upper);
        }
        i -= 1;
        acc = acc * 256 + prefix[i] as usize;
    }
    assert(prefix@.subrange(0, width as int) =~= prefix@);
    Some(acc)
}

/// A wider word holds at least what a narrower one holds, and every
/// width holds zero.
pub proof fn lemma_word_limit_monotone(a: nat, b: nat)
    requires
        a <= b,
    ensures
        word_limit(a) <= word_limit(b),
        word_limit(a) >= 1,
    decreases b,
{
    if a < b {
        lemma_word_limit_monotone(a, (b - 1) as nat);
    } else if a > 0 {
        lemma_word_limit_monotone((a - 1) as nat, (a - 1) as nat);
    }
}

/// Appends `src[from..to]` to `out`.
fn append_range(out: &mut Vec<u8>, src: &[u8], from: usize, to: usize)
    requires
        from <= to <= src@.len(),
    ensures
        final(out)@ == old(out)@ + src@.subrange(from as int, to as int),
{
    let mut i: usize = from;
    while i < to
        invariant
            from <= i <= to <= src@.len(),
            out@ == old(out)@ + src@.subrange(from as int, i as int),
        decreases to - i,
    {
        let ghost before = out@;
        out.push(src[i]);
        assert(out@ =~= old(out)@ + src@.subrange(from as int, i + 1));
        i += 1;
    }
}

/// The bytes on the wire for `payload`.
pub fn encode_frame(payload: &[u8]) -> (wire: Vec<u8>)
    ensures
        wire@ == frame(payload@),
{
    let mut wire: Vec<u8> = encode_len(payload.len());
    append_range(&mut wire, payload, 0, payload.len());
    assert(payload@.subrange(0, payload@.len() as int) =~= payload@);
    wire
}

/// Takes the frame at the start of `bytes` apart: its payload, and how many
/// bytes of `bytes` the frame took. Fails where `bytes` ends before the
/// frame does; bytes after the frame are left alone.
pub fn decode_frame(bytes: &[u8]) -> (res: Result<(Vec<u8>, usize), FrameError>)
    ensures
        starts_with_frame(bytes@) ==> res.is_ok() && res.unwrap().0@ == first_payload(bytes@)
            && res.unwrap().1 == first_frame_len(bytes@),
        !starts_with_frame(bytes@) ==> res == Err::<(Vec<u8>, usize), FrameError>(
            FrameError::UnexpectedEof,
        ),
{
    let width: usize = prefix_width();
    if bytes.len() < width {
        return Err(FrameError::UnexpectedEof);
    }
    let prefix: &[u8] = vstd::slice::slice_subrange(bytes, 0, width);
    let len: usize = match decode_len(prefix) {
        Some(len) => len,
        None => {
            return Err(FrameError::UnexpectedEof);
        },
    };
    if bytes.len() - width < len {
        return Err(FrameError::UnexpectedEof);
    }
    let mut payload: Vec<u8> = Vec::new();
    append_range(&mut payload, bytes, width, width + len);
    assert(payload@ =~= first_payload(bytes@));
    Ok((payload, width + len))
}

/// An in-memory byte channel between two peers: what one side has written
/// and the other has not yet read, up to a fixed capacity. A failed
/// operation closes it for good.
pub struct ByteChannel {
    pending: Vec<u8>,
    capacity: usize,
    closed: bool,
}

impl ByteChannel {
    /// The bytes written and not yet read, oldest first.
    pub closed spec fn pending(&self) -> Seq<u8> {
        self.pending@
    }

    /// The most bytes the channel holds at once.
    pub closed spec fn capacity(&self) -> nat {
        self.capacity as nat
    }

    /// Whether an earlier failure has closed the channel.
    pub closed spec fn is_closed(&self) -> bool {
        self.closed
    }

    /// The channel never holds more than its capacity.
    pub closed spec fn wf(&self) -> bool {
        self.pending@.len() <= self.capacity
    }

    /// An open, empty channel of the given capacity.
    pub fn new(capacity: usize) -> (channel: ByteChannel)
        ensures
            channel.wf(),
            channel.pending() == Seq::<u8>::empty(),
            channel.capacity() == capacity,
            !channel.is_closed(),
    {
        ByteChannel { pending: Vec::new(), capacity, closed: false }
    }

    /// An open channel that already holds `bytes`, as large as `bytes`
    /// needs and no larger than `capacity` asks.
    pub fn with_bytes(bytes: Vec<u8>, capacity: usize) -> (channel: ByteChannel)
        ensures
            channel.wf(),
            channel.pending() == bytes@,
            channel.capacity() == (if capacity as nat >= bytes@.len() {
                capacity as nat
            } else {
                bytes@.len()
            }),
            !channel.is_closed(),
    {
        let capacity: usize = if capacity >= bytes.len() {
            capacity
        } else {
            bytes.len()
        };
        ByteChannel { pending: bytes, capacity, closed: false }
    }

    /// Number of bytes waiting to be read.
    pub fn pending_len(&self) -> (len: usize)
        ensures
            len == self.pending().len(),
    {
        self.pending.len()
    }

    /// Whether an earlier failure has closed the channel.
    pub fn closed(&self) -> (closed: bool)
        ensures
            closed == self.is_closed(),
    {
        self.closed
    }

    /// Closes the channel; what it held is dropped.
    pub fn close(&mut self)
        ensures
            final(self).wf(),
            final(self).is_closed(),
            final(self).pending() == Seq::<u8>::empty(),
            final(self).capacity() == old(self).capacity(),
    {
        self.pending = Vec::new();
        self.closed = true;
    }
}

/// What sending `payload` on `before` gives: the result, and the channel
/// `after` it.
pub open spec fn send_post(
    before: ByteChannel,
    after: ByteChannel,
    payload: Seq<u8>,
    res: Result<(), FrameError>,
) -> bool {
    &&& after.wf()
    &&& after.capacity() == before.capacity()
    &&& if before.is_closed() {
        res == Err::<(), FrameError>(FrameError::Closed) && after == before
    } else if before.pending().len() + frame(payload).len() <= before.capacity() {
        res.is_ok() && !after.is_closed() && after.pending() == before.pending() + frame(payload)
    } else {
        res == Err::<(), FrameError>(FrameError::ShortWrite) && after.is_closed()
            && after.pending() == Seq::<u8>::empty()
    }
}

/// What receiving on `before` gives: the result, and the channel `after` it.
pub open spec fn recv_post(
    before: ByteChannel,
    after: ByteChannel,
    res: Result<Vec<u8>, FrameError>,
) -> bool {
    &&& after.wf()
    &&& after.capacity() == before.capacity()
    &&& if before.is_closed() {
        res == Err::<Vec<u8>, FrameError>(FrameError::Closed) && after == before
    } else if starts_with_frame(before.pending()) {
        res.is_ok() && res.unwrap()@ == first_payload(before.pending()) && !after.is_closed()
            && after.pending() == before.pending().skip(first_frame_len(before.pending()) as int)
    } else {
        res == Err::<Vec<u8>, FrameError>(FrameError::UnexpectedEof) && after.is_closed()
            && after.pending() == Seq::<u8>::empty()
    }
}

/// Writes `buf` to `w` as one frame: the length prefix, then the payload.
///
/// Either the whole frame is appended, or nothing is and the channel is
/// closed: a frame that does not fit is a short write, and a closed channel
/// takes nothing more.
pub fn framed_send_blocking(w: &mut ByteChannel, buf: &[u8]) -> (res: Result<(), FrameError>)
    requires
        old(w).wf(),
    ensures
        send_post(*old(w), *final(w), buf@, res),
{
    proof {
        lemma_le_bytes_len(buf@.len(), prefix_len());
    }
    if w.closed {
        return Err(FrameError::Closed);
    }
    let width: usize = prefix_width();
    let room: usize = w.capacity - w.pending.len();
    if room < width || room - width < buf.len() {
        w.close();
        return Err(FrameError::ShortWrite);
    }
    let prefix: Vec<u8> = encode_len(buf.len());
    let ghost before = w.pending@;
    append_range(&mut w.pending, prefix.as_slice(), 0, width);
    append_range(&mut w.pending, buf, 0, buf.len());
    assert(w.pending@ =~= before + frame(buf@));
    Ok(())
}

/// Reads one frame from `r` and returns its payload.
///
/// The frame's bytes leave the channel and what follows them stays. Where
/// the channel ends before the prefix or the announced payload is whole,
/// the read is short: the channel is closed and nothing is returned.
pub fn framed_recv_blocking(r: &mut ByteChannel) -> (res: Result<Vec<u8>, FrameError>)
    requires
        old(r).wf(),
    ensures
        recv_post(*old(r), *final(r), res),
{
    if r.closed {
        return Err(FrameError::Closed);
    }
    match decode_frame(r.pending.as_slice()) {
        Ok((payload, used)) => {
            let ghost before = r.pending@;
            let rest: Vec<u8> = r.pending.split_off(used);
            r.pending = rest;
            assert(r.pending@ =~= before.skip(used as int));
            Ok(payload)
        },
        Err(_) => {
            r.close();
            Err(FrameError::UnexpectedEof)
        },
    }
}

/// What is sent on an open, empty channel with room for it is what the
/// next receive returns, and the channel is empty again.
pub proof fn lemma_send_then_receive(
    start: ByteChannel,
    sent: ByteChannel,
    received: ByteChannel,
    payload: Seq<u8>,
    send_res: Result<(), FrameError>,
    recv_res: Result<Vec<u8>, FrameError>,
)
    requires
        start.wf(),
        !start.is_closed(),
        start.pending() == Seq::<u8>::empty(),
        payload.len() <= usize::MAX,
        frame(payload).len() <= start.capacity(),
        send_post(start, sent, payload, send_res),
        recv_post(sent, received, recv_res),
    ensures
        send_res.is_ok(),
        recv_res.is_ok(),
        recv_res.unwrap()@ == payload,
        received.pending() == Seq::<u8>::empty(),
{
    lemma_frame_round_trip(payload, Seq::<u8>::empty());
    assert(frame(payload) + Seq::<u8>::empty() =~= frame(payload));
    assert(start.pending() + frame(payload) =~= frame(payload));
}

} // verus!
