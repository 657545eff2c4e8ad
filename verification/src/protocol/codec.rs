use vstd::prelude::*;

verus! {

/// First byte of every frame on the wire.
pub const FRAME_START: u8 = 0x32;

/// Last byte of every frame on the wire.
pub const FRAME_END: u8 = 0x34;

/// XOR-fold of a byte sequence: the bus protocol's checksum, computed
/// over the source, destination, command and payload bytes of a frame.
pub open spec fn checksum_of(s: Seq<u8>) -> u8
    decreases s.len(),
{
    if s.len() == 0 {
        0u8
    } else {
        checksum_of(s.drop_last()) ^ s.last()
    }
}

/// XOR-fold of a byte slice.
pub fn checksum(bytes: &[u8]) -> (r: u8)
    ensures
        r == checksum_of(bytes@),
{
    let mut acc: u8 = 0;
    let mut i: usize = 0;
    while i < bytes.len()
        invariant
            i <= bytes@.len(),
            acc == checksum_of(bytes@.take(i as int)),
        decreases bytes@.len() - i,
    {
        proof {
            assert(bytes@.take(i + 1).drop_last() =~= bytes@.take(i as int));
        }
        acc = acc ^ bytes[i];
        i = i + 1;
    }
    proof {
        assert(bytes@.take(bytes@.len() as int) =~= bytes@);
    }
    acc
}

/// The identity of a frame: who sent it, whom it addresses, and what it asks.
#[derive(Copy, Clone, Debug, PartialEq, Eq, Structural)]
pub struct FrameId {
    /// Source address
    pub src: u8,
    /// Destination address
    pub dst: u8,
    /// Command
    pub cmd: u8,
}

impl FrameId {
    /// The identity as a plain triple, convenient to match on.
    pub fn parts(&self) -> (r: (u8, u8, u8))
        ensures
            r == (self.src, self.dst, self.cmd),
    {
        (self.src, self.dst, self.cmd)
    }
}

/// A frame with a payload of `S` bytes.
#[derive(Copy, Clone, Debug, PartialEq)]
pub struct FrameInner<const S: usize> {
    pub id: FrameId,
    pub data: [u8; S],
}

/// The mathematical image of a frame: its identity and payload bytes.
pub struct SpecFrame {
    pub src: u8,
    pub dst: u8,
    pub cmd: u8,
    pub data: Seq<u8>,
}

impl<const S: usize> View for FrameInner<S> {
    type V = SpecFrame;

    open spec fn view(&self) -> SpecFrame {
        SpecFrame { src: self.id.src, dst: self.id.dst, cmd: self.id.cmd, data: self.data@ }
    }
}

impl<const S: usize> FrameInner<S> {
    pub fn new(src: u8, dst: u8, cmd: u8, data: [u8; S]) -> (r: Self)
        ensures
            r.id == (FrameId { src, dst, cmd }),
            r.data == data,
    {
        Self { id: FrameId { src, dst, cmd }, data }
    }
}

pub type LongFrame = FrameInner<8>;

pub type ShortFrame = FrameInner<1>;

/// The bytes that carry a frame on the wire: both markers, the identity,
/// the payload, and the checksum over identity and payload.
pub open spec fn frame_bytes(f: SpecFrame) -> Seq<u8> {
    seq![FRAME_START, f.src, f.dst, f.cmd] + f.data + seq![
        checksum_of(seq![f.src, f.dst, f.cmd] + f.data),
        FRAME_END,
    ]
}

/// A received frame from a port.
#[derive(Debug, PartialEq)]
pub enum RxFrame {
    Long(LongFrame),
    Short(ShortFrame),
    /// A window whose markers were in place but whose checksum did not match.
    Corrupted(Vec<u8>),
}

/// The mathematical image of a received frame.
pub enum SpecRxFrame {
    Long(SpecFrame),
    Short(SpecFrame),
    Corrupted(Seq<u8>),
}

impl View for RxFrame {
    type V = SpecRxFrame;

    open spec fn view(&self) -> SpecRxFrame {
        match self {
            RxFrame::Long(f) => SpecRxFrame::Long(f@),
            RxFrame::Short(f) => SpecRxFrame::Short(f@),
            RxFrame::Corrupted(bytes) => SpecRxFrame::Corrupted(bytes@),
        }
    }
}

impl Clone for RxFrame {
    fn clone(&self) -> (r: Self)
        ensures
            r@ == self@,
    {
        match self {
            RxFrame::Long(frame) => RxFrame::Long(*frame),
            RxFrame::Short(frame) => RxFrame::Short(*frame),
            RxFrame::Corrupted(bytes) => {
                let mut copy: Vec<u8> = Vec::new();
                let mut i: usize = 0;
                while i < bytes.len()
                    invariant
                        i <= bytes@.len(),
                        copy@ == bytes@.take(i as int),
                    decreases bytes@.len() - i,
                {
                    copy.push(bytes[i]);
                    proof {
                        assert(copy@ =~= bytes@.take(i + 1));
                    }
                    i = i + 1;
                }
                proof {
                    assert(bytes@.take(bytes@.len() as int) =~= bytes@);
                }
                RxFrame::Corrupted(copy)
            },
        }
    }
}

impl RxFrame {
    /// `FrameId` accessor helper.
    pub fn id(&self) -> (r: Option<FrameId>)
        ensures
            match self {
                RxFrame::Long(f) => r == Some(f.id),
                RxFrame::Short(f) => r == Some(f.id),
                RxFrame::Corrupted(_) => r is None,
            },
    {
        match self {
            RxFrame::Long(frame) => Some(frame.id),
            RxFrame::Short(frame) => Some(frame.id),
            RxFrame::Corrupted(_) => None,
        }
    }
}

/// A frame to send to a port.
#[derive(Copy, Clone, Debug, PartialEq)]
pub enum TxFrame {
    Long(LongFrame),
    Short(ShortFrame),
}

/// The mathematical image of a frame to send.
pub enum SpecTxFrame {
    Long(SpecFrame),
    Short(SpecFrame),
}

impl View for TxFrame {
    type V = SpecTxFrame;

    open spec fn view(&self) -> SpecTxFrame {
        match self {
            TxFrame::Long(f) => SpecTxFrame::Long(f@),
            TxFrame::Short(f) => SpecTxFrame::Short(f@),
        }
    }
}

/// The wire bytes of a frame to send.
pub open spec fn tx_frame_bytes(f: SpecTxFrame) -> Seq<u8> {
    match f {
        SpecTxFrame::Long(inner) => frame_bytes(inner),
        SpecTxFrame::Short(inner) => frame_bytes(inner),
    }
}

impl From<ShortFrame> for TxFrame {
    fn from(value: ShortFrame) -> (r: TxFrame) {
        TxFrame::Short(value)
    }
}

impl vstd::std_specs::convert::FromSpecImpl<ShortFrame> for TxFrame {
    open spec fn obeys_from_spec() -> bool {
        true
    }

    open spec fn from_spec(value: ShortFrame) -> TxFrame {
        TxFrame::Short(value)
    }
}

impl From<LongFrame> for TxFrame {
    fn from(value: LongFrame) -> (r: TxFrame) {
        TxFrame::Long(value)
    }
}

impl vstd::std_specs::convert::FromSpecImpl<LongFrame> for TxFrame {
    open spec fn obeys_from_spec() -> bool {
        true
    }

    open spec fn from_spec(value: LongFrame) -> TxFrame {
        TxFrame::Long(value)
    }
}

impl From<TxFrame> for RxFrame {
    fn from(frame: TxFrame) -> (r: RxFrame) {
        match frame {
            TxFrame::Long(frame) => RxFrame::Long(frame),
            TxFrame::Short(frame) => RxFrame::Short(frame),
        }
    }
}

impl vstd::std_specs::convert::FromSpecImpl<TxFrame> for RxFrame {
    open spec fn obeys_from_spec() -> bool {
        true
    }

    open spec fn from_spec(frame: TxFrame) -> RxFrame {
        match frame {
            TxFrame::Long(frame) => RxFrame::Long(frame),
            TxFrame::Short(frame) => RxFrame::Short(frame),
        }
    }
}

/// One decoding pass over a buffered byte stream: the frame found at the
/// front, if any, and what the buffer holds afterwards.
///
/// A window of seven bytes whose first byte is the start marker and whose
/// seventh is the end marker is read as a short frame; if its seventh byte
/// is not the end marker the window is retried as a fourteen-byte long
/// frame; any other leading byte is junk and is skipped. A window whose
/// markers are in place but whose checksum does not match is consumed whole
/// and reported corrupted, so that the stream survives a damaged frame.
pub open spec fn spec_decode(s: Seq<u8>) -> (Option<SpecRxFrame>, Seq<u8>)
    decreases s.len(),
{
    if s.len() < 7 {
        (None, s)
    } else if s[0] != FRAME_START {
        spec_decode(s.skip(1))
    } else if s[6] == FRAME_END {
        if checksum_of(s.subrange(1, 5)) == s[5] {
            (
                Some(
                    SpecRxFrame::Short(
                        SpecFrame { src: s[1], dst: s[2], cmd: s[3], data: s.subrange(4, 5) },
                    ),
                ),
                s.skip(7),
            )
        } else {
            (Some(SpecRxFrame::Corrupted(s.take(7))), s.skip(7))
        }
    } else if s.len() < 14 {
        (None, s)
    } else if s[13] == FRAME_END {
        if checksum_of(s.subrange(1, 12)) == s[12] {
            (
                Some(
                    SpecRxFrame::Long(
                        SpecFrame { src: s[1], dst: s[2], cmd: s[3], data: s.subrange(4, 12) },
                    ),
                ),
                s.skip(14),
            )
        } else {
            (Some(SpecRxFrame::Corrupted(s.take(14))), s.skip(14))
        }
    } else {
        spec_decode(s.skip(1))
    }
}

/// A frame to send after a pause: how the roles hand their bus schedule to
/// the loop that owns the port.
#[derive(Copy, Clone, Debug, PartialEq)]
pub struct TimedFrame {
    pub frame: TxFrame,
    pub delay_ms: u64,
}

/// The mathematical image of a scheduled send.
pub struct SpecTimedFrame {
    pub frame: SpecTxFrame,
    pub delay_ms: u64,
}

impl View for TimedFrame {
    type V = SpecTimedFrame;

    open spec fn view(&self) -> SpecTimedFrame {
        SpecTimedFrame { frame: self.frame@, delay_ms: self.delay_ms }
    }
}

proof fn lemma_xor_shuffle(a: u8, b: u8, m: u8)
    by (bit_vector)
    ensures
        a ^ (b ^ m) == (a ^ b) ^ m,
        (a ^ m) ^ b == (a ^ b) ^ m,
{
}

proof fn lemma_xor_nonzero(a: u8, m: u8)
    by (bit_vector)
    requires
        m != 0,
    ensures
        a ^ m != a,
{
}

/// Flipping the bits of mask `m` in any one byte moves the checksum by `m`.
pub proof fn lemma_checksum_update(s: Seq<u8>, i: int, m: u8)
    requires
        0 <= i < s.len(),
    ensures
        checksum_of(s.update(i, s[i] ^ m)) == checksum_of(s) ^ m,
    decreases s.len(),
{
    let t = s.update(i, s[i] ^ m);
    if i == s.len() - 1 {
        assert(t.drop_last() =~= s.drop_last());
        assert(t.last() == s.last() ^ m);
        lemma_xor_shuffle(checksum_of(s.drop_last()), s.last(), m);
    } else {
        assert(t.drop_last() =~= s.drop_last().update(i, s[i] ^ m));
        assert(s.drop_last()[i] == s[i]);
        lemma_checksum_update(s.drop_last(), i, m);
        assert(t.last() == s.last());
        lemma_xor_shuffle(checksum_of(s.drop_last()), s.last(), m);
        assert((checksum_of(s.drop_last()) ^ m) ^ s.last() == (checksum_of(s.drop_last())
            ^ s.last()) ^ m);
    }
}

/// Flipping any non-empty set of bits in any one byte changes the checksum.
pub proof fn lemma_checksum_sensitive(s: Seq<u8>, i: int, m: u8)
    requires
        0 <= i < s.len(),
        m != 0,
    ensures
        checksum_of(s.update(i, s[i] ^ m)) != checksum_of(s),
{
    lemma_checksum_update(s, i, m);
    lemma_xor_nonzero(checksum_of(s), m);
}

/// The wire bytes of a short frame, element by element.
pub proof fn lemma_short_frame_bytes(f: SpecFrame)
    requires
        f.data.len() == 1,
    ensures
        frame_bytes(f) =~= seq![
            FRAME_START,
            f.src,
            f.dst,
            f.cmd,
            f.data[0],
            checksum_of(seq![f.src, f.dst, f.cmd] + f.data),
            FRAME_END,
        ],
{
}

/// The wire bytes of a long frame, element by element.
pub proof fn lemma_long_frame_bytes(f: SpecFrame)
    requires
        f.data.len() == 8,
    ensures
        frame_bytes(f) =~= seq![
            FRAME_START,
            f.src,
            f.dst,
            f.cmd,
            f.data[0],
            f.data[1],
            f.data[2],
            f.data[3],
            f.data[4],
            f.data[5],
            f.data[6],
            f.data[7],
            checksum_of(seq![f.src, f.dst, f.cmd] + f.data),
            FRAME_END,
        ],
{
}

/// A well-formed short frame at the front of the stream decodes to itself,
/// leaving exactly the bytes that follow it.
pub proof fn lemma_decode_short_prefix(f: SpecFrame, rest: Seq<u8>)
    requires
        f.data.len() == 1,
    ensures
        spec_decode(frame_bytes(f) + rest) == (Some(SpecRxFrame::Short(f)), rest),
{
    let e = frame_bytes(f);
    let s = e + rest;
    lemma_short_frame_bytes(f);
    assert(s.subrange(1, 5) =~= seq![f.src, f.dst, f.cmd] + f.data);
    assert(s.subrange(4, 5) =~= f.data);
    assert(s.skip(7) =~= rest);
    assert(spec_decode(s).0 == Some(
        SpecRxFrame::Short(SpecFrame { src: f.src, dst: f.dst, cmd: f.cmd, data: f.data }),
    ));
    assert(SpecFrame { src: f.src, dst: f.dst, cmd: f.cmd, data: f.data } == f);
}

/// A well-formed long frame at the front of the stream decodes to itself,
/// leaving exactly the bytes that follow it. The third payload byte sits
/// where a short candidate looks for the end marker, so the frame is read
/// as long only when that byte differs from the marker.
pub proof fn lemma_decode_long_prefix(f: SpecFrame, rest: Seq<u8>)
    requires
        f.data.len() == 8,
        f.data[2] != FRAME_END,
    ensures
        spec_decode(frame_bytes(f) + rest) == (Some(SpecRxFrame::Long(f)), rest),
{
    let e = frame_bytes(f);
    let s = e + rest;
    lemma_long_frame_bytes(f);
    assert(s[6] == f.data[2]);
    assert(s.subrange(1, 12) =~= seq![f.src, f.dst, f.cmd] + f.data);
    assert(s.subrange(4, 12) =~= f.data);
    assert(s.skip(14) =~= rest);
    assert(spec_decode(s).0 == Some(
        SpecRxFrame::Long(SpecFrame { src: f.src, dst: f.dst, cmd: f.cmd, data: f.data }),
    ));
    assert(SpecFrame { src: f.src, dst: f.dst, cmd: f.cmd, data: f.data } == f);
}

/// Round-trip for short frames: decoding an encoded short frame yields that
/// frame and consumes exactly its bytes.
pub proof fn lemma_short_round_trip(f: SpecFrame)
    requires
        f.data.len() == 1,
    ensures
        spec_decode(frame_bytes(f)) == (Some(SpecRxFrame::Short(f)), Seq::<u8>::empty()),
{
    assert(frame_bytes(f) + Seq::<u8>::empty() =~= frame_bytes(f));
    lemma_decode_short_prefix(f, Seq::<u8>::empty());
}

/// Round-trip for long frames: decoding an encoded long frame yields that
/// frame and consumes exactly its bytes, provided its third payload byte is
/// not the end marker. (A long frame whose third payload byte equals the
/// marker presents a plausible short window first, and the wire format
/// cannot tell the two apart.)
pub proof fn lemma_long_round_trip(f: SpecFrame)
    requires
        f.data.len() == 8,
        f.data[2] != FRAME_END,
    ensures
        spec_decode(frame_bytes(f)) == (Some(SpecRxFrame::Long(f)), Seq::<u8>::empty()),
{
    assert(frame_bytes(f) + Seq::<u8>::empty() =~= frame_bytes(f));
    lemma_decode_long_prefix(f, Seq::<u8>::empty());
}

/// Disambiguation: a valid long frame followed at once by a valid short
/// frame decodes to exactly those two frames, in order, neither mistaken
/// for the other length.
pub proof fn lemma_long_then_short(f: SpecFrame, g: SpecFrame)
    requires
        f.data.len() == 8,
        f.data[2] != FRAME_END,
        g.data.len() == 1,
    ensures
        spec_decode(frame_bytes(f) + frame_bytes(g)) == (
            Some(SpecRxFrame::Long(f)),
            frame_bytes(g),
        ),
        spec_decode(frame_bytes(g)) == (Some(SpecRxFrame::Short(g)), Seq::<u8>::empty()),
{
    lemma_decode_long_prefix(f, frame_bytes(g));
    lemma_short_round_trip(g);
}

/// Checksum sensitivity at the decoder: a short frame with any one of its
/// source, destination, command or payload bytes damaged is reported as a
/// corrupted window of exactly its seven bytes, and the whole window is
/// consumed, so the stream advances past it.
pub proof fn lemma_corrupt_short_detected(f: SpecFrame, j: int, m: u8)
    requires
        f.data.len() == 1,
        1 <= j <= 4,
        m != 0,
    ensures
        ({
            let d = frame_bytes(f).update(j, frame_bytes(f)[j] ^ m);
            spec_decode(d) == (Some(SpecRxFrame::Corrupted(d)), Seq::<u8>::empty())
        }),
{
    let e = frame_bytes(f);
    let d = e.update(j, e[j] ^ m);
    lemma_short_frame_bytes(f);
    let payload = seq![f.src, f.dst, f.cmd] + f.data;
    assert(e.subrange(1, 5) =~= payload);
    assert(d.subrange(1, 5) =~= payload.update(j - 1, payload[j - 1] ^ m));
    lemma_checksum_sensitive(payload, j - 1, m);
    assert(d[5] == checksum_of(payload));
    assert(checksum_of(d.subrange(1, 5)) != d[5]);
    assert(d.take(7) =~= d);
    assert(d.skip(7) =~= Seq::<u8>::empty());
}

/// Checksum sensitivity at the decoder, for long frames: with both markers
/// intact and any other of its identity or payload bytes damaged, the frame
/// is reported as a corrupted window of exactly its fourteen bytes, and the
/// whole window is consumed. (The byte where a short candidate looks for
/// the end marker is left alone, so the window is still read as long.)
pub proof fn lemma_corrupt_long_detected(f: SpecFrame, j: int, m: u8)
    requires
        f.data.len() == 8,
        f.data[2] != FRAME_END,
        1 <= j <= 11,
        j != 6,
        m != 0,
    ensures
        ({
            let d = frame_bytes(f).update(j, frame_bytes(f)[j] ^ m);
            spec_decode(d) == (Some(SpecRxFrame::Corrupted(d)), Seq::<u8>::empty())
        }),
{
    let e = frame_bytes(f);
    let d = e.update(j, e[j] ^ m);
    lemma_long_frame_bytes(f);
    let payload = seq![f.src, f.dst, f.cmd] + f.data;
    assert(e.subrange(1, 12) =~= payload);
    assert(d.subrange(1, 12) =~= payload.update(j - 1, payload[j - 1] ^ m));
    lemma_checksum_sensitive(payload, j - 1, m);
    assert(d[12] == checksum_of(payload));
    assert(checksum_of(d.subrange(1, 12)) != d[12]);
    assert(d[6] == f.data[2]);
    assert(d.take(14) =~= d);
    assert(d.skip(14) =~= Seq::<u8>::empty());
}

/// Junk resynchronization: any run of bytes that never shows the start
/// marker, followed by one valid short frame, decodes to exactly that frame
/// with nothing left over.
pub proof fn lemma_junk_resync(junk: Seq<u8>, f: SpecFrame)
    requires
        f.data.len() == 1,
        forall|i: int| 0 <= i < junk.len() ==> junk[i] != FRAME_START,
    ensures
        spec_decode(junk + frame_bytes(f)) == (Some(SpecRxFrame::Short(f)), Seq::<u8>::empty()),
    decreases junk.len(),
{
    if junk.len() == 0 {
        assert(junk + frame_bytes(f) =~= frame_bytes(f));
        lemma_short_round_trip(f);
    } else {
        let s = junk + frame_bytes(f);
        lemma_short_frame_bytes(f);
        assert(s[0] == junk[0]);
        assert(s.skip(1) =~= junk.skip(1) + frame_bytes(f));
        assert(forall|i: int|
            0 <= i < junk.skip(1).len() ==> junk.skip(1)[i] == junk[i + 1] && junk.skip(1)[i]
                != FRAME_START);
        lemma_junk_resync(junk.skip(1), f);
    }
}

#[verifier::external_type_specification]
#[verifier::external_body]
pub struct ExBytesMut(bytes::BytesMut);

/// The bytes a `BytesMut` buffer holds, front to back.
pub uninterp spec fn bytes_view(b: bytes::BytesMut) -> Seq<u8>;

/// Relies on bytes::BytesMut::new: an empty buffer.
#[verifier::external_body]
pub fn bytes_new() -> (r: bytes::BytesMut)
    ensures
        bytes_view(r) == Seq::<u8>::empty(),
{
    bytes::BytesMut::new()
}

/// Relies on bytes::BytesMut::len: how many bytes the buffer holds.
#[verifier::external_body]
pub fn bytes_len(b: &bytes::BytesMut) -> (r: usize)
    ensures
        r == bytes_view(*b).len(),
{
    b.len()
}

/// Relies on the Deref impl of bytes::BytesMut: indexing reads the buffer's bytes.
#[verifier::external_body]
pub fn bytes_at(b: &bytes::BytesMut, i: usize) -> (r: u8)
    requires
        i < bytes_view(*b).len(),
    ensures
        r == bytes_view(*b)[i as int],
{
    b[i]
}

/// Relies on bytes::Buf::advance for BytesMut: drops the first `n` bytes.
#[verifier::external_body]
pub fn bytes_advance(b: &mut bytes::BytesMut, n: usize)
    requires
        n <= bytes_view(*old(b)).len(),
    ensures
        bytes_view(*final(b)) == bytes_view(*old(b)).skip(n as int),
{
    bytes::Buf::advance(b, n)
}

/// Relies on bytes::BufMut::put_u8 for BytesMut: appends one byte. The
/// buffer's writable headroom is what usize still has room for, so a buffer
/// one byte short of that bound is excluded.
#[verifier::external_body]
pub fn bytes_put_u8(b: &mut bytes::BytesMut, v: u8)
    requires
        bytes_view(*old(b)).len() < usize::MAX,
    ensures
        bytes_view(*final(b)) == bytes_view(*old(b)).push(v),
{
    bytes::BufMut::put_u8(b, v)
}

/// Relies on the Deref impl of bytes::BytesMut: copies the first `n` bytes out.
#[verifier::external_body]
pub fn bytes_prefix(b: &bytes::BytesMut, n: usize) -> (r: Vec<u8>)
    requires
        n <= bytes_view(*b).len(),
    ensures
        r@ == bytes_view(*b).take(n as int),
{
    b[..n].to_vec()
}

#[verifier::external_type_specification]
#[verifier::external_body]
pub struct ExSystemTime(std::time::SystemTime);

/// Relies on std::time::SystemTime::now: the clock's reading as the call is made.
#[verifier::external_body]
pub fn time_now() -> std::time::SystemTime {
    std::time::SystemTime::now()
}

/// Relies on std::time::SystemTime::elapsed and Duration::as_millis;
/// a clock that went backwards counts as no elapsed time.
#[verifier::external_body]
pub fn elapsed_millis(t: &std::time::SystemTime) -> u128 {
    match t.elapsed() {
        Ok(d) => d.as_millis(),
        Err(_) => 0,
    }
}

/// Milliseconds elapsed since the given instant, or zero when there is none.
pub fn delta_ms(time: Option<std::time::SystemTime>) -> (r: u128)
    ensures
        time is None ==> r == 0,
{
    if let Some(time) = time {
        elapsed_millis(&time)
    } else {
        0
    }
}

/// The codec that turns raw bus bytes into frames and back, keeping
/// receive and transmit instants for diagnostics.
pub struct WrcBusProtocolCodec {
    start_time: std::time::SystemTime,
    last_rx_time: Option<std::time::SystemTime>,
    last_tx_time: Option<std::time::SystemTime>,
    last_txrx_time: Option<std::time::SystemTime>,
}

impl WrcBusProtocolCodec {
    pub fn new() -> Self {
        WrcBusProtocolCodec {
            start_time: time_now(),
            last_rx_time: None,
            last_tx_time: None,
            last_txrx_time: None,
        }
    }

    fn mark_rx(&mut self) {
        self.last_rx_time = Some(time_now());
        self.last_txrx_time = Some(time_now());
    }

    fn mark_tx(&mut self) {
        self.last_tx_time = Some(time_now());
        self.last_txrx_time = Some(time_now());
    }

    /// XOR-fold of the buffered bytes in positions `from..to`.
    fn buffered_checksum(src: &bytes::BytesMut, from: usize, to: usize) -> (r: u8)
        requires
            from <= to <= bytes_view(*src).len(),
        ensures
            r == checksum_of(bytes_view(*src).subrange(from as int, to as int)),
    {
        let mut acc: u8 = 0;
        let mut i: usize = from;
        proof {
            assert(bytes_view(*src).subrange(from as int, from as int) =~= Seq::<u8>::empty());
        }
        while i < to
            invariant
                from <= i <= to <= bytes_view(*src).len(),
                acc == checksum_of(bytes_view(*src).subrange(from as int, i as int)),
            decreases to - i,
        {
            proof {
                assert(bytes_view(*src).subrange(from as int, i + 1).drop_last() =~= bytes_view(
                    *src,
                ).subrange(from as int, i as int));
            }
            acc = acc ^ bytes_at(src, i);
            i = i + 1;
        }
        acc
    }

    /// Take zero or one frame off the front of the buffered byte stream.
    ///
    /// `None` asks the caller for more input; otherwise the returned frame
    /// and the consumed bytes are exactly what `spec_decode` says of the
    /// buffer's prior contents.
    pub fn decode(&mut self, src: &mut bytes::BytesMut) -> (r: Option<RxFrame>)
        ensures
            match r {
                Some(f) => spec_decode(bytes_view(*old(src))) == (
                    Some(f@),
                    bytes_view(*final(src)),
                ),
                None => spec_decode(bytes_view(*old(src))) == (
                    None::<SpecRxFrame>,
                    bytes_view(*final(src)),
                ),
            },
    {
        loop
            invariant
                spec_decode(bytes_view(*src)) == spec_decode(bytes_view(*old(src))),
            decreases bytes_view(*src).len(),
        {
            let n = bytes_len(src);
            if n < 7 {
                return None;
            }
            if bytes_at(src, 0) != FRAME_START {
                bytes_advance(src, 1);
                continue ;
            }
            if bytes_at(src, 6) == FRAME_END {
                let transmitted = bytes_at(src, 5);
                let computed = Self::buffered_checksum(src, 1, 5);
                if computed == transmitted {
                    let frame = FrameInner::<1> {
                        id: FrameId {
                            src: bytes_at(src, 1),
                            dst: bytes_at(src, 2),
                            cmd: bytes_at(src, 3),
                        },
                        data: [bytes_at(src, 4)],
                    };
                    proof {
                        assert(frame.data@ =~= bytes_view(*src).subrange(4, 5));
                    }
                    bytes_advance(src, 7);
                    self.mark_rx();
                    return Some(RxFrame::Short(frame));
                } else {
                    let window = bytes_prefix(src, 7);
                    bytes_advance(src, 7);
                    self.mark_rx();
                    return Some(RxFrame::Corrupted(window));
                }
            }
            if n < 14 {
                return None;
            }
            if bytes_at(src, 13) == FRAME_END {
                let transmitted = bytes_at(src, 12);
                let computed = Self::buffered_checksum(src, 1, 12);
                if computed == transmitted {
                    let frame = FrameInner::<8> {
                        id: FrameId {
                            src: bytes_at(src, 1),
                            dst: bytes_at(src, 2),
                            cmd: bytes_at(src, 3),
                        },
                        data: [
                            bytes_at(src, 4),
                            bytes_at(src, 5),
                            bytes_at(src, 6),
                            bytes_at(src, 7),
                            bytes_at(src, 8),
                            bytes_at(src, 9),
                            bytes_at(src, 10),
                            bytes_at(src, 11),
                        ],
                    };
                    proof {
                        assert(frame.data@ =~= bytes_view(*src).subrange(4, 12));
                    }
                    bytes_advance(src, 14);
                    self.mark_rx();
                    return Some(RxFrame::Long(frame));
                } else {
                    let window = bytes_prefix(src, 14);
                    bytes_advance(src, 14);
                    self.mark_rx();
                    return Some(RxFrame::Corrupted(window));
                }
            }
            bytes_advance(src, 1);
        }
    }

    /// Append one frame's wire bytes: both markers, the identity, the
    /// payload, and the checksum over identity and payload.
    fn put_frame<const S: usize>(&mut self, id: &FrameId, data: &[u8; S], dst: &mut bytes::BytesMut)
        requires
            bytes_view(*old(dst)).len() + 6 + S <= usize::MAX,
        ensures
            bytes_view(*final(dst)) == bytes_view(*old(dst)) + frame_bytes(
                SpecFrame { src: id.src, dst: id.dst, cmd: id.cmd, data: data@ },
            ),
    {
        let ghost header = seq![id.src, id.dst, id.cmd];
        bytes_put_u8(dst, FRAME_START);
        bytes_put_u8(dst, id.src);
        bytes_put_u8(dst, id.dst);
        bytes_put_u8(dst, id.cmd);
        let mut acc: u8 = ((0u8 ^ id.src) ^ id.dst) ^ id.cmd;
        proof {
            let h1 = seq![id.src];
            let h2 = seq![id.src, id.dst];
            assert(h1.drop_last() =~= Seq::<u8>::empty());
            assert(h2.drop_last() =~= h1);
            assert(header.drop_last() =~= h2);
            assert(checksum_of(Seq::<u8>::empty()) == 0u8);
            assert(checksum_of(h1) == 0u8 ^ id.src);
            assert(checksum_of(h2) == (0u8 ^ id.src) ^ id.dst);
            assert(checksum_of(header) == ((0u8 ^ id.src) ^ id.dst) ^ id.cmd);
            assert(header + data@.take(0) =~= header);
            assert(acc == checksum_of(header + data@.take(0)));
        }
        let mut i: usize = 0;
        while i < S
            invariant
                i <= S,
                bytes_view(*old(dst)).len() + 6 + S <= usize::MAX,
                acc == checksum_of(seq![id.src, id.dst, id.cmd] + data@.take(i as int)),
                bytes_view(*dst) == bytes_view(*old(dst)) + seq![
                    FRAME_START,
                    id.src,
                    id.dst,
                    id.cmd,
                ] + data@.take(i as int),
            decreases S - i,
        {
            proof {
                assert((seq![id.src, id.dst, id.cmd] + data@.take(i + 1)).drop_last() =~= seq![
                    id.src,
                    id.dst,
                    id.cmd,
                ] + data@.take(i as int));
            }
            acc = acc ^ data[i];
            bytes_put_u8(dst, data[i]);
            i = i + 1;
        }
        bytes_put_u8(dst, acc);
        bytes_put_u8(dst, FRAME_END);
        proof {
            assert(data@.take(S as int) =~= data@);
            assert(bytes_view(*dst) =~= bytes_view(*old(dst)) + frame_bytes(
                SpecFrame { src: id.src, dst: id.dst, cmd: id.cmd, data: data@ },
            ));
        }
    }

    /// Append one frame's wire bytes to the outgoing buffer.
    pub fn encode(&mut self, frame: TxFrame, dst: &mut bytes::BytesMut)
        requires
            bytes_view(*old(dst)).len() + 14 <= usize::MAX,
        ensures
            bytes_view(*final(dst)) == bytes_view(*old(dst)) + tx_frame_bytes(frame@),
    {
        match &frame {
            TxFrame::Long(inner) => {
                self.put_frame(&inner.id, &inner.data, dst);
            },
            TxFrame::Short(inner) => {
                self.put_frame(&inner.id, &inner.data, dst);
            },
        }
        self.mark_tx();
    }
}

} // verus!
