//! The iFacialMocap receiver's own logic: its options and statistics, its
//! connection state machine, the framing of the TCP byte stream, and the
//! structure of a tracking packet (`name#values` segments joined by `|`).
//!
//! The angle values inside a packet are floating point; they are read by
//! the caller from the segment texts that this module extracts.
use vstd::prelude::*;
use crate::config::{IFACIALMOCAP_TCP_PORT, IFACIALMOCAP_UDP_PORT};
use crate::errors::AppError;
use crate::text::{
    ascii_lower, chars_equal, chars_of, decimal, decimal_string, has_prefix, lower_chars,
    split_chars, split_on, starts_with_chars, string_from_chars, sub_chars, trim, trim_chars,
};

verus! {

/// The largest number of bytes kept while waiting for a frame delimiter.
pub const TCP_REASSEMBLY_MAX_BYTES: usize = 65536;

#[derive(Debug, Clone, Copy, PartialEq, Eq, Structural)]
pub enum ConnectionState {
    Disconnected,
    Connecting,
    Receiving,
    Error,
}

/// Where and how to reach the iFacialMocap app.
#[derive(Debug, Clone)]
pub struct ReceiverOptions {
    pub host: String,
    pub udp_port: u16,
    pub tcp_port: u16,
    pub use_tcp: bool,
    pub start_command: String,
}

impl Default for ReceiverOptions {
    fn default() -> (r: Self)
        ensures
            r.host@ == "0.0.0.0"@,
            r.udp_port == IFACIALMOCAP_UDP_PORT,
            r.tcp_port == IFACIALMOCAP_TCP_PORT,
            !r.use_tcp,
            r.start_command@ == "iFacialMocap_sahne"@,
    {
        ReceiverOptions {
            host: String::from_str("0.0.0.0"),
            udp_port: IFACIALMOCAP_UDP_PORT,
            tcp_port: IFACIALMOCAP_TCP_PORT,
            use_tcp: false,
            start_command: String::from_str("iFacialMocap_sahne"),
        }
    }
}

/// Counters and the last error of a receiver.
#[derive(Debug, Clone)]
pub struct ReceiverStats {
    pub udp_packets_received: u64,
    pub tcp_reads: u64,
    pub tcp_bytes_received: u64,
    pub tcp_frames_reassembled: u64,
    pub frames_parsed: u64,
    pub frames_dropped: u64,
    pub last_packet_timestamp_ms: Option<u64>,
    pub last_error: Option<String>,
}

impl Default for ReceiverStats {
    fn default() -> (r: Self)
        ensures
            r.udp_packets_received == 0,
            r.tcp_reads == 0,
            r.tcp_bytes_received == 0,
            r.tcp_frames_reassembled == 0,
            r.frames_parsed == 0,
            r.frames_dropped == 0,
            r.last_packet_timestamp_ms is None,
            r.last_error is None,
    {
        ReceiverStats {
            udp_packets_received: 0,
            tcp_reads: 0,
            tcp_bytes_received: 0,
            tcp_frames_reassembled: 0,
            frames_parsed: 0,
            frames_dropped: 0,
            last_packet_timestamp_ms: None,
            last_error: None,
        }
    }
}

/// The message recorded when the reassembly buffer overflowed.
pub open spec fn overflow_message(overflow: nat) -> Seq<char> {
    "TCP reassembly buffer overflow: dropped "@ + decimal(overflow) + " byte(s)"@
}

impl ReceiverStats {
    /// A frame was parsed.
    pub fn note_frame_parsed(&mut self)
        requires
            old(self).frames_parsed < u64::MAX,
        ensures
            final(self).frames_parsed == old(self).frames_parsed + 1,
            final(self).frames_dropped == old(self).frames_dropped,
            final(self).last_error == old(self).last_error,
    {
        self.frames_parsed = self.frames_parsed + 1;
    }

    /// A frame was dropped for `message`.
    pub fn note_frame_dropped(&mut self, message: String)
        requires
            old(self).frames_dropped < u64::MAX,
        ensures
            final(self).frames_dropped == old(self).frames_dropped + 1,
            final(self).frames_parsed == old(self).frames_parsed,
            final(self).last_error == Some(message),
    {
        self.frames_dropped = self.frames_dropped + 1;
        self.last_error = Some(message);
    }

    /// The reassembly buffer dropped `overflow` bytes.
    pub fn note_reassembly_overflow(&mut self, overflow: usize)
        requires
            old(self).frames_dropped < u64::MAX,
        ensures
            final(self).frames_dropped == old(self).frames_dropped + 1,
            final(self).frames_parsed == old(self).frames_parsed,
            final(self).last_error matches Some(m) && m@ == overflow_message(overflow as nat),
    {
        self.frames_dropped = self.frames_dropped + 1;
        let count = decimal_string(overflow as u64);
        let message = String::from_str("TCP reassembly buffer overflow: dropped ").concat(
            count.as_str(),
        ).concat(" byte(s)");
        self.last_error = Some(message);
    }
}

/// The connection side of a receiver: its state, whether it is active,
/// whether a socket or stream is open, and its statistics. The sockets
/// themselves are held by the caller.
pub struct ReceiverStatus {
    pub state: ConnectionState,
    pub active: bool,
    pub transport_open: bool,
    pub stats: ReceiverStats,
}

impl ReceiverStatus {
    /// A receiver that has not connected yet.
    pub fn new() -> (r: Self)
        ensures
            r.state == ConnectionState::Disconnected,
            !r.active,
            !r.transport_open,
            r.stats.frames_parsed == 0,
            r.stats.frames_dropped == 0,
            r.stats.last_error is None,
    {
        ReceiverStatus {
            state: ConnectionState::Disconnected,
            active: false,
            transport_open: false,
            stats: ReceiverStats::default(),
        }
    }

    /// A connection attempt starts.
    pub fn begin_connect(&mut self)
        ensures
            final(self).state == ConnectionState::Connecting,
            final(self).active == old(self).active,
            final(self).transport_open == old(self).transport_open,
    {
        self.state = ConnectionState::Connecting;
    }

    /// The socket or stream is open: the receiver is receiving.
    pub fn connected(&mut self)
        ensures
            final(self).state == ConnectionState::Receiving,
            final(self).active,
            final(self).transport_open,
            final(self).stats.last_error is None,
            final(self).stats.frames_parsed == old(self).stats.frames_parsed,
            final(self).stats.frames_dropped == old(self).stats.frames_dropped,
    {
        self.transport_open = true;
        self.state = ConnectionState::Receiving;
        self.active = true;
        self.stats.last_error = None;
    }

    /// An error stops the receiver.
    pub fn record_error(&mut self, message: String)
        ensures
            final(self).state == ConnectionState::Error,
            !final(self).active,
            final(self).transport_open == old(self).transport_open,
            final(self).stats.last_error == Some(message),
            final(self).stats.frames_parsed == old(self).stats.frames_parsed,
            final(self).stats.frames_dropped == old(self).stats.frames_dropped,
    {
        self.state = ConnectionState::Error;
        self.active = false;
        self.stats.last_error = Some(message);
    }

    /// The receiver is closed.
    pub fn disconnect(&mut self)
        ensures
            final(self).state == ConnectionState::Disconnected,
            !final(self).active,
            !final(self).transport_open,
            final(self).stats.last_error == old(self).stats.last_error,
    {
        self.state = ConnectionState::Disconnected;
        self.active = false;
        self.transport_open = false;
    }

    /// Forgets the last error: receiving again while a socket or stream is
    /// open, disconnected otherwise.
    pub fn clear_error(&mut self)
        ensures
            final(self).stats.last_error is None,
            final(self).transport_open == old(self).transport_open,
            final(self).state == if old(self).transport_open {
                ConnectionState::Receiving
            } else {
                ConnectionState::Disconnected
            },
            final(self).active == old(self).transport_open,
    {
        self.stats.last_error = None;
        if self.transport_open {
            self.state = ConnectionState::Receiving;
            self.active = true;
        } else {
            self.state = ConnectionState::Disconnected;
            self.active = false;
        }
    }

    /// A read produced at least one frame: the receiver is receiving.
    pub fn frame_received(&mut self)
        ensures
            final(self).state == ConnectionState::Receiving,
            final(self).active,
            final(self).transport_open == old(self).transport_open,
            final(self).stats.last_error is None,
            final(self).stats.frames_parsed == old(self).stats.frames_parsed,
            final(self).stats.frames_dropped == old(self).stats.frames_dropped,
    {
        self.state = ConnectionState::Receiving;
        self.active = true;
        self.stats.last_error = None;
    }
}

/// A byte that ends a frame on the TCP stream.
pub open spec fn spec_is_tcp_delimiter(byte: u8) -> bool {
    byte == 10 || byte == 0 || byte == 13
}

pub fn is_tcp_delimiter(byte: u8) -> (b: bool)
    ensures
        b == spec_is_tcp_delimiter(byte),
{
    byte == 10 || byte == 0 || byte == 13
}

/// Drops the oldest bytes of the reassembly buffer beyond its limit and
/// returns how many were dropped (`None` when it was within the limit).
pub fn trim_tcp_reassembly_buffer(buffer: &mut Vec<u8>) -> (dropped: Option<usize>)
    ensures
        old(buffer)@.len() <= TCP_REASSEMBLY_MAX_BYTES ==> dropped is None && final(buffer)@
            == old(buffer)@,
        old(buffer)@.len() > TCP_REASSEMBLY_MAX_BYTES ==> dropped == Some(
            (old(buffer)@.len() - TCP_REASSEMBLY_MAX_BYTES) as usize,
        ) && final(buffer)@ == old(buffer)@.skip(
            old(buffer)@.len() - TCP_REASSEMBLY_MAX_BYTES,
        ),
{
    if buffer.len() <= TCP_REASSEMBLY_MAX_BYTES {
        return None;
    }
    let overflow = buffer.len() - TCP_REASSEMBLY_MAX_BYTES;
    let mut kept: Vec<u8> = Vec::new();
    let mut k: usize = overflow;
    while k < buffer.len()
        invariant
            overflow <= k <= buffer@.len(),
            kept@ =~= buffer@.subrange(overflow as int, k as int),
        decreases buffer.len() - k,
    {
        kept.push(buffer[k]);
        k = k + 1;
    }
    *buffer = kept;
    Some(overflow)
}

/// The index of the first delimiter in `b` (`b.len()` when there is none).
pub open spec fn first_delimiter(b: Seq<u8>) -> int
    decreases b.len(),
{
    if b.len() == 0 {
        0
    } else if spec_is_tcp_delimiter(b[0]) {
        0
    } else {
        1 + first_delimiter(b.drop_first())
    }
}

proof fn lemma_first_delimiter(b: Seq<u8>)
    ensures
        0 <= first_delimiter(b) <= b.len(),
        first_delimiter(b) < b.len() ==> spec_is_tcp_delimiter(b[first_delimiter(b)]),
        forall|j: int| 0 <= j < first_delimiter(b) ==> !spec_is_tcp_delimiter(#[trigger] b[j]),
    decreases b.len(),
{
    if b.len() > 0 && !spec_is_tcp_delimiter(b[0]) {
        lemma_first_delimiter(b.drop_first());
        assert forall|j: int| 0 <= j < first_delimiter(b) implies !spec_is_tcp_delimiter(
            #[trigger] b[j],
        ) by {
            if j > 0 {
                assert(b[j] == b.drop_first()[j - 1]);
            }
        }
    }
}

/// Reassembly does not depend on how the stream was cut into reads: when
/// the buffer already holds a delimiter, bytes arriving later change neither
/// the next frame nor what precedes them in the remainder; when it holds
/// none, the next frame is the buffer followed by the next frame of what
/// arrives.
pub proof fn law_reassembly_ignores_read_boundaries(b: Seq<u8>, c: Seq<u8>)
    ensures
        first_delimiter(b) < b.len() ==> {
            &&& first_delimiter(b + c) == first_delimiter(b)
            &&& (b + c).take(first_delimiter(b + c)) == b.take(first_delimiter(b))
            &&& (b + c).skip(first_delimiter(b + c) + 1) == b.skip(first_delimiter(b) + 1) + c
        },
        first_delimiter(b) == b.len() ==> {
            &&& first_delimiter(b + c) == b.len() + first_delimiter(c)
            &&& (b + c).take(first_delimiter(b + c)) == b + c.take(first_delimiter(c))
            &&& first_delimiter(c) < c.len() ==> (b + c).skip(first_delimiter(b + c) + 1) == c.skip(
                first_delimiter(c) + 1,
            )
        },
    decreases b.len(),
{
    lemma_first_delimiter(b);
    lemma_first_delimiter(c);
    if b.len() > 0 {
        assert((b + c).drop_first() =~= b.drop_first() + c);
        if !spec_is_tcp_delimiter(b[0]) {
            law_reassembly_ignores_read_boundaries(b.drop_first(), c);
        }
    } else {
        assert(b + c =~= c);
    }
    let d = first_delimiter(b + c);
    if first_delimiter(b) < b.len() {
        assert((b + c).take(d) =~= b.take(first_delimiter(b)));
        assert((b + c).skip(d + 1) =~= b.skip(first_delimiter(b) + 1) + c);
    } else {
        assert((b + c).take(d) =~= b + c.take(first_delimiter(c)));
        if first_delimiter(c) < c.len() {
            assert((b + c).skip(d + 1) =~= c.skip(first_delimiter(c) + 1));
        }
    }
}

/// Takes the next complete frame off the front of the reassembly buffer:
/// the bytes before the first delimiter, which is consumed with them.
/// `None` (and the buffer unchanged) when no delimiter has arrived yet.
pub fn next_tcp_frame(buffer: &mut Vec<u8>) -> (frame: Option<Vec<u8>>)
    ensures
        ({
            let d = first_delimiter(old(buffer)@);
            if d < old(buffer)@.len() {
                &&& frame matches Some(f) && f@ == old(buffer)@.take(d)
                &&& final(buffer)@ == old(buffer)@.skip(d + 1)
            } else {
                &&& frame is None
                &&& final(buffer)@ == old(buffer)@
            }
        }),
{
    proof {
        lemma_first_delimiter(buffer@);
    }
    let n = buffer.len();
    let mut d: usize = 0;
    assert(buffer@.skip(0) =~= buffer@);
    while d < n && !is_tcp_delimiter(buffer[d])
        invariant
            n == buffer@.len(),
            d <= n,
            first_delimiter(buffer@) == d + first_delimiter(buffer@.skip(d as int)),
        decreases n - d,
    {
        assert(buffer@.skip(d as int).drop_first() =~= buffer@.skip(d + 1));
        d = d + 1;
    }
    if d == n {
        return None;
    }
    let mut frame: Vec<u8> = Vec::new();
    let mut k: usize = 0;
    while k < d
        invariant
            d < n == buffer@.len(),
            k <= d,
            frame@ =~= buffer@.take(k as int),
        decreases d - k,
    {
        frame.push(buffer[k]);
        k = k + 1;
    }
    let mut rest: Vec<u8> = Vec::new();
    let mut j: usize = d + 1;
    while j < n
        invariant
            d < n == buffer@.len(),
            d + 1 <= j <= n,
            rest@ =~= buffer@.subrange(d + 1, j as int),
        decreases n - j,
    {
        rest.push(buffer[j]);
        j = j + 1;
    }
    *buffer = rest;
    Some(frame)
}

/// A character that `parse_reassembled_tcp_frames` strips from frame ends.
pub open spec fn is_frame_control(c: char) -> bool {
    c == '\r' || c == '\n' || c == '\0'
}

/// `s` without leading control characters.
pub open spec fn strip_controls_start(s: Seq<char>) -> Seq<char>
    decreases s.len(),
{
    if s.len() > 0 && is_frame_control(s[0]) {
        strip_controls_start(s.drop_first())
    } else {
        s
    }
}

/// `s` without trailing control characters.
pub open spec fn strip_controls_end(s: Seq<char>) -> Seq<char>
    decreases s.len(),
{
    if s.len() > 0 && is_frame_control(s.last()) {
        strip_controls_end(s.drop_last())
    } else {
        s
    }
}

/// The payload of a frame's text: control characters stripped from both
/// ends, then surrounding whitespace.
pub open spec fn frame_payload(text: Seq<char>) -> Seq<char> {
    trim(strip_controls_end(strip_controls_start(text)))
}

fn strip_controls(v: &Vec<char>) -> (out: Vec<char>)
    ensures
        out@ == strip_controls_end(strip_controls_start(v@)),
{
    let n = v.len();
    let mut i: usize = 0;
    assert(v@.skip(0) =~= v@);
    while i < n && (v[i] == '\r' || v[i] == '\n' || v[i] == '\0')
        invariant
            n == v@.len(),
            i <= n,
            strip_controls_start(v@) == strip_controls_start(v@.skip(i as int)),
        decreases n - i,
    {
        assert(v@.skip(i as int).drop_first() =~= v@.skip(i + 1));
        i = i + 1;
    }
    let ghost t = v@.skip(i as int);
    let mut j: usize = n;
    assert(t.take((n - i) as int) =~= t);
    while j > i && (v[j - 1] == '\r' || v[j - 1] == '\n' || v[j - 1] == '\0')
        invariant
            n == v@.len(),
            i <= j <= n,
            t == v@.skip(i as int),
            strip_controls_end(t) == strip_controls_end(t.take(j - i)),
        decreases j,
    {
        assert(t[j - i - 1] == v@[j - 1]);
        assert(t.take(j - i).drop_last() =~= t.take(j - i - 1));
        j = j - 1;
    }
    let out = sub_chars(v, i, j);
    assert(out@ =~= t.take(j - i));
    out
}

/// The payload of a frame's text (see `frame_payload`); `None` when it is empty.
pub fn tcp_frame_payload(text: &str) -> (r: Option<String>)
    ensures
        match r {
            Some(p) => p@ == frame_payload(text@) && p@.len() > 0,
            None => frame_payload(text@).len() == 0,
        },
{
    let chars = chars_of(text);
    let stripped = strip_controls(&chars);
    let payload = trim_chars(&stripped);
    if payload.len() == 0 {
        None
    } else {
        Some(string_from_chars(&payload))
    }
}

/// The fields of a tracking packet.
#[derive(Debug, Clone, Copy, PartialEq, Eq, Structural)]
pub enum SegmentKind {
    Head,
    LeftEye,
    RightEye,
    Confidence,
}

/// One recognised segment of a packet: its field and the text after `name#`.
#[derive(Debug, Clone)]
pub struct PacketSegment {
    pub kind: SegmentKind,
    pub value: String,
}

/// The field of a trimmed segment and the text after its `name#` prefix;
/// `None` for empty or unknown segments.
pub open spec fn classify_segment(t: Seq<char>) -> Option<(SegmentKind, Seq<char>)> {
    if t.len() == 0 {
        None
    } else if has_prefix(t, "head#"@) {
        Some((SegmentKind::Head, t.skip("head#"@.len() as int)))
    } else if has_prefix(t, "=head#"@) {
        Some((SegmentKind::Head, t.skip("=head#"@.len() as int)))
    } else if has_prefix(t, "leftEye#"@) {
        Some((SegmentKind::LeftEye, t.skip("leftEye#"@.len() as int)))
    } else if has_prefix(t, "rightEye#"@) {
        Some((SegmentKind::RightEye, t.skip("rightEye#"@.len() as int)))
    } else if has_prefix(t, "confidence#"@) {
        Some((SegmentKind::Confidence, t.skip("confidence#"@.len() as int)))
    } else {
        None
    }
}

/// The recognised segments of a list of pieces, in order.
pub open spec fn scan_pieces(pieces: Seq<Seq<char>>) -> Seq<(SegmentKind, Seq<char>)>
    decreases pieces.len(),
{
    if pieces.len() == 0 {
        Seq::empty()
    } else {
        let earlier = scan_pieces(pieces.drop_last());
        match classify_segment(trim(pieces.last())) {
            Some(seg) => earlier.push(seg),
            None => earlier,
        }
    }
}

/// The recognised segments of a packet: its `|`-separated pieces, trimmed,
/// keeping those that start with `head#` (possibly after `=`, which ends
/// the blend shape list), `leftEye#`, `rightEye#` or `confidence#`.
pub open spec fn spec_packet_segments(packet: Seq<char>) -> Seq<(SegmentKind, Seq<char>)> {
    scan_pieces(split_on(packet, '|'))
}

/// The view of a list of segments.
pub open spec fn segment_views(list: Seq<PacketSegment>) -> Seq<(SegmentKind, Seq<char>)> {
    list.map_values(|s: PacketSegment| (s.kind, s.value@))
}

fn strip_prefix_chars(t: &Vec<char>, p: &str) -> (r: Option<Vec<char>>)
    ensures
        match r {
            Some(rest) => has_prefix(t@, p@) && rest@ == t@.skip(p@.len() as int),
            None => !has_prefix(t@, p@),
        },
{
    let pc = chars_of(p);
    if starts_with_chars(t, &pc) {
        Some(sub_chars(t, pc.len(), t.len()))
    } else {
        None
    }
}

/// Splits a packet into its recognised segments (see `spec_packet_segments`).
pub fn packet_segments(packet: &str) -> (out: Vec<PacketSegment>)
    ensures
        segment_views(out@) == spec_packet_segments(packet@),
{
    let chars = chars_of(packet);
    let pieces = split_chars(&chars, '|');
    let ghost spieces = split_on(packet@, '|');
    let mut out: Vec<PacketSegment> = Vec::new();
    let mut i: usize = 0;
    assert(spieces.take(0) =~= Seq::<Seq<char>>::empty());
    assert(segment_views(out@) =~= Seq::<(SegmentKind, Seq<char>)>::empty());
    while i < pieces.len()
        invariant
            i <= pieces@.len(),
            pieces@.len() == spieces.len(),
            forall|k: int| 0 <= k < pieces@.len() ==> #[trigger] pieces@[k]@ == spieces[k],
            segment_views(out@) == scan_pieces(spieces.take(i as int)),
        decreases pieces.len() - i,
    {
        assert(spieces.take(i + 1).drop_last() =~= spieces.take(i as int));
        assert(spieces.take(i + 1).last() == pieces@[i as int]@);
        let t = trim_chars(&pieces[i]);
        let ghost before = out@;
        if t.len() > 0 {
            let seg = if let Some(rest) = strip_prefix_chars(&t, "head#") {
                Some(PacketSegment { kind: SegmentKind::Head, value: string_from_chars(&rest) })
            } else if let Some(rest) = strip_prefix_chars(&t, "=head#") {
                Some(PacketSegment { kind: SegmentKind::Head, value: string_from_chars(&rest) })
            } else if let Some(rest) = strip_prefix_chars(&t, "leftEye#") {
                Some(PacketSegment { kind: SegmentKind::LeftEye, value: string_from_chars(&rest) })
            } else if let Some(rest) = strip_prefix_chars(&t, "rightEye#") {
                Some(PacketSegment { kind: SegmentKind::RightEye, value: string_from_chars(&rest) })
            } else if let Some(rest) = strip_prefix_chars(&t, "confidence#") {
                Some(
                    PacketSegment { kind: SegmentKind::Confidence, value: string_from_chars(&rest) },
                )
            } else {
                None
            };
            if let Some(s) = seg {
                out.push(s);
                assert(segment_views(out@) =~= segment_views(before).push(
                    classify_segment(t@).unwrap(),
                ));
            }
        }
        i = i + 1;
    }
    assert(spieces.take(pieces@.len() as int) =~= spieces);
    out
}

/// The components of a value triplet: the first three `,`-separated pieces,
/// trimmed (fewer when the text has fewer).
pub open spec fn spec_triplet_components(raw: Seq<char>) -> Seq<Seq<char>> {
    let pieces = split_on(raw, ',');
    let n = if pieces.len() < 3 {
        pieces.len()
    } else {
        3
    };
    pieces.take(n as int).map_values(|p: Seq<char>| trim(p))
}

/// Splits a triplet's text into its (at most three) trimmed components.
pub fn triplet_components(raw: &str) -> (out: Vec<String>)
    ensures
        out@.map_values(|s: String| s@) == spec_triplet_components(raw@),
{
    let chars = chars_of(raw);
    let pieces = split_chars(&chars, ',');
    let n = if pieces.len() < 3 {
        pieces.len()
    } else {
        3
    };
    let mut out: Vec<String> = Vec::new();
    let mut i: usize = 0;
    while i < n
        invariant
            n <= pieces@.len(),
            n == if split_on(raw@, ',').len() < 3 {
                split_on(raw@, ',').len()
            } else {
                3
            },
            pieces@.len() == split_on(raw@, ',').len(),
            forall|k: int| 0 <= k < pieces@.len() ==> #[trigger] pieces@[k]@ == split_on(raw@, ',')[k],
            i <= n,
            out@.len() == i,
            forall|k: int| 0 <= k < i ==> #[trigger] out@[k]@ == trim(split_on(raw@, ',')[k]),
        decreases n - i,
    {
        let t = trim_chars(&pieces[i]);
        out.push(string_from_chars(&t));
        i = i + 1;
    }
    assert(out@.map_values(|s: String| s@) =~= spec_triplet_components(raw@));
    out
}

/// The packet's head and eye values, each required: the first missing field
/// (in the order head, left eye, right eye) is the error.
pub fn require_pose_fields<T: Copy>(head: Option<T>, left_eye: Option<T>, right_eye: Option<T>) -> (r:
    Result<(T, T, T), AppError>)
    ensures
        head is None ==> (r matches Err(AppError::InvalidData(m)) && m@ == "head field is missing"@),
        head is Some && left_eye is None ==> (r matches Err(AppError::InvalidData(m)) && m@
            == "leftEye field is missing"@),
        head is Some && left_eye is Some && right_eye is None ==> (r matches Err(
            AppError::InvalidData(m),
        ) && m@ == "rightEye field is missing"@),
        head is Some && left_eye is Some && right_eye is Some ==> r == Ok::<(T, T, T), AppError>(
            (head.unwrap(), left_eye.unwrap(), right_eye.unwrap()),
        ),
{
    match head {
        None => Err(AppError::InvalidData(String::from_str("head field is missing"))),
        Some(h) => match left_eye {
            None => Err(AppError::InvalidData(String::from_str("leftEye field is missing"))),
            Some(l) => match right_eye {
                None => Err(AppError::InvalidData(String::from_str("rightEye field is missing"))),
                Some(r) => Ok((h, l, r)),
            },
        },
    }
}

/// The host is this machine (`127.0.0.1` or `localhost`, any case).
pub open spec fn is_loopback_host(host: Seq<char>) -> bool {
    ascii_lower(host) == "127.0.0.1"@ || ascii_lower(host) == "localhost"@
}

/// What to tell the user while no frame arrives: nothing once a frame was
/// parsed; the parse error when packets were dropped; otherwise where
/// packets are expected from, with a hint when the host is a loopback
/// address.
pub open spec fn spec_idle_diagnostic(
    frames_parsed: u64,
    frames_dropped: u64,
    last_error: Option<Seq<char>>,
    host: Seq<char>,
    udp_port: u16,
) -> Option<Seq<char>> {
    if frames_parsed > 0 {
        None
    } else if frames_dropped > 0 {
        let detail = match last_error {
            Some(e) => e,
            None => "unknown parsing error"@,
        };
        Some("tracking packets could not be parsed: "@ + detail)
    } else {
        let hint = if is_loopback_host(host) {
            "; current input.host is loopback, so set it to your iFacialMocap device IP"@
        } else {
            ""@
        };
        Some(
            "no tracking packets received from "@ + host + ":"@ + decimal(udp_port as nat)
                + " yet; verify iFacialMocap target IP/port and config input.host"@ + hint,
        )
    }
}

pub fn idle_diagnostic_message(stats: &ReceiverStats, options: &ReceiverOptions) -> (r: Option<String>)
    ensures
        match r {
            Some(m) => spec_idle_diagnostic(
                stats.frames_parsed,
                stats.frames_dropped,
                match stats.last_error {
                    Some(e) => Some(e@),
                    None => None,
                },
                options.host@,
                options.udp_port,
            ) == Some(m@),
            None => spec_idle_diagnostic(
                stats.frames_parsed,
                stats.frames_dropped,
                match stats.last_error {
                    Some(e) => Some(e@),
                    None => None,
                },
                options.host@,
                options.udp_port,
            ) is None,
        },
{
    if stats.frames_parsed > 0 {
        return None;
    }
    if stats.frames_dropped > 0 {
        let prefix = String::from_str("tracking packets could not be parsed: ");
        let message = match &stats.last_error {
            Some(e) => prefix.concat(e.as_str()),
            None => prefix.concat("unknown parsing error"),
        };
        return Some(message);
    }
    let host_chars = chars_of(options.host.as_str());
    let lowered = lower_chars(&host_chars);
    let a = chars_of("127.0.0.1");
    let b = chars_of("localhost");
    let loopback = chars_equal(&lowered, &a) || chars_equal(&lowered, &b);
    let hint = if loopback {
        "; current input.host is loopback, so set it to your iFacialMocap device IP"
    } else {
        ""
    };
    let port = decimal_string(options.udp_port as u64);
    let message = String::from_str("no tracking packets received from ").concat(
        options.host.as_str(),
    ).concat(":").concat(port.as_str()).concat(
        " yet; verify iFacialMocap target IP/port and config input.host",
    ).concat(hint);
    Some(message)
}

} // verus!
