use vstd::prelude::*;
use crate::error::NodeError;

verus! {

/// The control messages that peers exchange. Text fields hold UTF-8 bytes.
#[derive(Debug, Clone, PartialEq, Eq)]
pub enum NetworkMessage {
    /// Liveness probe.
    Ping { nonce: u64 },
    /// Reply to a probe, echoing its nonce.
    Pong { nonce: u64 },
    /// Tells the receiver of a reachable peer. The frame carries the
    /// address in its `host:port` text form, as given; writing a socket
    /// address as text, and reading it back, is left to the caller's
    /// socket library.
    PeerAdvertisement { node_id: Vec<u8>, address: Vec<u8>, role: Vec<u8> },
}

/// A control message as the contracts see it.
pub enum MessageView {
    Ping(u64),
    Pong(u64),
    PeerAdvertisement(Seq<u8>, Seq<u8>, Seq<u8>),
}

impl View for NetworkMessage {
    type V = MessageView;

    open spec fn view(&self) -> MessageView {
        match self {
            NetworkMessage::Ping { nonce } => MessageView::Ping(*nonce),
            NetworkMessage::Pong { nonce } => MessageView::Pong(*nonce),
            NetworkMessage::PeerAdvertisement { node_id, address, role } => {
                MessageView::PeerAdvertisement(node_id@, address@, role@)
            },
        }
    }
}

pub const TAG_PING: u8 = 0;
pub const TAG_PONG: u8 = 1;
pub const TAG_PEER_ADVERTISEMENT: u8 = 2;

/// Bytes of a frame before its payload: one tag byte and a four-byte length.
pub const HEADER_LEN: usize = 5;

/// The four big-endian bytes of `n`.
pub open spec fn be32(n: u32) -> Seq<u8> {
    seq![(n >> 24u32) as u8, (n >> 16u32) as u8, (n >> 8u32) as u8, n as u8]
}

/// The eight big-endian bytes of `n`.
pub open spec fn be64(n: u64) -> Seq<u8> {
    seq![
        (n >> 56u64) as u8,
        (n >> 48u64) as u8,
        (n >> 40u64) as u8,
        (n >> 32u64) as u8,
        (n >> 24u64) as u8,
        (n >> 16u64) as u8,
        (n >> 8u64) as u8,
        n as u8,
    ]
}

/// The big-endian `u32` in `b[i..i + 4]`.
pub open spec fn read_be32(b: Seq<u8>, i: int) -> u32 {
    ((b[i] as u32) << 24u32) | ((b[i + 1] as u32) << 16u32) | ((b[i + 2] as u32) << 8u32) | (b[i
        + 3] as u32)
}

/// The big-endian `u64` in `b[i..i + 8]`.
pub open spec fn read_be64(b: Seq<u8>, i: int) -> u64 {
    ((b[i] as u64) << 56u64) | ((b[i + 1] as u64) << 48u64) | ((b[i + 2] as u64) << 40u64) | ((b[i
        + 3] as u64) << 32u64) | ((b[i + 4] as u64) << 24u64) | ((b[i + 5] as u64) << 16u64) | ((b[i
        + 6] as u64) << 8u64) | (b[i + 7] as u64)
}

/// A byte string preceded by its length.
pub open spec fn length_prefixed(s: Seq<u8>) -> Seq<u8> {
    be32(s.len() as u32) + s
}

pub open spec fn tag_of(m: MessageView) -> u8 {
    match m {
        MessageView::Ping(_) => TAG_PING,
        MessageView::Pong(_) => TAG_PONG,
        MessageView::PeerAdvertisement(..) => TAG_PEER_ADVERTISEMENT,
    }
}

pub open spec fn payload_of(m: MessageView) -> Seq<u8> {
    match m {
        MessageView::Ping(n) => be64(n),
        MessageView::Pong(n) => be64(n),
        MessageView::PeerAdvertisement(id, addr, role) => length_prefixed(id) + length_prefixed(addr)
            + length_prefixed(role),
    }
}

/// Whether the message's payload length fits the four-byte length field.
pub open spec fn fits(m: MessageView) -> bool {
    match m {
        MessageView::PeerAdvertisement(id, addr, role) => 12 + id.len() + addr.len() + role.len()
            <= u32::MAX,
        _ => true,
    }
}

/// The frame of a message: tag, payload length, payload.
pub open spec fn encoded(m: MessageView) -> Seq<u8> {
    seq![tag_of(m)] + be32(payload_of(m).len() as u32) + payload_of(m)
}

/// The length-prefixed string at `pos` of `p` and the position after it.
pub open spec fn parse_lp(p: Seq<u8>, pos: int) -> Option<(Seq<u8>, int)> {
    if 0 <= pos && pos + 4 <= p.len() && pos + 4 + read_be32(p, pos) <= p.len() {
        let end = pos + 4 + read_be32(p, pos);
        Some((p.subrange(pos + 4, end), end))
    } else {
        None
    }
}

/// The message that a payload with this tag holds, if it is well formed.
pub open spec fn parse_payload(tag: u8, p: Seq<u8>) -> Option<MessageView> {
    if tag == TAG_PING || tag == TAG_PONG {
        if p.len() == 8 {
            let n = read_be64(p, 0);
            Some(if tag == TAG_PING { MessageView::Ping(n) } else { MessageView::Pong(n) })
        } else {
            None
        }
    } else if tag == TAG_PEER_ADVERTISEMENT {
        match parse_lp(p, 0) {
            None => None,
            Some((id, i1)) => match parse_lp(p, i1) {
                None => None,
                Some((addr, i2)) => match parse_lp(p, i2) {
                    None => None,
                    Some((role, i3)) => if i3 == p.len() {
                        Some(MessageView::PeerAdvertisement(id, addr, role))
                    } else {
                        None
                    },
                },
            },
        }
    } else {
        None
    }
}

/// The message that a whole frame holds, if it is well formed: its length
/// field must match the bytes that follow the header.
pub open spec fn parse_frame(b: Seq<u8>) -> Option<MessageView> {
    if b.len() >= 5 && b.len() == 5 + read_be32(b, 1) {
        parse_payload(b[0], b.subrange(5, b.len() as int))
    } else {
        None
    }
}

proof fn lemma_be32_round_trip(n: u32)
    ensures
        read_be32(be32(n), 0) == n,
{
    let b = be32(n);
    let (b0, b1, b2, b3) = ((n >> 24u32) as u8, (n >> 16u32) as u8, (n >> 8u32) as u8, n as u8);
    assert(b[0] == b0 && b[1] == b1 && b[2] == b2 && b[3] == b3);
    assert(((b0 as u32) << 24u32) | ((b1 as u32) << 16u32) | ((b2 as u32) << 8u32) | (b3 as u32)
        == n) by (bit_vector)
        requires
            b0 == (n >> 24u32) as u8,
            b1 == (n >> 16u32) as u8,
            b2 == (n >> 8u32) as u8,
            b3 == n as u8,
    ;
}

proof fn lemma_be64_round_trip(n: u64)
    ensures
        read_be64(be64(n), 0) == n,
{
    let b = be64(n);
    let b0 = (n >> 56u64) as u8;
    let b1 = (n >> 48u64) as u8;
    let b2 = (n >> 40u64) as u8;
    let b3 = (n >> 32u64) as u8;
    let b4 = (n >> 24u64) as u8;
    let b5 = (n >> 16u64) as u8;
    let b6 = (n >> 8u64) as u8;
    let b7 = n as u8;
    assert(b[0] == b0 && b[1] == b1 && b[2] == b2 && b[3] == b3);
    assert(b[4] == b4 && b[5] == b5 && b[6] == b6 && b[7] == b7);
    assert(((b0 as u64) << 56u64) | ((b1 as u64) << 48u64) | ((b2 as u64) << 40u64) | ((b3 as u64)
        << 32u64) | ((b4 as u64) << 24u64) | ((b5 as u64) << 16u64) | ((b6 as u64) << 8u64) | (b7
        as u64) == n) by (bit_vector)
        requires
            b0 == (n >> 56u64) as u8,
            b1 == (n >> 48u64) as u8,
            b2 == (n >> 40u64) as u8,
            b3 == (n >> 32u64) as u8,
            b4 == (n >> 24u64) as u8,
            b5 == (n >> 16u64) as u8,
            b6 == (n >> 8u64) as u8,
            b7 == n as u8,
    ;
}

/// A length-prefixed string placed at `pos` of `p` is read back whole.
proof fn lemma_parse_lp(p: Seq<u8>, pos: int, s: Seq<u8>)
    requires
        0 <= pos,
        s.len() <= u32::MAX,
        pos + 4 + s.len() <= p.len(),
        p.subrange(pos, pos + 4 + s.len()) == length_prefixed(s),
    ensures
        parse_lp(p, pos) == Some((s, pos + 4 + s.len())),
{
    let n = s.len() as u32;
    lemma_be32_round_trip(n);
    let lp = length_prefixed(s);
    assert(p[pos] == lp[0] && p[pos + 1] == lp[1] && p[pos + 2] == lp[2] && p[pos + 3] == lp[3]);
    assert(read_be32(p, pos) == read_be32(be32(n), 0));
    assert(p.subrange(pos + 4, pos + 4 + s.len()) =~= s) by {
        assert forall|k: int| 0 <= k < s.len() implies p.subrange(pos + 4, pos + 4 + s.len())[k]
            == s[k] by {
            assert(p[pos + 4 + k] == lp[4 + k]);
        }
    }
}

/// Decoding the frame of a message gives the message back.
pub proof fn lemma_decode_encoded(m: MessageView)
    requires
        fits(m),
    ensures
        parse_frame(encoded(m)) == Some(m),
{
    let p = payload_of(m);
    let b = encoded(m);
    assert(p.len() <= u32::MAX) by {
        if let MessageView::PeerAdvertisement(id, addr, role) = m {
            assert(p.len() == 12 + id.len() + addr.len() + role.len());
        }
    }
    lemma_be32_round_trip(p.len() as u32);
    assert(read_be32(b, 1) == read_be32(be32(p.len() as u32), 0));
    assert(b.subrange(5, b.len() as int) =~= p);
    match m {
        MessageView::Ping(n) => {
            lemma_be64_round_trip(n);
        },
        MessageView::Pong(n) => {
            lemma_be64_round_trip(n);
        },
        MessageView::PeerAdvertisement(id, addr, role) => {
            let l1: int = 4 + id.len() as int;
            let l2: int = l1 + 4 + addr.len();
            assert(p.subrange(0, l1) =~= length_prefixed(id));
            lemma_parse_lp(p, 0, id);
            assert(p.subrange(l1, l2) =~= length_prefixed(addr));
            lemma_parse_lp(p, l1, addr);
            assert(p.subrange(l2, p.len() as int) =~= length_prefixed(role));
            lemma_parse_lp(p, l2, role);
        },
    }
}

fn push_be32(out: &mut Vec<u8>, n: u32)
    ensures
        final(out)@ == old(out)@ + be32(n),
{
    let ghost pre = out@;
    out.push((n >> 24u32) as u8);
    out.push((n >> 16u32) as u8);
    out.push((n >> 8u32) as u8);
    out.push(n as u8);
    assert(out@ =~= pre + be32(n));
}

fn push_be64(out: &mut Vec<u8>, n: u64)
    ensures
        final(out)@ == old(out)@ + be64(n),
{
    let ghost pre = out@;
    out.push((n >> 56u64) as u8);
    out.push((n >> 48u64) as u8);
    out.push((n >> 40u64) as u8);
    out.push((n >> 32u64) as u8);
    out.push((n >> 24u64) as u8);
    out.push((n >> 16u64) as u8);
    out.push((n >> 8u64) as u8);
    out.push(n as u8);
    assert(out@ =~= pre + be64(n));
}

fn push_bytes(out: &mut Vec<u8>, s: &[u8])
    ensures
        final(out)@ == old(out)@ + s@,
{
    let ghost pre = out@;
    let mut i: usize = 0;
    while i < s.len()
        invariant
            i <= s@.len(),
            out@ == pre + s@.subrange(0, i as int),
        decreases s@.len() - i,
    {
        out.push(s[i]);
        i = i + 1;
        assert(out@ =~= pre + s@.subrange(0, i as int));
    }
    assert(s@.subrange(0, s@.len() as int) =~= s@);
}

fn push_length_prefixed(out: &mut Vec<u8>, s: &[u8])
    requires
        s@.len() <= u32::MAX,
    ensures
        final(out)@ == old(out)@ + length_prefixed(s@),
{
    let ghost pre = out@;
    push_be32(out, s.len() as u32);
    push_bytes(out, s);
    assert(out@ =~= pre + length_prefixed(s@));
}

fn read_u32_at(b: &[u8], i: usize) -> (r: u32)
    requires
        i + 4 <= b@.len(),
    ensures
        r == read_be32(b@, i as int),
{
    ((b[i] as u32) << 24u32) | ((b[i + 1] as u32) << 16u32) | ((b[i + 2] as u32) << 8u32) | (b[i
        + 3] as u32)
}

fn read_u64_at(b: &[u8], i: usize) -> (r: u64)
    requires
        i + 8 <= b@.len(),
    ensures
        r == read_be64(b@, i as int),
{
    ((b[i] as u64) << 56u64) | ((b[i + 1] as u64) << 48u64) | ((b[i + 2] as u64) << 40u64) | ((b[i
        + 3] as u64) << 32u64) | ((b[i + 4] as u64) << 24u64) | ((b[i + 5] as u64) << 16u64) | ((b[i
        + 6] as u64) << 8u64) | (b[i + 7] as u64)
}

fn copy_range(b: &[u8], start: usize, end: usize) -> (r: Vec<u8>)
    requires
        start <= end <= b@.len(),
    ensures
        r@ == b@.subrange(start as int, end as int),
{
    let mut r: Vec<u8> = Vec::new();
    push_bytes(&mut r, &b[start..end]);
    assert(r@ =~= b@.subrange(start as int, end as int));
    r
}

fn decode_length_prefixed(p: &[u8], pos: usize) -> (r: Option<(Vec<u8>, usize)>)
    ensures
        match parse_lp(p@, pos as int) {
            None => r is None,
            Some((s, end)) => match r {
                Some((v, e)) => v@ == s && e == end,
                None => false,
            },
        },
{
    if p.len() < 4 || pos > p.len() - 4 {
        return None;
    }
    let n = read_u32_at(p, pos);
    if n as usize > p.len() - pos - 4 {
        return None;
    }
    let end = pos + 4 + n as usize;
    Some((copy_range(p, pos + 4, end), end))
}

impl NetworkMessage {
    /// Whether the payload of this message fits a frame's four-byte length.
    pub fn fits_frame(&self) -> (r: bool)
        ensures
            r == fits(self@),
    {
        match self {
            NetworkMessage::PeerAdvertisement { node_id, address, role } => {
                let limit: u64 = 0xFFFF_FFFF;
                let a = node_id.len() as u64;
                let b = address.len() as u64;
                let c = role.len() as u64;
                a <= limit - 12 && b <= limit - 12 - a && c <= limit - 12 - a - b
            },
            _ => true,
        }
    }

    /// The frame of this message: a tag byte, the payload's length as four
    /// big-endian bytes, then the payload.
    pub fn encode(&self) -> (r: Vec<u8>)
        requires
            fits(self@),
        ensures
            r@ == encoded(self@),
    {
        let mut payload: Vec<u8> = Vec::new();
        let tag: u8;
        match self {
            NetworkMessage::Ping { nonce } => {
                tag = TAG_PING;
                push_be64(&mut payload, *nonce);
            },
            NetworkMessage::Pong { nonce } => {
                tag = TAG_PONG;
                push_be64(&mut payload, *nonce);
            },
            NetworkMessage::PeerAdvertisement { node_id, address, role } => {
                tag = TAG_PEER_ADVERTISEMENT;
                push_length_prefixed(&mut payload, node_id.as_slice());
                push_length_prefixed(&mut payload, address.as_slice());
                push_length_prefixed(&mut payload, role.as_slice());
            },
        }
        assert(payload@ =~= payload_of(self@));
        let mut out: Vec<u8> = Vec::new();
        out.push(tag);
        push_be32(&mut out, payload.len() as u32);
        push_bytes(&mut out, payload.as_slice());
        assert(out@ =~= encoded(self@));
        out
    }

    /// The message that a whole frame holds; `DecodeError` for an unknown
    /// tag, a length field that disagrees with the frame, or a malformed
    /// payload.
    pub fn decode(frame: &[u8]) -> (r: Result<NetworkMessage, NodeError>)
        ensures
            match parse_frame(frame@) {
                Some(m) => r is Ok && r->Ok_0@ == m,
                None => r == Err::<NetworkMessage, NodeError>(NodeError::DecodeError),
            },
    {
        if frame.len() < HEADER_LEN {
            return Err(NodeError::DecodeError);
        }
        let n = read_u32_at(frame, 1);
        if n as usize != frame.len() - HEADER_LEN {
            return Err(NodeError::DecodeError);
        }
        let tag = frame[0];
        let p = &frame[HEADER_LEN..frame.len()];
        assert(p@ == frame@.subrange(5, frame@.len() as int));
        if tag == TAG_PING || tag == TAG_PONG {
            if p.len() != 8 {
                return Err(NodeError::DecodeError);
            }
            let nonce = read_u64_at(p, 0);
            if tag == TAG_PING {
                Ok(NetworkMessage::Ping { nonce })
            } else {
                Ok(NetworkMessage::Pong { nonce })
            }
        } else if tag == TAG_PEER_ADVERTISEMENT {
            let (node_id, i1) = match decode_length_prefixed(p, 0) {
                Some(x) => x,
                None => return Err(NodeError::DecodeError),
            };
            let (address, i2) = match decode_length_prefixed(p, i1) {
                Some(x) => x,
                None => return Err(NodeError::DecodeError),
            };
            let (role, i3) = match decode_length_prefixed(p, i2) {
                Some(x) => x,
                None => return Err(NodeError::DecodeError),
            };
            if i3 != p.len() {
                return Err(NodeError::DecodeError);
            }
            Ok(NetworkMessage::PeerAdvertisement { node_id, address, role })
        } else {
            Err(NodeError::DecodeError)
        }
    }

    /// The reply a connection handler sends: a `Pong` that echoes the nonce
    /// of a `Ping`, and nothing for any other message.
    pub fn reply_to(&self) -> (r: Option<NetworkMessage>)
        ensures
            match self@ {
                MessageView::Ping(n) => r is Some && r->0@ == MessageView::Pong(n),
                _ => r is None,
            },
    {
        match self {
            NetworkMessage::Ping { nonce } => Some(NetworkMessage::Pong { nonce: *nonce }),
            _ => None,
        }
    }
}

/// The payload length that a frame header announces; `None` when fewer
/// than the header's bytes are given.
pub fn frame_payload_len(header: &[u8]) -> (r: Option<u32>)
    ensures
        header@.len() < 5 ==> r is None,
        header@.len() >= 5 ==> r == Some(read_be32(header@, 1)),
{
    if header.len() < HEADER_LEN {
        None
    } else {
        Some(read_u32_at(header, 1))
    }
}

} // verus!
