//! Byte framing for the gimbal serial protocol.
//!
//! Two framing variants share one packet shape: a two-byte marker, a header
//! of target, command and payload length, the payload, and a 16-bit CRC in
//! little-endian order.  Normal framing uses a one-byte length and the XMODEM
//! CRC; bootloader framing uses a two-byte little-endian length and the
//! CCITT-FALSE CRC.  The receiver resynchronizes on the marker, keeps partial
//! packets for the next read, and drops packets whose CRC does not match.

use vstd::prelude::*;

verus! {

/// Which of the two framing variants a packet uses.
#[derive(Debug, PartialEq, Eq, Structural, Clone, Copy)]
pub enum GimbalFraming {
    Bootloader,
    Normal,
}

/// One packet of the gimbal protocol.
#[derive(Debug, PartialEq, Eq, Clone)]
pub struct GimbalPacket {
    pub framing: GimbalFraming,
    pub command: u8,
    pub target: u8,
    pub data: Vec<u8>,
}

/// Mathematical model of a packet: the same fields over a byte sequence.
pub ghost struct GimbalPacketModel {
    pub framing: GimbalFraming,
    pub command: u8,
    pub target: u8,
    pub data: Seq<u8>,
}

impl View for GimbalPacket {
    type V = GimbalPacketModel;

    open spec fn view(&self) -> GimbalPacketModel {
        GimbalPacketModel {
            framing: self.framing,
            command: self.command,
            target: self.target,
            data: self.data@,
        }
    }
}

/// The 16-bit XMODEM checksum of a byte sequence.
pub uninterp spec fn xmodem_crc_of(data: Seq<u8>) -> u16;

/// The 16-bit CCITT-FALSE checksum of a byte sequence.
pub uninterp spec fn ccitt_false_crc_of(data: Seq<u8>) -> u16;

/// Relies on crc16::State::<XMODEM>::calculate: the XMODEM checksum,
/// a function of the input bytes alone.
#[verifier::external_body]
fn calc_xmodem_crc(data: &Vec<u8>) -> (r: u16)
    ensures
        r == xmodem_crc_of(data@),
{
    crc16::State::<crc16::XMODEM>::calculate(data.as_slice())
}

/// Relies on crc16::State::<CCITT_FALSE>::calculate: the CCITT-FALSE checksum,
/// a function of the input bytes alone.
#[verifier::external_body]
fn calc_ccitt_false_crc(data: &Vec<u8>) -> (r: u16)
    ensures
        r == ccitt_false_crc_of(data@),
{
    crc16::State::<crc16::CCITT_FALSE>::calculate(data.as_slice())
}

/// The two-byte framing marker of each variant.
pub open spec fn framing_bytes(f: GimbalFraming) -> Seq<u8> {
    match f {
        GimbalFraming::Bootloader => seq![0x55u8, 0xaau8],
        GimbalFraming::Normal => seq![0xa5u8, 0x5au8],
    }
}

/// How a payload length is written: one byte under normal framing,
/// two little-endian bytes under bootloader framing.
pub open spec fn length_bytes(f: GimbalFraming, len: int) -> Seq<u8> {
    match f {
        GimbalFraming::Bootloader => seq![(len % 256) as u8, (len / 256) as u8],
        GimbalFraming::Normal => seq![(len % 256) as u8],
    }
}

/// Header and payload: the region the CRC covers.
pub open spec fn body_bytes(m: GimbalPacketModel) -> Seq<u8> {
    seq![m.target, m.command] + length_bytes(m.framing, m.data.len() as int) + m.data
}

/// The checksum a framing variant uses.
pub open spec fn crc_of(f: GimbalFraming, s: Seq<u8>) -> u16 {
    match f {
        GimbalFraming::Bootloader => ccitt_false_crc_of(s),
        GimbalFraming::Normal => xmodem_crc_of(s),
    }
}

/// A 16-bit checksum in little-endian byte order.
pub open spec fn crc_bytes_of(c: u16) -> Seq<u8> {
    seq![(c % 256) as u8, (c / 256) as u8]
}

/// Whether a packet's payload fits its framing's length field.
pub open spec fn packet_fits(m: GimbalPacketModel) -> bool {
    match m.framing {
        GimbalFraming::Bootloader => m.data.len() <= 0xffff,
        GimbalFraming::Normal => m.data.len() <= 0xff,
    }
}

/// The full wire encoding of a packet.
pub open spec fn packet_bytes(m: GimbalPacketModel) -> Seq<u8> {
    framing_bytes(m.framing) + body_bytes(m) + crc_bytes_of(crc_of(m.framing, body_bytes(m)))
}

/// The framing marker starting at offset `i`, if any.
pub open spec fn marker_at(s: Seq<u8>, i: int) -> Option<GimbalFraming> {
    if s[i] == 0x55 && s[i + 1] == 0xaa {
        Some(GimbalFraming::Bootloader)
    } else if s[i] == 0xa5 && s[i + 1] == 0x5a {
        Some(GimbalFraming::Normal)
    } else {
        None
    }
}

/// The first offset at or after `i` where a framing marker starts.
pub open spec fn first_marker_from(s: Seq<u8>, i: int) -> Option<int>
    decreases s.len() - i,
{
    if i < 0 || i + 2 > s.len() {
        None
    } else if marker_at(s, i) matches Some(_) {
        Some(i)
    } else {
        first_marker_from(s, i + 1)
    }
}

/// What one parsing attempt leaves in the buffer and yields, once the payload
/// length `len` is known and `rest` is the bytes after the length field.
/// `orig` is the whole unconsumed buffer, kept when the packet is incomplete.
pub open spec fn parse_sized(
    f: GimbalFraming,
    target: u8,
    command: u8,
    len: int,
    rest: Seq<u8>,
    orig: Seq<u8>,
) -> (Seq<u8>, Option<GimbalPacketModel>) {
    if rest.len() < len + 2 {
        (orig, None)
    } else {
        let data = rest.subrange(0, len);
        let stored = rest.subrange(len, len + 2);
        let rem = rest.subrange(len + 2, rest.len() as int);
        let m = GimbalPacketModel { framing: f, command, target, data };
        if stored == crc_bytes_of(crc_of(f, body_bytes(m))) {
            (rem, Some(m))
        } else {
            (rem, None)
        }
    }
}

/// Parsing once a framing marker was found: `r` is the bytes after the marker.
pub open spec fn parse_after_marker(f: GimbalFraming, r: Seq<u8>, orig: Seq<u8>) -> (
    Seq<u8>,
    Option<GimbalPacketModel>,
) {
    if r.len() <= 2 {
        (orig, None)
    } else {
        let target = r[0];
        let command = r[1];
        let rest = r.subrange(2, r.len() as int);
        match f {
            GimbalFraming::Normal => parse_sized(
                f,
                target,
                command,
                rest[0] as int,
                rest.subrange(1, rest.len() as int),
                orig,
            ),
            GimbalFraming::Bootloader => if rest.len() < 2 {
                (orig, None)
            } else {
                parse_sized(
                    f,
                    target,
                    command,
                    rest[0] + 256 * rest[1],
                    rest.subrange(2, rest.len() as int),
                    orig,
                )
            },
        }
    }
}

/// One step of the stream parser: what remains in the buffer, and the packet
/// recognized, if any.  Junk before the first marker is discarded; with no
/// marker at all, only the last byte is kept in case a marker is split across
/// reads; an incomplete packet leaves the buffer unchanged; a packet with a
/// bad CRC is consumed and dropped.
pub open spec fn parse_stream(s: Seq<u8>) -> (Seq<u8>, Option<GimbalPacketModel>) {
    if s.len() < 2 {
        (s, None)
    } else {
        match first_marker_from(s, 0) {
            None => (s.subrange(s.len() - 1, s.len() as int), None),
            Some(i) => match marker_at(s, i) {
                Some(f) => parse_after_marker(f, s.subrange(i + 2, s.len() as int), s),
                None => (s, None),
            },
        }
    }
}

/// Any offset the marker scan returns lies at least two bytes short of the end.
proof fn lemma_first_marker_bounds(s: Seq<u8>, i: int)
    ensures
        match first_marker_from(s, i) {
            Some(j) => i <= j && j + 2 <= s.len() && marker_at(s, j) matches Some(_),
            None => true,
        },
    decreases s.len() - i,
{
    if i < 0 || i + 2 > s.len() {
    } else if marker_at(s, i) matches Some(_) {
    } else {
        lemma_first_marker_bounds(s, i + 1);
    }
}

/// Law: the parser inverts the encoder.  Parsing exactly the wire encoding of
/// a packet that fits its framing yields that packet and leaves nothing over.
pub proof fn lemma_parse_inverts_encode(m: GimbalPacketModel)
    requires
        packet_fits(m),
    ensures
        parse_stream(packet_bytes(m)) == (Seq::<u8>::empty(), Some(m)),
{
    let s = packet_bytes(m);
    let body = body_bytes(m);
    let crcb = crc_bytes_of(crc_of(m.framing, body));
    let lb = length_bytes(m.framing, m.data.len() as int);
    assert(s.len() >= 2);
    assert(marker_at(s, 0) == Some(m.framing));
    assert(first_marker_from(s, 0) == Some(0int));
    let r = s.subrange(2, s.len() as int);
    assert(r =~= body + crcb);
    assert(r.len() > 2);
    assert(r[0] == m.target);
    assert(r[1] == m.command);
    let rest = r.subrange(2, r.len() as int);
    assert(rest =~= lb + m.data + crcb);
    let ln = m.data.len() as int;
    match m.framing {
        GimbalFraming::Normal => {
            assert(rest[0] == (ln % 256) as u8);
            assert(ln % 256 == ln);
            let srest = rest.subrange(1, rest.len() as int);
            assert(srest =~= m.data + crcb);
            assert(srest.subrange(0, ln) =~= m.data);
            assert(srest.subrange(ln, ln + 2) =~= crcb);
            let m2 = GimbalPacketModel {
                framing: m.framing,
                command: m.command,
                target: m.target,
                data: srest.subrange(0, ln),
            };
            assert(m2 == m);
            assert(srest.subrange(ln + 2, srest.len() as int) =~= Seq::<u8>::empty());
        },
        GimbalFraming::Bootloader => {
            assert(rest[0] == (ln % 256) as u8);
            assert(rest[1] == (ln / 256) as u8);
            assert(rest[0] + 256 * rest[1] == ln);
            let srest = rest.subrange(2, rest.len() as int);
            assert(srest =~= m.data + crcb);
            assert(srest.subrange(0, ln) =~= m.data);
            assert(srest.subrange(ln, ln + 2) =~= crcb);
            let m2 = GimbalPacketModel {
                framing: m.framing,
                command: m.command,
                target: m.target,
                data: srest.subrange(0, ln),
            };
            assert(m2 == m);
            assert(srest.subrange(ln + 2, srest.len() as int) =~= Seq::<u8>::empty());
        },
    }
}

/// Law: one parsing step never grows the buffer, whatever the input holds.
pub proof fn lemma_parse_never_grows(s: Seq<u8>)
    ensures
        parse_stream(s).0.len() <= s.len(),
{
    lemma_first_marker_bounds(s, 0);
}

/// A recognized packet consumes at least its own framing: the buffer
/// strictly shrinks.
pub proof fn lemma_parse_some_consumes(s: Seq<u8>)
    requires
        parse_stream(s).1 matches Some(_),
    ensures
        parse_stream(s).0.len() < s.len(),
{
    lemma_first_marker_bounds(s, 0);
}

impl GimbalPacket {
    /// Append the packet's wire encoding to `wr`.
    pub fn write_to(&self, wr: &mut Vec<u8>)
        requires
            packet_fits(self@),
        ensures
            final(wr)@ == old(wr)@ + packet_bytes(self@),
    {
        let mut body: Vec<u8> = Vec::new();
        body.push(self.target);
        body.push(self.command);
        let n = self.data.len();
        match self.framing {
            GimbalFraming::Bootloader => {
                body.push((n % 256) as u8);
                body.push((n / 256) as u8);
            },
            GimbalFraming::Normal => {
                body.push((n % 256) as u8);
            },
        }
        let ghost prefix = body@;
        for j in 0..n
            invariant
                n == self.data.len(),
                body@ == prefix + self.data@.subrange(0, j as int),
        {
            body.push(self.data[j]);
            proof {
                assert(prefix + self.data@.subrange(0, j as int) + seq![self.data@[j as int]]
                    =~= prefix + self.data@.subrange(0, j + 1));
            }
        }
        proof {
            assert(self.data@.subrange(0, n as int) =~= self.data@);
            assert(body@ =~= body_bytes(self@));
        }
        let crc: u16 = match self.framing {
            GimbalFraming::Bootloader => calc_ccitt_false_crc(&body),
            GimbalFraming::Normal => calc_xmodem_crc(&body),
        };
        match self.framing {
            GimbalFraming::Bootloader => {
                wr.push(0x55);
                wr.push(0xaa);
            },
            GimbalFraming::Normal => {
                wr.push(0xa5);
                wr.push(0x5a);
            },
        }
        let ghost mid = wr@;
        let m = body.len();
        for j in 0..m
            invariant
                m == body.len(),
                wr@ == mid + body@.subrange(0, j as int),
        {
            wr.push(body[j]);
            proof {
                assert(mid + body@.subrange(0, j as int) + seq![body@[j as int]]
                    =~= mid + body@.subrange(0, j + 1));
            }
        }
        wr.push((crc % 256) as u8);
        wr.push((crc / 256) as u8);
        proof {
            assert(body@.subrange(0, m as int) =~= body@);
            assert(wr@ =~= old(wr)@ + packet_bytes(self@));
        }
    }
}

/// Accumulates raw bytes and yields the packets framed in them.
#[derive(Debug)]
pub struct PacketReceiver {
    pub buffer: Vec<u8>,
}

impl PacketReceiver {
    /// A receiver with an empty buffer.
    pub fn new() -> (r: PacketReceiver)
        ensures
            r.buffer@ == Seq::<u8>::empty(),
    {
        PacketReceiver { buffer: Vec::new() }
    }

    /// Append freshly received bytes to the buffer.
    pub fn push_bytes(&mut self, msg: &[u8])
        ensures
            final(self).buffer@ == old(self).buffer@ + msg@,
    {
        let n = msg.len();
        for j in 0..n
            invariant
                n == msg@.len(),
                self.buffer@ == old(self).buffer@ + msg@.subrange(0, j as int),
        {
            let b = msg[j];
            self.buffer.push(b);
            proof {
                assert(old(self).buffer@ + msg@.subrange(0, j as int) + seq![msg@[j as int]]
                    =~= old(self).buffer@ + msg@.subrange(0, j + 1));
            }
        }
        proof {
            assert(msg@.subrange(0, n as int) =~= msg@);
        }
    }

    /// Try to take one packet off the front of the buffer, resynchronizing on
    /// the framing marker and dropping packets whose CRC does not match.
    #[verifier::rlimit(80)]
    pub fn next_packet(&mut self) -> (r: Option<GimbalPacket>)
        ensures
            ({
                let (rem, res) = parse_stream(old(self).buffer@);
                &&& final(self).buffer@ == rem
                &&& match (r, res) {
                    (Some(p), Some(m)) => p@ == m,
                    (None, None) => true,
                    _ => false,
                }
            }),
    {
        let ghost s = self.buffer@;
        let n = self.buffer.len();
        if n < 2 {
            return None;
        }

        // Scan for the first framing marker.
        let mut i: usize = 0;
        let mut framing: Option<GimbalFraming> = None;
        while i < n - 1 && framing.is_none()
            invariant
                2 <= n == self.buffer@.len(),
                s == self.buffer@,
                i + 2 <= n + 1,
                match framing {
                    None => first_marker_from(s, 0) == first_marker_from(s, i as int),
                    Some(f) => i + 2 <= n && marker_at(s, i as int) == Some(f)
                        && first_marker_from(s, 0) == Some(i as int),
                },
            decreases n - i + (if framing is None { 1int } else { 0int }),
        {
            let b0 = self.buffer[i];
            let b1 = self.buffer[i + 1];
            if b0 == 0x55 && b1 == 0xaa {
                framing = Some(GimbalFraming::Bootloader);
            } else if b0 == 0xa5 && b1 == 0x5a {
                framing = Some(GimbalFraming::Normal);
            } else {
                proof {
                    assert(marker_at(s, i as int) is None);
                }
                i = i + 1;
            }
        }

        match framing {
            None => {
                // No marker anywhere: keep only the last byte, which may be
                // the first half of a marker split across reads.
                proof {
                    assert(i + 2 > n);
                    assert(first_marker_from(s, i as int) is None);
                }
                let last = self.buffer[n - 1];
                let mut kept: Vec<u8> = Vec::new();
                kept.push(last);
                self.buffer = kept;
                proof {
                    assert(self.buffer@ =~= s.subrange(s.len() - 1, s.len() as int));
                }
                None
            },
            Some(f) => {
                proof {
                    assert(marker_at(s, i as int) == Some(f));
                    assert(first_marker_from(s, 0) == Some(i as int));
                }
                let ghost r_spec = s.subrange(i + 2, s.len() as int);
                let pos = i + 2;
                if n - pos <= 2 {
                    // Wait for a complete header.
                    return None;
                }
                let target = self.buffer[pos];
                let command = self.buffer[pos + 1];
                let lpos = pos + 2;
                let ghost rest_spec = r_spec.subrange(2, r_spec.len() as int);
                proof {
                    assert(r_spec[0] == target);
                    assert(r_spec[1] == command);
                }
                let len: usize;
                let dpos: usize;
                match f {
                    GimbalFraming::Normal => {
                        len = self.buffer[lpos] as usize;
                        dpos = lpos + 1;
                        proof {
                            assert(rest_spec[0] == s[lpos as int]);
                        }
                    },
                    GimbalFraming::Bootloader => {
                        if n - lpos < 2 {
                            // Wait for the two-byte length field.
                            proof {
                                assert(rest_spec.len() < 2);
                            }
                            return None;
                        }
                        len = self.buffer[lpos] as usize + 256 * (self.buffer[lpos + 1] as usize);
                        dpos = lpos + 2;
                        proof {
                            assert(rest_spec[0] == s[lpos as int]);
                            assert(rest_spec[1] == s[lpos as int + 1]);
                        }
                    },
                }
                let ghost sized_rest = s.subrange(dpos as int, s.len() as int);
                proof {
                    match f {
                        GimbalFraming::Normal => {
                            assert(sized_rest =~= rest_spec.subrange(1, rest_spec.len() as int));
                        },
                        GimbalFraming::Bootloader => {
                            assert(sized_rest =~= rest_spec.subrange(2, rest_spec.len() as int));
                        },
                    }
                }
                if n - dpos < len + 2 {
                    // Wait for the payload and CRC.
                    return None;
                }

                // Copy out the payload.
                let mut data: Vec<u8> = Vec::new();
                for j in 0..len
                    invariant
                        s == self.buffer@,
                        dpos + len + 2 <= n == s.len(),
                        data@ == s.subrange(dpos as int, dpos + j),
                    decreases len - j,
                {
                    data.push(self.buffer[dpos + j]);
                    proof {
                        assert(s.subrange(dpos as int, dpos + j) + seq![s[dpos + j]]
                            =~= s.subrange(dpos as int, dpos + j + 1));
                    }
                }

                // The CRC covers the header and payload, contiguous in the buffer.
                let mut body: Vec<u8> = Vec::new();
                for j in 0..(dpos + len - pos)
                    invariant
                        s == self.buffer@,
                        pos + 2 < dpos,
                        dpos + len + 2 <= n == s.len(),
                        body@ == s.subrange(pos as int, pos + j),
                    decreases dpos + len - pos - j,
                {
                    body.push(self.buffer[pos + j]);
                    proof {
                        assert(s.subrange(pos as int, pos + j) + seq![s[pos + j]]
                            =~= s.subrange(pos as int, pos + j + 1));
                    }
                }
                let crc: u16 = match f {
                    GimbalFraming::Bootloader => calc_ccitt_false_crc(&body),
                    GimbalFraming::Normal => calc_xmodem_crc(&body),
                };
                let stored0 = self.buffer[dpos + len];
                let stored1 = self.buffer[dpos + len + 1];
                let crc_ok = stored0 == (crc % 256) as u8 && stored1 == (crc / 256) as u8;

                // Drop everything through the CRC from the buffer.
                let mut kept: Vec<u8> = Vec::new();
                let rem_start = dpos + len + 2;
                for j in 0..(n - rem_start)
                    invariant
                        s == self.buffer@,
                        rem_start + j <= n == s.len(),
                        kept@ == s.subrange(rem_start as int, rem_start + j),
                    decreases n - rem_start - j,
                {
                    kept.push(self.buffer[rem_start + j]);
                    proof {
                        assert(s.subrange(rem_start as int, rem_start + j) + seq![s[rem_start + j]]
                            =~= s.subrange(rem_start as int, rem_start + j + 1));
                    }
                }

                let packet = GimbalPacket { framing: f, command, target, data };
                proof {
                    let len_i = len as int;
                    assert(sized_rest.subrange(0, len_i) =~= s.subrange(dpos as int, dpos + len_i));
                    assert(sized_rest.subrange(len_i, len_i + 2)
                        =~= seq![s[dpos + len_i], s[dpos + len_i + 1]]);
                    assert(sized_rest.subrange(len_i + 2, sized_rest.len() as int)
                        =~= s.subrange(rem_start as int, s.len() as int));
                    assert(body@ =~= seq![target, command] + length_bytes(f, len_i)
                        + s.subrange(dpos as int, dpos + len_i));
                    assert(body@ =~= body_bytes(packet@));
                    assert(kept@ =~= s.subrange(rem_start as int, s.len() as int));
                }
                self.buffer = kept;
                if crc_ok {
                    proof {
                        assert(seq![s[dpos + len as int], s[dpos + len as int + 1]]
                            =~= crc_bytes_of(crc_of(f, body_bytes(packet@))));
                    }
                    Some(packet)
                } else {
                    proof {
                        assert(seq![s[dpos + len as int], s[dpos + len as int + 1]]
                            != crc_bytes_of(crc_of(f, body_bytes(packet@))));
                    }
                    None
                }
            },
        }
    }
}

} // verus!
