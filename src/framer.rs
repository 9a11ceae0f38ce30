use vstd::prelude::*;

verus! {

/// Address type of an IPv4 destination: four address bytes follow.
pub const ATYP_IPV4: u8 = 1;

/// Address type of a domain-name destination: a length byte and that many
/// name bytes follow.
pub const ATYP_DOMAIN: u8 = 3;

/// Address type of an IPv6 destination: sixteen address bytes follow.
pub const ATYP_IPV6: u8 = 4;

/// Size of the fixed prefix of a SOCKS5 UDP datagram: two reserved bytes and
/// the fragment number.
pub const SOCKS5_PREFIX: usize = 3;

/// The destination header that opens an inner relay datagram:
/// `ATYP | DST.ADDR | DST.PORT`.
#[derive(Debug)]
pub struct Header {
    /// The address-type byte.
    pub atyp: u8,
    /// The destination address as it stands on the wire: four or sixteen
    /// bytes of an IP address, or the bytes of a domain name.
    pub host: Vec<u8>,
    /// The destination port.
    pub port: u16,
    /// How many bytes the header takes; the payload starts there.
    pub len: usize,
}

/// Where the destination address starts, or 0 when the address type is not
/// one of the three known ones.
pub open spec fn host_start(d: Seq<u8>) -> int {
    if d.len() == 0 {
        0
    } else if d[0] == ATYP_IPV4 || d[0] == ATYP_IPV6 {
        1
    } else if d[0] == ATYP_DOMAIN {
        2
    } else {
        0
    }
}

/// Where the destination address ends, that is where the port starts.
pub open spec fn host_end(d: Seq<u8>) -> int {
    if d.len() == 0 {
        0
    } else if d[0] == ATYP_IPV4 {
        5
    } else if d[0] == ATYP_IPV6 {
        17
    } else if d[0] == ATYP_DOMAIN && d.len() >= 2 {
        2 + d[1]
    } else {
        0
    }
}

/// Whether `d` opens with a complete destination header.
pub open spec fn header_valid(d: Seq<u8>) -> bool {
    &&& host_start(d) > 0
    &&& host_end(d) >= host_start(d)
    &&& host_end(d) + 2 <= d.len()
}

/// The size of the destination header that opens `d`.
pub open spec fn header_len(d: Seq<u8>) -> int {
    host_end(d) + 2
}

/// The destination port, big-endian after the address.
pub open spec fn header_port(d: Seq<u8>) -> int {
    d[host_end(d)] * 256 + d[host_end(d) + 1]
}

/// The bytes that follow the destination header.
pub open spec fn payload_of(d: Seq<u8>) -> Seq<u8> {
    d.subrange(header_len(d), d.len() as int)
}

/// `h` is the destination header that opens `d`.
pub open spec fn is_header_of(h: Header, d: Seq<u8>) -> bool {
    &&& header_valid(d)
    &&& h.atyp == d[0]
    &&& h.host@ == d.subrange(host_start(d), host_end(d))
    &&& h.port == header_port(d)
    &&& h.len == header_len(d)
}

/// Parses the destination header at the start of `data`: `None` when the
/// address type is unknown or the bytes end before the port does.
pub fn parse_header(data: &[u8]) -> (r: Option<Header>)
    ensures
        r is None <==> !header_valid(data@),
        r matches Some(h) ==> is_header_of(h, data@),
{
    if data.len() == 0 {
        return None;
    }
    let atyp = data[0];
    let (start, end): (usize, usize) = if atyp == ATYP_IPV4 {
        (1, 5)
    } else if atyp == ATYP_IPV6 {
        (1, 17)
    } else if atyp == ATYP_DOMAIN && data.len() >= 2 {
        (2, 2 + data[1] as usize)
    } else {
        return None;
    };
    if end > data.len() || data.len() - end < 2 {
        return None;
    }
    let mut host: Vec<u8> = Vec::new();
    let mut i: usize = start;
    while i < end
        invariant
            start <= i <= end,
            end <= data@.len(),
            host@ == data@.subrange(start as int, i as int),
        decreases end - i,
    {
        host.push(data[i]);
        i = i + 1;
        assert(host@ =~= data@.subrange(start as int, i as int));
    }
    let port: u16 = (data[end] as u16) * 256 + data[end + 1] as u16;
    Some(Header { atyp, host, port, len: end + 2 })
}

/// The role a relay plays.
#[derive(Clone, Copy, Debug, PartialEq, Eq, Structural)]
pub enum Role {
    /// Faces a local application: receives plaintext SOCKS5 UDP datagrams.
    Client,
    /// Faces remote clients: receives encrypted relay datagrams.
    Server,
}

/// Why a datagram is dropped. None of them stops the relay.
#[derive(Clone, Copy, Debug, PartialEq, Eq, Structural)]
pub enum DropReason {
    /// Fewer than three bytes: too short to carry any header.
    TooShort,
    /// A SOCKS5 datagram with a non-zero fragment number.
    Fragmented,
    /// The destination header is malformed.
    InvalidHeader,
    /// The datagram failed to decrypt under the relay's cipher.
    DecryptFailed,
    /// Every session identifier is in use.
    NoFreeId,
}

/// What a received datagram holds, before its destination header is read.
#[derive(Clone, Copy, Debug, PartialEq, Eq, Structural)]
pub enum Frame {
    /// An inner relay datagram starts at this offset.
    Plain { start: usize },
    /// The whole datagram is to be decrypted first.
    Encrypted,
}

/// How a relay in role `role` frames the datagram `d`.
pub open spec fn frame_of(role: Role, d: Seq<u8>) -> Result<Frame, DropReason> {
    if d.len() < 3 {
        Err(DropReason::TooShort)
    } else {
        match role {
            Role::Client => if d[2] != 0 {
                Err(DropReason::Fragmented)
            } else {
                Ok(Frame::Plain { start: SOCKS5_PREFIX })
            },
            Role::Server => Ok(Frame::Encrypted),
        }
    }
}

/// Strips the role's framing: a client drops short and fragmented SOCKS5
/// datagrams and skips their reserved and fragment bytes; a server drops
/// short datagrams and hands the rest to its cipher.
pub fn frame(role: Role, data: &[u8]) -> (r: Result<Frame, DropReason>)
    ensures
        r == frame_of(role, data@),
{
    if data.len() < 3 {
        return Err(DropReason::TooShort);
    }
    match role {
        Role::Client => {
            if data[2] != 0 {
                Err(DropReason::Fragmented)
            } else {
                Ok(Frame::Plain { start: SOCKS5_PREFIX })
            }
        },
        Role::Server => Ok(Frame::Encrypted),
    }
}

} // verus!
