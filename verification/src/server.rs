//! The Minecraft server list ping: VarInt framing of the handshake and the
//! status request, checks of the status response header, and turning the
//! decoded status JSON into what the launcher shows.

use vstd::prelude::*;
use crate::error::LauncherError;
use crate::text;
use vstd::string::StringSliceAdditionalSpecFns;

verus! {

// ---------------------------------------------------------------------------
// VarInt encoding
// ---------------------------------------------------------------------------

/// The VarInt encoding of a non-negative number: seven bits per byte, least
/// significant group first, the high bit set on every byte but the last.
pub open spec fn varint_bytes(v: nat) -> Seq<u8>
    decreases v,
{
    if v < 128 {
        seq![v as u8]
    } else {
        seq![((v % 128) + 128) as u8] + varint_bytes(v / 128)
    }
}

/// Why a VarInt could not be read.
#[derive(Debug, Clone, Copy, PartialEq, Eq, Structural)]
pub enum VarIntError {
    /// The input ended before the last byte of the VarInt.
    UnexpectedEnd,
    /// A sixth byte followed five continuation bytes.
    TooBig,
}

/// Place value of the `i`-th seven-bit group (`128^i`, for `i <= 5`).
pub open spec fn weight(i: nat) -> int {
    if i == 0 {
        1
    } else if i == 1 {
        128
    } else if i == 2 {
        16384
    } else if i == 3 {
        2097152
    } else if i == 4 {
        268435456
    } else {
        34359738368
    }
}

/// Scan of a VarInt from byte `i` on, with `acc` the value of the groups read
/// so far; yields the unbounded value and the number of bytes consumed.
pub open spec fn varint_scan(bytes: Seq<u8>, i: nat, acc: int) -> Result<(int, nat), VarIntError>
    decreases 5 - i,
{
    if i >= bytes.len() {
        Err(VarIntError::UnexpectedEnd)
    } else if i >= 5 {
        Err(VarIntError::TooBig)
    } else {
        let acc2 = acc + (bytes[i as int] % 128) as int * weight(i);
        if bytes[i as int] < 128 {
            Ok((acc2, i + 1))
        } else {
            varint_scan(bytes, i + 1, acc2)
        }
    }
}

/// A 32-bit two's complement reading of `x` (its low 32 bits).
pub open spec fn wrap_i32(x: int) -> int {
    let m = x % 4294967296;
    if m >= 2147483648 {
        m - 4294967296
    } else {
        m
    }
}

/// The VarInt at the start of `bytes`: its value as a 32-bit integer and the
/// number of bytes it takes.
pub open spec fn varint_decode(bytes: Seq<u8>) -> Result<(int, nat), VarIntError> {
    match varint_scan(bytes, 0, 0) {
        Ok((v, n)) => Ok((wrap_i32(v), n)),
        Err(e) => Err(e),
    }
}

/// Appends the VarInt encoding of a non-negative `val` to `buf`.
pub fn write_varint(buf: &mut Vec<u8>, val: i32)
    requires
        0 <= val,
    ensures
        final(buf)@ == old(buf)@ + varint_bytes(val as nat),
{
    let ghost start = buf@;
    let mut v: u32 = val as u32;
    loop
        invariant
            start == old(buf)@,
            buf@ + varint_bytes(v as nat) == start + varint_bytes(val as nat),
        decreases v,
    {
        if v < 128 {
            let ghost before = buf@;
            let b: u8 = v as u8;
            assert(varint_bytes(v as nat) == seq![(v as nat) as u8]);
            assert(varint_bytes(v as nat) =~= seq![b]);
            buf.push(b);
            assert(buf@ =~= before + varint_bytes(v as nat));
            return;
        }
        let b: u8 = ((v % 128) + 128) as u8;
        let ghost before = buf@;
        buf.push(b);
        proof {
            assert(varint_bytes(v as nat) == seq![b] + varint_bytes((v / 128) as nat));
            assert(buf@ + varint_bytes((v / 128) as nat) =~= before + varint_bytes(v as nat));
        }
        v = v / 128;
    }
}

fn wrap_to_i32(acc: u64) -> (r: i32)
    requires
        acc < 34359738368,
    ensures
        r as int == wrap_i32(acc as int),
{
    let m: u64 = acc % 4294967296;
    if m >= 2147483648 {
        let d: i64 = (m as i64) - 4294967296;
        d as i32
    } else {
        m as i32
    }
}

/// Reads the VarInt that starts at `pos` in `data`; on success returns its
/// value and the position just after it.
pub fn read_varint(data: &[u8], pos: usize) -> (r: Result<(i32, usize), VarIntError>)
    requires
        pos <= data@.len(),
    ensures
        match varint_decode(data@.subrange(pos as int, data@.len() as int)) {
            Ok((v, n)) => r matches Ok((rv, rp)) && rv as int == v && rp as int == pos + n,
            Err(e) => r == Err::<(i32, usize), VarIntError>(e),
        },
{
    let ghost s = data@.subrange(pos as int, data@.len() as int);
    let n: usize = data.len();
    let avail: usize = n - pos;
    let mut i: usize = 0;
    let mut acc: u64 = 0;
    let mut w: u64 = 1;
    loop
        invariant
            n == data@.len(),
            pos <= data@.len(),
            avail == data@.len() - pos,
            s == data@.subrange(pos as int, data@.len() as int),
            i <= 5,
            w as int == weight(i as nat),
            acc < w,
            varint_scan(s, 0, 0) == varint_scan(s, i as nat, acc as int),
        decreases 5 - i,
    {
        if i >= avail {
            return Err(VarIntError::UnexpectedEnd);
        }
        if i >= 5 {
            return Err(VarIntError::TooBig);
        }
        let b = data[pos + i];
        assert(s[i as int] == b);
        let low: u64 = (b % 128) as u64;
        assert(acc + low * w < 128 * w) by (nonlinear_arith)
            requires
                acc < w,
                low <= 127,
        ;
        assert(w <= 268435456);
        acc = acc + low * w;
        if b < 128 {
            assert(acc < 34359738368);
            let v = wrap_to_i32(acc);
            return Ok((v, pos + i + 1));
        }
        assert(weight((i + 1) as nat) == 128 * weight(i as nat));
        i = i + 1;
        w = w * 128;
    }
}

/// Largest value (exclusive) whose encoding fits in the groups `i..5`.
pub open spec fn cap(i: nat) -> int {
    if i == 0 {
        34359738368
    } else if i == 1 {
        268435456
    } else if i == 2 {
        2097152
    } else if i == 3 {
        16384
    } else {
        128
    }
}

proof fn lemma_scan_encoded(v: nat, i: nat, acc: int, bytes: Seq<u8>)
    requires
        i < 5,
        v < cap(i),
        i + varint_bytes(v).len() <= bytes.len(),
        bytes.subrange(i as int, (i + varint_bytes(v).len()) as int) == varint_bytes(v),
    ensures
        varint_scan(bytes, i, acc) == Ok::<(int, nat), VarIntError>(
            (acc + v * weight(i), i + varint_bytes(v).len()),
        ),
    decreases v,
{
    let enc = varint_bytes(v);
    assert(bytes[i as int] == bytes.subrange(i as int, (i + enc.len()) as int)[0]);
    if v < 128 {
        assert(enc =~= seq![v as u8]);
    } else {
        let tail = varint_bytes(v / 128);
        assert(enc == seq![((v % 128) + 128) as u8] + tail);
        assert(bytes.subrange((i + 1) as int, (i + 1 + tail.len()) as int) =~= bytes.subrange(
            i as int,
            (i + enc.len()) as int,
        ).subrange(1, enc.len() as int));
        assert(enc.subrange(1, enc.len() as int) =~= tail);
        assert(i < 4);
        assert(v / 128 < cap(i + 1));
        lemma_scan_encoded(v / 128, i + 1, acc + (v % 128) * weight(i), bytes);
        let w = weight(i);
        assert(weight(i + 1) == 128 * w);
        assert((v % 128) * w + (v / 128) * (128 * w) == v * w) by (nonlinear_arith)
            requires
                v == 128 * (v / 128) + v % 128,
        ;
        assert(bytes[i as int] % 128 == v % 128);
    }
}

proof fn lemma_varint_len(v: nat)
    ensures
        varint_bytes(v).len() >= 1,
        v < 128 ==> varint_bytes(v).len() == 1,
    decreases v,
{
    if v >= 128 {
        lemma_varint_len(v / 128);
    }
}

/// Reading back what `write_varint` wrote: for every non-negative 32-bit
/// value and whatever bytes follow, the VarInt at the start decodes to that
/// value and takes exactly the written bytes, at most five of them.
pub proof fn varint_roundtrip(v: i32, rest: Seq<u8>)
    requires
        0 <= v,
    ensures
        varint_decode(varint_bytes(v as nat) + rest) == Ok::<(int, nat), VarIntError>(
            (v as int, varint_bytes(v as nat).len()),
        ),
        varint_bytes(v as nat).len() <= 5,
{
    let enc = varint_bytes(v as nat);
    let bytes = enc + rest;
    lemma_varint_len_bound(v as nat, 0);
    assert(bytes.subrange(0, enc.len() as int) =~= enc);
    lemma_scan_encoded(v as nat, 0, 0, bytes);
}

proof fn lemma_varint_len_bound(v: nat, i: nat)
    requires
        i < 5,
        v < cap(i),
    ensures
        i + varint_bytes(v).len() <= 5,
    decreases v,
{
    if v >= 128 {
        lemma_varint_len_bound(v / 128, i + 1);
    }
}

// ---------------------------------------------------------------------------
// Packets
// ---------------------------------------------------------------------------

/// Protocol version announced in the handshake.
pub const HANDSHAKE_PROTOCOL: i32 = 765;

/// The handshake payload: packet id 0, protocol version, host as a
/// length-prefixed UTF-8 string, port big-endian, next state 1 (status).
pub open spec fn handshake_payload(host: Seq<u8>, port: u16) -> Seq<u8> {
    varint_bytes(0nat) + varint_bytes(765nat) + varint_bytes(host.len()) + host + seq![
        (port / 256) as u8,
        (port % 256) as u8,
    ] + varint_bytes(1nat)
}

/// The handshake packet: its payload prefixed by the payload's length.
pub open spec fn handshake_packet_bytes(host: Seq<u8>, port: u16) -> Seq<u8> {
    varint_bytes(handshake_payload(host, port).len()) + handshake_payload(host, port)
}

proof fn lemma_small_varints()
    ensures
        varint_bytes(0nat) =~= seq![0u8],
        varint_bytes(1nat) =~= seq![1u8],
        varint_bytes(765nat).len() == 2,
{
    assert(varint_bytes(765nat / 128) =~= seq![5u8]);
}

pub struct ServerPinger;

impl ServerPinger {
    /// The handshake packet that opens a status query of `host:port`.
    pub fn handshake_packet(host: &str, port: u16) -> (r: Vec<u8>)
        requires
            host.spec_bytes().len() + 20 <= i32::MAX,
        ensures
            r@ == handshake_packet_bytes(host.spec_bytes(), port),
    {
        let hb = host.as_bytes();
        let mut payload: Vec<u8> = Vec::new();
        write_varint(&mut payload, 0);
        write_varint(&mut payload, HANDSHAKE_PROTOCOL);
        write_varint(&mut payload, hb.len() as i32);
        let mut i: usize = 0;
        let ghost p0 = payload@;
        while i < hb.len()
            invariant
                i <= hb@.len(),
                payload@ == p0 + hb@.subrange(0, i as int),
            decreases hb@.len() - i,
        {
            payload.push(hb[i]);
            assert(hb@.subrange(0, i + 1) =~= hb@.subrange(0, i as int).push(hb@[i as int]));
            i = i + 1;
        }
        assert(hb@.subrange(0, hb@.len() as int) =~= hb@);
        payload.push((port / 256) as u8);
        payload.push((port % 256) as u8);
        write_varint(&mut payload, 1);
        proof {
            lemma_small_varints();
            lemma_varint_len_bound(hb@.len(), 0);
        }
        assert(payload@ =~= handshake_payload(hb@, port));
        assert(payload@.len() <= i32::MAX);
        let mut packet: Vec<u8> = Vec::new();
        write_varint(&mut packet, payload.len() as i32);
        let ghost q0 = packet@;
        let mut j: usize = 0;
        while j < payload.len()
            invariant
                j <= payload@.len(),
                packet@ == q0 + payload@.subrange(0, j as int),
            decreases payload@.len() - j,
        {
            packet.push(payload[j]);
            assert(payload@.subrange(0, j + 1) =~= payload@.subrange(0, j as int).push(
                payload@[j as int],
            ));
            j = j + 1;
        }
        assert(payload@.subrange(0, payload@.len() as int) =~= payload@);
        assert(packet@ =~= handshake_packet_bytes(host.spec_bytes(), port));
        packet
    }

    /// The status request packet: length 1, packet id 0.
    pub fn status_request_packet() -> (r: Vec<u8>)
        ensures
            r@ == seq![1u8, 0u8],
    {
        let mut v: Vec<u8> = Vec::new();
        write_varint(&mut v, 1);
        write_varint(&mut v, 0);
        proof {
            lemma_small_varints();
        }
        assert(v@ =~= seq![1u8, 0u8]);
        v
    }

    /// Checks the header of the status response: the packet id must be 0 and
    /// the announced JSON length at most 32768 bytes (a negative length reads
    /// as a huge unsigned one). Returns the JSON length.
    pub fn check_status_header(packet_id: i32, json_len: i32) -> (r: Result<usize, LauncherError>)
        ensures
            packet_id != 0 ==> (r matches Err(LauncherError::Network(m)) && m@
                == "Invalid SLP packet ID"@),
            packet_id == 0 && (json_len < 0 || json_len > 32768) ==> (r matches Err(
                LauncherError::Network(m),
            ) && m@ == "Server response too large"@),
            packet_id == 0 && 0 <= json_len <= 32768 ==> r == Ok::<usize, LauncherError>(
                json_len as usize,
            ),
    {
        if packet_id != 0 {
            return Err(LauncherError::Network(text::owned("Invalid SLP packet ID")));
        }
        if json_len < 0 || json_len > 32768 {
            return Err(LauncherError::Network(text::owned("Server response too large")));
        }
        Ok(json_len as usize)
    }
}

// ---------------------------------------------------------------------------
// Status
// ---------------------------------------------------------------------------

#[derive(Debug, Clone)]
pub struct ServerVersionInfo {
    pub name: Option<String>,
    pub protocol: Option<i32>,
}

#[derive(Debug, Clone)]
pub struct ServerPlayersInfo {
    pub max: Option<i32>,
    pub online: Option<i32>,
}

/// The `description` of a status response: plain text or a text component.
#[derive(Debug, Clone)]
pub enum ServerDescription {
    Text(String),
    Object { text: Option<String> },
}

/// The status JSON as the server sent it.
#[derive(Debug, Clone)]
pub struct ServerStatusRaw {
    pub version: Option<ServerVersionInfo>,
    pub players: Option<ServerPlayersInfo>,
    pub description: Option<ServerDescription>,
}

/// What the launcher shows of a server.
#[derive(Debug, Clone)]
pub struct ServerStatus {
    pub host: String,
    pub port: u16,
    pub motd: String,
    pub version: String,
    pub online_players: i32,
    pub max_players: i32,
    pub ping_ms: u64,
    pub is_online: bool,
}

/// Characters that may follow `§` or `&` as a formatting code.
pub open spec fn is_format_code(c: char) -> bool {
    text::is_ascii_hexdigit(c) || c == 'k' || c == 'l' || c == 'm' || c == 'n' || c == 'o' || c == 'r'
        || c == 'K' || c == 'L' || c == 'M' || c == 'N' || c == 'O' || c == 'R'
}

/// `s` with every `§x` / `&x` formatting code removed, left to right.
pub open spec fn strip_codes(s: Seq<char>) -> Seq<char>
    decreases s.len(),
{
    if s.len() == 0 {
        s
    } else if (s[0] == '§' || s[0] == '&') && s.len() > 1 && is_format_code(s[1]) {
        strip_codes(s.subrange(2, s.len() as int))
    } else {
        seq![s[0]] + strip_codes(s.drop_first())
    }
}

fn format_code(c: char) -> (b: bool)
    ensures
        b == is_format_code(c),
{
    text::ascii_hexdigit(c) || c == 'k' || c == 'l' || c == 'm' || c == 'n' || c == 'o' || c == 'r'
        || c == 'K' || c == 'L' || c == 'M' || c == 'N' || c == 'O' || c == 'R'
}

/// Removes Minecraft formatting codes from a MOTD and trims it.
pub fn strip_minecraft_color_codes(text: &str) -> (r: String)
    ensures
        r@ == text::trim(strip_codes(text@)),
{
    let v = text::chars_of(text);
    let mut out: Vec<char> = Vec::new();
    let mut i: usize = 0;
    assert(v@.subrange(0, v@.len() as int) =~= v@);
    assert(out@ + v@ =~= v@);
    while i < v.len()
        invariant
            v@ == text@,
            i <= v@.len(),
            out@ + strip_codes(v@.subrange(i as int, v@.len() as int)) == strip_codes(v@),
        decreases v@.len() - i,
    {
        let ghost rest = v@.subrange(i as int, v@.len() as int);
        let c = v[i];
        if (c == '§' || c == '&') && i + 1 < v.len() && format_code(v[i + 1]) {
            assert(rest.subrange(2, rest.len() as int) =~= v@.subrange(i + 2, v@.len() as int));
            i = i + 2;
        } else {
            assert(rest.drop_first() =~= v@.subrange(i + 1, v@.len() as int));
            let ghost before = out@;
            out.push(c);
            assert(out@ + strip_codes(v@.subrange(i + 1, v@.len() as int)) =~= before + strip_codes(
                rest,
            ));
            i = i + 1;
        }
    }
    assert(v@.subrange(v@.len() as int, v@.len() as int) =~= Seq::<char>::empty());
    assert(out@ =~= strip_codes(v@));
    let (a, b) = text::trim_bounds(&out);
    text::slice_string(&out, a, b)
}

/// The MOTD of a raw status: its text with formatting codes stripped, or
/// "Minecraft Server" when the server sent no description.
pub open spec fn motd_of(d: Option<ServerDescription>) -> Seq<char> {
    match d {
        Some(ServerDescription::Text(t)) => text::trim(strip_codes(t@)),
        Some(ServerDescription::Object { text }) => match text {
            Some(t) => text::trim(strip_codes(t@)),
            None => text::trim(strip_codes(Seq::<char>::empty())),
        },
        None => "Minecraft Server"@,
    }
}

impl ServerPinger {
    /// The status shown for a server that answered with `raw` after
    /// `ping_ms` milliseconds.
    pub fn status_from_raw(host: &str, port: u16, raw: ServerStatusRaw, ping_ms: u64) -> (r:
        ServerStatus)
        ensures
            r.host@ == host@,
            r.port == port,
            r.motd@ == motd_of(raw.description),
            r.version@ == (match raw.version {
                Some(ServerVersionInfo { name: Some(n), .. }) => n@,
                _ => "1.20.4"@,
            }),
            r.online_players == (match raw.players {
                Some(ServerPlayersInfo { online: Some(o), .. }) => o,
                _ => 0i32,
            }),
            r.max_players == (match raw.players {
                Some(ServerPlayersInfo { max: Some(m), .. }) => m,
                _ => 0i32,
            }),
            r.ping_ms == ping_ms,
            r.is_online,
    {
        let motd = match raw.description {
            Some(ServerDescription::Text(t)) => strip_minecraft_color_codes(t.as_str()),
            Some(ServerDescription::Object { text }) => match text {
                Some(t) => strip_minecraft_color_codes(t.as_str()),
                None => strip_minecraft_color_codes(""),
            },
            None => text::owned("Minecraft Server"),
        };
        proof {
            reveal_strlit("");
        }
        let version = match raw.version {
            Some(ServerVersionInfo { name: Some(n), .. }) => n,
            _ => text::owned("1.20.4"),
        };
        let (online, max) = match raw.players {
            Some(p) => (
                match p.online {
                    Some(o) => o,
                    None => 0,
                },
                match p.max {
                    Some(m) => m,
                    None => 0,
                },
            ),
            None => (0, 0),
        };
        ServerStatus {
            host: text::owned(host),
            port,
            motd,
            version,
            online_players: online,
            max_players: max,
            ping_ms,
            is_online: true,
        }
    }

    /// The status shown for a server that could not be reached or answered
    /// with something that is not a status.
    pub fn offline_status(host: &str, port: u16) -> (r: ServerStatus)
        ensures
            r.host@ == host@,
            r.port == port,
            r.motd@ == "Сервер недоступен"@,
            r.version@ == "--"@,
            r.online_players == 0,
            r.max_players == 0,
            r.ping_ms == 999,
            !r.is_online,
    {
        ServerStatus {
            host: text::owned(host),
            port,
            motd: text::owned("Сервер недоступен"),
            version: text::owned("--"),
            online_players: 0,
            max_players: 0,
            ping_ms: 999,
            is_online: false,
        }
    }
}

} // verus!
