//! Tracker announce support: the query string sent to the tracker and the
//! compact peer list read from its response.
use crate::bencode::{bencode_decode, bval_bytes, bval_dict_get, bval_int, bval_is_dict};
use crate::byteops::{ascii_to_string, push_u64_dec, spec_ascii_chars, spec_dec_digits};
use crate::ParseError;
use vstd::prelude::*;

verus! {

pub const PEER_ID_SIZE: usize = 20;

/// One peer address from the tracker: a dotted-quad address and a port.
#[derive(Debug, Clone, Copy, PartialEq, Eq, Structural)]
pub struct PeerAddr {
    pub ip0: u8,
    pub ip1: u8,
    pub ip2: u8,
    pub ip3: u8,
    pub port: u16,
}

/// The lowercase hex digit for a value below 16.
pub open spec fn spec_hex_digit(n: u8) -> u8
    recommends
        n < 16,
{
    if n < 10 {
        (48 + n) as u8
    } else {
        (87 + n) as u8
    }
}

/// Bytes that a query string carries unchanged: digits, letters, and
/// `.`, `~`, `-`, `_`.
pub open spec fn spec_is_unreserved(b: u8) -> bool {
    (48 <= b <= 57) || (65 <= b <= 90) || (97 <= b <= 122) || b == 46 || b == 126 || b == 45 || b
        == 95
}

/// The encoding of one byte: itself when unreserved, else a percent sign
/// and two lowercase hex digits.
pub open spec fn spec_urlencode_byte(b: u8) -> Seq<u8> {
    if spec_is_unreserved(b) {
        seq![b]
    } else {
        seq![37u8, spec_hex_digit(b / 16), spec_hex_digit(b % 16)]
    }
}

/// The percent-encoding of a byte string, byte for byte.
pub open spec fn spec_urlencode(s: Seq<u8>) -> Seq<u8>
    decreases s.len(),
{
    if s.len() == 0 {
        Seq::empty()
    } else {
        spec_urlencode(s.drop_last()) + spec_urlencode_byte(s.last())
    }
}

/// Every byte of a percent-encoded string is ASCII.
pub proof fn lemma_urlencode_ascii(s: Seq<u8>)
    ensures
        forall|i: int| 0 <= i < spec_urlencode(s).len() ==> spec_urlencode(s)[i] < 128,
    decreases s.len(),
{
    if s.len() > 0 {
        lemma_urlencode_ascii(s.drop_last());
        let pre = spec_urlencode(s.drop_last());
        let tail = spec_urlencode_byte(s.last());
        assert forall|i: int| 0 <= i < spec_urlencode(s).len() implies spec_urlencode(s)[i]
            < 128 by {
            if i < pre.len() {
                assert(spec_urlencode(s)[i] == pre[i]);
            } else {
                assert(spec_urlencode(s)[i] == tail[i - pre.len()]);
            }
        }
    }
}

/// Every decimal digit is ASCII.
pub proof fn lemma_dec_digits_ascii(n: nat)
    ensures
        forall|i: int| 0 <= i < spec_dec_digits(n).len() ==> spec_dec_digits(n)[i] < 128,
    decreases n,
{
    if n >= 10 {
        lemma_dec_digits_ascii(n / 10);
        let pre = spec_dec_digits(n / 10);
        assert forall|i: int| 0 <= i < spec_dec_digits(n).len() implies spec_dec_digits(n)[i]
            < 128 by {
            if i < pre.len() {
                assert(spec_dec_digits(n)[i] == pre[i]);
            } else {
                assert(spec_dec_digits(n)[i] == (48 + n % 10) as u8);
            }
        }
    }
}

/// The lowercase hex digit for a value below 16.
fn hex_digit(n: u8) -> (r: u8)
    requires
        n < 16,
    ensures
        r == spec_hex_digit(n),
{
    if n < 10 {
        48 + n
    } else {
        87 + n
    }
}

/// Percent-encodes a byte string for use in a tracker query.
pub fn urlencode_bytes(bytes: &[u8]) -> (r: Vec<u8>)
    ensures
        r@ == spec_urlencode(bytes@),
{
    let n = bytes.len();
    let mut out: Vec<u8> = Vec::new();
    let mut i: usize = 0;
    while i < n
        invariant
            i <= n,
            n == bytes@.len(),
            out@ == spec_urlencode(bytes@.take(i as int)),
        decreases n - i,
    {
        let b = *vstd::slice::slice_index_get(bytes, i);
        if (48 <= b && b <= 57) || (65 <= b && b <= 90) || (97 <= b && b <= 122) || b == 46 || b
            == 126 || b == 45 || b == 95 {
            out.push(b);
        } else {
            out.push(37);
            out.push(hex_digit(b / 16));
            out.push(hex_digit(b % 16));
        }
        proof {
            let pre = bytes@.take(i + 1);
            assert(pre.drop_last() =~= bytes@.take(i as int));
            assert(pre.last() == b);
            assert(out@ =~= spec_urlencode(pre));
        }
        i = i + 1;
    }
    proof {
        assert(bytes@.take(n as int) =~= bytes@);
    }
    out
}

/// The event reported to the tracker with an announce.
#[derive(Debug, Clone, Copy, PartialEq, Eq, Structural)]
pub enum Event {
    Empty,
    Started,
    Completed,
    Stopped,
}

/// The name of each event as it appears in the query string.
pub open spec fn spec_event_chars(e: Event) -> Seq<char> {
    match e {
        Event::Empty => "empty"@,
        Event::Started => "started"@,
        Event::Completed => "completed"@,
        Event::Stopped => "stopped"@,
    }
}

impl Event {
    /// The event's name as query-string text.
    pub fn as_text(&self) -> (r: &'static str)
        ensures
            r@ == spec_event_chars(*self),
    {
        match self {
            Event::Empty => "empty",
            Event::Started => "started",
            Event::Completed => "completed",
            Event::Stopped => "stopped",
        }
    }
}

/// Whether the tracker should answer with the compact peer format.
#[derive(Debug, Clone, Copy, PartialEq, Eq, Structural)]
pub enum Compact {
    NotCompact,
    Compact,
}

/// The flag value each variant stands for.
pub open spec fn spec_compact_byte(c: Compact) -> u8 {
    match c {
        Compact::NotCompact => 0,
        Compact::Compact => 1,
    }
}

impl Compact {
    /// The numeric flag sent in the query string.
    pub fn as_byte(&self) -> (r: u8)
        ensures
            r == spec_compact_byte(*self),
    {
        match self {
            Compact::NotCompact => 0,
            Compact::Compact => 1,
        }
    }

    /// The flag as query-string text.
    pub fn as_text(&self) -> (r: &'static str)
        ensures
            r@ == spec_compact_chars(*self),
    {
        match self {
            Compact::NotCompact => "0",
            Compact::Compact => "1",
        }
    }
}

/// The flag of each variant as query-string text.
pub open spec fn spec_compact_chars(c: Compact) -> Seq<char> {
    match c {
        Compact::NotCompact => "0"@,
        Compact::Compact => "1"@,
    }
}

/// The abstract value of a query-string builder: the two identifiers
/// already percent-encoded, and the remaining announce parameters.
#[verifier::ext_equal]
pub struct QueryView {
    pub info_hash: Seq<u8>,
    pub peer_id: Seq<u8>,
    pub ip: Option<(u8, u8, u8, u8)>,
    pub port: u16,
    pub uploaded: u64,
    pub downloaded: u64,
    pub left: u64,
    pub event: Option<Event>,
    pub compact: Compact,
}

impl QueryView {
    /// The encoded identifiers hold ASCII only.
    pub open spec fn wf(self) -> bool {
        &&& forall|i: int| 0 <= i < self.info_hash.len() ==> self.info_hash[i] < 128
        &&& forall|i: int| 0 <= i < self.peer_id.len() ==> self.peer_id[i] < 128
    }
}

/// The decimal text of a number.
pub open spec fn spec_dec_chars(n: nat) -> Seq<char> {
    spec_ascii_chars(spec_dec_digits(n))
}

/// The dotted-quad text of an address.
pub open spec fn spec_ip_chars(ip: (u8, u8, u8, u8)) -> Seq<char> {
    spec_dec_chars(ip.0 as nat) + "."@ + spec_dec_chars(ip.1 as nat) + "."@ + spec_dec_chars(
        ip.2 as nat,
    ) + "."@ + spec_dec_chars(ip.3 as nat)
}

/// The whole query string: each parameter in announce order, the optional
/// ones present exactly when set.
pub open spec fn spec_query(q: QueryView) -> Seq<char> {
    "info_hash="@ + spec_ascii_chars(q.info_hash) + "&peer_id="@ + spec_ascii_chars(q.peer_id) + (
    match q.ip {
        Some(ip) => "&ip="@ + spec_ip_chars(ip),
        None => Seq::<char>::empty(),
    }) + "&port="@ + spec_dec_chars(q.port as nat) + "&uploaded="@ + spec_dec_chars(
        q.uploaded as nat,
    ) + "&downloaded="@ + spec_dec_chars(q.downloaded as nat) + "&left="@ + spec_dec_chars(
        q.left as nat,
    ) + (match q.event {
        Some(e) => "&event="@ + spec_event_chars(e),
        None => Seq::<char>::empty(),
    }) + "&compact="@ + spec_compact_chars(q.compact)
}

/// Builds the announce query string sent to the tracker.
#[derive(Debug, Clone)]
pub struct QueryStringBuilder {
    info_hash: Vec<u8>,
    peer_id: Vec<u8>,
    ip: Option<(u8, u8, u8, u8)>,
    port: u16,
    uploaded: u64,
    downloaded: u64,
    left: u64,
    event: Option<Event>,
    compact: Compact,
}

impl View for QueryStringBuilder {
    type V = QueryView;

    closed spec fn view(&self) -> QueryView {
        QueryView {
            info_hash: self.info_hash@,
            peer_id: self.peer_id@,
            ip: self.ip,
            port: self.port,
            uploaded: self.uploaded,
            downloaded: self.downloaded,
            left: self.left,
            event: self.event,
            compact: self.compact,
        }
    }
}

/// Appends the decimal text of `n` to `out`.
fn append_dec(out: &mut String, n: u64)
    ensures
        final(out)@ == old(out)@ + spec_dec_chars(n as nat),
{
    let mut digits: Vec<u8> = Vec::new();
    push_u64_dec(&mut digits, n);
    proof {
        lemma_dec_digits_ascii(n as nat);
    }
    let text = ascii_to_string(&digits);
    out.append(text.as_str());
}

impl QueryStringBuilder {
    /// Starts a query for the given identifiers and counters; the two
    /// 20-byte identifiers are percent-encoded here.
    pub fn new(
        info_hash: &Vec<u8>,
        peer_id: &Vec<u8>,
        port: u16,
        uploaded: u64,
        downloaded: u64,
        left: u64,
        compact: Compact,
    ) -> (r: QueryStringBuilder)
        requires
            info_hash@.len() == 20,
            peer_id@.len() == 20,
        ensures
            r@ == (QueryView {
                info_hash: spec_urlencode(info_hash@),
                peer_id: spec_urlencode(peer_id@),
                ip: None,
                port,
                uploaded,
                downloaded,
                left,
                event: None,
                compact,
            }),
            r@.wf(),
    {
        proof {
            lemma_urlencode_ascii(info_hash@);
            lemma_urlencode_ascii(peer_id@);
        }
        QueryStringBuilder {
            info_hash: urlencode_bytes(info_hash.as_slice()),
            peer_id: urlencode_bytes(peer_id.as_slice()),
            ip: None,
            port,
            uploaded,
            downloaded,
            left,
            event: None,
            compact,
        }
    }

    /// Sets the address reported to the tracker.
    pub fn with_ip(self, ip: (u8, u8, u8, u8)) -> (r: QueryStringBuilder)
        ensures
            r@ == (QueryView { ip: Some(ip), ..self@ }),
    {
        let mut s = self;
        s.ip = Some(ip);
        s
    }

    /// Sets the event reported to the tracker.
    pub fn with_event(self, event: Event) -> (r: QueryStringBuilder)
        ensures
            r@ == (QueryView { event: Some(event), ..self@ }),
    {
        let mut s = self;
        s.event = Some(event);
        s
    }

    /// Renders the query string.
    #[verifier::rlimit(60)]
    pub fn build(self) -> (r: String)
        requires
            self@.wf(),
        ensures
            r@ == spec_query(self@),
    {
        proof {
            assert forall|i: int| 0 <= i < self.info_hash@.len() implies self.info_hash@[i]
                < 128 by {
                assert(self.info_hash@[i] == self@.info_hash[i]);
            }
            assert forall|i: int| 0 <= i < self.peer_id@.len() implies self.peer_id@[i] < 128 by {
                assert(self.peer_id@[i] == self@.peer_id[i]);
            }
        }
        let mut out = String::new();
        out.append("info_hash=");
        out.append(ascii_to_string(&self.info_hash).as_str());
        out.append("&peer_id=");
        out.append(ascii_to_string(&self.peer_id).as_str());
        match self.ip {
            Some(ip) => {
                out.append("&ip=");
                append_dec(&mut out, ip.0 as u64);
                out.append(".");
                append_dec(&mut out, ip.1 as u64);
                out.append(".");
                append_dec(&mut out, ip.2 as u64);
                out.append(".");
                append_dec(&mut out, ip.3 as u64);
            },
            None => {},
        }
        out.append("&port=");
        append_dec(&mut out, self.port as u64);
        out.append("&uploaded=");
        append_dec(&mut out, self.uploaded);
        out.append("&downloaded=");
        append_dec(&mut out, self.downloaded);
        out.append("&left=");
        append_dec(&mut out, self.left);
        match self.event {
            Some(e) => {
                out.append("&event=");
                out.append(e.as_text());
            },
            None => {},
        }
        out.append("&compact=");
        out.append(self.compact.as_text());
        proof {
            assert(out@ =~= spec_query(self@));
        }
        out
    }
}

/// The peer stored at index `i` of a compact peer list: four address
/// bytes, then the port in big-endian order.
pub open spec fn spec_peer_at(s: Seq<u8>, i: int) -> PeerAddr {
    PeerAddr {
        ip0: s[6 * i],
        ip1: s[6 * i + 1],
        ip2: s[6 * i + 2],
        ip3: s[6 * i + 3],
        port: (s[6 * i + 4] as u16) << 8 | (s[6 * i + 5] as u16),
    }
}

/// Decodes a compact peer list: six bytes per peer.  Fails with a format
/// error when the length is not a multiple of six.
pub fn parse_compact_peers(bytes: &[u8]) -> (r: Result<Vec<PeerAddr>, ParseError>)
    ensures
        r is Ok <==> bytes@.len() % 6 == 0,
        r matches Ok(v) ==> v@.len() == bytes@.len() / 6 && forall|i: int|
            0 <= i < v@.len() ==> v@[i] == spec_peer_at(bytes@, i),
        r matches Err(e) ==> e is Deserialization,
{
    let n = bytes.len();
    if n % 6 != 0 {
        return Err(
            ParseError::Deserialization(
                String::from_str("the peer list length was not a multiple of six"),
            ),
        );
    }
    let count = n / 6;
    let mut peers: Vec<PeerAddr> = Vec::new();
    let mut i: usize = 0;
    while i < count
        invariant
            i <= count,
            count == bytes@.len() / 6,
            bytes@.len() % 6 == 0,
            n == bytes@.len(),
            peers@.len() == i,
            forall|j: int| 0 <= j < i ==> peers@[j] == spec_peer_at(bytes@, j),
        decreases count - i,
    {
        proof {
            assert(6 * (i as int) + 6 <= n) by (nonlinear_arith)
                requires
                    (i as int) < count,
                    count == n / 6,
                    n % 6 == 0,
                    n >= 0,
            ;
        }
        let base = 6 * i;
        let ip0 = *vstd::slice::slice_index_get(bytes, base);
        let ip1 = *vstd::slice::slice_index_get(bytes, base + 1);
        let ip2 = *vstd::slice::slice_index_get(bytes, base + 2);
        let ip3 = *vstd::slice::slice_index_get(bytes, base + 3);
        let hi = *vstd::slice::slice_index_get(bytes, base + 4);
        let lo = *vstd::slice::slice_index_get(bytes, base + 5);
        let port = (hi as u16) << 8 | (lo as u16);
        peers.push(PeerAddr { ip0, ip1, ip2, ip3, port });
        i = i + 1;
    }
    Ok(peers)
}

/// A decoded tracker response: the announce interval and the peers that
/// currently hold the torrent.
#[derive(Debug, Clone)]
pub struct TrackerResponse {
    interval: u64,
    peers: Vec<PeerAddr>,
}

impl TrackerResponse {
    pub fn interval(&self) -> (r: &u64)
        ensures
            *r == self.spec_interval(),
    {
        &self.interval
    }

    pub fn peers(&self) -> (r: &Vec<PeerAddr>)
        ensures
            r@ == self.spec_peers(),
    {
        &self.peers
    }

    pub closed spec fn spec_interval(&self) -> u64 {
        self.interval
    }

    pub closed spec fn spec_peers(&self) -> Seq<PeerAddr> {
        self.peers@
    }

    /// Decodes a tracker response: a bencoded dictionary with an integer
    /// `interval` and a compact `peers` byte string.  The outside decoder
    /// judges whether the bytes are bencode at all; everything extracted
    /// from it is validated here.
    pub fn from_bytes(bytes: &[u8]) -> (r: Result<TrackerResponse, ParseError>) {
        let root = match bencode_decode(bytes) {
            Some(v) => v,
            None => {
                return Err(
                    ParseError::Deserialization(
                        String::from_str("the response was not well-formed bencode"),
                    ),
                );
            },
        };
        if !bval_is_dict(&root) {
            return Err(
                ParseError::Deserialization(
                    String::from_str("the response did not decode into a dictionary"),
                ),
            );
        }
        let interval_val = match bval_dict_get(&root, "interval".as_bytes()) {
            Some(v) => v,
            None => {
                return Err(ParseError::MissingField(String::from_str("interval")));
            },
        };
        let interval_int = match bval_int(interval_val) {
            Some(n) => n,
            None => {
                return Err(
                    ParseError::Deserialization(
                        String::from_str("`interval` did not decode into an integer"),
                    ),
                );
            },
        };
        if interval_int < 0 {
            return Err(
                ParseError::Deserialization(
                    String::from_str("`interval` was negative"),
                ),
            );
        }
        let interval = interval_int as u64;
        let peers_val = match bval_dict_get(&root, "peers".as_bytes()) {
            Some(v) => v,
            None => {
                return Err(ParseError::MissingField(String::from_str("peers")));
            },
        };
        let peers_bytes = match bval_bytes(peers_val) {
            Some(b) => b,
            None => {
                return Err(
                    ParseError::Deserialization(
                        String::from_str("`peers` did not decode into bytes"),
                    ),
                );
            },
        };
        let peers = match parse_compact_peers(peers_bytes.as_slice()) {
            Ok(p) => p,
            Err(e) => {
                return Err(e);
            },
        };
        Ok(TrackerResponse { interval, peers })
    }
}

} // verus!
