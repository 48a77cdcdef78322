//! The statistics snapshot of a running node and the classification of its peers.
//!
//! The engine's readings are taken elsewhere, all within one fetch; this module turns them
//! into the snapshot that the controller stores: it classifies every peer by the software
//! its user agent names, computes the uptime and encodes the accumulator for export.

use vstd::prelude::*;
use vstd::string::*;

use crate::util::digit_char;

verus! {

/// The node software a peer runs, as its user agent tells.
#[derive(Clone, Copy, Debug, PartialEq, Eq, Structural)]
pub enum NodeImpl {
    Btcd,
    Core,
    Floresta,
    Utreexod,
    Knots,
    Unknown,
}

/// The transport a peer connection uses: unencrypted (v1) or encrypted (v2).
#[derive(Clone, Copy, Debug, PartialEq, Eq, Structural)]
pub enum TransportProtocol {
    V1,
    V2,
}

/// `pat` occurs in `s` starting at index `i`.
pub open spec fn occurs_at(s: Seq<char>, pat: Seq<char>, i: int) -> bool {
    0 <= i && i + pat.len() <= s.len() && s.subrange(i, i + pat.len()) == pat
}

/// `pat` occurs somewhere in `s`.
pub open spec fn contains(s: Seq<char>, pat: Seq<char>) -> bool {
    exists|i: int| occurs_at(s, pat, i)
}

pub open spec fn satoshi() -> Seq<char> {
    seq!['S', 'a', 't', 'o', 's', 'h', 'i']
}

pub open spec fn knots() -> Seq<char> {
    seq!['K', 'n', 'o', 't', 's']
}

pub open spec fn btcd() -> Seq<char> {
    seq!['b', 't', 'c', 'd']
}

pub open spec fn utreexod() -> Seq<char> {
    seq!['u', 't', 'r', 'e', 'e', 'x', 'o', 'd']
}

pub open spec fn floresta() -> Seq<char> {
    seq!['f', 'l', 'o', 'r', 'e', 's', 't', 'a']
}

/// `Satoshi` occurs in `s` and `Knots` occurs later in it, with no line feed between them:
/// what the regular expression `Satoshi.*Knots` finds.
pub open spec fn satoshi_then_knots(s: Seq<char>) -> bool {
    exists|i: int, j: int|
        #![trigger occurs_at(s, satoshi(), i), occurs_at(s, knots(), j)]
        occurs_at(s, satoshi(), i) && i + 7 <= j && occurs_at(s, knots(), j) && forall|k: int|
            i + 7 <= k < j ==> s[k] != '\n'
}

/// The implementation a user agent names; the rules are tried in order and the first that
/// holds decides, so a Knots agent (which also names Satoshi) is not taken for Core.
pub open spec fn impl_of(user_agent: Seq<char>) -> NodeImpl {
    if satoshi_then_knots(user_agent) {
        NodeImpl::Knots
    } else if contains(user_agent, satoshi()) {
        NodeImpl::Core
    } else if contains(user_agent, btcd()) {
        NodeImpl::Btcd
    } else if contains(user_agent, utreexod()) {
        NodeImpl::Utreexod
    } else if contains(user_agent, floresta()) {
        NodeImpl::Floresta
    } else {
        NodeImpl::Unknown
    }
}

/// Relies on regex::Regex::new, which compiles `pattern`, and Regex::is_match, which tells
/// whether the pattern matches anywhere in `haystack` (`.` stands for any character but a
/// line feed; letters stand for themselves). Both patterns named below are valid.
#[verifier::external_body]
fn regex_is_match(pattern: &str, haystack: &str) -> (r: Option<bool>)
    ensures
        pattern@ == "Satoshi.*Knots"@ ==> r == Some(satoshi_then_knots(haystack@)),
        pattern@ == "Satoshi"@ ==> r == Some(contains(haystack@, satoshi())),
{
    match regex::Regex::new(pattern) {
        Ok(re) => Some(re.is_match(haystack)),
        Err(_) => None,
    }
}

/// The characters of `s`, in order.
fn chars_of(s: &str) -> (r: Vec<char>)
    ensures
        r@ == s@,
{
    let n = s.unicode_len();
    let mut r: Vec<char> = Vec::new();
    let mut i: usize = 0;
    while i < n
        invariant
            n == s@.len(),
            i <= n,
            r@ == s@.subrange(0, i as int),
        decreases n - i,
    {
        r.push(s.get_char(i));
        i = i + 1;
        proof {
            assert(r@ =~= s@.subrange(0, i as int));
        }
    }
    proof {
        assert(s@.subrange(0, n as int) =~= s@);
    }
    r
}

fn occurs_at_index(s: &Vec<char>, pat: &Vec<char>, i: usize) -> (r: bool)
    requires
        i + pat@.len() <= s@.len(),
    ensures
        r == occurs_at(s@, pat@, i as int),
{
    let m = pat.len();
    let n = s.len();
    let mut k: usize = 0;
    while k < m
        invariant
            m == pat@.len(),
            n == s@.len(),
            i + m <= s@.len(),
            k <= m,
            forall|t: int| 0 <= t < k ==> s@[i + t] == pat@[t],
        decreases m - k,
    {
        if s[i + k] != pat[k] {
            proof {
                assert(s@.subrange(i as int, i + m)[k as int] != pat@[k as int]);
            }
            return false;
        }
        k = k + 1;
    }
    proof {
        assert(s@.subrange(i as int, i + m) =~= pat@);
    }
    true
}

/// Whether `pat` occurs in `s`.
pub fn contains_text(s: &str, pat: &str) -> (r: bool)
    ensures
        r == contains(s@, pat@),
{
    let sc = chars_of(s);
    let pc = chars_of(pat);
    if pc.len() > sc.len() {
        proof {
            assert forall|i: int| !occurs_at(s@, pat@, i) by {}
        }
        return false;
    }
    let last = sc.len() - pc.len();
    let mut i: usize = 0;
    loop
        invariant
            sc@ == s@,
            pc@ == pat@,
            last == s@.len() - pat@.len(),
            i <= last,
            forall|j: int| 0 <= j < i ==> !occurs_at(s@, pat@, j),
        decreases last - i,
    {
        if occurs_at_index(&sc, &pc, i) {
            return true;
        }
        if i == last {
            proof {
                assert forall|j: int| !occurs_at(s@, pat@, j) by {
                    if 0 <= j && j < i {
                    }
                }
            }
            return false;
        }
        i = i + 1;
    }
}

/// Classifies a peer by its advertised user agent: Knots before Core (a Knots agent also
/// names Satoshi), then btcd, utreexod and floresta; anything else is unknown.
pub fn regex_user_agent(user_agent: &str) -> (r: NodeImpl)
    ensures
        r == impl_of(user_agent@),
{
    if regex_is_match("Satoshi.*Knots", user_agent) == Some(true) {
        NodeImpl::Knots
    } else if regex_is_match("Satoshi", user_agent) == Some(true) {
        NodeImpl::Core
    } else {
        proof {
            reveal_strlit("btcd");
            reveal_strlit("utreexod");
            reveal_strlit("floresta");
            assert("btcd"@ =~= btcd());
            assert("utreexod"@ =~= utreexod());
            assert("floresta"@ =~= floresta());
        }
        if contains_text(user_agent, "btcd") {
            NodeImpl::Btcd
        } else if contains_text(user_agent, "utreexod") {
            NodeImpl::Utreexod
        } else if contains_text(user_agent, "floresta") {
            NodeImpl::Floresta
        } else {
            NodeImpl::Unknown
        }
    }
}

impl NodeImpl {
    /// The name shown for the implementation.
    pub fn label(&self) -> (r: &'static str)
        ensures
            r@ == impl_label(*self),
    {
        match self {
            NodeImpl::Btcd => "btcd",
            NodeImpl::Core => "Bitcoin Core",
            NodeImpl::Floresta => "Floresta",
            NodeImpl::Utreexod => "Utreexod",
            NodeImpl::Knots => "Bitcoin Knots",
            NodeImpl::Unknown => "Unknown",
        }
    }

    /// The path of the icon shown for the implementation.
    pub fn icon_path(&self) -> (r: &'static str)
        ensures
            r@ == impl_icon(*self),
    {
        match self {
            NodeImpl::Core => "assets/icon/implementations/core.png",
            NodeImpl::Knots => "assets/icon/implementations/knots.png",
            NodeImpl::Btcd => "assets/icon/implementations/btcd.png",
            NodeImpl::Utreexod => "assets/icon/implementations/utreexod.jpeg",
            NodeImpl::Floresta => "assets/icon/implementations/floresta.png",
            NodeImpl::Unknown => "assets/icon/implementations/unknown.png",
        }
    }
}

/// The icon shown for an implementation.
pub open spec fn impl_icon(i: NodeImpl) -> Seq<char> {
    match i {
        NodeImpl::Core => "assets/icon/implementations/core.png"@,
        NodeImpl::Knots => "assets/icon/implementations/knots.png"@,
        NodeImpl::Btcd => "assets/icon/implementations/btcd.png"@,
        NodeImpl::Utreexod => "assets/icon/implementations/utreexod.jpeg"@,
        NodeImpl::Floresta => "assets/icon/implementations/floresta.png"@,
        NodeImpl::Unknown => "assets/icon/implementations/unknown.png"@,
    }
}

/// The name shown for an implementation.
pub open spec fn impl_label(i: NodeImpl) -> Seq<char> {
    match i {
        NodeImpl::Btcd => "btcd"@,
        NodeImpl::Core => "Bitcoin Core"@,
        NodeImpl::Floresta => "Floresta"@,
        NodeImpl::Utreexod => "Utreexod"@,
        NodeImpl::Knots => "Bitcoin Knots"@,
        NodeImpl::Unknown => "Unknown"@,
    }
}

/// A peer as the engine reports it: address text, advertised service bits, user agent,
/// the height it announced, its connection state and kind (as text) and its transport.
pub struct PeerInfo {
    pub address: String,
    pub services: u64,
    pub user_agent: String,
    pub initial_height: u32,
    pub state: String,
    pub kind: String,
    pub transport_protocol: TransportProtocol,
}

/// A peer as the snapshot shows it: the engine's record plus the implementation that its
/// user agent names.
pub struct PeerInformation {
    pub socket: String,
    pub services: u64,
    pub user_agent: String,
    pub node_impl: NodeImpl,
    pub initial_height: u32,
    pub peer_status: String,
    pub connection_kind: String,
    pub transport_protocol: TransportProtocol,
}

/// `out` is the snapshot record of the raw peer `p`.
pub open spec fn describes(out: PeerInformation, p: PeerInfo) -> bool {
    &&& out.socket@ == p.address@
    &&& out.services == p.services
    &&& out.user_agent@ == p.user_agent@
    &&& out.node_impl == impl_of(p.user_agent@)
    &&& out.initial_height == p.initial_height
    &&& out.peer_status@ == p.state@
    &&& out.connection_kind@ == p.kind@
    &&& out.transport_protocol == p.transport_protocol
}

/// Turns the engine's peer records into snapshot records, one for one and in order.
pub fn process_peer_infos(peer_infos: &Vec<PeerInfo>) -> (r: Vec<PeerInformation>)
    ensures
        r@.len() == peer_infos@.len(),
        forall|i: int| 0 <= i < r@.len() ==> describes(#[trigger] r@[i], peer_infos@[i]),
{
    let mut r: Vec<PeerInformation> = Vec::new();
    let mut i: usize = 0;
    while i < peer_infos.len()
        invariant
            i <= peer_infos@.len(),
            r@.len() == i,
            forall|j: int| 0 <= j < i ==> describes(#[trigger] r@[j], peer_infos@[j]),
        decreases peer_infos@.len() - i,
    {
        let p = &peer_infos[i];
        let info = PeerInformation {
            socket: p.address.clone(),
            services: p.services,
            node_impl: regex_user_agent(p.user_agent.as_str()),
            user_agent: p.user_agent.clone(),
            initial_height: p.initial_height,
            peer_status: p.state.clone(),
            connection_kind: p.kind.clone(),
            transport_protocol: p.transport_protocol,
        };
        r.push(info);
        i = i + 1;
    }
    r
}

/// The accumulator's digest: its leaf count and its root hashes.
pub struct AccumulatorDigest {
    pub leaves: u64,
    pub roots: Vec<[u8; 32]>,
}

/// The hexadecimal digit for `d < 16`, in lower case.
pub open spec fn hex_digit(d: int) -> char {
    if d < 10 {
        digit_char(d)
    } else if d == 10 {
        'a'
    } else if d == 11 {
        'b'
    } else if d == 12 {
        'c'
    } else if d == 13 {
        'd'
    } else if d == 14 {
        'e'
    } else {
        'f'
    }
}

/// Two lower-case hexadecimal digits for each byte of `b`, in order.
pub open spec fn hex_text(b: Seq<u8>) -> Seq<char>
    decreases b.len(),
{
    if b.len() == 0 {
        Seq::empty()
    } else {
        hex_text(b.drop_last()) + seq![
            hex_digit((b.last() / 16) as int),
            hex_digit((b.last() % 16) as int),
        ]
    }
}

/// Relies on hex::encode: two lower-case hexadecimal digits for each byte, in order.
#[verifier::external_body]
fn hex_encode(bytes: &[u8]) -> (r: String)
    ensures
        r@ == hex_text(bytes@),
{
    hex::encode(bytes)
}

/// The export text of a serialized accumulator: its bytes in hexadecimal.
pub fn encode_stump(serialized: &[u8]) -> (r: String)
    ensures
        r@ == hex_text(serialized@),
{
    hex_encode(serialized)
}

/// What the engine reported within one fetch: sync state, heights, the accumulator (and its
/// serialization, when the engine could produce one), its user agent and its peers.
pub struct NodeReadings {
    pub in_ibd: bool,
    pub headers: u32,
    pub blocks: u32,
    pub accumulator: AccumulatorDigest,
    pub accumulator_bytes: Option<Vec<u8>>,
    pub user_agent: String,
    pub peers: Vec<PeerInfo>,
}

/// A point-in-time snapshot of the node, replaced whole on every fetch.
pub struct NodeStatistics {
    pub in_ibd: bool,
    pub headers: u32,
    pub blocks: u32,
    pub accumulator: AccumulatorDigest,
    pub accumulator_qr_data: Option<String>,
    pub user_agent: String,
    pub peer_informations: Vec<PeerInformation>,
    /// Milliseconds since the node started running.
    pub uptime: u64,
}

/// The uptime at `now` of a node that started at `start` (both in milliseconds): zero when
/// it never started, and zero rather than negative when the clock reads earlier than `start`.
pub open spec fn uptime_at(start: Option<u64>, now: u64) -> u64 {
    match start {
        Some(t) => if now >= t {
            (now - t) as u64
        } else {
            0
        },
        None => 0,
    }
}

/// The export payload for a serialization: its hexadecimal text, or none when there is no
/// serialization or it is empty.
pub open spec fn export_of(bytes: Option<Seq<u8>>) -> Option<Seq<char>> {
    match bytes {
        Some(b) => if b.len() > 0 {
            Some(hex_text(b))
        } else {
            None
        },
        None => None,
    }
}

pub open spec fn opt_bytes(b: &Option<Vec<u8>>) -> Option<Seq<u8>> {
    match b {
        Some(v) => Some(v@),
        None => None,
    }
}

pub open spec fn opt_text(s: Option<String>) -> Option<Seq<char>> {
    match s {
        Some(v) => Some(v@),
        None => None,
    }
}

/// `stats` is the snapshot of `readings` taken for an engine started at `start_time` and
/// read at `now`.
pub open spec fn snapshot_of(
    stats: NodeStatistics,
    readings: NodeReadings,
    start_time: Option<u64>,
    now: u64,
) -> bool {
    &&& stats.in_ibd == readings.in_ibd
    &&& stats.headers == readings.headers
    &&& stats.blocks == readings.blocks
    &&& stats.accumulator == readings.accumulator
    &&& opt_text(stats.accumulator_qr_data) == export_of(opt_bytes(&readings.accumulator_bytes))
    &&& stats.user_agent@ == readings.user_agent@
    &&& stats.peer_informations@.len() == readings.peers@.len()
    &&& forall|i: int|
        0 <= i < stats.peer_informations@.len() ==> describes(
            #[trigger] stats.peer_informations@[i],
            readings.peers@[i],
        )
    &&& stats.uptime == uptime_at(start_time, now)
}

/// Builds the snapshot from one fetch's readings: peers classified in order, uptime measured
/// from `start_time` to `now`, and the accumulator's serialization encoded for export.
pub fn assemble_statistics(readings: NodeReadings, start_time: Option<u64>, now: u64) -> (r:
    NodeStatistics)
    ensures
        snapshot_of(r, readings, start_time, now),
{
    let peer_informations = process_peer_infos(&readings.peers);
    let uptime: u64 = match start_time {
        Some(t) => if now >= t {
            now - t
        } else {
            0
        },
        None => 0,
    };
    let accumulator_qr_data = match &readings.accumulator_bytes {
        Some(bytes) => if bytes.len() > 0 {
            Some(encode_stump(bytes.as_slice()))
        } else {
            None
        },
        None => None,
    };
    NodeStatistics {
        in_ibd: readings.in_ibd,
        headers: readings.headers,
        blocks: readings.blocks,
        accumulator: readings.accumulator,
        accumulator_qr_data,
        user_agent: readings.user_agent,
        peer_informations,
        uptime,
    }
}

/// What a snapshot shows, with its texts and sequences as values.
pub struct StatisticsView {
    pub in_ibd: bool,
    pub headers: u32,
    pub blocks: u32,
    pub accumulator: AccumulatorDigest,
    pub export: Option<Seq<char>>,
    pub user_agent: Seq<char>,
    pub peers: Seq<PeerInformation>,
    pub uptime: u64,
}

impl View for NodeStatistics {
    type V = StatisticsView;

    open spec fn view(&self) -> StatisticsView {
        StatisticsView {
            in_ibd: self.in_ibd,
            headers: self.headers,
            blocks: self.blocks,
            accumulator: self.accumulator,
            export: opt_text(self.accumulator_qr_data),
            user_agent: self.user_agent@,
            peers: self.peer_informations@,
            uptime: self.uptime,
        }
    }
}

} // verus!
