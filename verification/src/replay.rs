//! The replay log: a header, the savestate that the match started from, and
//! one record for every pair of inputs, all numbers little-endian.

use crate::input::{seq_view, swapped, Input, InputView, Pair};
use sha3::Digest;
use vstd::bytes::{
    spec_u16_from_le_bytes, spec_u16_to_le_bytes, spec_u32_from_le_bytes, spec_u32_to_le_bytes,
    u16_from_le_bytes, u16_to_le_bytes, u32_from_le_bytes, u32_to_le_bytes,
};
use vstd::prelude::*;
use vstd::slice::{slice_subrange, slice_to_vec};

verus! {

/// The version of the format that is written and read.
pub const VERSION: u8 = 0x09;

/// Length of what precedes the savestate.
pub const HEADER_LENGTH: usize = 12;

/// Length of what a record holds besides the two packets.
pub const RECORD_FIXED_LENGTH: usize = 12;

/// The four bytes that a replay begins with: `TOOT`.
pub open spec fn magic() -> Seq<u8> {
    seq![0x54u8, 0x4f, 0x4f, 0x54]
}

/// An archived match.
#[derive(Debug)]
pub struct Replay {
    /// Whether the match was archived up to the end of its round.
    pub is_complete: bool,
    pub local_player_index: u8,
    /// The savestate that the match started from.
    pub local_state: Vec<u8>,
    pub input_pairs: Vec<Pair<Input, Input>>,
}

/// Mathematical model of a [`Replay`].
pub struct ReplayView {
    pub is_complete: bool,
    pub local_player_index: u8,
    pub local_state: Seq<u8>,
    pub input_pairs: Seq<Pair<InputView, InputView>>,
}

impl View for Replay {
    type V = ReplayView;

    open spec fn view(&self) -> ReplayView {
        ReplayView {
            is_complete: self.is_complete,
            local_player_index: self.local_player_index,
            local_state: self.local_state@,
            input_pairs: seq_view(self.input_pairs@),
        }
    }
}

/// Why bytes are no replay.
#[derive(Clone, Copy, Debug, PartialEq, Eq, Structural)]
pub enum DecodeError {
    /// The bytes end before the header does.
    TruncatedHeader,
    /// The bytes do not begin with the magic.
    BadMagic,
    /// The replay was written in another version of the format.
    BadVersion { found: u8 },
    /// The bytes end before the savestate does.
    TruncatedState,
}

/// Why a replay cannot be written.
#[derive(Clone, Copy, Debug, PartialEq, Eq, Structural)]
pub enum EncodeError {
    /// The savestate is longer than its length field can say.
    StateTooLong,
    /// A packet of the pair with this index has another length than asked.
    PacketLength { index: usize },
}

/// Length of a record whose packets have length `rx_len`.
pub open spec fn record_length(rx_len: u8) -> int {
    RECORD_FIXED_LENGTH + 2 * rx_len
}

/// Whether a pair can be written as a record: both packets have the length
/// asked for, and both inputs carry the same ticks, of which a record holds
/// one set.
pub open spec fn pair_fits(pair: Pair<InputView, InputView>, rx_len: u8) -> bool {
    &&& pair.local.rx.len() == rx_len
    &&& pair.remote.rx.len() == rx_len
    &&& pair.remote.local_tick == pair.local.local_tick
    &&& pair.remote.remote_tick == pair.local.remote_tick
}

/// Whether a replay is one that reading gives back as it was written.
pub open spec fn replay_fits(replay: ReplayView, rx_len: u8) -> bool {
    &&& replay.local_state.len() <= u32::MAX
    &&& forall|i: int|
        0 <= i < replay.input_pairs.len() ==> pair_fits(#[trigger] replay.input_pairs[i], rx_len)
}

/// The record of a pair: the local input's ticks, both sides' buttons, both
/// sides' packets.
pub open spec fn encode_record(pair: Pair<InputView, InputView>) -> Seq<u8> {
    spec_u32_to_le_bytes(pair.local.local_tick) + spec_u32_to_le_bytes(pair.local.remote_tick)
        + spec_u16_to_le_bytes(pair.local.joyflags) + spec_u16_to_le_bytes(pair.remote.joyflags)
        + pair.local.rx + pair.remote.rx
}

/// The records of pairs, one after the other.
pub open spec fn encode_records(pairs: Seq<Pair<InputView, InputView>>) -> Seq<u8>
    decreases pairs.len(),
{
    if pairs.len() == 0 {
        Seq::empty()
    } else {
        encode_records(pairs.drop_last()) + encode_record(pairs.last())
    }
}

/// What precedes the records: the magic, the version, whether the replay
/// is complete, the local player's index, a reserved zero, and the
/// savestate behind its length.
pub open spec fn encode_header(replay: ReplayView) -> Seq<u8> {
    magic() + seq![
        VERSION,
        if replay.is_complete {
            1u8
        } else {
            0u8
        },
        replay.local_player_index,
        0u8,
    ] + spec_u32_to_le_bytes(replay.local_state.len() as u32) + replay.local_state
}

/// A replay as bytes.
pub open spec fn encode_spec(replay: ReplayView) -> Seq<u8> {
    encode_header(replay) + encode_records(replay.input_pairs)
}

/// The pair that a record holds. Both inputs get the record's ticks.
pub open spec fn decode_record(record: Seq<u8>, rx_len: u8) -> Pair<InputView, InputView> {
    let local_tick = spec_u32_from_le_bytes(record.subrange(0, 4));
    let remote_tick = spec_u32_from_le_bytes(record.subrange(4, 8));
    Pair {
        local: InputView {
            local_tick,
            remote_tick,
            joyflags: spec_u16_from_le_bytes(record.subrange(8, 10)),
            rx: record.subrange(12, 12 + rx_len),
        },
        remote: InputView {
            local_tick,
            remote_tick,
            joyflags: spec_u16_from_le_bytes(record.subrange(10, 12)),
            rx: record.subrange(12 + rx_len, 12 + 2 * rx_len),
        },
    }
}

/// The pairs that bytes hold as records: as many as the bytes hold whole
/// records. What is left behind the last whole record is not looked at.
pub open spec fn decode_records(bytes: Seq<u8>, rx_len: u8) -> Seq<Pair<InputView, InputView>> {
    let length = record_length(rx_len);
    Seq::new(
        (bytes.len() / length as nat) as nat,
        |i: int| decode_record(bytes.subrange(i * length, i * length + length), rx_len),
    )
}

/// The replay that bytes hold, or why they hold none.
pub open spec fn decode_spec(bytes: Seq<u8>, rx_len: u8) -> Result<ReplayView, DecodeError> {
    if bytes.len() < HEADER_LENGTH {
        Err(DecodeError::TruncatedHeader)
    } else if bytes.subrange(0, 4) != magic() {
        Err(DecodeError::BadMagic)
    } else if bytes[4] != VERSION {
        Err(DecodeError::BadVersion { found: bytes[4] })
    } else {
        let state_length = spec_u32_from_le_bytes(bytes.subrange(8, 12));
        if bytes.len() - HEADER_LENGTH < state_length {
            Err(DecodeError::TruncatedState)
        } else {
            Ok(
                ReplayView {
                    is_complete: bytes[5] != 0,
                    local_player_index: bytes[6],
                    local_state: bytes.subrange(
                        HEADER_LENGTH as int,
                        HEADER_LENGTH + state_length,
                    ),
                    input_pairs: decode_records(bytes.skip(HEADER_LENGTH + state_length), rx_len),
                },
            )
        }
    }
}

/// The same match seen from the other side: the sides of every pair are
/// swapped and the local player is the other player.
pub open spec fn into_remote_spec(replay: ReplayView) -> ReplayView {
    ReplayView {
        local_player_index: (1 - replay.local_player_index) as u8,
        input_pairs: replay.input_pairs.map_values(|pair: Pair<InputView, InputView>| swapped(pair)),
        ..replay
    }
}

/// Two packets combined byte by byte with exclusive or, as far as the
/// shorter one goes.
pub open spec fn xor_packets(left: Seq<u8>, right: Seq<u8>) -> Seq<u8> {
    Seq::new(
        if left.len() < right.len() {
            left.len()
        } else {
            right.len()
        },
        |i: int| left[i] ^ right[i],
    )
}

/// What the hash of a replay is taken of: for every pair, its two packets
/// combined with exclusive or.
pub open spec fn hash_input(pairs: Seq<Pair<InputView, InputView>>) -> Seq<u8>
    decreases pairs.len(),
{
    if pairs.len() == 0 {
        Seq::empty()
    } else {
        hash_input(pairs.drop_last()) + xor_packets(pairs.last().local.rx, pairs.last().remote.rx)
    }
}

/// The SHA3-256 digest of `data`, as the `sha3` crate computes it.
pub uninterp spec fn sha3_256(data: Seq<u8>) -> Seq<u8>;

/// The digit of a number below sixteen, in small letters.
pub open spec fn hex_digit(nibble: u8) -> char {
    "0123456789abcdef"@[nibble as int]
}

/// Bytes written in hexadecimal: two digits for each byte, the high one
/// first, in small letters.
pub open spec fn hex_spec(bytes: Seq<u8>) -> Seq<char> {
    Seq::new(
        2 * bytes.len(),
        |i: int|
            hex_digit(
                if i % 2 == 0 {
                    bytes[i / 2] >> 4
                } else {
                    bytes[i / 2] & 0xf
                },
            ),
    )
}

/// The hash of a replay: the digest of its packets, combined pair by pair,
/// in hexadecimal.
pub open spec fn replay_hash_spec(replay: ReplayView) -> Seq<char> {
    hex_spec(sha3_256(hash_input(replay.input_pairs)))
}

/// Computes `sha3::Sha3_256::digest`. The digest is a function of the data
/// alone and is 32 bytes long; what it is otherwise goes by the name
/// [`sha3_256`].
#[verifier::external_body]
fn sha3_256_digest(data: &[u8]) -> (digest: Vec<u8>)
    ensures
        digest@ == sha3_256(data@),
        digest@.len() == 32,
{
    sha3::Sha3_256::digest(data).to_vec()
}

/// Calls `hex::encode`, which writes each byte as two hexadecimal digits in
/// small letters, the high digit first.
#[verifier::external_body]
fn hex_encode(bytes: &[u8]) -> (text: String)
    ensures
        text@ == hex_spec(bytes@),
{
    hex::encode(bytes)
}

/// Combines two packets byte by byte with exclusive or and appends the
/// result to `bytes`.
pub fn push_xor_packets(bytes: &mut Vec<u8>, left: &Vec<u8>, right: &Vec<u8>)
    ensures
        final(bytes)@ == old(bytes)@ + xor_packets(left@, right@),
{
    let length: usize = if left.len() < right.len() {
        left.len()
    } else {
        right.len()
    };
    let ghost before = bytes@;
    let ghost combined = xor_packets(left@, right@);
    let mut i: usize = 0;
    assert(bytes@ =~= before + combined.take(0));
    while i < length
        invariant
            i <= length,
            length == combined.len(),
            length <= left@.len(),
            length <= right@.len(),
            combined == xor_packets(left@, right@),
            bytes@ == before + combined.take(i as int),
        decreases length - i,
    {
        bytes.push(left[i] ^ right[i]);
        assert(bytes@ =~= before + combined.take(i as int + 1));
        i = i + 1;
    }
    assert(combined.take(length as int) =~= combined);
}

impl Replay {
    /// What the hash of the replay is taken of.
    pub fn hash_input(&self) -> (bytes: Vec<u8>)
        ensures
            bytes@ == hash_input(self@.input_pairs),
    {
        let mut bytes: Vec<u8> = Vec::new();
        let mut i: usize = 0;
        let ghost pairs = self@.input_pairs;
        assert(pairs.take(0) =~= Seq::empty());
        while i < self.input_pairs.len()
            invariant
                i <= self.input_pairs.len(),
                pairs == self@.input_pairs,
                bytes@ == hash_input(pairs.take(i as int)),
            decreases self.input_pairs.len() - i,
        {
            let pair = &self.input_pairs[i];
            assert(pair@ == pairs[i as int]);
            push_xor_packets(&mut bytes, &pair.local.rx, &pair.remote.rx);
            proof {
                assert(pairs.take(i as int + 1).drop_last() =~= pairs.take(i as int));
                assert(pairs.take(i as int + 1).last() == pairs[i as int]);
            }
            i = i + 1;
        }
        assert(pairs.take(i as int) =~= pairs);
        bytes
    }

    /// The hash of the replay: the SHA3-256 digest of its packets, combined
    /// pair by pair with exclusive or, in hexadecimal.
    pub fn hash(&self) -> (text: String)
        ensures
            text@ == replay_hash_spec(self@),
            text@.len() == 64,
    {
        let input = self.hash_input();
        let digest = sha3_256_digest(input.as_slice());
        hex_encode(digest.as_slice())
    }

    /// Writes the replay. The savestate must fit its length field and
    /// every packet must have the length `rx_len`; the first pair with a
    /// packet of another length is reported.
    pub fn encode(&self, rx_len: u8) -> (written: Result<Vec<u8>, EncodeError>)
        ensures
            match written {
                Ok(bytes) => {
                    &&& bytes@ == encode_spec(self@)
                    &&& self@.local_state.len() <= u32::MAX
                    &&& forall|i: int|
                        0 <= i < self@.input_pairs.len() ==> (
                        #[trigger] self@.input_pairs[i]).local.rx.len() == rx_len
                            && self@.input_pairs[i].remote.rx.len() == rx_len
                },
                Err(EncodeError::StateTooLong) => self@.local_state.len() > u32::MAX,
                Err(EncodeError::PacketLength { index }) => {
                    &&& self@.local_state.len() <= u32::MAX
                    &&& index < self@.input_pairs.len()
                    &&& (self@.input_pairs[index as int].local.rx.len() != rx_len
                        || self@.input_pairs[index as int].remote.rx.len() != rx_len)
                    &&& forall|i: int|
                        0 <= i < index ==> (#[trigger] self@.input_pairs[i]).local.rx.len()
                            == rx_len && self@.input_pairs[i].remote.rx.len() == rx_len
                },
            },
    {
        if self.local_state.len() > u32::MAX as usize {
            return Err(EncodeError::StateTooLong);
        }
        let mut bytes: Vec<u8> = Vec::new();
        bytes.push(0x54);
        bytes.push(0x4f);
        bytes.push(0x4f);
        bytes.push(0x54);
        bytes.push(VERSION);
        bytes.push(
            if self.is_complete {
                1
            } else {
                0
            },
        );
        bytes.push(self.local_player_index);
        bytes.push(0);
        let mut length = u32_to_le_bytes(self.local_state.len() as u32);
        bytes.append(&mut length);
        let mut state = self.local_state.clone();
        bytes.append(&mut state);
        assert(bytes@ =~= encode_header(self@));
        let mut i: usize = 0;
        assert(seq_view(self.input_pairs@).take(0) =~= Seq::empty());
        while i < self.input_pairs.len()
            invariant
                i <= self.input_pairs.len(),
                self@.local_state.len() <= u32::MAX,
                bytes@ == encode_header(self@) + encode_records(self@.input_pairs.take(i as int)),
                forall|k: int|
                    0 <= k < i ==> (#[trigger] self@.input_pairs[k]).local.rx.len() == rx_len
                        && self@.input_pairs[k].remote.rx.len() == rx_len,
            decreases self.input_pairs.len() - i,
        {
            let pair = &self.input_pairs[i];
            assert(pair@ == self@.input_pairs[i as int]);
            if pair.local.rx.len() != rx_len as usize || pair.remote.rx.len() != rx_len as usize {
                proof {
                    assert(self@.input_pairs.len() == self.input_pairs@.len());
                    assert(self@.input_pairs[i as int].local.rx.len() != rx_len
                        || self@.input_pairs[i as int].remote.rx.len() != rx_len);
                }
                return Err(EncodeError::PacketLength { index: i });
            }
            let ghost before = bytes@;
            let mut local_tick = u32_to_le_bytes(pair.local.local_tick);
            let mut remote_tick = u32_to_le_bytes(pair.local.remote_tick);
            let mut local_joyflags = u16_to_le_bytes(pair.local.joyflags);
            let mut remote_joyflags = u16_to_le_bytes(pair.remote.joyflags);
            let mut local_rx = pair.local.rx.clone();
            let mut remote_rx = pair.remote.rx.clone();
            bytes.append(&mut local_tick);
            bytes.append(&mut remote_tick);
            bytes.append(&mut local_joyflags);
            bytes.append(&mut remote_joyflags);
            bytes.append(&mut local_rx);
            bytes.append(&mut remote_rx);
            proof {
                let pairs = self@.input_pairs;
                assert(bytes@ =~= before + encode_record(pair@));
                assert(pairs.take(i as int + 1).drop_last() =~= pairs.take(i as int));
                assert(pairs.take(i as int + 1).last() == pairs[i as int]);
                assert(encode_header(self@) + encode_records(pairs.take(i as int + 1))
                    =~= encode_header(self@) + encode_records(pairs.take(i as int))
                    + encode_record(pair@));
            }
            i = i + 1;
        }
        assert(self@.input_pairs.take(i as int) =~= self@.input_pairs);
        Ok(bytes)
    }

    /// Reads a replay whose packets have length `rx_len`.
    pub fn decode(bytes: &[u8], rx_len: u8) -> (read: Result<Replay, DecodeError>)
        ensures
            match read {
                Ok(replay) => decode_spec(bytes@, rx_len) == Ok::<ReplayView, DecodeError>(replay@),
                Err(err) => decode_spec(bytes@, rx_len) == Err::<ReplayView, DecodeError>(err),
            },
    {
        if bytes.len() < HEADER_LENGTH {
            return Err(DecodeError::TruncatedHeader);
        }
        if bytes[0] != 0x54 || bytes[1] != 0x4f || bytes[2] != 0x4f || bytes[3] != 0x54 {
            proof {
                let found = bytes@.subrange(0, 4);
                assert(found[0] == bytes@[0] && found[1] == bytes@[1] && found[2] == bytes@[2]
                    && found[3] == bytes@[3]);
            }
            return Err(DecodeError::BadMagic);
        }
        assert(bytes@.subrange(0, 4) =~= magic());
        if bytes[4] != VERSION {
            return Err(DecodeError::BadVersion { found: bytes[4] });
        }
        let state_length: usize = u32_from_le_bytes(slice_subrange(bytes, 8, 12)) as usize;
        if bytes.len() - HEADER_LENGTH < state_length {
            return Err(DecodeError::TruncatedState);
        }
        let is_complete = bytes[5] != 0;
        let local_player_index: u8 = bytes[6];
        let start: usize = HEADER_LENGTH + state_length;
        let local_state = slice_to_vec(slice_subrange(bytes, HEADER_LENGTH, start));
        let length: usize = RECORD_FIXED_LENGTH + 2 * (rx_len as usize);
        let count: usize = (bytes.len() - start) / length;
        let ghost rest = bytes@.skip(start as int);
        let ghost records = decode_records(rest, rx_len);
        let mut input_pairs: Vec<Pair<Input, Input>> = Vec::new();
        let mut i: usize = 0;
        let mut at: usize = start;
        assert(seq_view(input_pairs@) =~= records.take(0));
        while i < count
            invariant
                i <= count,
                length == record_length(rx_len),
                start <= bytes@.len(),
                rest == bytes@.skip(start as int),
                count == rest.len() / length as nat,
                records == decode_records(rest, rx_len),
                at == start + i * length,
                at <= bytes@.len(),
                bytes@.len() <= usize::MAX,
                seq_view(input_pairs@) == records.take(i as int),
            decreases count - i,
        {
            proof {
                assert((i + 1) * length <= count * length) by (nonlinear_arith)
                    requires
                        i < count,
                        length > 0,
                ;
                assert(count * length <= rest.len()) by (nonlinear_arith)
                    requires
                        count == rest.len() / length as nat,
                        length > 0,
                ;
                assert((i + 1) * length == i * length + length) by (nonlinear_arith);
                assert(rest.len() == bytes@.len() - start);
                assert(at + length <= bytes@.len());
            }
            let record = slice_subrange(bytes, at, at + length);
            assert(record@ =~= rest.subrange(i * length, i * length + length));
            let local_tick: u32 = u32_from_le_bytes(slice_subrange(record, 0, 4));
            let remote_tick: u32 = u32_from_le_bytes(slice_subrange(record, 4, 8));
            let local_joyflags: u16 = u16_from_le_bytes(slice_subrange(record, 8, 10));
            let remote_joyflags: u16 = u16_from_le_bytes(slice_subrange(record, 10, 12));
            let local_rx = slice_to_vec(slice_subrange(record, 12, 12 + rx_len as usize));
            let remote_rx = slice_to_vec(
                slice_subrange(record, 12 + rx_len as usize, 12 + 2 * (rx_len as usize)),
            );
            let pair = Pair {
                local: Input { local_tick, remote_tick, joyflags: local_joyflags, rx: local_rx },
                remote: Input { local_tick, remote_tick, joyflags: remote_joyflags, rx: remote_rx },
            };
            let ghost before = seq_view(input_pairs@);
            input_pairs.push(pair);
            proof {
                assert(pair@ == records[i as int]);
                assert(seq_view(input_pairs@) =~= before.push(pair@));
                assert(records.take(i as int + 1) =~= records.take(i as int).push(records[i as int]));
            }
            i = i + 1;
            at = at + length;
        }
        assert(records.take(count as int) =~= records);
        Ok(Replay { is_complete, local_player_index, local_state, input_pairs })
    }

    /// The same match seen from the other side, for a replay whose local
    /// player is one of the two players.
    pub fn into_remote(self) -> (remote: Option<Replay>)
        ensures
            self@.local_player_index <= 1 ==> remote is Some && remote->0@ == into_remote_spec(
                self@,
            ),
            self@.local_player_index > 1 ==> remote is None,
    {
        if self.local_player_index > 1 {
            return None;
        }
        let mut input_pairs: Vec<Pair<Input, Input>> = Vec::new();
        let mut i: usize = 0;
        let ghost swapped_pairs = into_remote_spec(self@).input_pairs;
        assert(seq_view(input_pairs@) =~= swapped_pairs.take(0));
        while i < self.input_pairs.len()
            invariant
                i <= self.input_pairs.len(),
                swapped_pairs == into_remote_spec(self@).input_pairs,
                seq_view(input_pairs@) == swapped_pairs.take(i as int),
            decreases self.input_pairs.len() - i,
        {
            let pair = self.input_pairs[i].duplicate().into_swapped();
            let ghost before = seq_view(input_pairs@);
            input_pairs.push(pair);
            proof {
                assert(pair@ == swapped_pairs[i as int]);
                assert(seq_view(input_pairs@) =~= before.push(pair@));
                assert(swapped_pairs.take(i as int + 1) =~= swapped_pairs.take(i as int).push(
                    swapped_pairs[i as int],
                ));
            }
            i = i + 1;
        }
        assert(swapped_pairs.take(i as int) =~= swapped_pairs);
        Some(
            Replay {
                is_complete: self.is_complete,
                local_player_index: 1 - self.local_player_index,
                local_state: self.local_state,
                input_pairs,
            },
        )
    }
}

/// A record of pairs whose packets all have the length `rx_len` has the
/// length of a record.
proof fn lemma_record_length(pair: Pair<InputView, InputView>, rx_len: u8)
    requires
        pair.local.rx.len() == rx_len,
        pair.remote.rx.len() == rx_len,
    ensures
        encode_record(pair).len() == record_length(rx_len),
{
    vstd::bytes::lemma_auto_spec_u32_to_from_le_bytes();
    vstd::bytes::lemma_auto_spec_u16_to_from_le_bytes();
}

/// Reading the record of a pair gives the pair back.
proof fn lemma_decode_record(pair: Pair<InputView, InputView>, rx_len: u8)
    requires
        pair_fits(pair, rx_len),
    ensures
        decode_record(encode_record(pair), rx_len) == pair,
{
    vstd::bytes::lemma_auto_spec_u32_to_from_le_bytes();
    vstd::bytes::lemma_auto_spec_u16_to_from_le_bytes();
    let record = encode_record(pair);
    assert(record.subrange(0, 4) =~= spec_u32_to_le_bytes(pair.local.local_tick));
    assert(record.subrange(4, 8) =~= spec_u32_to_le_bytes(pair.local.remote_tick));
    assert(record.subrange(8, 10) =~= spec_u16_to_le_bytes(pair.local.joyflags));
    assert(record.subrange(10, 12) =~= spec_u16_to_le_bytes(pair.remote.joyflags));
    assert(record.subrange(12, 12 + rx_len) =~= pair.local.rx);
    assert(record.subrange(12 + rx_len, 12 + 2 * rx_len) =~= pair.remote.rx);
}

/// The records of pairs take as many bytes as there are pairs, times the
/// length of a record.
proof fn lemma_records_length(pairs: Seq<Pair<InputView, InputView>>, rx_len: u8)
    requires
        forall|i: int| 0 <= i < pairs.len() ==> pair_fits(#[trigger] pairs[i], rx_len),
    ensures
        encode_records(pairs).len() == pairs.len() * record_length(rx_len),
    decreases pairs.len(),
{
    if pairs.len() > 0 {
        let front = pairs.drop_last();
        assert forall|i: int| 0 <= i < front.len() implies pair_fits(#[trigger] front[i], rx_len) by {
            assert(front[i] == pairs[i]);
        }
        lemma_records_length(front, rx_len);
        lemma_record_length(pairs.last(), rx_len);
        assert((pairs.len() - 1) * record_length(rx_len) + record_length(rx_len) == pairs.len()
            * record_length(rx_len)) by (nonlinear_arith);
    }
}

/// The record of the pair with index `i` lies at `i` times the length of a
/// record.
proof fn lemma_record_at(pairs: Seq<Pair<InputView, InputView>>, rx_len: u8, i: int)
    requires
        forall|k: int| 0 <= k < pairs.len() ==> pair_fits(#[trigger] pairs[k], rx_len),
        0 <= i < pairs.len(),
    ensures
        i * record_length(rx_len) + record_length(rx_len) <= encode_records(pairs).len(),
        encode_records(pairs).subrange(
            i * record_length(rx_len),
            i * record_length(rx_len) + record_length(rx_len),
        ) == encode_record(pairs[i]),
    decreases pairs.len(),
{
    let length = record_length(rx_len);
    let front = pairs.drop_last();
    assert forall|k: int| 0 <= k < front.len() implies pair_fits(#[trigger] front[k], rx_len) by {
        assert(front[k] == pairs[k]);
    }
    lemma_records_length(front, rx_len);
    lemma_records_length(pairs, rx_len);
    lemma_record_length(pairs.last(), rx_len);
    assert((pairs.len() - 1) * length + length == pairs.len() * length) by (nonlinear_arith);
    if i == pairs.len() - 1 {
        assert(encode_records(pairs).subrange(i * length, i * length + length) =~= encode_record(
            pairs[i],
        ));
    } else {
        lemma_record_at(front, rx_len, i);
        assert(front[i] == pairs[i]);
        assert(i * length + length <= front.len() * length) by (nonlinear_arith)
            requires
                i < front.len(),
                length >= 0,
        ;
        assert(encode_records(pairs).subrange(i * length, i * length + length) =~= encode_records(
            front,
        ).subrange(i * length, i * length + length));
    }
}

/// Reading the records of pairs gives the pairs back.
proof fn lemma_decode_records(pairs: Seq<Pair<InputView, InputView>>, rx_len: u8)
    requires
        forall|k: int| 0 <= k < pairs.len() ==> pair_fits(#[trigger] pairs[k], rx_len),
    ensures
        decode_records(encode_records(pairs), rx_len) == pairs,
{
    let length = record_length(rx_len);
    let bytes = encode_records(pairs);
    lemma_records_length(pairs, rx_len);
    assert(bytes.len() / length as nat == pairs.len()) by {
        vstd::arithmetic::div_mod::lemma_div_multiples_vanish(pairs.len() as int, length);
        assert(length * pairs.len() == pairs.len() * length) by (nonlinear_arith);
    }
    let read = decode_records(bytes, rx_len);
    assert(read.len() == pairs.len());
    assert forall|i: int| 0 <= i < pairs.len() implies read[i] == pairs[i] by {
        lemma_record_at(pairs, rx_len, i);
        lemma_decode_record(pairs[i], rx_len);
    }
    assert(read =~= pairs);
}

/// Reading what was written gives the replay back: for every replay whose
/// savestate fits its length field, whose packets have the length asked
/// for, and whose pairs carry one set of ticks each.
pub proof fn lemma_decode_encode(replay: ReplayView, rx_len: u8)
    requires
        replay_fits(replay, rx_len),
    ensures
        decode_spec(encode_spec(replay), rx_len) == Ok::<ReplayView, DecodeError>(replay),
{
    vstd::bytes::lemma_auto_spec_u32_to_from_le_bytes();
    let header = encode_header(replay);
    let records = encode_records(replay.input_pairs);
    let bytes = encode_spec(replay);
    let state_length = replay.local_state.len() as u32;
    assert(header.len() == HEADER_LENGTH + replay.local_state.len());
    assert(bytes.subrange(0, 4) =~= magic());
    assert(bytes[4] == VERSION);
    assert(bytes.subrange(8, 12) =~= spec_u32_to_le_bytes(state_length));
    assert(bytes.subrange(HEADER_LENGTH as int, HEADER_LENGTH + state_length)
        =~= replay.local_state);
    assert(bytes.skip(HEADER_LENGTH + state_length) =~= records);
    lemma_decode_records(replay.input_pairs, rx_len);
}

/// Seen from the other side and then from the other side again, a replay
/// is what it was.
pub proof fn lemma_into_remote_twice(replay: ReplayView)
    requires
        replay.local_player_index <= 1,
    ensures
        into_remote_spec(into_remote_spec(replay)) == replay,
        into_remote_spec(replay).local_player_index <= 1,
{
    assert(into_remote_spec(into_remote_spec(replay)).input_pairs =~= replay.input_pairs);
}

/// A replay that can be written and read back can also be so when it is
/// seen from the other side.
pub proof fn lemma_into_remote_fits(replay: ReplayView, rx_len: u8)
    requires
        replay_fits(replay, rx_len),
    ensures
        replay_fits(into_remote_spec(replay), rx_len),
{
    let remote = into_remote_spec(replay);
    assert forall|i: int| 0 <= i < remote.input_pairs.len() implies pair_fits(
        #[trigger] remote.input_pairs[i],
        rx_len,
    ) by {
        assert(pair_fits(replay.input_pairs[i], rx_len));
    }
}

/// The hash of a replay does not depend on the side it is seen from:
/// exclusive or does not care about the order of the packets.
pub proof fn lemma_hash_input_symmetric(pairs: Seq<Pair<InputView, InputView>>)
    ensures
        hash_input(pairs.map_values(|pair: Pair<InputView, InputView>| swapped(pair)))
            == hash_input(pairs),
    decreases pairs.len(),
{
    let other = pairs.map_values(|pair: Pair<InputView, InputView>| swapped(pair));
    if pairs.len() > 0 {
        lemma_hash_input_symmetric(pairs.drop_last());
        assert(other.drop_last() =~= pairs.drop_last().map_values(
            |pair: Pair<InputView, InputView>| swapped(pair),
        ));
        let last = pairs.last();
        assert(other.last() == swapped(last));
        assert(xor_packets(last.remote.rx, last.local.rx) =~= xor_packets(
            last.local.rx,
            last.remote.rx,
        )) by {
            assert forall|i: int| 0 <= i < last.local.rx.len() && i < last.remote.rx.len() implies 
                last.remote.rx[i] ^ last.local.rx[i] == last.local.rx[i] ^ last.remote.rx[i] by {
                let a = last.remote.rx[i];
                let b = last.local.rx[i];
                assert(a ^ b == b ^ a) by (bit_vector);
            }
        }
    }
}

/// A replay and the same replay seen from the other side have the same
/// hash.
pub proof fn lemma_hash_symmetric(replay: ReplayView)
    ensures
        replay_hash_spec(into_remote_spec(replay)) == replay_hash_spec(replay),
{
    lemma_hash_input_symmetric(replay.input_pairs);
}

} // verus!
