use tango_netplay::input::{Input, Pair};
use tango_netplay::replay::{DecodeError, EncodeError, Replay, VERSION};

fn input(local_tick: u32, remote_tick: u32, joyflags: u16, fill: u8) -> Input {
    Input { local_tick, remote_tick, joyflags, rx: vec![fill; 16] }
}

fn sample() -> Replay {
    Replay {
        is_complete: true,
        local_player_index: 1,
        local_state: vec![9, 8, 7],
        input_pairs: vec![
            Pair { local: input(5, 3, 0x0001, 0xaa), remote: input(5, 3, 0x0200, 0x0f) },
            Pair { local: input(6, 4, 0x0000, 0x01), remote: input(6, 4, 0x03ff, 0x10) },
        ],
    }
}

fn same(a: &Replay, b: &Replay) -> bool {
    a.is_complete == b.is_complete
        && a.local_player_index == b.local_player_index
        && a.local_state == b.local_state
        && a.input_pairs.len() == b.input_pairs.len()
        && a.input_pairs.iter().zip(b.input_pairs.iter()).all(|(x, y)| {
            x.local.local_tick == y.local.local_tick
                && x.local.remote_tick == y.local.remote_tick
                && x.local.joyflags == y.local.joyflags
                && x.local.rx == y.local.rx
                && x.remote.local_tick == y.remote.local_tick
                && x.remote.remote_tick == y.remote.remote_tick
                && x.remote.joyflags == y.remote.joyflags
                && x.remote.rx == y.remote.rx
        })
}

#[test]
fn encode_writes_the_header_and_records() {
    let replay = Replay {
        is_complete: false,
        local_player_index: 0,
        local_state: vec![0xde, 0xad],
        input_pairs: vec![Pair {
            local: Input { local_tick: 0x01020304, remote_tick: 7, joyflags: 0x0102, rx: vec![1, 2] },
            remote: Input { local_tick: 0x01020304, remote_tick: 7, joyflags: 0x0304, rx: vec![3, 4] },
        }],
    };
    let bytes = replay.encode(2).unwrap();
    let mut expected = vec![b'T', b'O', b'O', b'T', VERSION, 0, 0, 0, 2, 0, 0, 0, 0xde, 0xad];
    expected.extend_from_slice(&[4, 3, 2, 1, 7, 0, 0, 0, 2, 1, 4, 3, 1, 2, 3, 4]);
    assert_eq!(bytes, expected);
}

#[test]
fn decode_gives_back_what_encode_wrote() {
    let replay = sample();
    let bytes = replay.encode(16).unwrap();
    let read = Replay::decode(&bytes, 16).unwrap();
    assert!(same(&read, &replay));
}

#[test]
fn decode_of_an_empty_replay() {
    let replay = Replay {
        is_complete: false,
        local_player_index: 0,
        local_state: vec![],
        input_pairs: vec![],
    };
    let bytes = replay.encode(16).unwrap();
    assert_eq!(bytes.len(), 12);
    let read = Replay::decode(&bytes, 16).unwrap();
    assert!(same(&read, &replay));
}

#[test]
fn decode_passes_over_a_record_that_is_cut_off() {
    let replay = sample();
    let mut bytes = replay.encode(16).unwrap();
    bytes.truncate(bytes.len() - 1);
    let read = Replay::decode(&bytes, 16).unwrap();
    assert_eq!(read.input_pairs.len(), 1);
    assert_eq!(read.input_pairs[0].local.local_tick, 5);
    assert_eq!(read.input_pairs[0].remote.joyflags, 0x0200);
}

#[test]
fn decode_refuses_a_short_header() {
    assert_eq!(Replay::decode(b"TOOT", 16).unwrap_err(), DecodeError::TruncatedHeader);
    assert_eq!(Replay::decode(&[], 16).unwrap_err(), DecodeError::TruncatedHeader);
}

#[test]
fn decode_refuses_another_magic() {
    let mut bytes = sample().encode(16).unwrap();
    bytes[3] = b'X';
    assert_eq!(Replay::decode(&bytes, 16).unwrap_err(), DecodeError::BadMagic);
}

#[test]
fn decode_refuses_another_version() {
    let mut bytes = sample().encode(16).unwrap();
    bytes[4] = VERSION.wrapping_add(1);
    assert_eq!(
        Replay::decode(&bytes, 16).unwrap_err(),
        DecodeError::BadVersion { found: VERSION.wrapping_add(1) }
    );
}

#[test]
fn decode_refuses_a_state_that_is_cut_off() {
    let bytes = vec![b'T', b'O', b'O', b'T', VERSION, 1, 0, 0, 5, 0, 0, 0, 1, 2, 3, 4];
    assert_eq!(Replay::decode(&bytes, 16).unwrap_err(), DecodeError::TruncatedState);
}

#[test]
fn decode_reads_the_flags() {
    let bytes = vec![b'T', b'O', b'O', b'T', VERSION, 1, 1, 0, 1, 0, 0, 0, 0x77];
    let read = Replay::decode(&bytes, 16).unwrap();
    assert!(read.is_complete);
    assert_eq!(read.local_player_index, 1);
    assert_eq!(read.local_state, vec![0x77]);
    assert!(read.input_pairs.is_empty());
}

#[test]
fn encode_refuses_a_packet_of_another_length() {
    let mut replay = sample();
    replay.input_pairs[1].remote.rx = vec![0; 15];
    assert_eq!(replay.encode(16).unwrap_err(), EncodeError::PacketLength { index: 1 });
}

#[test]
fn into_remote_swaps_the_sides() {
    let remote = sample().into_remote().unwrap();
    assert_eq!(remote.local_player_index, 0);
    assert!(remote.is_complete);
    assert_eq!(remote.local_state, vec![9, 8, 7]);
    assert_eq!(remote.input_pairs[0].local.joyflags, 0x0200);
    assert_eq!(remote.input_pairs[0].remote.joyflags, 0x0001);
    assert_eq!(remote.input_pairs[0].local.rx, vec![0x0f; 16]);
    assert_eq!(remote.input_pairs[1].remote.rx, vec![0x01; 16]);
}

#[test]
fn into_remote_twice_is_the_replay() {
    let twice = sample().into_remote().unwrap().into_remote().unwrap();
    assert!(same(&twice, &sample()));
}

#[test]
fn into_remote_needs_one_of_two_players() {
    let mut replay = sample();
    replay.local_player_index = 2;
    assert!(replay.into_remote().is_none());
}

#[test]
fn hash_input_is_the_xor_of_the_packets() {
    let replay = sample();
    let mut expected = vec![0xaa ^ 0x0f; 16];
    expected.extend_from_slice(&[0x01 ^ 0x10; 16]);
    assert_eq!(replay.hash_input(), expected);
}

#[test]
fn hash_input_goes_as_far_as_the_shorter_packet() {
    let mut replay = sample();
    replay.input_pairs.truncate(1);
    replay.input_pairs[0].remote.rx = vec![0xff, 0x00];
    assert_eq!(replay.hash_input(), vec![0x55, 0xaa]);
}

#[test]
fn hash_of_no_pairs_is_the_digest_of_nothing() {
    let replay = Replay {
        is_complete: true,
        local_player_index: 0,
        local_state: vec![1, 2, 3],
        input_pairs: vec![],
    };
    assert_eq!(
        replay.hash(),
        "a7ffc6f8bf1ed76651c14756a061d662f580ff4de43b49fa82d80a4b80f8434a"
    );
}

#[test]
fn hash_is_the_same_from_both_sides() {
    let local = sample().hash();
    let remote = sample().into_remote().unwrap().hash();
    assert_eq!(local, remote);
    assert_eq!(local.len(), 64);
    assert!(local.chars().all(|c| c.is_ascii_digit() || ('a'..='f').contains(&c)));
    let mut other = sample();
    other.input_pairs[0].local.rx[0] ^= 1;
    assert_ne!(other.hash(), local);
}
