use explore_tui::components::{
    decode, DecodeError, Game, Inventory, Record, RecordKind, Tile,
};
use explore_tui::felt::Felt;

fn word(v: u64) -> Felt {
    Felt::from_u64(v)
}

fn sample_game() -> Game {
    let mut seed = [0u8; 32];
    for (i, b) in seed.iter_mut().enumerate() {
        *b = (i * 7 + 3) as u8;
    }
    Game {
        name: "Pragma Hackathon".to_string(),
        status: true,
        score: 1234,
        seed,
        commited_block_timestamp: 1_700_000_000,
        x: 4,
        y: 7,
        level: 3,
        size: 10,
    }
}

fn sample_tile() -> Tile {
    Tile { explored: true, mine: false, danger: true, shield: false, kit: true, clue: 3, x: 2, y: 5 }
}

fn assert_same_game(a: &Game, b: &Game) {
    assert_eq!(a.name, b.name);
    assert_eq!(a.status, b.status);
    assert_eq!(a.score, b.score);
    assert_eq!(a.seed, b.seed);
    assert_eq!(a.commited_block_timestamp, b.commited_block_timestamp);
    assert_eq!(a.x, b.x);
    assert_eq!(a.y, b.y);
    assert_eq!(a.level, b.level);
    assert_eq!(a.size, b.size);
}

#[test]
fn felt_from_u64_is_big_endian() {
    let f = Felt::from_u64(0x0102);
    let mut expected = [0u8; 32];
    expected[30] = 1;
    expected[31] = 2;
    assert_eq!(f.bytes, expected);
    let max = Felt::from_u64(u64::MAX);
    assert!(max.bytes[..24].iter().all(|b| *b == 0));
    assert!(max.bytes[24..].iter().all(|b| *b == 0xff));
}

#[test]
fn felt_reads_within_bound() {
    assert_eq!(word(255).read_bounded(0x100), Some(255));
    assert_eq!(word(256).read_bounded(0x100), None);
    assert_eq!(word(u64::MAX).read_bounded(1u128 << 64), Some(u64::MAX));
    let mut big = [0u8; 32];
    big[23] = 1;
    assert_eq!(Felt { bytes: big }.read_bounded(1u128 << 64), None);
}

#[test]
fn felt_text_round_trip() {
    let f = Felt::from_text("Pragma Hackathon");
    assert_eq!(f.bytes[..16], [0u8; 16]);
    assert_eq!(&f.bytes[16..], b"Pragma Hackathon");
    assert_eq!(f.to_text(), Some("Pragma Hackathon".to_string()));
    assert_eq!(Felt::from_u64(0).to_text(), Some(String::new()));
}

#[test]
fn game_round_trip() {
    let g = sample_game();
    let raw = g.encode();
    assert_eq!(raw.len(), 9);
    let back = Game::decode(&raw).unwrap();
    assert_same_game(&back, &g);
}

#[test]
fn tile_round_trip() {
    let t = sample_tile();
    let raw = t.encode();
    assert_eq!(raw.len(), 8);
    assert_eq!(Tile::decode(&raw), Ok(t));
}

#[test]
fn inventory_round_trip() {
    let inv = Inventory { shield: true, kits: 65535 };
    assert_eq!(Inventory::decode(&inv.encode()), Ok(inv));
}

#[test]
fn record_round_trip_every_kind() {
    let records = vec![
        Record::Game(sample_game()),
        Record::Tile(sample_tile()),
        Record::Inventory(Inventory { shield: false, kits: 2 }),
    ];
    for rec in records {
        let raw = rec.encode();
        match (&rec, decode(kind(&rec), &raw).unwrap()) {
            (Record::Game(a), Record::Game(b)) => assert_same_game(a, &b),
            (Record::Tile(a), Record::Tile(b)) => assert_eq!(*a, b),
            (Record::Inventory(a), Record::Inventory(b)) => assert_eq!(*a, b),
            _ => panic!("decoded to another kind"),
        }
    }
}

fn kind(rec: &Record) -> RecordKind {
    match rec {
        Record::Game(_) => RecordKind::Game,
        Record::Tile(_) => RecordKind::Tile,
        Record::Inventory(_) => RecordKind::Inventory,
    }
}

#[test]
fn arity_mismatch_for_every_kind() {
    for (k, arity) in [(RecordKind::Game, 9usize), (RecordKind::Tile, 8), (RecordKind::Inventory, 2)] {
        for len in [0usize, arity - 1, arity + 1, 20] {
            let raw: Vec<Felt> = (0..len).map(|_| word(0)).collect();
            match decode(k, &raw) {
                Err(DecodeError::ArityMismatch { expected, found }) => {
                    assert_eq!(expected, arity);
                    assert_eq!(found, len);
                }
                _ => panic!("expected an arity mismatch"),
            }
        }
    }
}

#[test]
fn flag_zero_is_false_nonzero_is_true() {
    for (v, expected) in [(0u64, false), (1, true), (255, true), (1 << 40, true)] {
        let mut raw = sample_tile().encode();
        raw[0] = word(v);
        assert_eq!(Tile::decode(&raw).unwrap().explored, expected);
        let mut inv = vec![word(v), word(1)];
        assert_eq!(Inventory::decode(&inv).unwrap().shield, expected);
        inv[0] = word(0);
        assert!(!Inventory::decode(&inv).unwrap().shield);
    }
    let mut high = [0u8; 32];
    high[0] = 1;
    let mut raw = sample_game().encode();
    raw[1] = Felt { bytes: high };
    assert!(Game::decode(&raw).unwrap().status);
    raw[1] = word(0);
    assert!(!Game::decode(&raw).unwrap().status);
}

#[test]
fn tile_field_overflow() {
    let mut raw = sample_tile().encode();
    raw[5] = word(10);
    assert_eq!(Tile::decode(&raw), Err(DecodeError::FieldOverflow(5)));
    raw[5] = word(9);
    assert_eq!(Tile::decode(&raw).unwrap().clue, 9);
    raw[6] = word(70_000);
    assert_eq!(Tile::decode(&raw), Err(DecodeError::FieldOverflow(6)));
    raw[6] = word(65_535);
    raw[7] = word(65_536);
    assert_eq!(Tile::decode(&raw), Err(DecodeError::FieldOverflow(7)));
}

#[test]
fn game_field_overflow_first_failure_reported() {
    let mut raw = sample_game().encode();
    let mut big = [0u8; 32];
    big[23] = 1;
    raw[2] = Felt { bytes: big };
    raw[7] = word(256);
    assert_eq!(Game::decode(&raw).unwrap_err(), DecodeError::FieldOverflow(2));
    raw[2] = word(5);
    assert_eq!(Game::decode(&raw).unwrap_err(), DecodeError::FieldOverflow(7));
    raw[7] = word(255);
    raw[8] = word(65_536);
    assert_eq!(Game::decode(&raw).unwrap_err(), DecodeError::FieldOverflow(8));
}

#[test]
fn game_invalid_utf8_name() {
    let mut raw = sample_game().encode();
    let mut bad = [0u8; 32];
    bad[30] = 0xff;
    bad[31] = 0xfe;
    raw[0] = Felt { bytes: bad };
    assert_eq!(Game::decode(&raw).unwrap_err(), DecodeError::InvalidUtf8);
}

#[test]
fn inventory_field_overflow() {
    let raw = vec![word(1), word(65_536)];
    assert_eq!(Inventory::decode(&raw), Err(DecodeError::FieldOverflow(1)));
}

#[test]
fn try_from_matches_decode() {
    let raw = sample_tile().encode();
    assert_eq!(Tile::try_from(raw.clone()), Tile::decode(&raw));
    let inv = Inventory { shield: true, kits: 7 };
    assert_eq!(Inventory::try_from(inv.encode()), Ok(inv));
    let g = Game::try_from(sample_game().encode()).unwrap();
    assert_same_game(&g, &sample_game());
    assert_eq!(Tile::try_from(vec![]), Err(DecodeError::ArityMismatch { expected: 8, found: 0 }));
}
