//! Typed records decoded from the raw words of the remote components.
//!
//! Every record kind has a fixed arity and a declared width per field. A raw
//! record decodes only when its length is exactly that arity and every field
//! fits its width; fields are checked in order and the first failure is
//! reported. A flag word is `true` exactly when it is nonzero.
use crate::felt::{lemma_text_word_span, text_fits, text_span, text_word, Felt};
use vstd::prelude::*;
use vstd::utf8::{decode_utf8, encode_utf8, encode_utf8_decode_utf8, encode_utf8_valid_utf8, valid_utf8};

verus! {

/// Number of words in a raw game record.
pub const GAME_ARITY: usize = 9;

/// Number of words in a raw tile record.
pub const TILE_ARITY: usize = 8;

/// Number of words in a raw inventory record.
pub const INVENTORY_ARITY: usize = 2;

/// Largest clue a tile can carry.
pub const MAX_CLUE: u8 = 9;

/// Exclusive bound of an 8-bit field.
pub const U8_BOUND: u128 = 0x100;

/// Exclusive bound of a 16-bit field.
pub const U16_BOUND: u128 = 0x1_0000;

/// Exclusive bound of a 64-bit field.
pub const U64_BOUND: u128 = 0x1_0000_0000_0000_0000;

/// Why a raw record could not be decoded.
#[derive(Clone, Copy, Debug, PartialEq, Eq, Structural)]
pub enum DecodeError {
    /// The record does not have the number of words its kind declares.
    ArityMismatch { expected: usize, found: usize },
    /// The word at this index does not fit the field's declared width or range.
    FieldOverflow(usize),
    /// The text field's bytes are not valid UTF-8.
    InvalidUtf8,
}

/// The state of one game, one per account.
#[derive(Clone, Debug, Default)]
pub struct Game {
    pub name: String,
    /// `true` while the game is alive.
    pub status: bool,
    pub score: u64,
    pub seed: [u8; 32],
    pub commited_block_timestamp: u64,
    pub x: u16,
    pub y: u16,
    pub level: u8,
    /// The board is `size` by `size` cells. The remote keeps `size` positive and the
    /// player on the board while the game is alive; decoding does not rely on it.
    pub size: u16,
}

/// The state of one fetched cell of the board.
#[derive(Clone, Copy, Debug, PartialEq, Eq, Structural)]
pub struct Tile {
    pub explored: bool,
    pub mine: bool,
    pub danger: bool,
    pub shield: bool,
    pub kit: bool,
    /// Number of hazards around the cell, meaningful once explored.
    pub clue: u8,
    pub x: u16,
    pub y: u16,
}

/// What the player carries.
#[derive(Clone, Copy, Debug, Default, PartialEq, Eq, Structural)]
pub struct Inventory {
    pub shield: bool,
    pub kits: u16,
}

/// The word that holds a flag.
pub open spec fn flag_value(b: bool) -> nat {
    if b {
        1
    } else {
        0
    }
}

impl Tile {
    /// A tile's clue lies between zero and nine.
    pub open spec fn wf(self) -> bool {
        self.clue <= MAX_CLUE
    }
}

/// The error that decoding `raw` as a game gives, if any.
pub open spec fn game_decode_error(raw: Seq<Felt>) -> Option<DecodeError> {
    if raw.len() != GAME_ARITY {
        Some(DecodeError::ArityMismatch { expected: GAME_ARITY, found: raw.len() as usize })
    } else if !valid_utf8(text_span(raw[0].bytes@)) {
        Some(DecodeError::InvalidUtf8)
    } else if raw[2].value() >= U64_BOUND {
        Some(DecodeError::FieldOverflow(2))
    } else if raw[4].value() >= U64_BOUND {
        Some(DecodeError::FieldOverflow(4))
    } else if raw[5].value() >= U16_BOUND {
        Some(DecodeError::FieldOverflow(5))
    } else if raw[6].value() >= U16_BOUND {
        Some(DecodeError::FieldOverflow(6))
    } else if raw[7].value() >= U8_BOUND {
        Some(DecodeError::FieldOverflow(7))
    } else if raw[8].value() >= U16_BOUND {
        Some(DecodeError::FieldOverflow(8))
    } else {
        None
    }
}

/// `g` is the game that a well-formed raw game record `raw` holds.
pub open spec fn decodes_to_game(raw: Seq<Felt>, g: Game) -> bool {
    &&& g.name@ == decode_utf8(text_span(raw[0].bytes@))
    &&& g.status == (raw[1].value() != 0)
    &&& g.score as nat == raw[2].value()
    &&& g.seed@ == raw[3].bytes@
    &&& g.commited_block_timestamp as nat == raw[4].value()
    &&& g.x as nat == raw[5].value()
    &&& g.y as nat == raw[6].value()
    &&& g.level as nat == raw[7].value()
    &&& g.size as nat == raw[8].value()
}

/// `raw` is the wire form of `g`.
pub open spec fn game_encodes(g: Game, raw: Seq<Felt>) -> bool {
    &&& raw.len() == GAME_ARITY
    &&& raw[0].bytes@ == text_word(g.name@)
    &&& raw[1].value() == flag_value(g.status)
    &&& raw[2].value() == g.score as nat
    &&& raw[3].bytes@ == g.seed@
    &&& raw[4].value() == g.commited_block_timestamp as nat
    &&& raw[5].value() == g.x as nat
    &&& raw[6].value() == g.y as nat
    &&& raw[7].value() == g.level as nat
    &&& raw[8].value() == g.size as nat
}

/// Decoding `raw` as a tile.
pub open spec fn tile_decode(raw: Seq<Felt>) -> Result<Tile, DecodeError> {
    if raw.len() != TILE_ARITY {
        Err(DecodeError::ArityMismatch { expected: TILE_ARITY, found: raw.len() as usize })
    } else if raw[5].value() > MAX_CLUE as nat {
        Err(DecodeError::FieldOverflow(5))
    } else if raw[6].value() >= U16_BOUND {
        Err(DecodeError::FieldOverflow(6))
    } else if raw[7].value() >= U16_BOUND {
        Err(DecodeError::FieldOverflow(7))
    } else {
        Ok(
            Tile {
                explored: raw[0].value() != 0,
                mine: raw[1].value() != 0,
                danger: raw[2].value() != 0,
                shield: raw[3].value() != 0,
                kit: raw[4].value() != 0,
                clue: raw[5].value() as u8,
                x: raw[6].value() as u16,
                y: raw[7].value() as u16,
            },
        )
    }
}

/// `raw` is the wire form of `t`.
pub open spec fn tile_encodes(t: Tile, raw: Seq<Felt>) -> bool {
    &&& raw.len() == TILE_ARITY
    &&& raw[0].value() == flag_value(t.explored)
    &&& raw[1].value() == flag_value(t.mine)
    &&& raw[2].value() == flag_value(t.danger)
    &&& raw[3].value() == flag_value(t.shield)
    &&& raw[4].value() == flag_value(t.kit)
    &&& raw[5].value() == t.clue as nat
    &&& raw[6].value() == t.x as nat
    &&& raw[7].value() == t.y as nat
}

/// Decoding `raw` as an inventory.
pub open spec fn inventory_decode(raw: Seq<Felt>) -> Result<Inventory, DecodeError> {
    if raw.len() != INVENTORY_ARITY {
        Err(DecodeError::ArityMismatch { expected: INVENTORY_ARITY, found: raw.len() as usize })
    } else if raw[1].value() >= U16_BOUND {
        Err(DecodeError::FieldOverflow(1))
    } else {
        Ok(Inventory { shield: raw[0].value() != 0, kits: raw[1].value() as u16 })
    }
}

/// `raw` is the wire form of `inv`.
pub open spec fn inventory_encodes(inv: Inventory, raw: Seq<Felt>) -> bool {
    &&& raw.len() == INVENTORY_ARITY
    &&& raw[0].value() == flag_value(inv.shield)
    &&& raw[1].value() == inv.kits as nat
}

/// Reads the word at `index` as an integer below `bound`.
fn read_field(raw: &Vec<Felt>, index: usize, bound: u128) -> (r: Result<u64, DecodeError>)
    requires
        index < raw@.len(),
        0 < bound <= U64_BOUND,
    ensures
        r == (if raw@[index as int].value() < bound {
            Ok::<u64, DecodeError>(raw@[index as int].value() as u64)
        } else {
            Err::<u64, DecodeError>(DecodeError::FieldOverflow(index))
        }),
{
    match raw[index].read_bounded(bound) {
        Some(v) => Ok(v),
        None => Err(DecodeError::FieldOverflow(index)),
    }
}

impl Game {
    /// Decodes a raw game record.
    pub fn decode(raw: &Vec<Felt>) -> (r: Result<Game, DecodeError>)
        ensures
            match r {
                Ok(g) => game_decode_error(raw@) is None && decodes_to_game(raw@, g),
                Err(e) => game_decode_error(raw@) == Some(e),
            },
    {
        if raw.len() != GAME_ARITY {
            return Err(DecodeError::ArityMismatch { expected: GAME_ARITY, found: raw.len() });
        }
        let name = match raw[0].to_text() {
            Some(t) => t,
            None => return Err(DecodeError::InvalidUtf8),
        };
        let status = raw[1].is_nonzero();
        let score = read_field(raw, 2, U64_BOUND)?;
        let seed = raw[3].bytes;
        let commited_block_timestamp = read_field(raw, 4, U64_BOUND)?;
        let x = read_field(raw, 5, U16_BOUND)? as u16;
        let y = read_field(raw, 6, U16_BOUND)? as u16;
        let level = read_field(raw, 7, U8_BOUND)? as u8;
        let size = read_field(raw, 8, U16_BOUND)? as u16;
        Ok(Game { name, status, score, seed, commited_block_timestamp, x, y, level, size })
    }

    /// The wire form of the game.
    pub fn encode(&self) -> (r: Vec<Felt>)
        requires
            encode_utf8(self.name@).len() <= 32,
        ensures
            game_encodes(*self, r@),
    {
        let mut r: Vec<Felt> = Vec::new();
        r.push(Felt::from_text(self.name.as_str()));
        r.push(Felt::from_bool(self.status));
        r.push(Felt::from_u64(self.score));
        r.push(Felt { bytes: self.seed });
        r.push(Felt::from_u64(self.commited_block_timestamp));
        r.push(Felt::from_u64(self.x as u64));
        r.push(Felt::from_u64(self.y as u64));
        r.push(Felt::from_u64(self.level as u64));
        r.push(Felt::from_u64(self.size as u64));
        r
    }
}

impl Tile {
    /// Decodes a raw tile record.
    pub fn decode(raw: &Vec<Felt>) -> (r: Result<Tile, DecodeError>)
        ensures
            r == tile_decode(raw@),
            r matches Ok(t) ==> t.wf(),
    {
        if raw.len() != TILE_ARITY {
            return Err(DecodeError::ArityMismatch { expected: TILE_ARITY, found: raw.len() });
        }
        let explored = raw[0].is_nonzero();
        let mine = raw[1].is_nonzero();
        let danger = raw[2].is_nonzero();
        let shield = raw[3].is_nonzero();
        let kit = raw[4].is_nonzero();
        let clue = read_field(raw, 5, MAX_CLUE as u128 + 1)? as u8;
        let x = read_field(raw, 6, U16_BOUND)? as u16;
        let y = read_field(raw, 7, U16_BOUND)? as u16;
        Ok(Tile { explored, mine, danger, shield, kit, clue, x, y })
    }

    /// The wire form of the tile.
    pub fn encode(&self) -> (r: Vec<Felt>)
        ensures
            tile_encodes(*self, r@),
    {
        let mut r: Vec<Felt> = Vec::new();
        r.push(Felt::from_bool(self.explored));
        r.push(Felt::from_bool(self.mine));
        r.push(Felt::from_bool(self.danger));
        r.push(Felt::from_bool(self.shield));
        r.push(Felt::from_bool(self.kit));
        r.push(Felt::from_u64(self.clue as u64));
        r.push(Felt::from_u64(self.x as u64));
        r.push(Felt::from_u64(self.y as u64));
        r
    }
}

impl Inventory {
    /// Decodes a raw inventory record.
    pub fn decode(raw: &Vec<Felt>) -> (r: Result<Inventory, DecodeError>)
        ensures
            r == inventory_decode(raw@),
    {
        if raw.len() != INVENTORY_ARITY {
            return Err(
                DecodeError::ArityMismatch { expected: INVENTORY_ARITY, found: raw.len() },
            );
        }
        let shield = raw[0].is_nonzero();
        let kits = read_field(raw, 1, U16_BOUND)? as u16;
        Ok(Inventory { shield, kits })
    }

    /// The wire form of the inventory.
    pub fn encode(&self) -> (r: Vec<Felt>)
        ensures
            inventory_encodes(*self, r@),
    {
        let mut r: Vec<Felt> = Vec::new();
        r.push(Felt::from_bool(self.shield));
        r.push(Felt::from_u64(self.kits as u64));
        r
    }
}

impl TryFrom<Vec<Felt>> for Game {
    type Error = DecodeError;

    fn try_from(value: Vec<Felt>) -> (r: Result<Game, DecodeError>)
        ensures
            match r {
                Ok(g) => game_decode_error(value@) is None && decodes_to_game(value@, g),
                Err(e) => game_decode_error(value@) == Some(e),
            },
    {
        Game::decode(&value)
    }
}

impl vstd::std_specs::convert::TryFromSpecImpl<Vec<Felt>> for Game {
    open spec fn obeys_try_from_spec() -> bool {
        false
    }

    open spec fn try_from_spec(v: Vec<Felt>) -> Result<Game, DecodeError> {
        arbitrary()
    }
}

impl TryFrom<Vec<Felt>> for Tile {
    type Error = DecodeError;

    fn try_from(value: Vec<Felt>) -> (r: Result<Tile, DecodeError>)
        ensures
            r == tile_decode(value@),
    {
        Tile::decode(&value)
    }
}

impl vstd::std_specs::convert::TryFromSpecImpl<Vec<Felt>> for Tile {
    open spec fn obeys_try_from_spec() -> bool {
        true
    }

    open spec fn try_from_spec(v: Vec<Felt>) -> Result<Tile, DecodeError> {
        tile_decode(v@)
    }
}

impl TryFrom<Vec<Felt>> for Inventory {
    type Error = DecodeError;

    fn try_from(value: Vec<Felt>) -> (r: Result<Inventory, DecodeError>)
        ensures
            r == inventory_decode(value@),
    {
        Inventory::decode(&value)
    }
}

impl vstd::std_specs::convert::TryFromSpecImpl<Vec<Felt>> for Inventory {
    open spec fn obeys_try_from_spec() -> bool {
        true
    }

    open spec fn try_from_spec(v: Vec<Felt>) -> Result<Inventory, DecodeError> {
        inventory_decode(v@)
    }
}

/// The kinds of remote component this client reads.
#[derive(Clone, Copy, Debug, PartialEq, Eq, Structural)]
pub enum RecordKind {
    Game,
    Tile,
    Inventory,
}

/// A decoded record of any kind.
#[derive(Clone, Debug)]
pub enum Record {
    Game(Game),
    Tile(Tile),
    Inventory(Inventory),
}

/// Number of words that a raw record of `kind` has.
pub open spec fn arity(kind: RecordKind) -> nat {
    match kind {
        RecordKind::Game => GAME_ARITY as nat,
        RecordKind::Tile => TILE_ARITY as nat,
        RecordKind::Inventory => INVENTORY_ARITY as nat,
    }
}

/// The kind of a record.
pub open spec fn kind_of(rec: Record) -> RecordKind {
    match rec {
        Record::Game(_) => RecordKind::Game,
        Record::Tile(_) => RecordKind::Tile,
        Record::Inventory(_) => RecordKind::Inventory,
    }
}

/// The error that decoding `raw` as a record of `kind` gives, if any.
pub open spec fn decode_error(kind: RecordKind, raw: Seq<Felt>) -> Option<DecodeError> {
    match kind {
        RecordKind::Game => game_decode_error(raw),
        RecordKind::Tile => match tile_decode(raw) {
            Ok(_) => None,
            Err(e) => Some(e),
        },
        RecordKind::Inventory => match inventory_decode(raw) {
            Ok(_) => None,
            Err(e) => Some(e),
        },
    }
}

/// `rec` is the record of `kind` that a well-formed raw record `raw` holds.
pub open spec fn decodes_to(kind: RecordKind, raw: Seq<Felt>, rec: Record) -> bool {
    match rec {
        Record::Game(g) => kind == RecordKind::Game && decodes_to_game(raw, g),
        Record::Tile(t) => kind == RecordKind::Tile && tile_decode(raw) == Ok::<Tile, DecodeError>(t),
        Record::Inventory(i) => kind == RecordKind::Inventory && inventory_decode(raw) == Ok::<
            Inventory,
            DecodeError,
        >(i),
    }
}

/// `raw` is the wire form of `rec`.
pub open spec fn encodes(rec: Record, raw: Seq<Felt>) -> bool {
    match rec {
        Record::Game(g) => game_encodes(g, raw),
        Record::Tile(t) => tile_encodes(t, raw),
        Record::Inventory(i) => inventory_encodes(i, raw),
    }
}

/// A record that its wire form can hold: a game's name fits one word, a tile's clue is
/// at most nine.
pub open spec fn record_valid(rec: Record) -> bool {
    match rec {
        Record::Game(g) => text_fits(g.name@),
        Record::Tile(t) => t.wf(),
        Record::Inventory(_) => true,
    }
}

/// Decodes a raw record of the given kind.
pub fn decode(kind: RecordKind, raw: &Vec<Felt>) -> (r: Result<Record, DecodeError>)
    ensures
        match r {
            Ok(rec) => decode_error(kind, raw@) is None && decodes_to(kind, raw@, rec),
            Err(e) => decode_error(kind, raw@) == Some(e),
        },
{
    match kind {
        RecordKind::Game => match Game::decode(raw) {
            Ok(g) => Ok(Record::Game(g)),
            Err(e) => Err(e),
        },
        RecordKind::Tile => match Tile::decode(raw) {
            Ok(t) => Ok(Record::Tile(t)),
            Err(e) => Err(e),
        },
        RecordKind::Inventory => match Inventory::decode(raw) {
            Ok(i) => Ok(Record::Inventory(i)),
            Err(e) => Err(e),
        },
    }
}

impl Record {
    /// The wire form of the record.
    pub fn encode(&self) -> (r: Vec<Felt>)
        requires
            record_valid(*self),
        ensures
            encodes(*self, r@),
    {
        match self {
            Record::Game(g) => g.encode(),
            Record::Tile(t) => t.encode(),
            Record::Inventory(i) => i.encode(),
        }
    }
}

/// Decoding inverts encoding: for every kind, a valid record's wire form decodes
/// without error back to that record, field for field.
pub proof fn lemma_round_trip(rec: Record, raw: Seq<Felt>)
    requires
        record_valid(rec),
        encodes(rec, raw),
    ensures
        decode_error(kind_of(rec), raw) is None,
        decodes_to(kind_of(rec), raw, rec),
{
    match rec {
        Record::Game(g) => {
            lemma_text_word_span(g.name@);
            encode_utf8_valid_utf8(g.name@);
            encode_utf8_decode_utf8(g.name@);
        },
        Record::Tile(t) => {},
        Record::Inventory(i) => {},
    }
}

/// For every kind, a raw record whose length is not the kind's arity is rejected with
/// `ArityMismatch`, naming the expected and the found length.
pub proof fn lemma_arity_mismatch(kind: RecordKind, raw: Seq<Felt>)
    requires
        raw.len() != arity(kind),
        raw.len() <= usize::MAX,
    ensures
        decode_error(kind, raw) == Some(
            DecodeError::ArityMismatch { expected: arity(kind) as usize, found: raw.len() as usize },
        ),
{
}

} // verus!
