//! The session controller: the local snapshot of the remote game, the input mode,
//! the status line, and the policy that keeps the snapshot coherent while remote
//! calls fail.
//!
//! The snapshot is only ever replaced whole: a resync fetches the game, the
//! inventory and every tile, and installs them only when every fetch and every
//! decode succeeded. Otherwise the previous snapshot stays.
use crate::board::{project, projected_cell, Grid};
use crate::components::{
    decodes_to_game, game_decode_error, inventory_decode, tile_decode, DecodeError, Game, Inventory,
    Tile,
};
use crate::felt::Felt;
use crate::movement::Direction;
use vstd::prelude::*;

verus! {

/// Status text after a failed move or defuse.
pub const MOVE_FAILED: &'static str = "Move failed. Remember you can only move once the current square has been revealed. You also cannot move outside the board.";

/// Status text after a successful move.
pub const MOVE_DONE: &'static str = "Move successful";

/// Status text after a successful defuse.
pub const DEFUSE_DONE: &'static str = "Defuse Successful";

/// Status text after a successful reveal.
pub const REVEAL_DONE: &'static str = "Reveal successful";

/// Status text after a resync that failed and left the previous snapshot in place.
pub const SYNC_FAILED: &'static str = "Could not refresh the game; the board shown is the last complete one.";

/// A failure of a remote call; its text is all that is known of its cause.
#[derive(Clone, Debug)]
pub struct RemoteError {
    pub message: String,
}

/// The remote game, as the session reaches it. Reads return raw records; the
/// session decodes them. Submissions return the receipt of the transaction.
pub trait MinesweeperInterface {
    /// The raw game record of the current account.
    fn get_game(&mut self) -> Result<Vec<Felt>, RemoteError>;

    /// The raw tile record at `(x, y)`.
    fn get_tile(&mut self, x: u16, y: u16) -> Result<Vec<Felt>, RemoteError>;

    /// The raw inventory record of the current account.
    fn get_inventory(&mut self) -> Result<Vec<Felt>, RemoteError>;

    /// Submits a move towards `direction`.
    fn make_move(&mut self, direction: Direction) -> Result<Felt, RemoteError>;

    /// Submits a defuse towards `direction`.
    fn defuse(&mut self, direction: Direction) -> Result<Felt, RemoteError>;

    /// Submits a reveal of the current cell.
    fn reveal_cell(&mut self) -> Result<Felt, RemoteError>;

    /// Starts a new game.
    fn new_game(&mut self) -> Result<Felt, RemoteError>;
}

/// Whether a direction key moves or defuses.
#[derive(Clone, Copy, Debug, PartialEq, Eq, Structural)]
pub enum InputMode {
    Move,
    Defuse,
}

/// The other mode.
pub open spec fn toggled(mode: InputMode) -> InputMode {
    match mode {
        InputMode::Move => InputMode::Defuse,
        InputMode::Defuse => InputMode::Move,
    }
}

/// The submission that a direction key makes in a mode.
#[derive(Clone, Copy, Debug, PartialEq, Eq, Structural)]
pub enum Submission {
    Move(Direction),
    Defuse(Direction),
}

/// The submission for `direction` in `mode`.
pub open spec fn submission_spec(mode: InputMode, direction: Direction) -> Submission {
    match mode {
        InputMode::Move => Submission::Move(direction),
        InputMode::Defuse => Submission::Defuse(direction),
    }
}

/// A key that the terminal delivers.
#[derive(Clone, Copy, Debug, PartialEq, Eq, Structural)]
pub enum Key {
    Char(char),
    Up,
    Down,
    Left,
    Right,
    Other,
}

/// What the player asks for.
#[derive(Clone, Copy, Debug, PartialEq, Eq, Structural)]
pub enum Command {
    Quit,
    NewGame,
    Reveal,
    ToggleMode,
    Move(Direction),
}

/// The command bound to a key: `q` quits, `n` starts a new game, `r` reveals, space
/// toggles the mode, and the digits of a numeric keypad (and the arrows) move.
pub open spec fn command_spec(key: Key) -> Option<Command> {
    match key {
        Key::Char('q') => Some(Command::Quit),
        Key::Char('n') => Some(Command::NewGame),
        Key::Char('r') => Some(Command::Reveal),
        Key::Char(' ') => Some(Command::ToggleMode),
        Key::Char('1') => Some(Command::Move(Direction::DownLeft)),
        Key::Char('2') | Key::Down => Some(Command::Move(Direction::Down)),
        Key::Char('3') => Some(Command::Move(Direction::DownRight)),
        Key::Char('4') | Key::Left => Some(Command::Move(Direction::Left)),
        Key::Char('6') | Key::Right => Some(Command::Move(Direction::Right)),
        Key::Char('7') => Some(Command::Move(Direction::UpLeft)),
        Key::Char('8') | Key::Up => Some(Command::Move(Direction::Up)),
        Key::Char('9') => Some(Command::Move(Direction::UpRight)),
        _ => None,
    }
}

/// The command bound to a key, if any.
pub fn command_for(key: Key) -> (r: Option<Command>)
    ensures
        r == command_spec(key),
{
    match key {
        Key::Char('q') => Some(Command::Quit),
        Key::Char('n') => Some(Command::NewGame),
        Key::Char('r') => Some(Command::Reveal),
        Key::Char(' ') => Some(Command::ToggleMode),
        Key::Char('1') => Some(Command::Move(Direction::DownLeft)),
        Key::Char('2') | Key::Down => Some(Command::Move(Direction::Down)),
        Key::Char('3') => Some(Command::Move(Direction::DownRight)),
        Key::Char('4') | Key::Left => Some(Command::Move(Direction::Left)),
        Key::Char('6') | Key::Right => Some(Command::Move(Direction::Right)),
        Key::Char('7') => Some(Command::Move(Direction::UpLeft)),
        Key::Char('8') | Key::Up => Some(Command::Move(Direction::Up)),
        Key::Char('9') => Some(Command::Move(Direction::UpRight)),
        _ => None,
    }
}

/// Label of the input mode in the score panel.
pub fn mode_label(mode: InputMode) -> (r: &'static str)
    ensures
        r@ == (if mode == InputMode::Defuse {
            "Defuse"@
        } else {
            "Move"@
        }),
{
    match mode {
        InputMode::Defuse => "Defuse",
        InputMode::Move => "Move",
    }
}

/// Label of the game's state in the score panel.
pub fn status_label(game: &Game) -> (r: &'static str)
    ensures
        r@ == (if game.status {
            "Active"@
        } else {
            "Game Over"@
        }),
{
    if game.status {
        "Active"
    } else {
        "Game Over"
    }
}

/// A complete, coherent copy of the remote state from one resync.
#[derive(Clone, Debug)]
pub struct Snapshot {
    pub game: Game,
    pub inventory: Inventory,
    /// The tiles in the order they were fetched: row by row, `x` fastest.
    pub tiles: Vec<Tile>,
}

impl Snapshot {
    /// One tile per cell of the board, each with a clue of at most nine.
    pub open spec fn wf(&self) -> bool {
        &&& self.tiles@.len() == self.game.size * self.game.size
        &&& forall|i: int| 0 <= i < self.tiles@.len() ==> (#[trigger] self.tiles@[i]).wf()
    }
}

/// Why a resync failed.
#[derive(Clone, Debug)]
pub enum SyncFailure {
    /// A fetch failed.
    Remote(RemoteError),
    /// A fetched record did not decode.
    Decode(DecodeError),
}

/// An error that the session hands to its caller.
#[derive(Clone, Debug)]
pub enum SessionError {
    /// A resync failed; the previous snapshot was kept.
    PartialSyncFailure(SyncFailure),
    /// A remote call whose failure ends the session failed.
    RemoteCallFailed(RemoteError),
}

/// The status text after a successful submission.
pub open spec fn done_text(sub: Submission) -> Seq<char> {
    match sub {
        Submission::Move(_) => MOVE_DONE@,
        Submission::Defuse(_) => DEFUSE_DONE@,
    }
}

/// The submission for `direction` in `mode`: a defuse in defuse mode, else a move.
pub fn submission_for(mode: InputMode, direction: Direction) -> (r: Submission)
    ensures
        r == submission_spec(mode, direction),
{
    match mode {
        InputMode::Move => Submission::Move(direction),
        InputMode::Defuse => Submission::Defuse(direction),
    }
}

/// Sends a submission through the matching remote operation.
fn submit<I: MinesweeperInterface>(interface: &mut I, sub: Submission) -> Result<Felt, RemoteError> {
    match sub {
        Submission::Move(d) => interface.make_move(d),
        Submission::Defuse(d) => interface.defuse(d),
    }
}

/// A read that a resync makes.
#[derive(Clone, Copy, Debug, PartialEq, Eq, Structural)]
pub enum Fetch {
    Game,
    Inventory,
    Tile(u16, u16),
}

/// How far a resync has come: what it has decoded so far.
#[derive(Clone, Debug)]
pub enum SyncStage {
    /// Waiting for the game.
    Game,
    /// Waiting for the inventory.
    Inventory(Game),
    /// Waiting for the tile at `(x, y)`.
    Tiles { game: Game, inventory: Inventory, x: u16, y: u16 },
}

/// A resync under way. Tiles are read row by row, `x` fastest.
#[derive(Clone, Debug)]
pub struct SyncProgress {
    pub stage: SyncStage,
    /// The tiles decoded so far, in the order they were read.
    pub tiles: Vec<Tile>,
}

/// What follows a reply: the next read, or the end of the resync.
#[derive(Debug)]
pub enum SyncStep {
    Next(SyncProgress, Fetch),
    Done(Result<Snapshot, SyncFailure>),
}

/// Bound above the number of tiles on any board.
pub open spec fn tile_count_bound() -> nat {
    0x1_0000_0000
}

impl SyncProgress {
    /// The tiles read so far are those before the awaited cell, each with a clue of
    /// at most nine.
    pub open spec fn wf(&self) -> bool {
        &&& forall|k: int| 0 <= k < self.tiles@.len() ==> (#[trigger] self.tiles@[k]).wf()
        &&& match self.stage {
            SyncStage::Tiles { game, x, y, .. } => {
                &&& x < game.size
                &&& y < game.size
                &&& self.tiles@.len() == y * game.size + x
            },
            _ => self.tiles@.len() == 0,
        }
    }

    /// The read that the resync waits for.
    pub open spec fn awaited(&self) -> Fetch {
        match self.stage {
            SyncStage::Game => Fetch::Game,
            SyncStage::Inventory(_) => Fetch::Inventory,
            SyncStage::Tiles { x, y, .. } => Fetch::Tile(x, y),
        }
    }

    /// How many steps are left at most; each reply lowers it.
    pub open spec fn rank(&self) -> nat {
        match self.stage {
            SyncStage::Game => tile_count_bound() + 2,
            SyncStage::Inventory(_) => tile_count_bound() + 1,
            SyncStage::Tiles { game, x, y, .. } => (game.size * game.size - (y * game.size + x)) as nat,
        }
    }

    /// A resync that waits for the game.
    pub fn start() -> (r: (SyncProgress, Fetch))
        ensures
            r.0.wf(),
            r.0.stage is Game,
            r.1 == r.0.awaited(),
    {
        (SyncProgress { stage: SyncStage::Game, tiles: Vec::new() }, Fetch::Game)
    }

    /// Takes the reply to the awaited read. A failed read or a record that does not
    /// decode ends the resync with that failure. Otherwise the decoded record is
    /// kept, and the next read is the inventory after the game, the first cell after
    /// the inventory, and the next cell, row by row, after a tile; after the last
    /// cell the resync ends with the complete snapshot.
    pub fn feed(self, reply: Result<Vec<Felt>, RemoteError>) -> (r: SyncStep)
        requires
            self.wf(),
        ensures
            r matches SyncStep::Next(p, f) ==> p.wf() && f == p.awaited() && p.rank() < self.rank(),
            r matches SyncStep::Done(Ok(s)) ==> s.wf(),
            match reply {
                Err(e) => r == SyncStep::Done(Err(SyncFailure::Remote(e))),
                Ok(raw) => match self.stage {
                    SyncStage::Game => match game_decode_error(raw@) {
                        Some(e) => r == SyncStep::Done(Err(SyncFailure::Decode(e))),
                        None => r matches SyncStep::Next(p, _) && p.stage matches SyncStage::Inventory(
                            g,
                        ) && decodes_to_game(raw@, g),
                    },
                    SyncStage::Inventory(g) => match inventory_decode(raw@) {
                        Err(e) => r == SyncStep::Done(Err(SyncFailure::Decode(e))),
                        Ok(inv) => if g.size == 0 {
                            r matches SyncStep::Done(Ok(s)) && s.game == g && s.inventory == inv
                                && s.tiles@.len() == 0
                        } else {
                            r matches SyncStep::Next(p, _) && p.stage == (SyncStage::Tiles {
                                game: g,
                                inventory: inv,
                                x: 0,
                                y: 0,
                            })
                        },
                    },
                    SyncStage::Tiles { game, inventory, x, y } => match tile_decode(raw@) {
                        Err(e) => r == SyncStep::Done(Err(SyncFailure::Decode(e))),
                        Ok(t) => if x + 1 < game.size {
                            r matches SyncStep::Next(p, _) && p.tiles@ == self.tiles@.push(t)
                                && p.stage == (SyncStage::Tiles { game, inventory, x: (x + 1) as u16, y })
                        } else if y + 1 < game.size {
                            r matches SyncStep::Next(p, _) && p.tiles@ == self.tiles@.push(t)
                                && p.stage == (SyncStage::Tiles { game, inventory, x: 0, y: (y + 1) as u16 })
                        } else {
                            r matches SyncStep::Done(Ok(s)) && s.game == game && s.inventory
                                == inventory && s.tiles@ == self.tiles@.push(t)
                        },
                    },
                },
            },
    {
        let raw = match reply {
            Ok(raw) => raw,
            Err(e) => return SyncStep::Done(Err(SyncFailure::Remote(e))),
        };
        let SyncProgress { stage, tiles } = self;
        match stage {
            SyncStage::Game => match Game::decode(&raw) {
                Err(e) => SyncStep::Done(Err(SyncFailure::Decode(e))),
                Ok(g) => SyncStep::Next(SyncProgress { stage: SyncStage::Inventory(g), tiles }, Fetch::Inventory),
            },
            SyncStage::Inventory(game) => match Inventory::decode(&raw) {
                Err(e) => SyncStep::Done(Err(SyncFailure::Decode(e))),
                Ok(inventory) => first_cell(game, inventory, tiles),
            },
            SyncStage::Tiles { game, inventory, x, y } => match Tile::decode(&raw) {
                Err(e) => SyncStep::Done(Err(SyncFailure::Decode(e))),
                Ok(t) => next_cell(game, inventory, x, y, tiles, t),
            },
        }
    }
}

/// After the inventory: the first cell, or the end on an empty board.
fn first_cell(game: Game, inventory: Inventory, tiles: Vec<Tile>) -> (r: SyncStep)
    requires
        tiles@.len() == 0,
    ensures
        r matches SyncStep::Next(p, f) ==> p.wf() && f == p.awaited() && p.rank()
            < tile_count_bound() + 1,
        r matches SyncStep::Done(Ok(s)) ==> s.wf(),
        if game.size == 0 {
            r matches SyncStep::Done(Ok(s)) && s.game == game && s.inventory == inventory
                && s.tiles@.len() == 0
        } else {
            r matches SyncStep::Next(p, _) && p.stage == (SyncStage::Tiles { game, inventory, x: 0, y: 0 })
        },
{
    proof {
        lemma_area_below_bound(game.size as int);
    }
    if game.size == 0 {
        SyncStep::Done(Ok(Snapshot { game, inventory, tiles }))
    } else {
        let stage = SyncStage::Tiles { game, inventory, x: 0, y: 0 };
        SyncStep::Next(SyncProgress { stage, tiles }, Fetch::Tile(0, 0))
    }
}

/// After the tile at `(x, y)`: the next cell, row by row, or the end after the last.
fn next_cell(game: Game, inventory: Inventory, x: u16, y: u16, tiles: Vec<Tile>, t: Tile) -> (r: SyncStep)
    requires
        x < game.size,
        y < game.size,
        tiles@.len() == y * game.size + x,
        forall|k: int| 0 <= k < tiles@.len() ==> (#[trigger] tiles@[k]).wf(),
        t.wf(),
    ensures
        r matches SyncStep::Next(p, f) ==> p.wf() && f == p.awaited() && p.rank() < (game.size
            * game.size - (y * game.size + x)) as nat,
        r matches SyncStep::Done(Ok(s)) ==> s.wf(),
        if x + 1 < game.size {
            r matches SyncStep::Next(p, _) && p.tiles@ == tiles@.push(t) && p.stage == (SyncStage::Tiles {
                game,
                inventory,
                x: (x + 1) as u16,
                y,
            })
        } else if y + 1 < game.size {
            r matches SyncStep::Next(p, _) && p.tiles@ == tiles@.push(t) && p.stage == (SyncStage::Tiles {
                game,
                inventory,
                x: 0,
                y: (y + 1) as u16,
            })
        } else {
            r matches SyncStep::Done(Ok(s)) && s.game == game && s.inventory == inventory
                && s.tiles@ == tiles@.push(t)
        },
{
    let ghost before = tiles@;
    let mut tiles = tiles;
    tiles.push(t);
    let size = game.size;
    proof {
        lemma_next_cell(size as int, x as int, y as int);
        assert forall|k: int| 0 <= k < tiles@.len() implies (#[trigger] tiles@[k]).wf() by {
            if k < before.len() {
                assert(tiles@[k] == before[k]);
            }
        }
    }
    if x + 1 < size {
        let stage = SyncStage::Tiles { game, inventory, x: x + 1, y };
        SyncStep::Next(SyncProgress { stage, tiles }, Fetch::Tile(x + 1, y))
    } else if y + 1 < size {
        let stage = SyncStage::Tiles { game, inventory, x: 0, y: y + 1 };
        SyncStep::Next(SyncProgress { stage, tiles }, Fetch::Tile(0, y + 1))
    } else {
        SyncStep::Done(Ok(Snapshot { game, inventory, tiles }))
    }
}

proof fn lemma_area_below_bound(size: int)
    requires
        0 <= size <= 0xffff,
    ensures
        size * size < tile_count_bound(),
{
    assert(size * size <= 0xffff * 0xffff) by (nonlinear_arith)
        requires
            0 <= size <= 0xffff,
    ;
}

proof fn lemma_next_cell(size: int, x: int, y: int)
    requires
        0 <= x < size,
        0 <= y < size,
    ensures
        y * size + x + 1 <= size * size,
        x + 1 == size ==> (y + 1) * size == y * size + x + 1,
        x + 1 == size && y + 1 == size ==> y * size + x + 1 == size * size,
{
    assert(y * size + x + 1 <= size * size) by (nonlinear_arith)
        requires
            0 <= x < size,
            0 <= y < size,
    ;
    assert((y + 1) * size == y * size + size) by (nonlinear_arith);
}

/// Makes one read of a resync.
fn fetch<I: MinesweeperInterface>(interface: &mut I, f: Fetch) -> Result<Vec<Felt>, RemoteError> {
    match f {
        Fetch::Game => interface.get_game(),
        Fetch::Inventory => interface.get_inventory(),
        Fetch::Tile(x, y) => interface.get_tile(x, y),
    }
}

/// The client's session: the last complete snapshot, if any, the status text, the
/// input mode and the remote game.
pub struct App<I> {
    snapshot: Option<Snapshot>,
    error_message: String,
    mode: InputMode,
    interface: I,
}

impl<I: MinesweeperInterface> App<I> {
    /// The snapshot, `None` until the first successful resync.
    pub closed spec fn spec_snapshot(&self) -> Option<Snapshot> {
        self.snapshot
    }

    /// The status text.
    pub closed spec fn spec_message(&self) -> Seq<char> {
        self.error_message@
    }

    /// The input mode.
    pub closed spec fn spec_mode(&self) -> InputMode {
        self.mode
    }

    /// The remote game.
    pub closed spec fn spec_interface(&self) -> I {
        self.interface
    }

    /// A snapshot, once there is one, is complete.
    pub closed spec fn wf(&self) -> bool {
        self.snapshot matches Some(s) ==> s.wf()
    }

    /// A session with no snapshot yet, an empty status text, in move mode.
    pub fn new(interface: I) -> (r: Self)
        ensures
            r.wf(),
            r.spec_snapshot() is None,
            r.spec_message() == Seq::<char>::empty(),
            r.spec_mode() == InputMode::Move,
            r.spec_interface() == interface,
    {
        App { snapshot: None, error_message: String::new(), mode: InputMode::Move, interface }
    }

    /// The snapshot, `None` until the first successful resync.
    pub fn snapshot(&self) -> (r: &Option<Snapshot>)
        ensures
            *r == self.spec_snapshot(),
    {
        &self.snapshot
    }

    /// The status text.
    pub fn error_message(&self) -> (r: &String)
        ensures
            r@ == self.spec_message(),
    {
        &self.error_message
    }

    /// The input mode.
    pub fn mode(&self) -> (r: InputMode)
        ensures
            r == self.spec_mode(),
    {
        self.mode
    }

    /// The remote game.
    pub fn interface(&self) -> (r: &I)
        ensures
            *r == self.spec_interface(),
    {
        &self.interface
    }

    /// Installs the outcome of a resync: a fetched snapshot replaces the old one
    /// whole; a failure keeps the old one and sets the status text.
    pub fn apply_sync(&mut self, outcome: Result<Snapshot, SyncFailure>) -> (r: Result<(), SessionError>)
        requires
            old(self).wf(),
            outcome matches Ok(s) ==> s.wf(),
        ensures
            final(self).wf(),
            final(self).spec_mode() == old(self).spec_mode(),
            final(self).spec_interface() == old(self).spec_interface(),
            match outcome {
                Ok(s) => {
                    &&& r is Ok
                    &&& final(self).spec_snapshot() == Some(s)
                    &&& final(self).spec_message() == old(self).spec_message()
                },
                Err(f) => {
                    &&& r == Err::<(), SessionError>(SessionError::PartialSyncFailure(f))
                    &&& final(self).spec_snapshot() == old(self).spec_snapshot()
                    &&& final(self).spec_message() == SYNC_FAILED@
                },
            },
    {
        match outcome {
            Ok(s) => {
                self.snapshot = Some(s);
                Ok(())
            },
            Err(f) => {
                self.error_message = SYNC_FAILED.to_owned();
                Err(SessionError::PartialSyncFailure(f))
            },
        }
    }

    /// Refetches the whole snapshot. It is replaced only if every fetch and every
    /// decode succeeded; otherwise it is left exactly as it was, the status text
    /// says so, and the failure is returned.
    pub fn sync(&mut self) -> (r: Result<(), SessionError>)
        requires
            old(self).wf(),
        ensures
            final(self).wf(),
            final(self).spec_mode() == old(self).spec_mode(),
            match r {
                Ok(()) => {
                    &&& final(self).spec_snapshot() is Some
                    &&& final(self).spec_message() == old(self).spec_message()
                },
                Err(e) => {
                    &&& e is PartialSyncFailure
                    &&& final(self).spec_snapshot() == old(self).spec_snapshot()
                    &&& final(self).spec_message() == SYNC_FAILED@
                },
            },
    {
        let (mut progress, mut next) = SyncProgress::start();
        loop
            invariant
                progress.wf(),
                next == progress.awaited(),
                self.wf(),
                self.snapshot == old(self).snapshot,
                self.error_message == old(self).error_message,
                self.mode == old(self).mode,
            decreases progress.rank(),
        {
            let reply = fetch(&mut self.interface, next);
            match progress.feed(reply) {
                SyncStep::Next(p, f) => {
                    progress = p;
                    next = f;
                },
                SyncStep::Done(outcome) => {
                    return self.apply_sync(outcome);
                },
            }
        }
    }

    /// Records the outcome of a move or defuse submission and says whether a resync
    /// is due: a failure sets the fixed failure text and keeps the snapshot; a
    /// success sets the success text of the submission.
    pub fn apply_move_result(&mut self, sub: Submission, result: &Result<Felt, RemoteError>) -> (r: bool)
        ensures
            r == result is Ok,
            final(self).spec_snapshot() == old(self).spec_snapshot(),
            final(self).spec_mode() == old(self).spec_mode(),
            final(self).spec_interface() == old(self).spec_interface(),
            final(self).wf() == old(self).wf(),
            final(self).spec_message() == (if result is Ok {
                done_text(sub)
            } else {
                MOVE_FAILED@
            }),
    {
        match result {
            Ok(_) => {
                self.error_message = match sub {
                    Submission::Move(_) => MOVE_DONE.to_owned(),
                    Submission::Defuse(_) => DEFUSE_DONE.to_owned(),
                };
                true
            },
            Err(_) => {
                self.error_message = MOVE_FAILED.to_owned();
                false
            },
        }
    }

    /// What a move or defuse towards `direction` from `self` may lead to: a failed
    /// submission sets the fixed failure text and keeps the snapshot; a successful one
    /// sets its success text and installs a fresh snapshot, unless that resync fails,
    /// which keeps the snapshot, says so, and is returned.
    pub open spec fn move_effect(self, next: Self, direction: Direction, r: Result<(), SessionError>) -> bool {
        let sub = submission_spec(self.spec_mode(), direction);
        &&& next.wf()
        &&& next.spec_mode() == self.spec_mode()
        &&& {
            ||| {
                &&& r is Ok
                &&& next.spec_message() == MOVE_FAILED@
                &&& next.spec_snapshot() == self.spec_snapshot()
            }
            ||| {
                &&& r is Ok
                &&& next.spec_message() == done_text(sub)
                &&& next.spec_snapshot() is Some
            }
            ||| {
                &&& r matches Err(SessionError::PartialSyncFailure(_))
                &&& next.spec_message() == SYNC_FAILED@
                &&& next.spec_snapshot() == self.spec_snapshot()
            }
        }
    }

    /// What a reveal from `self` may lead to: a failure leaves the snapshot as it was
    /// (with the remote's text as status); a success sets the success text and
    /// installs a fresh snapshot, unless that resync fails, which keeps the snapshot,
    /// says so, and is returned.
    pub open spec fn reveal_effect(self, next: Self, r: Result<(), SessionError>) -> bool {
        &&& next.wf()
        &&& next.spec_mode() == self.spec_mode()
        &&& {
            ||| {
                &&& r is Ok
                &&& next.spec_snapshot() == self.spec_snapshot()
            }
            ||| {
                &&& r is Ok
                &&& next.spec_message() == REVEAL_DONE@
                &&& next.spec_snapshot() is Some
            }
            ||| {
                &&& r matches Err(SessionError::PartialSyncFailure(_))
                &&& next.spec_message() == SYNC_FAILED@
                &&& next.spec_snapshot() == self.spec_snapshot()
            }
        }
    }

    /// What starting a new game from `self` may lead to: a fresh snapshot; a failed
    /// request, returned as `RemoteCallFailed`, with everything as it was; or a failed
    /// resync, which keeps the snapshot and says so.
    pub open spec fn new_game_effect(self, next: Self, r: Result<(), SessionError>) -> bool {
        &&& next.wf()
        &&& next.spec_mode() == self.spec_mode()
        &&& match r {
            Ok(()) => next.spec_snapshot() is Some,
            Err(SessionError::RemoteCallFailed(_)) => {
                &&& next.spec_snapshot() == self.spec_snapshot()
                &&& next.spec_message() == self.spec_message()
            },
            Err(SessionError::PartialSyncFailure(_)) => {
                &&& next.spec_snapshot() == self.spec_snapshot()
                &&& next.spec_message() == SYNC_FAILED@
            },
        }
    }

    /// Moves towards `direction`, or defuses there in defuse mode. A failed
    /// submission sets the fixed failure text and changes nothing else, with no
    /// resync; a successful one sets the success text and resyncs.
    pub fn make_move(&mut self, direction: Direction) -> (r: Result<(), SessionError>)
        requires
            old(self).wf(),
        ensures
            (*old(self)).move_effect(*final(self), direction, r),
    {
        let sub = submission_for(self.mode, direction);
        let result = submit(&mut self.interface, sub);
        if self.apply_move_result(sub, &result) {
            self.sync()
        } else {
            Ok(())
        }
    }

    /// Records the outcome of a reveal and says whether a resync is due: a failure
    /// shows the remote error's own text and keeps the snapshot; a success sets the
    /// success text.
    pub fn apply_reveal_result(&mut self, result: Result<Felt, RemoteError>) -> (r: bool)
        ensures
            r == result is Ok,
            final(self).spec_snapshot() == old(self).spec_snapshot(),
            final(self).spec_mode() == old(self).spec_mode(),
            final(self).spec_interface() == old(self).spec_interface(),
            final(self).wf() == old(self).wf(),
            final(self).spec_message() == match result {
                Ok(_) => REVEAL_DONE@,
                Err(e) => e.message@,
            },
    {
        match result {
            Ok(_) => {
                self.error_message = REVEAL_DONE.to_owned();
                true
            },
            Err(e) => {
                self.error_message = e.message;
                false
            },
        }
    }

    /// Reveals the current cell. A failure shows the remote error's text and changes
    /// nothing else; a success sets the success text and resyncs.
    pub fn reveal_cell(&mut self) -> (r: Result<(), SessionError>)
        requires
            old(self).wf(),
        ensures
            (*old(self)).reveal_effect(*final(self), r),
    {
        let result = self.interface.reveal_cell();
        if self.apply_reveal_result(result) {
            self.sync()
        } else {
            Ok(())
        }
    }

    /// Starts a new game and resyncs. Unlike a move, a failed request is handed to
    /// the caller as `RemoteCallFailed`, with the session left as it was.
    pub fn new_game(&mut self) -> (r: Result<(), SessionError>)
        requires
            old(self).wf(),
        ensures
            (*old(self)).new_game_effect(*final(self), r),
    {
        match self.interface.new_game() {
            Ok(_) => self.sync(),
            Err(e) => Err(SessionError::RemoteCallFailed(e)),
        }
    }

    /// Flips between move and defuse mode, with no remote call.
    pub fn toggle_mode(&mut self)
        ensures
            final(self).spec_mode() == toggled(old(self).spec_mode()),
            final(self).spec_snapshot() == old(self).spec_snapshot(),
            final(self).spec_message() == old(self).spec_message(),
            final(self).spec_interface() == old(self).spec_interface(),
            final(self).wf() == old(self).wf(),
    {
        self.mode = match self.mode {
            InputMode::Move => InputMode::Defuse,
            InputMode::Defuse => InputMode::Move,
        };
    }

    /// Carries out one command and says whether the session goes on. Quitting ends
    /// it; a failed request for a new game ends it with that failure. A failed move,
    /// reveal or resync only changes the status text, and the session goes on.
    pub fn handle(&mut self, cmd: Command) -> (r: Result<bool, SessionError>)
        requires
            old(self).wf(),
        ensures
            final(self).wf(),
            match cmd {
                Command::Quit => r == Ok::<bool, SessionError>(false) && *final(self) == *old(self),
                Command::ToggleMode => {
                    &&& r == Ok::<bool, SessionError>(true)
                    &&& final(self).spec_mode() == toggled(old(self).spec_mode())
                    &&& final(self).spec_snapshot() == old(self).spec_snapshot()
                    &&& final(self).spec_message() == old(self).spec_message()
                },
                Command::Move(d) => r == Ok::<bool, SessionError>(true) && exists|m: Result<
                    (),
                    SessionError,
                >| (*old(self)).move_effect(*final(self), d, m),
                Command::Reveal => r == Ok::<bool, SessionError>(true) && exists|m: Result<
                    (),
                    SessionError,
                >| (*old(self)).reveal_effect(*final(self), m),
                Command::NewGame => match r {
                    Ok(go_on) => go_on && exists|m: Result<(), SessionError>|
                        !(m matches Err(SessionError::RemoteCallFailed(_))) && (
                        *old(self)).new_game_effect(*final(self), m),
                    Err(e) => e is RemoteCallFailed && (*old(self)).new_game_effect(
                        *final(self),
                        Err(e),
                    ),
                },
            },
    {
        let ghost before = *self;
        match cmd {
            Command::Quit => Ok(false),
            Command::ToggleMode => {
                self.toggle_mode();
                Ok(true)
            },
            Command::Move(d) => {
                let m = self.make_move(d);
                assert(before.move_effect(*self, d, m));
                Ok(true)
            },
            Command::Reveal => {
                let m = self.reveal_cell();
                assert(before.reveal_effect(*self, m));
                Ok(true)
            },
            Command::NewGame => {
                let m = self.new_game();
                assert(before.new_game_effect(*self, m));
                match m {
                    Err(SessionError::RemoteCallFailed(e)) => Err(SessionError::RemoteCallFailed(e)),
                    _ => Ok(true),
                }
            },
        }
    }

    /// The board of the snapshot, once there is one.
    pub fn grid(&self) -> (r: Option<Grid>)
        ensures
            match self.spec_snapshot() {
                None => r is None,
                Some(s) => r matches Some(g) && g.wf() && g.size == s.game.size && forall|x: int, y: int|
                    0 <= x < s.game.size && 0 <= y < s.game.size ==> #[trigger] g.spec_cell(x, y)
                        == projected_cell(s.tiles@, x, y),
            },
    {
        match &self.snapshot {
            None => None,
            Some(s) => Some(project(&s.game, &s.tiles)),
        }
    }
}

/// Toggling the mode twice gives back the mode one started with.
pub proof fn lemma_toggle_twice(mode: InputMode)
    ensures
        toggled(toggled(mode)) == mode,
{
}

/// In defuse mode a direction key always makes a defuse, never a move; in move mode
/// always a move.
pub proof fn lemma_defuse_mode_defuses(mode: InputMode, direction: Direction)
    ensures
        mode == InputMode::Defuse ==> submission_spec(mode, direction) == Submission::Defuse(direction),
        mode == InputMode::Move ==> submission_spec(mode, direction) == Submission::Move(direction),
{
}

} // verus!
