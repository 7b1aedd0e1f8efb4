use explore_tui::board::{board_view, project, CellView, Mark};
use explore_tui::components::{Game, Inventory, Tile};
use explore_tui::felt::Felt;
use explore_tui::movement::Direction;
use explore_tui::session::{
    command_for, mode_label, status_label, submission_for, App, Command, Fetch, InputMode, Key,
    MinesweeperInterface, RemoteError, SessionError, Submission, SyncFailure, SyncProgress,
    SyncStep, DEFUSE_DONE,
    MOVE_DONE, MOVE_FAILED, REVEAL_DONE, SYNC_FAILED,
};

#[derive(Default)]
struct Fake {
    game: Option<Game>,
    tiles: Vec<Tile>,
    inventory: Inventory,
    fail_tile_fetch: Option<usize>,
    fail_move: bool,
    fail_reveal: bool,
    fail_new_game: bool,
    tile_fetches: Vec<(u16, u16)>,
    moves: Vec<Direction>,
    defuses: Vec<Direction>,
    reveals: usize,
    new_games: usize,
}

fn err(text: &str) -> RemoteError {
    RemoteError { message: text.to_string() }
}

impl MinesweeperInterface for Fake {
    fn get_game(&mut self) -> Result<Vec<Felt>, RemoteError> {
        match &self.game {
            Some(g) => Ok(g.encode()),
            None => Err(err("no game")),
        }
    }

    fn get_tile(&mut self, x: u16, y: u16) -> Result<Vec<Felt>, RemoteError> {
        let n = self.tile_fetches.len();
        self.tile_fetches.push((x, y));
        if self.fail_tile_fetch == Some(n) {
            return Err(err("tile fetch failed"));
        }
        match self.tiles.iter().find(|t| t.x == x && t.y == y) {
            Some(t) => Ok(t.encode()),
            None => Ok(Tile { explored: false, mine: false, danger: false, shield: false, kit: false, clue: 0, x, y }.encode()),
        }
    }

    fn get_inventory(&mut self) -> Result<Vec<Felt>, RemoteError> {
        Ok(self.inventory.encode())
    }

    fn make_move(&mut self, direction: Direction) -> Result<Felt, RemoteError> {
        self.moves.push(direction);
        if self.fail_move {
            Err(err("contract rejected"))
        } else {
            Ok(Felt::from_u64(1))
        }
    }

    fn defuse(&mut self, direction: Direction) -> Result<Felt, RemoteError> {
        self.defuses.push(direction);
        Ok(Felt::from_u64(2))
    }

    fn reveal_cell(&mut self) -> Result<Felt, RemoteError> {
        self.reveals += 1;
        if self.fail_reveal {
            Err(err("tile already revealed"))
        } else {
            Ok(Felt::from_u64(3))
        }
    }

    fn new_game(&mut self) -> Result<Felt, RemoteError> {
        self.new_games += 1;
        if self.fail_new_game {
            Err(err("cannot create"))
        } else {
            Ok(Felt::from_u64(4))
        }
    }
}

fn game3() -> Game {
    Game {
        name: "alice".to_string(),
        status: true,
        score: 10,
        seed: [7u8; 32],
        commited_block_timestamp: 99,
        x: 1,
        y: 1,
        level: 1,
        size: 3,
    }
}

fn fake3() -> Fake {
    Fake {
        game: Some(game3()),
        tiles: vec![Tile { explored: true, mine: false, danger: false, shield: false, kit: false, clue: 2, x: 0, y: 0 }],
        inventory: Inventory { shield: true, kits: 2 },
        ..Fake::default()
    }
}

fn synced_app() -> App<Fake> {
    let mut app = App::new(fake3());
    app.sync().unwrap();
    app
}

#[test]
fn new_session_is_empty() {
    let app = App::new(fake3());
    assert!(app.snapshot().is_none());
    assert_eq!(app.error_message(), "");
    assert_eq!(app.mode(), InputMode::Move);
    assert!(app.grid().is_none());
}

#[test]
fn sync_fetches_every_tile_row_by_row() {
    let app = synced_app();
    let s = app.snapshot().as_ref().unwrap();
    assert_eq!(s.game.size, 3);
    assert_eq!(s.game.name, "alice");
    assert_eq!(s.inventory, Inventory { shield: true, kits: 2 });
    assert_eq!(s.tiles.len(), 9);
    let expected: Vec<(u16, u16)> = (0..3).flat_map(|y| (0..3).map(move |x| (x, y))).collect();
    assert_eq!(app.interface().tile_fetches, expected);
    let coords: Vec<(u16, u16)> = s.tiles.iter().map(|t| (t.x, t.y)).collect();
    assert_eq!(coords, expected);
}

#[test]
fn sync_end_to_end_three_by_three() {
    let app = synced_app();
    let s = app.snapshot().as_ref().unwrap();
    let grid = project(&s.game, &s.tiles);
    assert_eq!(grid.cells.len(), 9);
    let view = board_view(&s.game, &grid);
    assert_eq!(view[0][0], CellView::Plain(Mark::Clue { hazard: false, clue: 2 }));
    assert_eq!(view[1][1], CellView::Player(Mark::Blank));
    for y in 0..3 {
        for x in 0..3 {
            if (x, y) != (0, 0) && (x, y) != (1, 1) {
                assert_eq!(view[y][x], CellView::Plain(Mark::Blank));
            }
        }
    }
}

#[test]
fn sync_failure_on_any_tile_reports_partial_failure() {
    for n in 0..9 {
        let mut fake = fake3();
        fake.fail_tile_fetch = Some(n);
        let mut app = App::new(fake);
        assert!(matches!(app.sync(), Err(SessionError::PartialSyncFailure(SyncFailure::Remote(_)))));
        assert!(app.snapshot().is_none());
        assert_eq!(app.error_message(), SYNC_FAILED);
        assert_eq!(app.interface().tile_fetches.len(), n + 1);
    }
}

#[test]
fn resync_failure_keeps_previous_snapshot() {
    for n in 0..9 {
        let mut fake = fake3();
        // the first sync fetches tiles 0..9; the resync after the move fetches 9..18
        fake.fail_tile_fetch = Some(9 + n);
        let mut app = App::new(fake);
        app.sync().unwrap();
        let before = app.snapshot().as_ref().unwrap().clone();
        let r = app.make_move(Direction::Right);
        assert!(matches!(r, Err(SessionError::PartialSyncFailure(_))));
        let after = app.snapshot().as_ref().unwrap();
        assert_eq!(after.tiles, before.tiles);
        assert_eq!(after.inventory, before.inventory);
        assert_eq!(after.game.score, before.game.score);
        assert_eq!(after.game.name, before.game.name);
        assert_eq!(app.error_message(), SYNC_FAILED);
    }
}

#[test]
fn move_failure_sets_fixed_text_without_resync() {
    let mut fake = fake3();
    fake.fail_move = true;
    let mut app = App::new(fake);
    app.sync().unwrap();
    let before = app.snapshot().as_ref().unwrap().tiles.clone();
    let fetches = app.interface().tile_fetches.len();
    assert!(app.make_move(Direction::Up).is_ok());
    assert_eq!(app.error_message(), MOVE_FAILED);
    assert_eq!(app.snapshot().as_ref().unwrap().tiles, before);
    assert_eq!(app.interface().tile_fetches.len(), fetches);
    assert_eq!(app.interface().moves, vec![Direction::Up]);
}

#[test]
fn move_success_resyncs() {
    let mut app = synced_app();
    assert!(app.make_move(Direction::DownLeft).is_ok());
    assert_eq!(app.error_message(), MOVE_DONE);
    assert_eq!(app.interface().tile_fetches.len(), 18);
    assert_eq!(app.interface().moves, vec![Direction::DownLeft]);
}

#[test]
fn toggle_twice_restores_mode() {
    let mut app = App::new(fake3());
    app.toggle_mode();
    assert_eq!(app.mode(), InputMode::Defuse);
    app.toggle_mode();
    assert_eq!(app.mode(), InputMode::Move);
}

#[test]
fn defuse_mode_defuses_never_moves() {
    let mut app = synced_app();
    app.toggle_mode();
    assert!(app.make_move(Direction::Left).is_ok());
    assert_eq!(app.error_message(), DEFUSE_DONE);
    assert_eq!(app.interface().defuses, vec![Direction::Left]);
    assert!(app.interface().moves.is_empty());
    assert_eq!(submission_for(InputMode::Defuse, Direction::Up), Submission::Defuse(Direction::Up));
    assert_eq!(submission_for(InputMode::Move, Direction::Up), Submission::Move(Direction::Up));
}

#[test]
fn reveal_failure_shows_remote_text() {
    let mut fake = fake3();
    fake.fail_reveal = true;
    let mut app = App::new(fake);
    app.sync().unwrap();
    assert!(app.reveal_cell().is_ok());
    assert_eq!(app.error_message(), "tile already revealed");
    assert_eq!(app.interface().tile_fetches.len(), 9);
}

#[test]
fn reveal_success_resyncs() {
    let mut app = synced_app();
    assert!(app.reveal_cell().is_ok());
    assert_eq!(app.error_message(), REVEAL_DONE);
    assert_eq!(app.interface().tile_fetches.len(), 18);
}

#[test]
fn new_game_failure_is_fatal() {
    let mut fake = fake3();
    fake.fail_new_game = true;
    let mut app = App::new(fake);
    app.sync().unwrap();
    match app.new_game() {
        Err(SessionError::RemoteCallFailed(e)) => assert_eq!(e.message, "cannot create"),
        _ => panic!("expected a fatal error"),
    }
    assert_eq!(app.interface().tile_fetches.len(), 9);
}

#[test]
fn new_game_success_resyncs() {
    let mut app = App::new(fake3());
    assert!(app.new_game().is_ok());
    assert!(app.snapshot().is_some());
    assert_eq!(app.interface().new_games, 1);
}

#[test]
fn sync_decode_failure_keeps_snapshot() {
    let mut fake = fake3();
    fake.tiles[0].clue = 12;
    let mut app = App::new(fake);
    assert!(matches!(app.sync(), Err(SessionError::PartialSyncFailure(SyncFailure::Decode(_)))));
    assert!(app.snapshot().is_none());
}

#[test]
fn key_bindings() {
    assert_eq!(command_for(Key::Char('q')), Some(Command::Quit));
    assert_eq!(command_for(Key::Char('n')), Some(Command::NewGame));
    assert_eq!(command_for(Key::Char('r')), Some(Command::Reveal));
    assert_eq!(command_for(Key::Char(' ')), Some(Command::ToggleMode));
    assert_eq!(command_for(Key::Char('1')), Some(Command::Move(Direction::DownLeft)));
    assert_eq!(command_for(Key::Char('2')), Some(Command::Move(Direction::Down)));
    assert_eq!(command_for(Key::Down), Some(Command::Move(Direction::Down)));
    assert_eq!(command_for(Key::Char('3')), Some(Command::Move(Direction::DownRight)));
    assert_eq!(command_for(Key::Left), Some(Command::Move(Direction::Left)));
    assert_eq!(command_for(Key::Char('6')), Some(Command::Move(Direction::Right)));
    assert_eq!(command_for(Key::Char('7')), Some(Command::Move(Direction::UpLeft)));
    assert_eq!(command_for(Key::Up), Some(Command::Move(Direction::Up)));
    assert_eq!(command_for(Key::Char('9')), Some(Command::Move(Direction::UpRight)));
    assert_eq!(command_for(Key::Char('5')), None);
    assert_eq!(command_for(Key::Other), None);
}

#[test]
fn handle_runs_commands() {
    let mut app = synced_app();
    assert_eq!(app.handle(Command::ToggleMode).unwrap(), true);
    assert_eq!(app.mode(), InputMode::Defuse);
    assert_eq!(app.handle(Command::Move(Direction::Up)).unwrap(), true);
    assert_eq!(app.interface().defuses, vec![Direction::Up]);
    assert_eq!(app.handle(Command::Reveal).unwrap(), true);
    assert_eq!(app.interface().reveals, 1);
    assert_eq!(app.handle(Command::NewGame).unwrap(), true);
    assert_eq!(app.interface().new_games, 1);
    assert_eq!(app.handle(Command::Quit).unwrap(), false);
}

#[test]
fn handle_keeps_going_after_failed_resync_but_not_failed_new_game() {
    let mut fake = fake3();
    fake.fail_tile_fetch = Some(9);
    fake.fail_new_game = true;
    let mut app = App::new(fake);
    app.sync().unwrap();
    assert_eq!(app.handle(Command::Move(Direction::Up)).unwrap(), true);
    assert_eq!(app.error_message(), SYNC_FAILED);
    assert!(matches!(app.handle(Command::NewGame), Err(SessionError::RemoteCallFailed(_))));
}

#[test]
fn panel_labels() {
    let mut g = game3();
    assert_eq!(status_label(&g), "Active");
    g.status = false;
    assert_eq!(status_label(&g), "Game Over");
    assert_eq!(mode_label(InputMode::Move), "Move");
    assert_eq!(mode_label(InputMode::Defuse), "Defuse");
}

#[test]
fn sync_progress_reads_in_order_and_stops_on_failure() {
    let mut fake = fake3();
    let (mut progress, mut next) = SyncProgress::start();
    let mut reads = vec![];
    let snapshot = loop {
        reads.push(next);
        let reply = match next {
            Fetch::Game => fake.get_game(),
            Fetch::Inventory => fake.get_inventory(),
            Fetch::Tile(x, y) => fake.get_tile(x, y),
        };
        match progress.feed(reply) {
            SyncStep::Next(p, f) => {
                progress = p;
                next = f;
            }
            SyncStep::Done(outcome) => break outcome.unwrap(),
        }
    };
    assert_eq!(reads.len(), 11);
    assert_eq!(reads[0], Fetch::Game);
    assert_eq!(reads[1], Fetch::Inventory);
    assert_eq!(reads[2], Fetch::Tile(0, 0));
    assert_eq!(reads[3], Fetch::Tile(1, 0));
    assert_eq!(reads[5], Fetch::Tile(0, 1));
    assert_eq!(reads[10], Fetch::Tile(2, 2));
    assert_eq!(snapshot.tiles.len(), 9);

    let (progress, _) = SyncProgress::start();
    match progress.feed(Ok(game3().encode())) {
        SyncStep::Next(p, Fetch::Inventory) => match p.feed(Err(err("down"))) {
            SyncStep::Done(Err(SyncFailure::Remote(e))) => assert_eq!(e.message, "down"),
            _ => panic!("expected the resync to end with the failure"),
        },
        _ => panic!("expected the inventory read next"),
    }
}

#[test]
fn sync_of_empty_board_reads_no_tiles() {
    let mut fake = fake3();
    fake.game.as_mut().unwrap().size = 0;
    let mut app = App::new(fake);
    app.sync().unwrap();
    assert!(app.snapshot().as_ref().unwrap().tiles.is_empty());
    assert!(app.interface().tile_fetches.is_empty());
}
