//! The player-controlled avatar: translates input events into movement
//! intents, edge wrapping, map-load requests and other statuses.

use vstd::prelude::*;
use crate::actor::ActorStatus;
use crate::actor::ActorType;
use crate::map::TileMap;
use crate::message::{Message, MessageType};
use crate::tile::Tile;
use crate::{
    spec_moved_position_i32, spec_movement_result, GameKey, InputEvent, Movable,
    MovementDirection, MovementResult, MAP_HEIGHT, MAP_WIDTH,
};

verus! {

/// The default number of spaces that the player moves at once.
pub const MOVEMENT_AMOUNT: i32 = 1;

/// Where the spawn key asks for a new soldier, relative to the map origin.
pub const SPAWN_POSITION_X: i32 = 10;

/// Where the spawn key asks for a new soldier, relative to the map origin.
pub const SPAWN_POSITION_Y: i32 = 10;

/// Whether a position is far enough from the extreme ends of the coordinate
/// space that a one-tile step in any direction stays representable.
pub open spec fn step_fits(p: [i32; 2]) -> bool {
    &&& i32::MIN < p[0] < i32::MAX
    &&& i32::MIN < p[1] < i32::MAX
}

/// The position that the edge-wrap rule assigns: a coordinate that stepped
/// just over the low edge reappears at the high edge and vice versa, each
/// axis independently; coordinates not at an edge keep their value.
pub open spec fn spec_wrapped_position(pos: [i32; 2], edge: [i32; 2]) -> [i32; 2] {
    [
        if edge[0] == -1 {
            (MAP_WIDTH - 1) as i32
        } else if edge[0] == MAP_WIDTH {
            0i32
        } else {
            pos[0]
        },
        if edge[1] == -1 {
            (MAP_HEIGHT - 1) as i32
        } else if edge[1] == MAP_HEIGHT {
            0i32
        } else {
            pos[1]
        },
    ]
}

/// The signed unit offset, per axis, of the map segment that an edge
/// position crossed into: `-1` past the low edge, `1` past the high edge,
/// `0` when that axis stayed on the map.
pub open spec fn spec_edge_offset(edge: [i32; 2]) -> [i32; 2] {
    [
        if edge[0] == -1 {
            -1i32
        } else if edge[0] == MAP_WIDTH {
            1i32
        } else {
            0i32
        },
        if edge[1] == -1 {
            -1i32
        } else if edge[1] == MAP_HEIGHT {
            1i32
        } else {
            0i32
        },
    ]
}

/// Stores information and statistics pertaining to the
/// player's avatar.
pub struct Player {
    /// The player's current grid position.
    pub position: [i32; 2],
    /// The player's stable identity.
    pub id: u128,
    /// The pending one-shot status request, if any.
    pub status: Option<ActorStatus>,
    /// Messages buffered locally until the controller drains them.
    pub messages: Vec<Message>,
    /// How many simulation rounds the player's last actions ask for.
    pub ticks: Option<u32>,
}

/// The player state after attempting a one-tile move in `dir`: a clear or
/// fluid target moves the player — fluid ground is distinguished but
/// passable — the map's edge wraps the player and requests the adjoining
/// map segment, and a blocking target leaves the position alone; every
/// attempt asks for one simulation round.
pub open spec fn spec_player_after_move(
    p: Player,
    tiles: Seq<Tile>,
    dir: MovementDirection,
) -> Player {
    if !step_fits(p.position) {
        Player { ticks: Some(1u32), ..p }
    } else {
        let target = spec_moved_position_i32(p.position, dir, MOVEMENT_AMOUNT as int);
        match spec_movement_result(tiles, target) {
            MovementResult::Clear => Player { position: target, ticks: Some(1u32), ..p },
            MovementResult::Fluid => Player { position: target, ticks: Some(1u32), ..p },
            MovementResult::MapEdge(edge) => Player {
                position: spec_wrapped_position(p.position, edge),
                status: Some(ActorStatus::LoadMapAtRelativeOffset(spec_edge_offset(edge))),
                ticks: Some(1u32),
                ..p
            },
            MovementResult::Wall => Player { ticks: Some(1u32), ..p },
        }
    }
}

/// The player state after processing one input event.
pub open spec fn spec_player_after_event(p: Player, event: InputEvent, tiles: Seq<Tile>) -> Player {
    match event {
        InputEvent::Other => p,
        InputEvent::Press(key) => match key {
            GameKey::F1 => Player {
                status: Some(
                    ActorStatus::SpawnActorAt(
                        ActorType::Soldier,
                        [SPAWN_POSITION_X, SPAWN_POSITION_Y],
                    ),
                ),
                ..p
            },
            GameKey::Tab => Player { status: Some(ActorStatus::ToggleMessageVisibility), ..p },
            GameKey::NumPad1 => spec_player_after_move(p, tiles, MovementDirection::DownLeft),
            GameKey::NumPad2 => spec_player_after_move(p, tiles, MovementDirection::Down),
            GameKey::NumPad3 => spec_player_after_move(p, tiles, MovementDirection::DownRight),
            GameKey::NumPad4 => spec_player_after_move(p, tiles, MovementDirection::Left),
            GameKey::NumPad6 => spec_player_after_move(p, tiles, MovementDirection::Right),
            GameKey::NumPad7 => spec_player_after_move(p, tiles, MovementDirection::UpLeft),
            GameKey::NumPad8 => spec_player_after_move(p, tiles, MovementDirection::Up),
            GameKey::NumPad9 => spec_player_after_move(p, tiles, MovementDirection::UpRight),
            GameKey::NumPad0 => Player { ticks: Some(1u32), ..p },
        },
    }
}

impl Player {
    /// Creates and returns a new instance of the Player struct.
    pub fn new(id: u128) -> (r: Player)
        ensures
            r.position == [0i32, 0i32],
            r.id == id,
            r.status is None,
            r.messages@ =~= Seq::<Message>::empty(),
            r.ticks is None,
    {
        Player { position: [0, 0], id, status: None, messages: Vec::new(), ticks: None }
    }

    /// Returns and clears the number of simulation rounds that the player's
    /// recent actions ask for.
    pub fn ticks(&mut self) -> (r: Option<u32>)
        ensures
            r == old(self).ticks,
            *final(self) == (Player { ticks: None, ..*old(self) }),
    {
        let ticks = self.ticks;
        self.ticks = None;
        ticks
    }

    /// Allows the Player actor to process input events.
    pub fn event_update(&mut self, event: &InputEvent, map: &TileMap)
        ensures
            *final(self) == spec_player_after_event(*old(self), *event, map@),
    {
        match *event {
            InputEvent::Other => {},
            InputEvent::Press(key) => match key {
                GameKey::F1 => {
                    self.status = Some(
                        ActorStatus::SpawnActorAt(
                            ActorType::Soldier,
                            [SPAWN_POSITION_X, SPAWN_POSITION_Y],
                        ),
                    );
                },
                GameKey::Tab => {
                    self.status = Some(ActorStatus::ToggleMessageVisibility);
                },
                GameKey::NumPad1 => self.input_move(map, MovementDirection::DownLeft),
                GameKey::NumPad2 => self.input_move(map, MovementDirection::Down),
                GameKey::NumPad3 => self.input_move(map, MovementDirection::DownRight),
                GameKey::NumPad4 => self.input_move(map, MovementDirection::Left),
                GameKey::NumPad6 => self.input_move(map, MovementDirection::Right),
                GameKey::NumPad7 => self.input_move(map, MovementDirection::UpLeft),
                GameKey::NumPad8 => self.input_move(map, MovementDirection::Up),
                GameKey::NumPad9 => self.input_move(map, MovementDirection::UpRight),
                GameKey::NumPad0 => self.perform_ticks(1),
            },
        }
    }

    /// Attempts a one-tile move — fluid ground is passable — wrapping over
    /// the map's edge when the step leaves the grid, and always asks for one
    /// simulation round.
    fn input_move(&mut self, map: &TileMap, dir: MovementDirection)
        ensures
            *final(self) == spec_player_after_move(*old(self), map@, dir),
    {
        let p = self.position;
        if p[0] > i32::MIN && p[0] < i32::MAX && p[1] > i32::MIN && p[1] < i32::MAX {
            match crate::try_move(self, map, &dir, MOVEMENT_AMOUNT) {
                MovementResult::Clear | MovementResult::Fluid => self.move_toward(&dir),
                MovementResult::MapEdge(edge_pos) => {
                    self.move_over_edge(map, edge_pos);
                    let new_map_offset = Player::get_new_map_offset_from_edge(map, edge_pos);
                    self.status = Some(ActorStatus::LoadMapAtRelativeOffset(new_map_offset));
                },
                MovementResult::Wall => {},
            }
        }
        self.perform_ticks(1);
    }

    /// Records how many simulation rounds the controller should run.
    fn perform_ticks(&mut self, count: u32)
        ensures
            *final(self) == (Player { ticks: Some(count), ..*old(self) }),
    {
        self.ticks = Some(count);
    }

    /// Applies the edge-wrap rule to the player's own position, given the
    /// off-grid position that a move computed.
    pub fn move_over_edge(&mut self, map: &TileMap, edge_pos: [i32; 2])
        ensures
            *final(self) == (Player {
                position: spec_wrapped_position(old(self).position, edge_pos),
                ..*old(self)
            }),
    {
        let (edge_x, edge_y) = (edge_pos[0], edge_pos[1]);
        let (width, height) = (map.width() as i32, map.height() as i32);
        if edge_x == -1 {
            self.set_x(width - 1);
        } else if edge_x == width {
            self.set_x(0);
        }
        if edge_y == -1 {
            self.set_y(height - 1);
        } else if edge_y == height {
            self.set_y(0);
        }
        proof {
            let w = spec_wrapped_position(old(self).position, edge_pos);
            assert(self.position[0] == w[0]);
            assert(self.position[1] == w[1]);
            assert(self.position =~= w);
        }
    }

    /// Computes the signed unit offset of the map segment that an off-grid
    /// position crossed into.
    pub fn get_new_map_offset_from_edge(map: &TileMap, edge_pos: [i32; 2]) -> (r: [i32; 2])
        ensures
            r == spec_edge_offset(edge_pos),
    {
        let mut offset_x: i32 = 0;
        let mut offset_y: i32 = 0;
        let (edge_x, edge_y) = (edge_pos[0], edge_pos[1]);
        let (width, height) = (map.width() as i32, map.height() as i32);
        if edge_x == -1 {
            offset_x = -1;
        } else if edge_x == width {
            offset_x = 1;
        }
        if edge_y == -1 {
            offset_y = -1;
        } else if edge_y == height {
            offset_y = 1;
        }
        [offset_x, offset_y]
    }

    /// Emits the one-time greeting into the player's local message queue.
    pub fn on_create(&mut self)
        ensures
            final(self).messages@.len() == old(self).messages@.len() + 1,
            final(self).messages@.subrange(0, old(self).messages@.len() as int) == old(
                self,
            ).messages@,
            final(self).messages@.last().contents@ == "Welcome!"@,
            final(self).messages@.last().message_type == MessageType::Background,
            final(self).position == old(self).position,
            final(self).id == old(self).id,
            final(self).status == old(self).status,
            final(self).ticks == old(self).ticks,
    {
        let contents: String = "Welcome!".to_owned();
        self.messages.push(Message { contents, message_type: MessageType::Background });
        proof {
            assert(final(self).messages@.subrange(0, old(self).messages@.len() as int) =~= old(
                self,
            ).messages@);
        }
    }
}

impl Movable for Player {
    open spec fn spec_position(&self) -> [i32; 2] {
        self.position
    }

    fn move_toward(&mut self, dir: &MovementDirection)
        ensures
            *final(self) == (Player {
                position: spec_moved_position_i32(old(self).position, *dir, 1),
                ..*old(self)
            }),
    {
        self.position = crate::map_direction_to_position(self.position, dir, MOVEMENT_AMOUNT);
    }

    fn current_position(&self) -> (r: [i32; 2]) {
        self.position
    }

    fn set_x(&mut self, x: i32)
        ensures
            *final(self) == (Player { position: [x, old(self).position[1]], ..*old(self) }),
    {
        self.position = [x, self.position[1]];
    }

    fn set_y(&mut self, y: i32)
        ensures
            *final(self) == (Player { position: [old(self).position[0], y], ..*old(self) }),
    {
        self.position = [self.position[0], y];
    }
}

} // verus!
