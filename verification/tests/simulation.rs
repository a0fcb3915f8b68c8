//! The actor round pipeline: pursuit, snapshot isolation, status and
//! message draining, deferred spawns, map transitions and the fps counter.

use finniko::actor::{create, Actor, ActorInfo, ActorStatus, ActorType, BehaviorStyle};
use finniko::actors::player::Player;
use finniko::actors::soldier::Soldier;
use finniko::fps_counter::FpsCounter;
use finniko::game_controller::{ControllerStatus, GameController};
use finniko::map::TileMap;
use finniko::map_builder::MapBuilder;
use finniko::message::{Message, MessageType};
use finniko::sprite_info::SpriteKey;
use finniko::tile::TileType;
use finniko::{GameKey, GameState, InputEvent, MAP_HEIGHT, MAP_WIDTH};

fn player_actor(id: u128, x: i32, y: i32) -> Actor {
    Actor::Player(Player { position: [x, y], id, status: None, messages: Vec::new(), ticks: None })
}

fn soldier_actor(id: u128, x: i32, y: i32) -> Actor {
    Actor::Soldier(Soldier { position: [x, y], id, status: None, messages: Vec::new() })
}

fn state_with(actors: Vec<Actor>, player_id: u128) -> GameState {
    GameState {
        player_id,
        map: TileMap::new(),
        actors,
        items: Vec::new(),
        messages: Vec::new(),
        show_messages: true,
    }
}

fn position_of(actor: &Actor) -> [i32; 2] {
    match actor {
        Actor::Player(p) => p.position,
        Actor::Soldier(s) => s.position,
    }
}

#[test]
fn soldier_pursuit_one_step() {
    // soldier at (0,0), player at (3,0), nobody else nearby: the soldier
    // takes the first step along the line toward the player
    let mut soldier = Soldier { position: [0, 0], id: 2, status: None, messages: Vec::new() };
    let infos = vec![
        ActorInfo { id: 2, actor_type: ActorType::Soldier, position: [0, 0] },
        ActorInfo { id: 1, actor_type: ActorType::Player, position: [3, 0] },
    ];
    soldier.on_update(&infos);
    assert_eq!(soldier.position, [1, 0]);
}

#[test]
fn soldier_adjacent_to_player_stays() {
    let mut soldier = Soldier { position: [2, 0], id: 2, status: None, messages: Vec::new() };
    let infos = vec![ActorInfo { id: 1, actor_type: ActorType::Player, position: [3, 0] }];
    soldier.on_update(&infos);
    assert_eq!(soldier.position, [2, 0]);
}

#[test]
fn soldier_personal_space_blocks_step() {
    // another soldier sits within three tiles of the destination while being
    // farther than three tiles from the mover: the step is refused
    let mut soldier = Soldier { position: [2, 0], id: 2, status: None, messages: Vec::new() };
    let infos = vec![
        ActorInfo { id: 1, actor_type: ActorType::Player, position: [10, 0] },
        ActorInfo { id: 3, actor_type: ActorType::Soldier, position: [6, 0] },
    ];
    soldier.on_update(&infos);
    assert_eq!(soldier.position, [2, 0]);
}

#[test]
fn soldier_without_player_stays() {
    let mut soldier = Soldier { position: [4, 4], id: 2, status: None, messages: Vec::new() };
    let infos = vec![ActorInfo { id: 3, actor_type: ActorType::Soldier, position: [0, 0] }];
    soldier.on_update(&infos);
    assert_eq!(soldier.position, [4, 4]);
}

#[test]
fn snapshot_isolation_between_actors() {
    // table order: player, then A, then B.  A moves from (6,0) to (7,0)
    // during the round; B at (2,0) must still see A at (6,0), which blocks
    // B's step onto (3,0) under the personal-space rule.
    let state = state_with(
        vec![player_actor(1, 10, 0), soldier_actor(2, 6, 0), soldier_actor(3, 2, 0)],
        1,
    );
    let mut controller = GameController::new_with(state, MapBuilder::with_seed(1));
    controller.update(&InputEvent::Press(GameKey::NumPad0));
    assert_eq!(position_of(&controller.state.actors[1]), [7, 0]);
    assert_eq!(position_of(&controller.state.actors[2]), [2, 0]);
}

#[test]
fn status_consume_once() {
    let mut actor = Actor::Player(Player {
        position: [0, 0],
        id: 1,
        status: Some(ActorStatus::Quit),
        messages: Vec::new(),
        ticks: None,
    });
    assert!(matches!(actor.status(), Some(ActorStatus::Quit)));
    assert!(actor.status().is_none());
}

#[test]
fn spawn_takes_effect_after_the_round() {
    let state = state_with(vec![player_actor(1, 5, 5)], 1);
    let mut controller = GameController::new_with(state, MapBuilder::with_seed(1));
    // the spawn key only queues a status; no round runs yet
    controller.update(&InputEvent::Press(GameKey::F1));
    assert_eq!(controller.state.actors.len(), 1);
    // the next waiting turn runs one round: the spawn is requested during
    // the pass and applied after it
    controller.update(&InputEvent::Press(GameKey::NumPad0));
    assert_eq!(controller.state.actors.len(), 2);
    assert_eq!(position_of(&controller.state.actors[1]), [10, 10]);
    match &controller.state.actors[1] {
        Actor::Soldier(_) => {},
        _ => panic!("expected the spawned soldier"),
    }
    // the spawned soldier was not yet part of the round that spawned it: its
    // creation message reaches the shared log only with the following round
    let texts: Vec<String> =
        controller.get_messages(10).iter().map(|m| m.contents.clone()).collect();
    assert!(!texts.iter().any(|t| t.starts_with("Soldier was created!")));
    controller.update(&InputEvent::Press(GameKey::NumPad0));
    let texts: Vec<String> =
        controller.get_messages(10).iter().map(|m| m.contents.clone()).collect();
    assert!(texts.iter().any(|t| t.starts_with("Soldier was created!")));
}

#[test]
fn player_moves_and_simulation_follows() {
    let state = state_with(vec![player_actor(1, 5, 5), soldier_actor(2, 5, 1)], 1);
    let mut controller = GameController::new_with(state, MapBuilder::with_seed(1));
    controller.update(&InputEvent::Press(GameKey::NumPad6));
    // the player stepped east on open ground
    assert_eq!(position_of(&controller.state.actors[0]), [6, 5]);
    assert_eq!(controller.player_position, [6, 5]);
    // the soldier pursued for one round: one step south toward the player
    assert_eq!(position_of(&controller.state.actors[1]), [5, 2]);
}

#[test]
fn idle_events_change_nothing() {
    let state = state_with(vec![player_actor(1, 5, 5), soldier_actor(2, 0, 0)], 1);
    let mut controller = GameController::new_with(state, MapBuilder::with_seed(1));
    controller.update(&InputEvent::Other);
    assert_eq!(position_of(&controller.state.actors[0]), [5, 5]);
    assert_eq!(position_of(&controller.state.actors[1]), [0, 0]);
    assert!(controller.get_messages(10).is_empty());
}

#[test]
fn toggle_messages_applies_with_the_round() {
    let state = state_with(vec![player_actor(1, 5, 5)], 1);
    let mut controller = GameController::new_with(state, MapBuilder::with_seed(1));
    assert!(controller.should_show_messages());
    // the toggle key only queues the status; the flag flips with the next
    // simulated round
    controller.update(&InputEvent::Press(GameKey::Tab));
    assert!(controller.should_show_messages());
    controller.update(&InputEvent::Press(GameKey::NumPad0));
    assert!(!controller.should_show_messages());
}

#[test]
fn controller_status_is_polled_and_cleared() {
    let state = state_with(
        vec![
            Actor::Player(Player {
                position: [5, 5],
                id: 1,
                status: Some(ActorStatus::Resize([640, 480])),
                messages: Vec::new(),
                ticks: None,
            }),
        ],
        1,
    );
    let mut controller = GameController::new_with(state, MapBuilder::with_seed(1));
    assert!(controller.get_status().is_none());
    controller.update(&InputEvent::Press(GameKey::NumPad0));
    assert_eq!(controller.get_status(), Some(ControllerStatus::Resize(640, 480)));
    assert!(controller.get_status().is_none());
}

#[test]
fn edge_crossing_requests_adjoining_map() {
    let state = state_with(vec![player_actor(1, 0, 3)], 1);
    let mut controller = GameController::new_with(state, MapBuilder::with_seed(9));
    assert!(controller.map_request().is_none());
    controller.update(&InputEvent::Press(GameKey::NumPad4));
    // the player wrapped to the opposite edge
    assert_eq!(controller.player_position, [MAP_WIDTH - 1, 3]);
    // and the controller asks for the map one segment to the west
    assert_eq!(controller.map_request(), Some((9, [-1, 0])));
    // installing a generated map clears the request
    let markers = vec![false; (MAP_WIDTH * MAP_HEIGHT) as usize];
    controller.install_map(&markers);
    assert!(controller.map_request().is_none());
}

#[test]
fn installed_map_drives_tile_sprites() {
    let state = state_with(vec![player_actor(1, 0, 3)], 1);
    let mut controller = GameController::new_with(state, MapBuilder::with_seed(9));
    controller.update(&InputEvent::Press(GameKey::NumPad4));
    let mut markers = vec![false; (MAP_WIDTH * MAP_HEIGHT) as usize];
    // a wall face right next to the player's wrapped position
    let x = MAP_WIDTH - 2;
    markers[(3 * MAP_WIDTH + x) as usize] = true;
    controller.install_map(&markers);
    let sprites = controller.tile_sprite_at([x, 3]).unwrap();
    assert_eq!(sprites.len(), 1);
    assert_eq!(sprites[0].key, SpriteKey::WallFace);
    assert_eq!(sprites[0].color, [439, 498, 475, 100]);
}

#[test]
fn tile_sprites_fade_with_distance() {
    let state = state_with(vec![player_actor(1, 0, 0)], 1);
    let mut controller = GameController::new_with(state, MapBuilder::with_seed(1));
    // record the player position on the controller
    controller.update(&InputEvent::Other);
    assert_eq!(controller.player_position, [0, 0]);
    // near: the tile's own sprite only
    let near = controller.tile_sprite_at([2, 0]).unwrap();
    assert_eq!(near.len(), 1);
    assert_eq!(near[0].key, SpriteKey::Ground);
    assert_eq!(near[0].color, [525, 408, 290, 1000]);
    // in the falloff band: darkened by an overlay
    let half = controller.tile_sprite_at([7, 0]).unwrap();
    assert_eq!(half.len(), 2);
    assert_eq!(half[1].key, SpriteKey::Void);
    assert_eq!(half[1].color, [0, 0, 0, 500]);
    // far: only the void sprite
    let far = controller.tile_sprite_at([20, 0]).unwrap();
    assert_eq!(far.len(), 1);
    assert_eq!(far[0].key, SpriteKey::Void);
    assert_eq!(far[0].color, [0, 0, 0, 0]);
    // off the grid: a lookup error naming the position
    let err = controller.tile_sprite_at([-2, 0]).unwrap_err();
    assert_eq!(err.position, [-2, 0]);
}

#[test]
fn actor_sprites_pair_sprites_with_positions() {
    let state = state_with(vec![player_actor(1, 0, 0), soldier_actor(2, 2, 0)], 1);
    let mut controller = GameController::new_with(state, MapBuilder::with_seed(1));
    controller.update(&InputEvent::Other);
    let sprites = controller.actor_sprites();
    assert_eq!(sprites.len(), 2);
    assert_eq!(sprites[0].0.key, SpriteKey::Pc);
    assert_eq!(sprites[0].0.color, [141, 424, 376, 1000]);
    assert_eq!(sprites[0].1, [0, 0]);
    assert_eq!(sprites[1].0.key, SpriteKey::Mutant);
    assert_eq!(sprites[1].0.color, [937, 529, 0, 1000]);
    assert_eq!(sprites[1].1, [2, 0]);
}

#[test]
fn messages_come_newest_first_and_bounded() {
    let mut state = state_with(vec![player_actor(1, 5, 5)], 1);
    for i in 0..5 {
        state.messages.push(Message {
            contents: format!("note {}", i),
            message_type: MessageType::Normal,
        });
    }
    let controller = GameController::new_with(state, MapBuilder::with_seed(1));
    let recent = controller.get_messages(3);
    assert_eq!(recent.len(), 3);
    assert_eq!(recent[0].contents, "note 4");
    assert_eq!(recent[1].contents, "note 3");
    assert_eq!(recent[2].contents, "note 2");
    let all = controller.get_messages(50);
    assert_eq!(all.len(), 5);
}

#[test]
fn message_log_evicts_oldest_beyond_cap() {
    let mut state = state_with(vec![player_actor(1, 5, 5)], 1);
    for i in 0..200 {
        state.messages.push(Message {
            contents: format!("note {}", i),
            message_type: MessageType::Normal,
        });
    }
    // the player's creation hook leaves one more message to drain
    match &mut state.actors[0] {
        Actor::Player(p) => p.messages.push(Message {
            contents: String::from("Welcome!"),
            message_type: MessageType::Background,
        }),
        _ => unreachable!(),
    }
    let mut controller = GameController::new_with(state, MapBuilder::with_seed(1));
    controller.update(&InputEvent::Press(GameKey::NumPad0));
    let all = controller.get_messages(500);
    assert_eq!(all.len(), 200);
    assert_eq!(all[0].contents, "Welcome!");
    // the oldest entry was evicted
    assert_eq!(all[199].contents, "note 1");
}

#[test]
fn factory_creates_announced_actors() {
    let mut soldier = create(&ActorType::Soldier);
    assert_eq!(soldier.actor_type(), ActorType::Soldier);
    assert_eq!(soldier.current_position(), [0, 0]);
    assert!(soldier.visible());
    let id = soldier.id();
    let msgs = soldier.messages().unwrap();
    assert_eq!(msgs.len(), 1);
    assert_eq!(msgs[0].contents, format!("Soldier was created!  ID: {}", id));
    assert!(matches!(msgs[0].message_type, MessageType::Danger));
    // draining leaves the queue empty
    assert!(soldier.messages().unwrap().is_empty());

    let mut player = create(&ActorType::Player);
    assert_eq!(player.actor_type(), ActorType::Player);
    let msgs = player.messages().unwrap();
    assert_eq!(msgs.len(), 1);
    assert_eq!(msgs[0].contents, "Welcome!");
    let id = player.id();
    assert_eq!(player.init([3, 4], BehaviorStyle::Oblivious), Ok(id));
}

#[test]
fn fresh_identities_differ() {
    let a = create(&ActorType::Soldier);
    let b = create(&ActorType::Soldier);
    assert_ne!(a.id(), b.id());
}

#[test]
fn missing_player_leaves_sentinel_position() {
    // a state whose player identity matches no actor: the event is skipped
    // and the recorded player position falls back to the sentinel
    let state = state_with(vec![soldier_actor(2, 4, 4)], 1);
    let mut controller = GameController::new_with(state, MapBuilder::with_seed(1));
    controller.update(&InputEvent::Press(GameKey::NumPad6));
    assert_eq!(controller.player_position, [-1, -1]);
    assert_eq!(position_of(&controller.state.actors[0]), [4, 4]);
}

#[test]
fn fps_counter_averages_frames() {
    let mut counter = FpsCounter::new();
    assert_eq!(counter.framerate(), 0);
    for _ in 0..20 {
        counter.tick();
    }
    // twenty immediate ticks: the average is well-defined or still zero,
    // but the call must never panic
    let _ = counter.framerate();
}

#[test]
fn player_walks_onto_fluid_ground() {
    // fluid floor is distinguished but passable: the player's step lands
    let mut state = state_with(vec![player_actor(1, 4, 5)], 1);
    state.map.set_at([5, 5], TileType::Floor(finniko::tile::FloorType::Water));
    let mut controller = GameController::new_with(state, MapBuilder::with_seed(1));
    controller.update(&InputEvent::Press(GameKey::NumPad6));
    assert_eq!(position_of(&controller.state.actors[0]), [5, 5]);
    assert_eq!(controller.player_position, [5, 5]);
}

#[test]
fn player_blocked_by_wall_stays_but_still_ticks() {
    let mut state = state_with(vec![player_actor(1, 4, 5), soldier_actor(2, 20, 5)], 1);
    state.map.set_at(
        [5, 5],
        TileType::Wall(finniko::tile::WallOrientation::Top, finniko::tile::WallType::Stone),
    );
    let mut controller = GameController::new_with(state, MapBuilder::with_seed(1));
    controller.update(&InputEvent::Press(GameKey::NumPad6));
    // the player stayed put, yet one simulation round ran: the soldier moved
    assert_eq!(position_of(&controller.state.actors[0]), [4, 5]);
    assert_eq!(position_of(&controller.state.actors[1]), [19, 5]);
}

#[test]
fn round_pass_alone_keeps_snapshot_isolation() {
    // the actor pass on its own: A moves during the pass, B still decides
    // against the snapshot taken at the pass's start
    let state = state_with(
        vec![player_actor(1, 10, 0), soldier_actor(2, 6, 0), soldier_actor(3, 2, 0)],
        1,
    );
    let mut controller = GameController::new_with(state, MapBuilder::with_seed(1));
    controller.update_actors();
    assert_eq!(position_of(&controller.state.actors[1]), [7, 0]);
    assert_eq!(position_of(&controller.state.actors[2]), [2, 0]);
}

#[test]
fn round_pass_defers_spawns_to_the_action_pass() {
    // a spawn drained during the actor pass only queues; the table grows
    // when the deferred actions are applied
    let state = state_with(
        vec![
            Actor::Player(Player {
                position: [5, 5],
                id: 1,
                status: Some(ActorStatus::SpawnActorAt(ActorType::Soldier, [10, 10])),
                messages: Vec::new(),
                ticks: None,
            }),
        ],
        1,
    );
    let mut controller = GameController::new_with(state, MapBuilder::with_seed(1));
    controller.update_actors();
    assert_eq!(controller.state.actors.len(), 1);
    controller.perform_actions();
    assert_eq!(controller.state.actors.len(), 2);
    assert_eq!(position_of(&controller.state.actors[1]), [10, 10]);
}

#[test]
fn event_pass_alone_moves_only_the_player() {
    let state = state_with(vec![player_actor(1, 5, 5), soldier_actor(2, 20, 5)], 1);
    let mut controller = GameController::new_with(state, MapBuilder::with_seed(1));
    controller.update_player(&InputEvent::Press(GameKey::NumPad6));
    assert_eq!(position_of(&controller.state.actors[0]), [6, 5]);
    // no round has run yet: the soldier has not reacted
    assert_eq!(position_of(&controller.state.actors[1]), [20, 5]);
}
