//! Stores and updates the game's current state: feeds input events to the
//! player, runs simulation rounds over a per-round snapshot of every actor,
//! applies deferred side effects after each round's pass, and answers the
//! rendering layer's visibility-limited queries.

use vstd::prelude::*;
use crate::actor::{
    spec_actor_info, spec_actor_sprite, spec_after_update, spec_creation_message_type,
    spec_creation_text, spec_ticks_of, Actor, ActorInfo, ActorStatus, ActorType,
};
use crate::actors::player::{spec_player_after_event, Player};
use crate::map_builder::MapBuilder;
use crate::message::Message;
use crate::sprite_info::{SpriteInfo, SpriteKey};
use crate::tile::{spec_tile_sprite, Tile};
use crate::visibility::{
    classify_visibility, ray_visible, spec_visibility_of, Visibility,
};
use crate::{GameState, InputEvent, Movable};

verus! {

/// The most messages the shared log retains; older entries are evicted from
/// the front.  The log is explicitly bounded so that a long session cannot
/// grow it without limit.
pub const MESSAGE_LOG_CAP: usize = 200;

/// Values that can be returned by a Controller in order to affect
/// the program flow.
#[derive(Clone, Copy, Debug, PartialEq, Eq, Structural)]
pub enum ControllerStatus {
    /// Indicates that the returning controller wishes to close
    /// the game window.
    Quit,
    /// Indicates that the returning controller wishes to resize the game
    /// window to the carried width and height.
    Resize(u32, u32),
}

/// Reports that no tile exists at the queried position.
#[derive(Clone, Copy, Debug, PartialEq, Eq)]
pub struct TileLookupError {
    /// The position that the failed query named.
    pub position: [i32; 2],
}

/// Stores and updates the game's current state.
pub struct GameController {
    /// The player's position as of the last processed event, or `[-1, -1]`
    /// when no player actor could be found.
    pub player_position: [i32; 2],
    /// The aggregate game state this controller drives.
    pub state: GameState,
    /// The pending one-shot controller status; polled and cleared through
    /// [`GameController::get_status`].
    pub status: Option<ControllerStatus>,
    /// The map builder this controller owns.
    pub map_builder: MapBuilder,
    /// Actors spawned during the current round's pass, waiting to be
    /// inserted once the pass completes.
    pub actions: Vec<Actor>,
    /// The number of simulation rounds still owed.
    pub ticks_to_perform: u32,
    /// Whether a freshly generated map is waiting to be installed.
    pub pending_map: bool,
}

/// The per-round snapshot: every actor's public state, in table order.
pub open spec fn spec_snapshot(actors: Seq<Actor>) -> Seq<ActorInfo> {
    Seq::new(actors.len(), |i: int| spec_actor_info(actors[i]))
}

/// How one actor comes out of a simulation round: it is its updated self
/// with the status and message queue drained.
pub open spec fn spec_round_actor(pre: Actor, post: Actor, snap: Seq<ActorInfo>) -> bool {
    let updated = spec_after_update(pre, snap);
    &&& post.spec_type() == updated.spec_type()
    &&& post.spec_id() == updated.spec_id()
    &&& post.spec_position() == updated.spec_position()
    &&& post.spec_status() is None
    &&& post.spec_messages().len() == 0
    &&& spec_ticks_of(post) == spec_ticks_of(updated)
}

/// All messages buffered by the given actors, in table order.
pub open spec fn spec_all_messages(actors: Seq<Actor>) -> Seq<Message>
    decreases actors.len(),
{
    if actors.len() == 0 {
        Seq::empty()
    } else {
        spec_all_messages(actors.drop_last()) + actors.last().spec_messages()
    }
}

/// Appends one message to the log, evicting the oldest entry when the log
/// would exceed its cap.
pub open spec fn spec_push_evict(log: Seq<Message>, m: Message) -> Seq<Message> {
    let l = log.push(m);
    if l.len() > MESSAGE_LOG_CAP as int {
        l.subrange(1, l.len() as int)
    } else {
        l
    }
}

/// Appends a batch of messages to the log in order, evicting from the front
/// as the cap demands.
pub open spec fn spec_append_log(log: Seq<Message>, msgs: Seq<Message>) -> Seq<Message>
    decreases msgs.len(),
{
    if msgs.len() == 0 {
        log
    } else {
        spec_push_evict(spec_append_log(log, msgs.drop_last()), msgs.last())
    }
}

/// How one drained actor status changes the one-shot controller status.
pub open spec fn spec_step_ctrl_status(
    cur: Option<ControllerStatus>,
    s: Option<ActorStatus>,
) -> Option<ControllerStatus> {
    match s {
        Some(ActorStatus::Resize(size)) => Some(ControllerStatus::Resize(size[0], size[1])),
        Some(ActorStatus::Quit) => Some(ControllerStatus::Quit),
        _ => cur,
    }
}

/// The controller status after draining every actor's status in order.
pub open spec fn spec_fold_ctrl_status(
    init: Option<ControllerStatus>,
    actors: Seq<Actor>,
) -> Option<ControllerStatus>
    decreases actors.len(),
{
    if actors.len() == 0 {
        init
    } else {
        spec_step_ctrl_status(
            spec_fold_ctrl_status(init, actors.drop_last()),
            actors.last().spec_status(),
        )
    }
}

/// The message-display flag after draining every actor's status in order.
pub open spec fn spec_fold_show(init: bool, actors: Seq<Actor>) -> bool
    decreases actors.len(),
{
    if actors.len() == 0 {
        init
    } else {
        let prev = spec_fold_show(init, actors.drop_last());
        if actors.last().spec_status() matches Some(ActorStatus::ToggleMessageVisibility) {
            !prev
        } else {
            prev
        }
    }
}

/// The map builder's world offset after draining every actor's status in
/// order: each map-load request advances it by the requested relative
/// offset.
pub open spec fn spec_fold_offset(init: [i32; 2], actors: Seq<Actor>) -> [i32; 2]
    decreases actors.len(),
{
    if actors.len() == 0 {
        init
    } else {
        let prev = spec_fold_offset(init, actors.drop_last());
        match actors.last().spec_status() {
            Some(ActorStatus::LoadMapAtRelativeOffset(o)) => [
                vstd::wrapping::i32_specs::wrapping_add(prev[0], o[0]),
                vstd::wrapping::i32_specs::wrapping_add(prev[1], o[1]),
            ],
            _ => prev,
        }
    }
}

/// Whether a new map must be generated after draining every actor's status.
pub open spec fn spec_fold_pending(init: bool, actors: Seq<Actor>) -> bool
    decreases actors.len(),
{
    if actors.len() == 0 {
        init
    } else {
        spec_fold_pending(init, actors.drop_last()) || (actors.last().spec_status()
            matches Some(ActorStatus::LoadMapAtRelativeOffset(_)))
    }
}

/// The spawn requests drained from the given actors, in table order.
pub open spec fn spec_spawn_requests(actors: Seq<Actor>) -> Seq<(ActorType, [i32; 2])>
    decreases actors.len(),
{
    if actors.len() == 0 {
        Seq::empty()
    } else {
        spec_spawn_requests(actors.drop_last()) + (match actors.last().spec_status() {
            Some(ActorStatus::SpawnActorAt(t, p)) => seq![(t, p)],
            _ => Seq::empty(),
        })
    }
}

/// `a` is a freshly constructed actor of type `t`, already moved to `pos`:
/// what a spawn request leaves in the deferred-action queue.
pub open spec fn is_spawned_actor(a: Actor, t: ActorType, pos: [i32; 2]) -> bool {
    &&& a.spec_type() == t
    &&& a.spec_position() == pos
    &&& a.spec_status() is None
    &&& spec_ticks_of(a) is None
    &&& a.spec_messages().len() == 1
    &&& a.spec_messages().last().contents@ == spec_creation_text(t, a.spec_id())
    &&& a.spec_messages().last().message_type == spec_creation_message_type(t)
}

/// The deferred-action queue grew by one freshly spawned actor per spawn
/// request, in request order, and kept its earlier entries.
pub open spec fn spawned_actions_ok(
    old_actions: Seq<Actor>,
    new_actions: Seq<Actor>,
    reqs: Seq<(ActorType, [i32; 2])>,
) -> bool {
    &&& new_actions.len() == old_actions.len() + reqs.len()
    &&& new_actions.subrange(0, old_actions.len() as int) == old_actions
    &&& forall|k: int|
        0 <= k < reqs.len() ==> is_spawned_actor(
            #[trigger] new_actions[old_actions.len() + k],
            reqs[k].0,
            reqs[k].1,
        )
}

/// The index of the first actor with the given identity, or `-1`.
pub open spec fn spec_find_actor_index(acts: Seq<Actor>, id: u128) -> int
    decreases acts.len(),
{
    if acts.len() == 0 {
        -1
    } else if acts[0].spec_id() == id {
        0
    } else {
        let r = spec_find_actor_index(acts.drop_first(), id);
        if r < 0 {
            -1
        } else {
            r + 1
        }
    }
}

/// The concrete player behind a player-variant actor.
pub open spec fn spec_as_player(a: Actor) -> Player {
    match a {
        Actor::Player(p) => p,
        Actor::Soldier(_) => arbitrary(),
    }
}

/// Inserting an actor into the table: an actor with the same identity is
/// replaced in place; otherwise the new actor is appended.
pub open spec fn spec_insert_actor(acts: Seq<Actor>, a: Actor) -> Seq<Actor> {
    let idx = spec_find_actor_index(acts, a.spec_id());
    if idx >= 0 {
        acts.update(idx, a)
    } else {
        acts.push(a)
    }
}

/// The actor table after inserting every queued action in order.
pub open spec fn spec_apply_actions(acts: Seq<Actor>, actions: Seq<Actor>) -> Seq<Actor>
    decreases actions.len(),
{
    if actions.len() == 0 {
        acts
    } else {
        spec_insert_actor(spec_apply_actions(acts, actions.drop_last()), actions.last())
    }
}

/// Saturating addition on round counters.
pub open spec fn spec_saturating_add_u32(a: u32, b: int) -> u32 {
    if a + b > u32::MAX as int {
        u32::MAX
    } else {
        (a + b) as u32
    }
}

/// How processing one input event changes the controller before any
/// simulation rounds run: the player actor, if present under the stored
/// identity, processes the event, its requested rounds are added to the
/// round counter, and the controller's record of the player position is
/// refreshed — or set to the sentinel `[-1, -1]` when no player was found.
pub open spec fn spec_update_player_rel(
    pre: GameController,
    post: GameController,
    event: InputEvent,
) -> bool {
    let acts = pre.state.actors@;
    let idx = spec_find_actor_index(acts, pre.state.player_id);
    &&& post.state.map == pre.state.map
    &&& post.state.player_id == pre.state.player_id
    &&& post.state.items@ == pre.state.items@
    &&& post.state.messages@ == pre.state.messages@
    &&& post.state.show_messages == pre.state.show_messages
    &&& post.spec_status_field() == pre.spec_status_field()
    &&& post.spec_builder() == pre.spec_builder()
    &&& post.spec_actions() == pre.spec_actions()
    &&& post.spec_pending_map() == pre.spec_pending_map()
    &&& if 0 <= idx < acts.len() && (acts[idx] matches Actor::Player(_)) {
        let p2 = spec_player_after_event(spec_as_player(acts[idx]), event, pre.state.map@);
        &&& post.state.actors@ == acts.update(idx, Actor::Player(Player { ticks: None, ..p2 }))
        &&& post.spec_ticks_field() == spec_saturating_add_u32(
            pre.spec_ticks_field(),
            match p2.ticks {
                Some(n) => n as int,
                None => 0,
            },
        )
        &&& post.player_position == p2.position
    } else {
        &&& post.state.actors@ == acts
        &&& post.spec_ticks_field() == pre.spec_ticks_field()
        &&& post.player_position == [-1i32, -1i32]
    }
}

/// How one simulation round's actor pass changes the controller: every
/// actor is updated against one snapshot taken at the round's start, the
/// drained messages extend the shared log in order, the drained statuses
/// fold into the controller status, the display flag, the map builder's
/// offset, the pending-map flag and the deferred spawn queue — and nothing
/// else changes; in particular the actor table neither grows nor shrinks.
pub open spec fn spec_update_actors_rel(pre: GameController, post: GameController) -> bool {
    let acts = pre.state.actors@;
    let snap = spec_snapshot(acts);
    &&& post.state.actors@.len() == acts.len()
    &&& forall|j: int|
        0 <= j < acts.len() ==> spec_round_actor(acts[j], #[trigger] post.state.actors@[j], snap)
    &&& post.state.messages@ == spec_append_log(pre.state.messages@, spec_all_messages(acts))
    &&& post.state.show_messages == spec_fold_show(pre.state.show_messages, acts)
    &&& post.spec_status_field() == spec_fold_ctrl_status(pre.spec_status_field(), acts)
    &&& post.spec_builder().seed() == pre.spec_builder().seed()
    &&& post.spec_builder().current_offset() == spec_fold_offset(
        pre.spec_builder().current_offset(),
        acts,
    )
    &&& post.spec_pending_map() == spec_fold_pending(pre.spec_pending_map(), acts)
    &&& spawned_actions_ok(pre.spec_actions(), post.spec_actions(), spec_spawn_requests(acts))
    &&& post.state.map == pre.state.map
    &&& post.state.player_id == pre.state.player_id
    &&& post.state.items@ == pre.state.items@
    &&& post.player_position == pre.player_position
    &&& post.spec_ticks_field() == pre.spec_ticks_field()
}

/// How applying the deferred actions changes the controller: the queued
/// actors are inserted into the table in order, the queue empties, and
/// nothing else changes.
pub open spec fn spec_perform_actions_rel(pre: GameController, post: GameController) -> bool {
    &&& post.state.actors@ == spec_apply_actions(pre.state.actors@, pre.spec_actions())
    &&& post.spec_actions().len() == 0
    &&& post.state.map == pre.state.map
    &&& post.state.player_id == pre.state.player_id
    &&& post.state.items@ == pre.state.items@
    &&& post.state.messages@ == pre.state.messages@
    &&& post.state.show_messages == pre.state.show_messages
    &&& post.spec_status_field() == pre.spec_status_field()
    &&& post.spec_builder() == pre.spec_builder()
    &&& post.spec_pending_map() == pre.spec_pending_map()
    &&& post.player_position == pre.player_position
    &&& post.spec_ticks_field() == pre.spec_ticks_field()
}

/// One full simulation round: the actor pass followed by the deferred
/// action pass.
pub open spec fn spec_round_rel(pre: GameController, post: GameController) -> bool {
    exists|mid: GameController|
        #[trigger] spec_update_actors_rel(pre, mid) && spec_perform_actions_rel(mid, post)
}

/// `n` simulation rounds in sequence.
pub open spec fn spec_rounds_rel(pre: GameController, post: GameController, n: int) -> bool
    decreases n,
{
    if n <= 0 {
        post == pre
    } else {
        exists|mid: GameController|
            #[trigger] spec_round_rel(pre, mid) && spec_rounds_rel(mid, post, n - 1)
    }
}

/// A chain of rounds extends by one round at its end.
proof fn lemma_rounds_rel_snoc(a: GameController, m: GameController, b: GameController, n: int)
    requires
        n >= 0,
        spec_rounds_rel(a, m, n),
        spec_round_rel(m, b),
    ensures
        spec_rounds_rel(a, b, n + 1),
    decreases n,
{
    if n <= 0 {
        assert(m == a);
        assert(spec_round_rel(a, b) && spec_rounds_rel(b, b, 0));
    } else {
        let m1 = choose|m1: GameController|
            #[trigger] spec_round_rel(a, m1) && spec_rounds_rel(m1, m, n - 1);
        lemma_rounds_rel_snoc(m1, m, b, n - 1);
    }
}

impl GameController {
    /// The pending one-shot controller status.
    pub open spec fn spec_status_field(&self) -> Option<ControllerStatus> {
        self.status
    }

    /// The map builder this controller owns.
    pub open spec fn spec_builder(&self) -> MapBuilder {
        self.map_builder
    }

    /// The queue of deferred spawn actions.
    pub open spec fn spec_actions(&self) -> Seq<Actor> {
        self.actions@
    }

    /// The number of simulation rounds still owed.
    pub open spec fn spec_ticks_field(&self) -> u32 {
        self.ticks_to_perform
    }

    /// Whether a freshly generated map is waiting to be installed.
    pub open spec fn spec_pending_map(&self) -> bool {
        self.pending_map
    }

    /// Creates and returns an instance of the GameController struct with a
    /// default state: a blank map, a freshly seeded builder, and a pending
    /// request for the first generated terrain.
    pub fn new() -> (r: GameController)
        ensures
            r.state.map@ == crate::map::spec_default_tiles(),
            r.state.actors@.len() == 1,
            r.state.actors@[0].spec_type() == ActorType::Player,
            r.state.actors@[0].spec_id() == r.state.player_id,
            r.state.messages@.len() == 0,
            r.state.items@.len() == 0,
            r.state.show_messages == true,
            r.spec_status_field() is None,
            r.spec_actions().len() == 0,
            r.spec_ticks_field() == 0,
            r.spec_pending_map() == true,
            r.spec_builder().current_offset() == [0i32, 0i32],
            r.player_position == [-1i32, -1i32],
    {
        let mut map_builder = MapBuilder::new();
        let no_markers: Vec<bool> = Vec::new();
        let state = GameState::new(&mut map_builder, &no_markers);
        proof {
            assert(state.map@ =~= crate::map::spec_default_tiles());
        }
        let mut c = GameController::new_with(state, map_builder);
        c.pending_map = true;
        c
    }

    /// Creates and returns an instance of the GameController struct with
    /// its `state` field containing the provided GameState instance.
    pub fn new_with(state: GameState, map_builder: MapBuilder) -> (r: GameController)
        ensures
            r.player_position == [-1i32, -1i32],
            r.state == state,
            r.spec_status_field() is None,
            r.spec_builder() == map_builder,
            r.spec_actions().len() == 0,
            r.spec_ticks_field() == 0,
            r.spec_pending_map() == false,
    {
        GameController {
            player_position: [-1, -1],
            state,
            status: None,
            map_builder,
            actions: Vec::new(),
            ticks_to_perform: 0,
            pending_map: false,
        }
    }

    /// Indicates to the view whether or not it should display the message
    /// queue to the player.
    pub fn should_show_messages(&self) -> (r: bool)
        ensures
            r == self.state.show_messages,
    {
        self.state.show_messages
    }

    /// Returns a reference to the current status of the controller,
    /// indicating whether it needs to affect the program flow in some way;
    /// the status is cleared by the call.
    pub fn get_status(&mut self) -> (r: Option<ControllerStatus>)
        ensures
            r == old(self).spec_status_field(),
            final(self).spec_status_field() is None,
            final(self).state == old(self).state,
            final(self).player_position == old(self).player_position,
            final(self).spec_builder() == old(self).spec_builder(),
            final(self).spec_actions() == old(self).spec_actions(),
            final(self).spec_ticks_field() == old(self).spec_ticks_field(),
            final(self).spec_pending_map() == old(self).spec_pending_map(),
    {
        let s = self.status;
        self.status = None;
        s
    }

    /// Reports the seed and world offset for which the terrain collaborator
    /// must produce wall markers, when a new map is waiting to be generated.
    pub fn map_request(&self) -> (r: Option<(u32, [i32; 2])>)
        ensures
            r == if self.spec_pending_map() {
                Some((self.spec_builder().seed(), self.spec_builder().current_offset()))
            } else {
                None::<(u32, [i32; 2])>
            },
    {
        if self.pending_map {
            Some((self.map_builder.get_seed(), self.map_builder.get_current_offset()))
        } else {
            None
        }
    }

    /// Returns the world points to sample for a pending map request, one
    /// per cell in row-major order.
    pub fn sample_points(&self) -> (r: Vec<(i64, i64)>)
        ensures
            r@.len() == crate::map::grid_size(),
            forall|i: int|
                0 <= i < crate::map::grid_size() ==> (#[trigger] r@[i]).0
                    == crate::map_builder::spec_sample_point(
                    self.spec_builder().current_offset(),
                    i,
                ).0 && r@[i].1 == crate::map_builder::spec_sample_point(
                    self.spec_builder().current_offset(),
                    i,
                ).1,
    {
        self.map_builder.sample_points()
    }

    /// Installs the map built from the collaborator's wall markers, if one
    /// was pending; otherwise leaves everything unchanged.
    pub fn install_map(&mut self, markers: &Vec<bool>)
        ensures
            old(self).spec_pending_map() ==> {
                &&& final(self).state.map@.len() == crate::map::grid_size()
                &&& forall|i: int|
                    0 <= i < crate::map::grid_size() ==> (#[trigger] final(self).state.map@[i])
                        == (Tile {
                        tile_type: crate::map_builder::spec_fixed_tile_type(markers@, i),
                        position: crate::map::index_position(i),
                    })
                &&& final(self).spec_pending_map() == false
            },
            !old(self).spec_pending_map() ==> final(self).state.map == old(self).state.map
                && final(self).spec_pending_map() == false,
            final(self).state.player_id == old(self).state.player_id,
            final(self).state.actors@ == old(self).state.actors@,
            final(self).state.items@ == old(self).state.items@,
            final(self).state.messages@ == old(self).state.messages@,
            final(self).state.show_messages == old(self).state.show_messages,
            final(self).player_position == old(self).player_position,
            final(self).spec_status_field() == old(self).spec_status_field(),
            final(self).spec_builder() == old(self).spec_builder(),
            final(self).spec_actions() == old(self).spec_actions(),
            final(self).spec_ticks_field() == old(self).spec_ticks_field(),
    {
        if self.pending_map {
            self.state.map = self.map_builder.create(markers);
            self.pending_map = false;
        }
    }

    /// Returns a collection of the most recent messages, newest first, at
    /// most `count` of them.
    pub fn get_messages(&self, count: usize) -> (r: Vec<Message>)
        ensures
            r@.len() == if count as int <= self.state.messages@.len() {
                count as int
            } else {
                self.state.messages@.len() as int
            },
            forall|k: int|
                0 <= k < r@.len() ==> (#[trigger] r@[k]).contents@ == self.state.messages@[
                self.state.messages@.len() - 1 - k].contents@ && r@[k].message_type
                    == self.state.messages@[self.state.messages@.len() - 1 - k].message_type,
    {
        let mut r: Vec<Message> = Vec::new();
        let total = self.state.messages.len();
        let mut k: usize = 0;
        while k < count && k < total
            invariant
                total == self.state.messages@.len(),
                k <= total,
                k <= count,
                r@.len() == k as int,
                forall|j: int|
                    0 <= j < k as int ==> (#[trigger] r@[j]).contents@ == self.state.messages@[
                    total as int - 1 - j].contents@ && r@[j].message_type == self.state.messages@[
                    total as int - 1 - j].message_type,
            decreases count - k,
        {
            let m = &self.state.messages[total - 1 - k];
            r.push(Message { contents: m.contents.clone(), message_type: m.message_type });
            k = k + 1;
        }
        r
    }

    /// Classifies the visibility of a position relative to the player's
    /// recorded position.
    fn within_player_view(&self, position: [i32; 2]) -> (r: Visibility)
        ensures
            r == spec_visibility_of(self.state.map@, self.player_position, position),
    {
        let (unobscured, distance) = ray_visible(&self.state.map, self.player_position, position);
        classify_visibility(unobscured, distance)
    }

    /// The sprites that render one base sprite under the given visibility:
    /// the sprite alone, the sprite under a darkening overlay, or only the
    /// void sprite.
    fn sprites_for_visibility(visibility: Visibility, sprite: SpriteInfo) -> (r: Vec<SpriteInfo>)
        ensures
            r@ == spec_sprite_stack(visibility, sprite),
    {
        let mut v: Vec<SpriteInfo> = Vec::new();
        match visibility {
            Visibility::Full => {
                v.push(sprite);
            },
            Visibility::Half => {
                v.push(sprite);
                v.push(SpriteInfo { key: SpriteKey::Void, color: [0, 0, 0, 500] });
            },
            Visibility::Invisible => {
                v.push(SpriteInfo { key: SpriteKey::Void, color: [0, 0, 0, 0] });
            },
        }
        proof {
            assert(v@ =~= spec_sprite_stack(visibility, sprite));
        }
        v
    }

    /// The sprites to draw for a base sprite at a position, given how
    /// visible that position currently is.
    fn get_sprite_at_distance(&self, position: [i32; 2], sprite: SpriteInfo) -> (r: Vec<SpriteInfo>)
        ensures
            r@ == spec_sprite_stack(
                spec_visibility_of(self.state.map@, self.player_position, position),
                sprite,
            ),
    {
        let visibility = self.within_player_view(position);
        GameController::sprites_for_visibility(visibility, sprite)
    }

    /// Returns the sprites for the tile at the specified position, subject
    /// to the player's field of view, or a lookup error for a position
    /// outside the grid.
    pub fn tile_sprite_at(&self, position: [i32; 2]) -> (r: Result<Vec<SpriteInfo>, TileLookupError>)
        ensures
            match crate::map::spec_lookup(self.state.map@, position) {
                Some(tile) => r matches Ok(v) && v@ == spec_sprite_stack(
                    spec_visibility_of(self.state.map@, self.player_position, tile.position),
                    spec_tile_sprite(tile.tile_type),
                ),
                None => r matches Err(e) && e.position == position,
            },
    {
        if let Some(tile) = self.state.map.get_at(position) {
            Ok(self.get_sprite_at_distance(tile.position, tile.sprite_components()))
        } else {
            Err(TileLookupError { position })
        }
    }

    /// Returns every actor's sprites paired with its position, subject to
    /// the player's field of view, in table order.
    pub fn actor_sprites(&self) -> (r: Vec<(SpriteInfo, [i32; 2])>)
        ensures
            r@ == spec_actor_sprites(
                self.state.map@,
                self.player_position,
                self.state.actors@,
            ),
    {
        let mut sprite_positions: Vec<(SpriteInfo, [i32; 2])> = Vec::new();
        let mut i: usize = 0;
        while i < self.state.actors.len()
            invariant
                i <= self.state.actors@.len(),
                sprite_positions@ == spec_actor_sprites(
                    self.state.map@,
                    self.player_position,
                    self.state.actors@.subrange(0, i as int),
                ),
            decreases self.state.actors@.len() - i,
        {
            let actor = &self.state.actors[i];
            let position = actor.current_position();
            let sprites = self.get_sprite_at_distance(position, actor.sprite_components());
            let mut s: usize = 0;
            while s < sprites.len()
                invariant
                    s <= sprites@.len(),
                    sprite_positions@.len() == spec_actor_sprites(
                        self.state.map@,
                        self.player_position,
                        self.state.actors@.subrange(0, i as int),
                    ).len() + s as int,
                    i < self.state.actors@.len(),
                    position == self.state.actors@[i as int].spec_position(),
                    sprites@ == spec_sprite_stack(
                        spec_visibility_of(self.state.map@, self.player_position, position),
                        spec_actor_sprite(self.state.actors@[i as int].spec_type()),
                    ),
                    sprite_positions@ == spec_actor_sprites(
                        self.state.map@,
                        self.player_position,
                        self.state.actors@.subrange(0, i as int),
                    ) + spec_pair_with(sprites@.subrange(0, s as int), position),
                decreases sprites@.len() - s,
            {
                sprite_positions.push((sprites[s], position));
                proof {
                    assert(spec_pair_with(sprites@.subrange(0, s as int), position).push(
                        (sprites@[s as int], position),
                    ) =~= spec_pair_with(sprites@.subrange(0, s as int + 1), position));
                    assert(sprite_positions@ =~= spec_actor_sprites(
                        self.state.map@,
                        self.player_position,
                        self.state.actors@.subrange(0, i as int),
                    ) + spec_pair_with(sprites@.subrange(0, s as int + 1), position));
                }
                s = s + 1;
            }
            proof {
                let prefix = self.state.actors@.subrange(0, i as int + 1);
                assert(prefix.drop_last() =~= self.state.actors@.subrange(0, i as int));
                assert(prefix.last() == self.state.actors@[i as int]);
                assert(sprites@.subrange(0, sprites@.len() as int) =~= sprites@);
                assert(sprite_positions@ =~= spec_actor_sprites(
                    self.state.map@,
                    self.player_position,
                    prefix,
                ));
            }
            i = i + 1;
        }
        proof {
            assert(self.state.actors@.subrange(0, self.state.actors@.len() as int)
                =~= self.state.actors@);
        }
        sprite_positions
    }
}

/// Each sprite of the stack paired with one position.
pub open spec fn spec_pair_with(s: Seq<SpriteInfo>, pos: [i32; 2]) -> Seq<(SpriteInfo, [i32; 2])> {
    Seq::new(s.len(), |i: int| (s[i], pos))
}

/// The sprites that render one base sprite under the given visibility.
pub open spec fn spec_sprite_stack(v: Visibility, sprite: SpriteInfo) -> Seq<SpriteInfo> {
    match v {
        Visibility::Full => seq![sprite],
        Visibility::Half => seq![
            sprite,
            SpriteInfo { key: SpriteKey::Void, color: [0u16, 0u16, 0u16, 500u16] },
        ],
        Visibility::Invisible => seq![
            SpriteInfo { key: SpriteKey::Void, color: [0u16, 0u16, 0u16, 0u16] },
        ],
    }
}

/// The sprite-and-position pairs for every actor, in table order.
pub open spec fn spec_actor_sprites(
    tiles: Seq<Tile>,
    player_position: [i32; 2],
    actors: Seq<Actor>,
) -> Seq<(SpriteInfo, [i32; 2])>
    decreases actors.len(),
{
    if actors.len() == 0 {
        Seq::empty()
    } else {
        spec_actor_sprites(tiles, player_position, actors.drop_last()) + spec_pair_with(
            spec_sprite_stack(
                spec_visibility_of(tiles, player_position, actors.last().spec_position()),
                spec_actor_sprite(actors.last().spec_type()),
            ),
            actors.last().spec_position(),
        )
    }
}

/// If no actor among the first `i` carries `id`, the search outcome is
/// decided at or past `i`: at `i` itself when `i` holds the identity, and
/// nowhere when the table is exhausted.
proof fn lemma_find_prefix(acts: Seq<Actor>, id: u128, i: int)
    requires
        0 <= i <= acts.len(),
        forall|k: int| 0 <= k < i ==> (#[trigger] acts[k]).spec_id() != id,
    ensures
        i == acts.len() ==> spec_find_actor_index(acts, id) == -1,
        (i < acts.len() && acts[i].spec_id() == id) ==> spec_find_actor_index(acts, id) == i,
    decreases i,
{
    if i == 0 {
    } else {
        assert(acts[0].spec_id() != id);
        let rest = acts.drop_first();
        assert(forall|k: int| 0 <= k < i - 1 ==> (#[trigger] rest[k]).spec_id() != id);
        lemma_find_prefix(rest, id, i - 1);
    }
}

/// Appending messages in two batches appends their concatenation.
proof fn lemma_append_log_concat(log: Seq<Message>, a: Seq<Message>, b: Seq<Message>)
    ensures
        spec_append_log(log, a + b) == spec_append_log(spec_append_log(log, a), b),
    decreases b.len(),
{
    if b.len() == 0 {
        assert(a + b =~= a);
    } else {
        assert((a + b).drop_last() =~= a + b.drop_last());
        assert((a + b).last() == b.last());
        lemma_append_log_concat(log, a, b.drop_last());
    }
}

/// Inserts an actor into the table: an entry with the same identity is
/// replaced in place, and otherwise the actor is appended at the end.
fn insert_actor(actors: &mut Vec<Actor>, actor: Actor)
    ensures
        final(actors)@ == spec_insert_actor(old(actors)@, actor),
{
    let id = actor.id();
    let n = actors.len();
    let mut found_idx: Option<usize> = None;
    let mut idx: usize = 0;
    while idx < n
        invariant
            n == actors@.len(),
            idx <= n,
            found_idx is None ==> forall|k: int|
                0 <= k < idx as int ==> (#[trigger] actors@[k]).spec_id() != id,
            found_idx matches Some(fi) ==> fi < idx && actors@[fi as int].spec_id() == id
                && forall|k: int| 0 <= k < fi as int ==> (#[trigger] actors@[k]).spec_id() != id,
        decreases n - idx,
    {
        if found_idx.is_none() && actors[idx].id() == id {
            found_idx = Some(idx);
        }
        idx = idx + 1;
    }
    match found_idx {
        Some(fi) => {
            proof {
                lemma_find_prefix(actors@, id, fi as int);
            }
            actors.set(fi, actor);
        },
        None => {
            proof {
                lemma_find_prefix(actors@, id, n as int);
            }
            actors.push(actor);
        },
    }
}

/// Appends a batch of drained messages to the shared log in order, evicting
/// the oldest entries beyond the log's cap.
fn append_to_log(log: &mut Vec<Message>, msgs: Vec<Message>)
    ensures
        final(log)@ == spec_append_log(old(log)@, msgs@),
{
    let ghost msgs0 = msgs@;
    let ghost log0 = log@;
    let mut msgs = msgs;
    let total = msgs.len();
    proof {
        assert(msgs0.len() == total as int);
    }
    let mut consumed: usize = 0;
    while msgs.len() > 0
        invariant
            msgs0.len() <= usize::MAX as int,
            consumed as int + msgs@.len() == msgs0.len(),
            msgs@ == msgs0.subrange(consumed as int, msgs0.len() as int),
            log@ == spec_append_log(log0, msgs0.subrange(0, consumed as int)),
        decreases msgs.len(),
    {
        let m = msgs.remove(0);
        proof {
            assert(m == msgs0[consumed as int]);
        }
        log.push(m);
        if log.len() > MESSAGE_LOG_CAP {
            log.remove(0);
        }
        proof {
            let prefix = msgs0.subrange(0, consumed as int);
            let prefix1 = msgs0.subrange(0, consumed as int + 1);
            assert(prefix1.drop_last() =~= prefix);
            assert(prefix1.last() == msgs0[consumed as int]);
            assert(log@ =~= spec_append_log(log0, prefix1));
            assert(msgs@ =~= msgs0.subrange(consumed as int + 1, msgs0.len() as int));
        }
        consumed = consumed + 1;
    }
    proof {
        assert(msgs0.subrange(0, msgs0.len() as int) =~= msgs0);
    }
}

impl GameController {
    /// Feeds one input event to the player actor, records the player's
    /// position, and adds the rounds the player asks for to the round
    /// counter.  [`GameController::update`] composes this with the rounds
    /// it requests; it is public so that the event pass can be exercised on
    /// its own.
    pub fn update_player(&mut self, event: &InputEvent)
        ensures
            spec_update_player_rel(*old(self), *final(self), *event),
    {
        let ghost pre = *self;
        let id = self.state.player_id;
        let n = self.state.actors.len();
        let mut found_idx: Option<usize> = None;
        let mut scan: usize = 0;
        while scan < n
            invariant
                *self == pre,
                n == self.state.actors@.len(),
                id == self.state.player_id,
                scan <= n,
                found_idx is None ==> forall|k: int|
                    0 <= k < scan as int ==> (#[trigger] self.state.actors@[k]).spec_id() != id,
                found_idx matches Some(fi) ==> fi < scan && self.state.actors@[fi as int].spec_id()
                    == id && forall|k: int|
                    0 <= k < fi as int ==> (#[trigger] self.state.actors@[k]).spec_id() != id,
            decreases n - scan,
        {
            if found_idx.is_none() && self.state.actors[scan].id() == id {
                found_idx = Some(scan);
            }
            scan = scan + 1;
        }
        let idx = match found_idx {
            Some(fi) => {
                proof {
                    lemma_find_prefix(self.state.actors@, id, fi as int);
                }
                fi
            },
            None => {
                proof {
                    lemma_find_prefix(self.state.actors@, id, n as int);
                }
                self.player_position = [-1, -1];
                return ;
            },
        };
        let actor = self.state.actors.remove(idx);
        match actor {
            Actor::Player(mut p) => {
                p.event_update(event, &self.state.map);
                let ticks = p.ticks();
                let position = p.current_position();
                self.state.actors.insert(idx, Actor::Player(p));
                if let Some(count) = ticks {
                    self.ticks_to_perform = self.ticks_to_perform.saturating_add(count);
                }
                self.player_position = position;
                proof {
                    let p2 = spec_player_after_event(
                        spec_as_player(pre.state.actors@[idx as int]),
                        *event,
                        pre.state.map@,
                    );
                    assert(self.state.actors@ =~= pre.state.actors@.update(
                        idx as int,
                        Actor::Player(Player { ticks: None, ..p2 }),
                    ));
                }
            },
            other => {
                self.state.actors.insert(idx, other);
                self.player_position = [-1, -1];
                proof {
                    assert(self.state.actors@ =~= pre.state.actors@);
                }
            },
        }
    }

    /// Runs one simulation round's actor pass: snapshots every actor,
    /// updates each against that one snapshot, and drains their messages
    /// and statuses into the shared log and the controller's side effects;
    /// spawn requests only queue — they join the table after the pass.
    /// [`GameController::update`] composes this with the action pass; it is
    /// public so that one round's pass can be exercised on its own.
    pub fn update_actors(&mut self)
        ensures
            spec_update_actors_rel(*old(self), *final(self)),
    {
        let ghost pre = *self;
        // build cache of actor info
        let mut actor_info: Vec<ActorInfo> = Vec::new();
        let n = self.state.actors.len();
        let mut i: usize = 0;
        while i < n
            invariant
                *self == pre,
                n == self.state.actors@.len(),
                i <= n,
                actor_info@.len() == i as int,
                forall|j: int|
                    0 <= j < i as int ==> actor_info@[j] == spec_actor_info(
                        #[trigger] self.state.actors@[j],
                    ),
            decreases n - i,
        {
            actor_info.push(ActorInfo::new(&self.state.actors[i]));
            i = i + 1;
        }
        proof {
            assert(actor_info@ =~= spec_snapshot(pre.state.actors@));
        }
        // take the table out and update the actors one at a time
        let mut remaining: Vec<Actor> = Vec::new();
        core::mem::swap(&mut remaining, &mut self.state.actors);
        let ghost acts0 = remaining@;
        proof {
            assert(acts0.subrange(0, 0) =~= Seq::<Actor>::empty());
            assert(self.actions@.subrange(0, pre.actions@.len() as int) =~= pre.actions@);
        }
        let mut done: Vec<Actor> = Vec::new();
        while remaining.len() > 0
            invariant
                acts0 == pre.state.actors@,
                actor_info@ == spec_snapshot(acts0),
                done@.len() + remaining@.len() == acts0.len(),
                remaining@ == acts0.subrange(done@.len() as int, acts0.len() as int),
                forall|j: int|
                    0 <= j < done@.len() ==> spec_round_actor(
                        acts0[j],
                        #[trigger] done@[j],
                        spec_snapshot(acts0),
                    ),
                self.state.messages@ == spec_append_log(
                    pre.state.messages@,
                    spec_all_messages(acts0.subrange(0, done@.len() as int)),
                ),
                self.state.show_messages == spec_fold_show(
                    pre.state.show_messages,
                    acts0.subrange(0, done@.len() as int),
                ),
                self.status == spec_fold_ctrl_status(
                    pre.status,
                    acts0.subrange(0, done@.len() as int),
                ),
                self.map_builder.seed() == pre.map_builder.seed(),
                self.map_builder.current_offset() == spec_fold_offset(
                    pre.map_builder.current_offset(),
                    acts0.subrange(0, done@.len() as int),
                ),
                self.pending_map == spec_fold_pending(
                    pre.pending_map,
                    acts0.subrange(0, done@.len() as int),
                ),
                spawned_actions_ok(
                    pre.actions@,
                    self.actions@,
                    spec_spawn_requests(acts0.subrange(0, done@.len() as int)),
                ),
                self.state.actors@.len() == 0,
                self.state.map == pre.state.map,
                self.state.player_id == pre.state.player_id,
                self.state.items@ == pre.state.items@,
                self.player_position == pre.player_position,
                self.ticks_to_perform == pre.ticks_to_perform,
            decreases remaining.len(),
        {
            let ghost dlen = done@.len() as int;
            let ghost prefix = acts0.subrange(0, dlen);
            let ghost prefix1 = acts0.subrange(0, dlen + 1);
            proof {
                assert(prefix1.drop_last() =~= prefix);
                assert(prefix1.last() == acts0[dlen]);
            }
            let mut actor = remaining.remove(0);
            proof {
                assert(actor == acts0[dlen]);
                assert(remaining@ =~= acts0.subrange(dlen + 1, acts0.len() as int));
            }
            // update against the round's one snapshot
            actor.on_update(&self.state.map, &actor_info);
            // retrieve messages
            if let Some(messages) = actor.messages() {
                proof {
                    lemma_append_log_concat(
                        pre.state.messages@,
                        spec_all_messages(prefix),
                        spec_after_update(acts0[dlen], spec_snapshot(acts0)).spec_messages(),
                    );
                }
                append_to_log(&mut self.state.messages, messages);
            }
            // process status
            if let Some(status) = actor.status() {
                match status {
                    ActorStatus::Resize(size) => {
                        self.status = Some(ControllerStatus::Resize(size[0], size[1]));
                    },
                    ActorStatus::LoadMapAtRelativeOffset(offset) => {
                        self.map_builder.advance_offset(offset);
                        self.pending_map = true;
                    },
                    ActorStatus::ToggleMessageVisibility => {
                        self.state.show_messages = !self.state.show_messages;
                    },
                    ActorStatus::SpawnActorAt(actor_type, position) => {
                        let mut spawned = crate::actor::create(&actor_type);
                        spawned.set_x(position[0]);
                        spawned.set_y(position[1]);
                        proof {
                            assert(spawned.spec_position() =~= position);
                        }
                        self.actions.push(spawned);
                    },
                    ActorStatus::Quit => {
                        self.status = Some(ControllerStatus::Quit);
                    },
                }
            }
            done.push(actor);
            proof {
                let snap = spec_snapshot(acts0);
                let updated = spec_after_update(acts0[dlen], snap);
                assert(spec_all_messages(prefix1) =~= spec_all_messages(prefix)
                    + acts0[dlen].spec_messages());
                assert(updated.spec_messages() == acts0[dlen].spec_messages());
                assert(updated.spec_status() == acts0[dlen].spec_status());
                assert(spawned_actions_ok(
                    pre.actions@,
                    self.actions@,
                    spec_spawn_requests(prefix1),
                )) by {
                    let reqs = spec_spawn_requests(prefix);
                    let reqs1 = spec_spawn_requests(prefix1);
                    match acts0[dlen].spec_status() {
                        Some(ActorStatus::SpawnActorAt(t, p)) => {
                            assert(reqs1 =~= reqs + seq![(t, p)]);
                            assert(self.actions@.subrange(0, pre.actions@.len() as int)
                                =~= pre.actions@);
                        },
                        _ => {
                            assert(reqs1 =~= reqs);
                        },
                    }
                }
            }
        }
        // the drained queue becomes the table again
        core::mem::swap(&mut done, &mut self.state.actors);
        proof {
            assert(acts0.subrange(0, acts0.len() as int) =~= acts0);
        }
    }

    /// Applies the deferred actions queued during the round's pass: each
    /// spawned actor joins the table, in emission order.
    /// [`GameController::update`] composes this with the actor pass; it is
    /// public so that the deferred-action pass can be exercised on its own.
    pub fn perform_actions(&mut self)
        ensures
            spec_perform_actions_rel(*old(self), *final(self)),
    {
        let ghost pre = *self;
        let mut pending: Vec<Actor> = Vec::new();
        core::mem::swap(&mut pending, &mut self.actions);
        let ghost actions0 = pending@;
        let total = pending.len();
        proof {
            assert(actions0.len() == total as int);
        }
        let mut consumed: usize = 0;
        while pending.len() > 0
            invariant
                actions0 == pre.actions@,
                actions0.len() <= usize::MAX as int,
                consumed as int + pending@.len() == actions0.len(),
                pending@ == actions0.subrange(consumed as int, actions0.len() as int),
                self.state.actors@ == spec_apply_actions(
                    pre.state.actors@,
                    actions0.subrange(0, consumed as int),
                ),
                self.actions@.len() == 0,
                self.state.map == pre.state.map,
                self.state.player_id == pre.state.player_id,
                self.state.items@ == pre.state.items@,
                self.state.messages@ == pre.state.messages@,
                self.state.show_messages == pre.state.show_messages,
                self.status == pre.status,
                self.map_builder == pre.map_builder,
                self.pending_map == pre.pending_map,
                self.player_position == pre.player_position,
                self.ticks_to_perform == pre.ticks_to_perform,
            decreases pending.len(),
        {
            let actor = pending.remove(0);
            proof {
                assert(actor == actions0[consumed as int]);
                assert(pending@ =~= actions0.subrange(consumed as int + 1, actions0.len() as int));
            }
            insert_actor(&mut self.state.actors, actor);
            proof {
                let prefix = actions0.subrange(0, consumed as int);
                let prefix1 = actions0.subrange(0, consumed as int + 1);
                assert(prefix1.drop_last() =~= prefix);
                assert(prefix1.last() == actions0[consumed as int]);
            }
            consumed = consumed + 1;
        }
        proof {
            assert(actions0.subrange(0, actions0.len() as int) =~= actions0);
        }
    }

    /// Performs game logic routines and alters the state of the controller
    /// based on one already-decoded input event: the player processes the
    /// event, and each round it asked for runs as a full actor pass
    /// followed by the deferred-action pass.
    pub fn update(&mut self, event: &InputEvent)
        ensures
            exists|mid: GameController|
                #[trigger] spec_update_player_rel(*old(self), mid, *event) && (if mid.ticks_to_perform
                    == 0 {
                    *final(self) == mid
                } else {
                    exists|done: GameController|
                        #[trigger] spec_rounds_rel(mid, done, mid.ticks_to_perform as int)
                            && *final(self) == (GameController { ticks_to_perform: 0u32, ..done })
                }),
    {
        self.update_player(event);
        let ghost mid = *self;
        if self.ticks_to_perform > 0 {
            let n = self.ticks_to_perform;
            let mut t: u32 = 0;
            while t < n
                invariant
                    t <= n,
                    spec_rounds_rel(mid, *self, t as int),
                decreases n - t,
            {
                let ghost before = *self;
                self.update_actors();
                let ghost between = *self;
                self.perform_actions();
                proof {
                    assert(spec_update_actors_rel(before, between) && spec_perform_actions_rel(
                        between,
                        *self,
                    ));
                    assert(spec_round_rel(before, *self));
                    lemma_rounds_rel_snoc(mid, before, *self, t as int);
                }
                t = t + 1;
            }
            let ghost done_g = *self;
            self.ticks_to_perform = 0;
            proof {
                assert(*self == (GameController { ticks_to_perform: 0u32, ..done_g }));
            }
        }
    }
}

/// A search that comes up empty means no actor in the table carries the
/// identity, and the other way round.
proof fn lemma_find_none(acts: Seq<Actor>, id: u128)
    ensures
        (spec_find_actor_index(acts, id) == -1) <==> (forall|j: int|
            0 <= j < acts.len() ==> (#[trigger] acts[j]).spec_id() != id),
    decreases acts.len(),
{
    if acts.len() > 0 {
        lemma_find_none(acts.drop_first(), id);
        assert(forall|j: int|
            1 <= j < acts.len() ==> acts.drop_first()[j - 1] == #[trigger] acts[j]);
    }
}

/// Inserting actors whose identities are new to the table and distinct from
/// one another appends them in order.
proof fn lemma_apply_actions_appends(acts: Seq<Actor>, actions: Seq<Actor>)
    requires
        forall|k: int|
            0 <= k < actions.len() ==> forall|j: int|
                0 <= j < acts.len() ==> (#[trigger] acts[j]).spec_id() != (
                #[trigger] actions[k]).spec_id(),
        forall|k1: int, k2: int|
            0 <= k1 < k2 < actions.len() ==> (#[trigger] actions[k1]).spec_id() != (
            #[trigger] actions[k2]).spec_id(),
    ensures
        spec_apply_actions(acts, actions) == acts + actions,
    decreases actions.len(),
{
    if actions.len() == 0 {
        assert(acts + actions =~= acts);
    } else {
        let front = actions.drop_last();
        let last = actions.last();
        lemma_apply_actions_appends(acts, front);
        lemma_find_none(acts + front, last.spec_id());
        assert(forall|j: int|
            0 <= j < (acts + front).len() ==> ((acts + front)[j]).spec_id() != last.spec_id());
        assert(spec_find_actor_index(acts + front, last.spec_id()) == -1);
        assert((acts + front).push(last) =~= acts + actions);
    }
}

/// A log within its cap stays within its cap, however many messages a
/// round appends to it.
pub proof fn lemma_log_stays_bounded(log: Seq<Message>, msgs: Seq<Message>)
    requires
        log.len() <= MESSAGE_LOG_CAP as int,
    ensures
        spec_append_log(log, msgs).len() <= MESSAGE_LOG_CAP as int,
    decreases msgs.len(),
{
    if msgs.len() > 0 {
        lemma_log_stays_bounded(log, msgs.drop_last());
    }
}

/// Snapshot isolation: during one simulation round every actor is updated
/// against the one snapshot taken at the round's start, so an actor B
/// observes the pre-round position of an actor A in its snapshot entry even
/// when A has already moved earlier in the same round.
pub proof fn lemma_snapshot_isolation(pre: GameController, post: GameController, a: int, b: int)
    requires
        spec_update_actors_rel(pre, post),
        0 <= a < pre.state.actors@.len(),
        0 <= b < pre.state.actors@.len(),
    ensures
        spec_snapshot(pre.state.actors@)[a].position == pre.state.actors@[a].spec_position(),
        spec_round_actor(
            pre.state.actors@[b],
            post.state.actors@[b],
            spec_snapshot(pre.state.actors@),
        ),
{
}

/// Spawn side-effect ordering: a spawn requested during a round's actor
/// pass joins neither that round's snapshot nor its table; once the round's
/// deferred actions run — their identities being fresh and distinct, as
/// randomly drawn identities are — the spawned actors stand appended to the
/// table, and only the following round's snapshot shows them.
pub proof fn lemma_spawn_deferred(pre: GameController, mid: GameController, post: GameController)
    requires
        spec_update_actors_rel(pre, mid),
        spec_perform_actions_rel(mid, post),
        pre.spec_actions().len() == 0,
        forall|k: int|
            0 <= k < mid.spec_actions().len() ==> forall|j: int|
                0 <= j < mid.state.actors@.len() ==> (#[trigger] mid.state.actors@[j]).spec_id()
                    != (#[trigger] mid.spec_actions()[k]).spec_id(),
        forall|k1: int, k2: int|
            0 <= k1 < k2 < mid.spec_actions().len() ==> (#[trigger] mid.spec_actions()[k1]).spec_id()
                != (#[trigger] mid.spec_actions()[k2]).spec_id(),
    ensures
        spec_snapshot(pre.state.actors@).len() == pre.state.actors@.len(),
        mid.state.actors@.len() == pre.state.actors@.len(),
        mid.spec_actions().len() == spec_spawn_requests(pre.state.actors@).len(),
        post.state.actors@ == mid.state.actors@ + mid.spec_actions(),
        spec_snapshot(post.state.actors@).len() == pre.state.actors@.len()
            + spec_spawn_requests(pre.state.actors@).len(),
        forall|k: int|
            0 <= k < spec_spawn_requests(pre.state.actors@).len()
                ==> spec_snapshot(post.state.actors@)[pre.state.actors@.len() + k].position
                == spec_spawn_requests(pre.state.actors@)[k].1,
{
    lemma_apply_actions_appends(mid.state.actors@, mid.spec_actions());
    assert(forall|k: int|
        0 <= k < mid.spec_actions().len()
            ==> (mid.state.actors@ + mid.spec_actions())[mid.state.actors@.len() + k]
            == #[trigger] mid.spec_actions()[k]);
    let reqs = spec_spawn_requests(pre.state.actors@);
    assert forall|k: int| 0 <= k < reqs.len() implies is_spawned_actor(
        mid.spec_actions()[k],
        reqs[k].0,
        reqs[k].1,
    ) by {
        assert(is_spawned_actor(
            mid.spec_actions()[pre.spec_actions().len() as int + k],
            reqs[k].0,
            reqs[k].1,
        ));
        assert(mid.spec_actions()[pre.spec_actions().len() as int + k] == mid.spec_actions()[k]);
    }
}

} // verus!
