//! The actor abstraction: concrete actor kinds behind one dispatching type,
//! per-tick snapshots of their public state, and the one-shot status
//! requests they hand to the controller.

use vstd::prelude::*;
use crate::actors::player::Player;
use crate::actors::soldier::Soldier;
use crate::map::TileMap;
use crate::message::{Message, MessageType};
use crate::sprite_info::{SpriteInfo, SpriteKey};
use crate::{Movable, MovementDirection};

verus! {

/// Dictates which set of behavior patterns the actor will exhibit.
#[derive(Clone, Copy, Debug, PartialEq, Eq, Structural)]
pub enum BehaviorStyle {
    /// Actively helpful toward the player.
    Friendly,
    /// Indifferent to the player.
    Oblivious,
    /// Actively harmful toward the player.
    Hostile,
    /// Avoids the player.
    Fearful,
    /// Takes no action at all.
    Inactive,
}

/// Markers for the various types of actors that are available.
#[derive(Clone, Copy, Debug, PartialEq, Eq, Structural)]
pub enum ActorType {
    /// The player's avatar.
    Player,
    /// A pursuing soldier.
    Soldier,
}

/// Used by Actor implementations to force their controller to perform
/// some action.
#[derive(Clone, Copy, Debug, PartialEq, Eq)]
pub enum ActorStatus {
    /// Asks the windowing layer to resize to the carried width and height.
    Resize([u32; 2]),
    /// Asks the controller to regenerate the map at the carried relative
    /// offset.
    LoadMapAtRelativeOffset([i32; 2]),
    /// Asks the controller to flip the message-log display flag.
    ToggleMessageVisibility,
    /// Asks the controller to spawn a new actor of the carried type at the
    /// carried position once the current round's pass completes.
    SpawnActorAt(ActorType, [i32; 2]),
    /// Asks the windowing layer to close the game.
    Quit,
}

/// Used as a means of communicating information about actors to other actors.
#[derive(Clone, Copy, Debug, PartialEq, Eq)]
pub struct ActorInfo {
    /// The observed actor's identity.
    pub id: u128,
    /// The observed actor's type marker.
    pub actor_type: ActorType,
    /// The observed actor's position when the snapshot was taken.
    pub position: [i32; 2],
}

/// Stores information pertaining to a single actor in the game's current
/// state; concrete actor kinds are dispatched through this type.
pub enum Actor {
    /// The player's avatar.
    Player(Player),
    /// A pursuing soldier.
    Soldier(Soldier),
}

impl ActorInfo {
    /// Creates and returns a new instance of the ActorInfo struct from the
    /// information in the provided Actor.
    pub fn new(actor: &Actor) -> (r: ActorInfo)
        ensures
            r == spec_actor_info(*actor),
    {
        ActorInfo {
            id: actor.id(),
            actor_type: actor.actor_type(),
            position: actor.current_position(),
        }
    }
}

/// The snapshot entry that observing `a` produces.
pub open spec fn spec_actor_info(a: Actor) -> ActorInfo {
    ActorInfo { id: a.spec_id(), actor_type: a.spec_type(), position: a.spec_position() }
}

/// The sprite key and tint that each actor type is rendered with.
pub open spec fn spec_actor_sprite(t: ActorType) -> SpriteInfo {
    match t {
        ActorType::Player => SpriteInfo {
            key: SpriteKey::Pc,
            color: [141u16, 424u16, 376u16, 1000u16],
        },
        ActorType::Soldier => SpriteInfo {
            key: SpriteKey::Mutant,
            color: [937u16, 529u16, 0u16, 1000u16],
        },
    }
}

impl Actor {
    /// The actor's stable identity.
    pub open spec fn spec_id(&self) -> u128 {
        match self {
            Actor::Player(p) => p.id,
            Actor::Soldier(s) => s.id,
        }
    }

    /// The actor's type marker.
    pub open spec fn spec_type(&self) -> ActorType {
        match self {
            Actor::Player(_) => ActorType::Player,
            Actor::Soldier(_) => ActorType::Soldier,
        }
    }

    /// The actor's current grid position.
    pub open spec fn spec_position(&self) -> [i32; 2] {
        match self {
            Actor::Player(p) => p.position,
            Actor::Soldier(s) => s.position,
        }
    }

    /// The actor's pending one-shot status, if any.
    pub open spec fn spec_status(&self) -> Option<ActorStatus> {
        match self {
            Actor::Player(p) => p.status,
            Actor::Soldier(s) => s.status,
        }
    }

    /// The actor's locally buffered messages.
    pub open spec fn spec_messages(&self) -> Seq<Message> {
        match self {
            Actor::Player(p) => p.messages@,
            Actor::Soldier(s) => s.messages@,
        }
    }

    /// Returns the numerical ID of the Actor.
    pub fn id(&self) -> (r: u128)
        ensures
            r == self.spec_id(),
    {
        match self {
            Actor::Player(p) => p.id,
            Actor::Soldier(s) => s.id,
        }
    }

    /// Returns a marker indicating what type of actor this is.
    pub fn actor_type(&self) -> (r: ActorType)
        ensures
            r == self.spec_type(),
    {
        match self {
            Actor::Player(_) => ActorType::Player,
            Actor::Soldier(_) => ActorType::Soldier,
        }
    }

    /// Returns the current position of the actor.
    pub fn current_position(&self) -> (r: [i32; 2])
        ensures
            r == self.spec_position(),
    {
        match self {
            Actor::Player(p) => p.current_position(),
            Actor::Soldier(s) => s.current_position(),
        }
    }

    /// Overrides the actor's X coordinate.
    pub fn set_x(&mut self, x: i32)
        ensures
            final(self).spec_position() == [x, old(self).spec_position()[1]],
            same_but_position(*old(self), *final(self)),
    {
        match self {
            Actor::Player(p) => p.set_x(x),
            Actor::Soldier(s) => s.set_x(x),
        }
    }

    /// Overrides the actor's Y coordinate.
    pub fn set_y(&mut self, y: i32)
        ensures
            final(self).spec_position() == [old(self).spec_position()[0], y],
            same_but_position(*old(self), *final(self)),
    {
        match self {
            Actor::Player(p) => p.set_y(y),
            Actor::Soldier(s) => s.set_y(y),
        }
    }

    /// Returns the sprite key and tint for this actor.
    pub fn sprite_components(&self) -> (r: SpriteInfo)
        ensures
            r == spec_actor_sprite(self.spec_type()),
    {
        match self {
            Actor::Player(_) => SpriteInfo { key: SpriteKey::Pc, color: [141, 424, 376, 1000] },
            Actor::Soldier(_) => SpriteInfo { key: SpriteKey::Mutant, color: [937, 529, 0, 1000] },
        }
    }

    /// Indicates whether the actor's sprite should be drawn.
    pub fn visible(&self) -> (r: bool)
        ensures
            r == true,
    {
        true
    }

    /// Initializes the actor for the given placement and behavior; current
    /// actor kinds take note of neither and simply report their identity.
    pub fn init(&mut self, _position: [i32; 2], _behavior: BehaviorStyle) -> (r: Result<
        u128,
        String,
    >)
        ensures
            *final(self) == *old(self),
            r == Ok::<u128, String>(old(self).spec_id()),
    {
        Ok(self.id())
    }

    /// Called when the actor is created: lets it queue its first messages.
    pub fn on_create(&mut self)
        ensures
            is_on_create_of(*old(self), *final(self)),
    {
        match self {
            Actor::Player(p) => p.on_create(),
            Actor::Soldier(s) => s.on_create(),
        }
    }

    /// Called on each simulation round with the round's snapshot of every
    /// actor; the map is provided for context although no current actor
    /// kind reads it.  An actor not already standing on the snapshot
    /// player's cell never moves onto it.
    pub fn on_update(&mut self, _map: &TileMap, actors: &Vec<ActorInfo>)
        ensures
            *final(self) == spec_after_update(*old(self), actors@),
            crate::actors::soldier::spec_find_player(actors@) matches Some(pl) ==> (old(
                self,
            ).spec_position() != pl.position ==> final(self).spec_position() != pl.position),
    {
        match self {
            Actor::Player(_) => {},
            Actor::Soldier(s) => s.on_update(actors),
        }
    }

    /// Called when interacted with by another Actor.
    pub fn on_interact(&mut self, _actors: &Vec<ActorInfo>)
        ensures
            *final(self) == *old(self),
    {
    }

    /// Called before the Actor is removed from game state.
    pub fn on_remove(&mut self, _actors: &Vec<ActorInfo>)
        ensures
            *final(self) == *old(self),
    {
    }

    /// Returns the actor's current `ActorStatus` if one exists, clearing it:
    /// a second call without an intervening event returns nothing.
    pub fn status(&mut self) -> (r: Option<ActorStatus>)
        ensures
            r == old(self).spec_status(),
            *final(self) == spec_with_status_cleared(*old(self)),
    {
        match self {
            Actor::Player(p) => {
                let status = p.status;
                p.status = None;
                status
            },
            Actor::Soldier(s) => {
                let status = s.status;
                s.status = None;
                status
            },
        }
    }

    /// Drains the actor's locally buffered messages into the returned queue.
    pub fn messages(&mut self) -> (r: Option<Vec<Message>>)
        ensures
            r matches Some(v) && v@ == old(self).spec_messages(),
            final(self).spec_messages() =~= Seq::<Message>::empty(),
            same_but_messages(*old(self), *final(self)),
    {
        let mut drained: Vec<Message> = Vec::new();
        match self {
            Actor::Player(p) => core::mem::swap(&mut drained, &mut p.messages),
            Actor::Soldier(s) => core::mem::swap(&mut drained, &mut s.messages),
        }
        Some(drained)
    }
}

/// The actor as it stands after one simulation round's update hook: only a
/// soldier moves; everything else keeps its state.
pub open spec fn spec_after_update(a: Actor, infos: Seq<ActorInfo>) -> Actor {
    match a {
        Actor::Player(p) => Actor::Player(p),
        Actor::Soldier(s) => Actor::Soldier(
            Soldier {
                position: crate::actors::soldier::spec_soldier_next_position(s.position, infos),
                ..s
            },
        ),
    }
}

/// The actor with its pending status cleared and all else unchanged.
pub open spec fn spec_with_status_cleared(a: Actor) -> Actor {
    match a {
        Actor::Player(p) => Actor::Player(Player { status: None, ..p }),
        Actor::Soldier(s) => Actor::Soldier(Soldier { status: None, ..s }),
    }
}

/// The two actors agree on everything but their position.
pub open spec fn same_but_position(a: Actor, b: Actor) -> bool {
    &&& a.spec_type() == b.spec_type()
    &&& a.spec_id() == b.spec_id()
    &&& a.spec_status() == b.spec_status()
    &&& a.spec_messages() == b.spec_messages()
    &&& spec_ticks_of(a) == spec_ticks_of(b)
}

/// The two actors agree on everything but their buffered messages.
pub open spec fn same_but_messages(a: Actor, b: Actor) -> bool {
    &&& a.spec_type() == b.spec_type()
    &&& a.spec_id() == b.spec_id()
    &&& a.spec_position() == b.spec_position()
    &&& a.spec_status() == b.spec_status()
    &&& spec_ticks_of(a) == spec_ticks_of(b)
}

/// The round count that a player actor has pending; soldiers have none.
pub open spec fn spec_ticks_of(a: Actor) -> Option<u32> {
    match a {
        Actor::Player(p) => p.ticks,
        Actor::Soldier(_) => None,
    }
}

/// `b` is `a` after its creation hook ran: one message was appended and all
/// other state was kept.
pub open spec fn is_on_create_of(a: Actor, b: Actor) -> bool {
    &&& b.spec_type() == a.spec_type()
    &&& b.spec_id() == a.spec_id()
    &&& b.spec_position() == a.spec_position()
    &&& b.spec_status() == a.spec_status()
    &&& spec_ticks_of(b) == spec_ticks_of(a)
    &&& b.spec_messages().len() == a.spec_messages().len() + 1
    &&& b.spec_messages().subrange(0, a.spec_messages().len() as int) == a.spec_messages()
    &&& b.spec_messages().last().contents@ == spec_creation_text(a.spec_type(), a.spec_id())
    &&& b.spec_messages().last().message_type == spec_creation_message_type(a.spec_type())
}

/// Status consume-once: draining an actor's pending status leaves none
/// behind, so a second drain without an intervening event yields nothing.
pub proof fn lemma_status_consume_once(a: Actor)
    ensures
        spec_with_status_cleared(a).spec_status() is None,
        spec_with_status_cleared(spec_with_status_cleared(a)) == spec_with_status_cleared(a),
{
}

/// The greeting text that each actor type announces itself with; a soldier
/// names its identity.
pub open spec fn spec_creation_text(t: ActorType, id: u128) -> Seq<char> {
    match t {
        ActorType::Player => "Welcome!"@,
        ActorType::Soldier => "Soldier was created!  ID: "@
            + crate::message::spec_decimal_digits(id as nat),
    }
}

/// How each actor type's creation announcement is displayed.
pub open spec fn spec_creation_message_type(t: ActorType) -> MessageType {
    match t {
        ActorType::Player => MessageType::Background,
        ActorType::Soldier => MessageType::Danger,
    }
}

/// `a` is a freshly constructed actor of type `t`: it stands at the origin
/// with no pending status or rounds, and carries only its creation message.
pub open spec fn is_created_actor(a: Actor, t: ActorType) -> bool {
    &&& a.spec_type() == t
    &&& a.spec_position() == [0i32, 0i32]
    &&& a.spec_status() is None
    &&& spec_ticks_of(a) is None
    &&& a.spec_messages().len() == 1
    &&& a.spec_messages().last().contents@ == spec_creation_text(t, a.spec_id())
    &&& a.spec_messages().last().message_type == spec_creation_message_type(t)
}

/// Constructs a freshly initialized actor of the requested type, its
/// creation hook already invoked; player actors receive a freshly drawn
/// identity just as soldiers do.
pub fn create(actor_type: &ActorType) -> (r: Actor)
    ensures
        is_created_actor(r, *actor_type),
{
    let mut actor: Actor = match *actor_type {
        ActorType::Player => Actor::Player(Player::new(crate::outside::fresh_actor_id())),
        ActorType::Soldier => Actor::Soldier(Soldier::new()),
    };
    actor.on_create();
    actor
}

} // verus!
