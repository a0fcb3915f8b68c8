//! A simple pursuing soldier: each round it takes one step along the
//! rasterized line toward the player, unless a personal-space rule holds it
//! back.

use vstd::prelude::*;
use crate::actor::{ActorInfo, ActorStatus, ActorType};
use crate::message::{Message, MessageType};
use crate::outside::{bresenham_line, line_points};
use crate::{Movable, MovementDirection};

verus! {

/// The squared personal-space radius: another non-player actor within this
/// Euclidean distance of a soldier's destination keeps it from moving there.
pub const PERSONAL_SPACE_SQUARED: i128 = 9;

/// The first `ActorInfo` in the snapshot that describes a player, if any.
pub open spec fn spec_find_player(infos: Seq<ActorInfo>) -> Option<ActorInfo>
    decreases infos.len(),
{
    if infos.len() == 0 {
        None
    } else if infos[0].actor_type == ActorType::Player {
        Some(infos[0])
    } else {
        spec_find_player(infos.drop_first())
    }
}

/// The squared Euclidean distance between two grid cells.
pub open spec fn dist2(a: [i32; 2], b: [i32; 2]) -> int {
    (a[0] - b[0]) * (a[0] - b[0]) + (a[1] - b[1]) * (a[1] - b[1])
}

/// Whether the personal-space rule keeps a soldier standing at `self_pos`
/// from stepping onto `cand`: some other non-player actor is already within
/// the personal-space radius of `cand` while being farther than that radius
/// from the soldier itself.
pub open spec fn spec_blocked(self_pos: [i32; 2], cand: [i32; 2], infos: Seq<ActorInfo>) -> bool {
    exists|j: int|
        0 <= j < infos.len() && (#[trigger] infos[j]).actor_type != ActorType::Player && dist2(
            cand,
            infos[j].position,
        ) <= PERSONAL_SPACE_SQUARED as int && dist2(self_pos, infos[j].position)
            > PERSONAL_SPACE_SQUARED as int
}

/// Where a soldier standing at `pos` ends up after one simulation round:
/// the second cell of the rasterized line toward the player, unless there is
/// no player, the line is shorter than two cells, or the personal-space rule
/// blocks the step.
pub open spec fn spec_soldier_next_position(pos: [i32; 2], infos: Seq<ActorInfo>) -> [i32; 2] {
    match spec_find_player(infos) {
        None => pos,
        Some(pl) => {
            let line = line_points(pos[0], pos[1], pl.position[0], pl.position[1]);
            if line.len() >= 2 {
                let cand = [line[1].0, line[1].1];
                if spec_blocked(pos, cand, infos) {
                    pos
                } else {
                    cand
                }
            } else {
                pos
            }
        },
    }
}

/// Stores information and statistics pertaining to a single soldier.
pub struct Soldier {
    /// The soldier's current grid position.
    pub position: [i32; 2],
    /// The soldier's stable identity.
    pub id: u128,
    /// The pending one-shot status request, if any.
    pub status: Option<ActorStatus>,
    /// Messages buffered locally until the controller drains them.
    pub messages: Vec<Message>,
}

impl Soldier {
    /// Creates and returns a new instance of the Soldier struct with a
    /// freshly drawn identity.
    pub fn new() -> (r: Soldier)
        ensures
            r.position == [0i32, 0i32],
            r.status is None,
            r.messages@ =~= Seq::<Message>::empty(),
    {
        Soldier {
            position: [0, 0],
            id: crate::outside::fresh_actor_id(),
            status: None,
            messages: Vec::new(),
        }
    }

    /// Announces the soldier's arrival, and its identity, in its local
    /// message queue.
    pub fn on_create(&mut self)
        ensures
            final(self).messages@.len() == old(self).messages@.len() + 1,
            final(self).messages@.subrange(0, old(self).messages@.len() as int) == old(
                self,
            ).messages@,
            final(self).messages@.last().contents@ == "Soldier was created!  ID: "@
                + crate::message::spec_decimal_digits(old(self).id as nat),
            final(self).messages@.last().message_type == MessageType::Danger,
            final(self).position == old(self).position,
            final(self).id == old(self).id,
            final(self).status == old(self).status,
    {
        let mut contents: String = "Soldier was created!  ID: ".to_owned();
        crate::message::push_decimal(&mut contents, self.id);
        self.messages.push(Message { contents, message_type: MessageType::Danger });
        proof {
            assert(final(self).messages@.subrange(0, old(self).messages@.len() as int) =~= old(
                self,
            ).messages@);
        }
    }

    /// Takes one pursuit step toward the player, if the snapshot shows one
    /// and the personal-space rule allows it.  A soldier that does not
    /// already stand on the pursued player's cell never steps onto it: the
    /// rasterized line stops short of its end.
    pub fn on_update(&mut self, actors: &Vec<ActorInfo>)
        ensures
            *final(self) == (Soldier {
                position: spec_soldier_next_position(old(self).position, actors@),
                ..*old(self)
            }),
            spec_find_player(actors@) matches Some(pl) ==> (old(self).position != pl.position
                ==> final(self).position != pl.position),
    {
        let self_pos = self.position;
        // find the first player entry in the snapshot
        let mut found: Option<ActorInfo> = None;
        let mut i: usize = 0;
        proof {
            assert(actors@.skip(0) =~= actors@);
        }
        while i < actors.len() && found.is_none()
            invariant
                i <= actors.len(),
                found is None ==> spec_find_player(actors@) == spec_find_player(
                    actors@.skip(i as int),
                ),
                found matches Some(p) ==> spec_find_player(actors@) == Some(p),
            decreases actors.len() - i,
        {
            if actors[i].actor_type == ActorType::Player {
                found = Some(actors[i]);
                proof {
                    assert(actors@.skip(i as int)[0] == actors@[i as int]);
                }
            } else {
                proof {
                    assert(actors@.skip(i as int).drop_first() =~= actors@.skip(i as int + 1));
                }
            }
            i = i + 1;
        }
        proof {
            if found is None {
                assert(actors@.skip(actors@.len() as int) =~= Seq::<ActorInfo>::empty());
            }
        }
        let player = match found {
            Some(p) => p,
            None => {
                return ;
            },
        };
        // one step along the rasterized line toward the player
        let line = bresenham_line(self_pos[0], self_pos[1], player.position[0], player.position[1]);
        if line.len() >= 2 {
            let cand = [line[1].0, line[1].1];
            proof {
                if cand == player.position {
                    assert(line@[1] == (player.position[0], player.position[1]));
                }
            }
            if !self.any_blocker(cand, actors) {
                self.set_x(cand[0]);
                self.set_y(cand[1]);
            }
        }
    }

    /// Whether some snapshot entry blocks a step onto `cand` under the
    /// personal-space rule.
    fn any_blocker(&self, cand: [i32; 2], actors: &Vec<ActorInfo>) -> (r: bool)
        ensures
            r == spec_blocked(self.position, cand, actors@),
    {
        let self_pos = self.position;
        let mut j: usize = 0;
        while j < actors.len()
            invariant
                j <= actors.len(),
                self_pos == self.position,
                forall|k: int|
                    0 <= k < j as int ==> !((#[trigger] actors@[k]).actor_type != ActorType::Player
                        && dist2(cand, actors@[k].position) <= PERSONAL_SPACE_SQUARED as int
                        && dist2(self_pos, actors@[k].position) > PERSONAL_SPACE_SQUARED as int),
            decreases actors.len() - j,
        {
            let a = actors[j];
            if a.actor_type != ActorType::Player {
                let from_destination = squared_distance(cand, a.position);
                let from_self = squared_distance(self_pos, a.position);
                if from_destination <= PERSONAL_SPACE_SQUARED && from_self
                    > PERSONAL_SPACE_SQUARED {
                    proof {
                        let jj = j as int;
                        assert(actors@[jj].actor_type != ActorType::Player && dist2(
                            cand,
                            actors@[jj].position,
                        ) <= PERSONAL_SPACE_SQUARED as int && dist2(self_pos, actors@[jj].position)
                            > PERSONAL_SPACE_SQUARED as int);
                        assert(spec_blocked(self.position, cand, actors@));
                    }
                    return true;
                }
            }
            j = j + 1;
        }
        false
    }
}

/// Computes the squared Euclidean distance between two grid cells.
fn squared_distance(a: [i32; 2], b: [i32; 2]) -> (r: i128)
    ensures
        r as int == dist2(a, b),
{
    let dx = (a[0] as i128) - (b[0] as i128);
    let dy = (a[1] as i128) - (b[1] as i128);
    proof {
        let bound: int = 0x1_0000_0000;
        assert(0 <= dx * dx <= bound * bound && 0 <= dy * dy <= bound * bound)
            by (nonlinear_arith)
            requires
                -0x1_0000_0000 <= dx <= 0x1_0000_0000,
                -0x1_0000_0000 <= dy <= 0x1_0000_0000,
                bound == 0x1_0000_0000,
        ;
    }
    dx * dx + dy * dy
}

impl Movable for Soldier {
    open spec fn spec_position(&self) -> [i32; 2] {
        self.position
    }

    fn move_toward(&mut self, dir: &MovementDirection)
        ensures
            *final(self) == (Soldier {
                position: crate::spec_moved_position_i32(old(self).position, *dir, 1),
                ..*old(self)
            }),
    {
        self.position = crate::map_direction_to_position(
            self.position,
            dir,
            crate::actors::player::MOVEMENT_AMOUNT,
        );
    }

    fn current_position(&self) -> (r: [i32; 2]) {
        self.position
    }

    fn set_x(&mut self, x: i32)
        ensures
            *final(self) == (Soldier { position: [x, old(self).position[1]], ..*old(self) }),
    {
        self.position = [x, self.position[1]];
    }

    fn set_y(&mut self, y: i32)
        ensures
            *final(self) == (Soldier { position: [old(self).position[0], y], ..*old(self) }),
    {
        self.position = [self.position[0], y];
    }
}

} // verus!
