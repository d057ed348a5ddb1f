//! The deterministic physics step shared by client and server.
use vstd::prelude::*;

verus! {

/// Largest horizontal coordinate that lies inside the world.
pub const WORLD_WIDTH: i16 = 40;

/// Largest vertical coordinate that lies inside the world (the floor).
pub const WORLD_HEIGHT: i16 = 20;

/// Horizontal spawn coordinate: the middle of the world.
pub const SPAWN_X: i16 = 20;

/// Vertical spawn coordinate.
pub const SPAWN_Y: i16 = 1;

/// Upward impulse that a jump subtracts from the vertical velocity.
pub const JUMP_IMPULSE: i16 = 6;

/// Simulation state of one player.
#[derive(Clone, Copy, Debug, PartialEq, Eq, Structural)]
pub struct Player {
    /// Connection-scoped identifier.
    pub id: u32,
    pub x: i16,
    pub y: i16,
    /// Vertical velocity; positive values point down.
    pub vel_y: i16,
}

/// Latched input flags for one tick.
#[derive(Clone, Copy, Debug, PartialEq, Eq, Structural)]
pub struct Controls {
    pub left: bool,
    pub right: bool,
    pub jump: bool,
}

/// Whether `(x, y)` lies inside the world rectangle.
pub open spec fn in_world(x: int, y: int) -> bool {
    0 <= x <= WORLD_WIDTH && 0 <= y <= WORLD_HEIGHT
}

/// A player standing at the spawn point with no velocity.
pub open spec fn spawned(id: u32) -> Player {
    Player { id, x: SPAWN_X, y: SPAWN_Y, vel_y: 0 }
}

/// Drag: the velocity moves one unit toward zero.
pub open spec fn relaxed(v: int) -> int {
    if v > 0 {
        v - 1
    } else if v < 0 {
        v + 1
    } else {
        v
    }
}

/// Velocity after drag and, above the floor, gravity.
pub open spec fn fallen_velocity(y: int, v: int) -> int {
    if y < WORLD_HEIGHT {
        relaxed(v) + 1
    } else {
        relaxed(v)
    }
}

/// Horizontal position after one unit per pressed direction.
pub open spec fn stepped_x(x: int, c: Controls) -> int {
    x - (if c.left { 1int } else { 0int }) + (if c.right { 1int } else { 0int })
}

/// Vertical position after integrating the new velocity.
pub open spec fn stepped_y(p: Player) -> int {
    p.y + fallen_velocity(p.y as int, p.vel_y as int)
}

/// Velocity after the jump impulse; it saturates at the smallest `i16`.
pub open spec fn kicked_velocity(v: int, jump: bool) -> int {
    if !jump {
        v
    } else if v - JUMP_IMPULSE < i16::MIN {
        i16::MIN as int
    } else {
        v - JUMP_IMPULSE
    }
}

/// The state after one physics tick under the given controls.
pub open spec fn ticked(p: Player, c: Controls) -> Player {
    let x = stepped_x(p.x as int, c);
    let y = stepped_y(p);
    if in_world(x, y) {
        Player {
            id: p.id,
            x: x as i16,
            y: y as i16,
            vel_y: kicked_velocity(fallen_velocity(p.y as int, p.vel_y as int), c.jump) as i16,
        }
    } else {
        spawned(p.id)
    }
}

/// The state reached by ticking once per entry of `inputs`, in order.
pub open spec fn run(p: Player, inputs: Seq<Controls>) -> Player
    decreases inputs.len(),
{
    if inputs.len() == 0 {
        p
    } else {
        ticked(run(p, inputs.drop_last()), inputs.last())
    }
}

impl Player {
    /// A new player at the spawn point.
    pub fn spawn(id: u32) -> (r: Player)
        ensures
            r == spawned(id),
    {
        Player { id, x: SPAWN_X, y: SPAWN_Y, vel_y: 0 }
    }
}

impl Controls {
    /// No key held.
    pub fn released() -> (r: Controls)
        ensures
            !r.left && !r.right && !r.jump,
    {
        Controls { left: false, right: false, jump: false }
    }
}

/// The respawn transition: back to the spawn point with no velocity.
pub fn die(player: &mut Player)
    ensures
        *final(player) == spawned(old(player).id),
{
    player.x = SPAWN_X;
    player.y = SPAWN_Y;
    player.vel_y = 0;
}

/// One physics step: drag, gravity, vertical integration, horizontal
/// movement, jump impulse, then the bounds check that respawns a player
/// who left the world.
pub fn tick(player: &mut Player, controls: &Controls)
    ensures
        *final(player) == ticked(*old(player), *controls),
        in_world(final(player).x as int, final(player).y as int),
{
    let v: i32 = player.vel_y as i32;
    let drag: i32 = if v > 0 {
        v - 1
    } else if v < 0 {
        v + 1
    } else {
        v
    };
    let fallen: i32 = if player.y < WORLD_HEIGHT {
        drag + 1
    } else {
        drag
    };
    let ny: i32 = player.y as i32 + fallen;
    let mut nx: i32 = player.x as i32;
    if controls.left {
        nx = nx - 1;
    }
    if controls.right {
        nx = nx + 1;
    }
    if 0 <= nx && nx <= WORLD_WIDTH as i32 && 0 <= ny && ny <= WORLD_HEIGHT as i32 {
        let kicked: i32 = if !controls.jump {
            fallen
        } else if fallen - (JUMP_IMPULSE as i32) < i16::MIN as i32 {
            i16::MIN as i32
        } else {
            fallen - (JUMP_IMPULSE as i32)
        };
        player.x = nx as i16;
        player.y = ny as i16;
        player.vel_y = kicked as i16;
    } else {
        die(player);
    }
}

/// Ticking is a function of the state and the controls alone: two runs that
/// start from the same state and are fed the same inputs pass through the
/// same states, and every state after the first tick lies inside the world.
pub proof fn lemma_run_deterministic(a: Player, b: Player, inputs: Seq<Controls>)
    requires
        a == b,
    ensures
        forall|i: int|
            0 <= i <= inputs.len() ==> #[trigger] run(a, inputs.take(i)) == run(b, inputs.take(i)),
        inputs.len() > 0 ==> in_world(run(a, inputs).x as int, run(a, inputs).y as int),
{
    if inputs.len() > 0 {
        lemma_tick_in_world(run(a, inputs.drop_last()), inputs.last());
    }
}

/// Every tick ends inside the world: a player who would leave it is respawned.
pub proof fn lemma_tick_in_world(p: Player, c: Controls)
    ensures
        in_world(ticked(p, c).x as int, ticked(p, c).y as int),
{
}

/// A tick whose movement ends outside the world yields exactly the spawn
/// state, velocity reset included.
pub proof fn lemma_respawn_when_leaving(p: Player, c: Controls)
    requires
        !in_world(stepped_x(p.x as int, c), stepped_y(p)),
    ensures
        ticked(p, c) == spawned(p.id),
{
}

/// A player more than one column outside the world, below the floor and not
/// rising, or more than one row above the top and not falling, is respawned
/// by the next tick whatever the controls.
pub proof fn lemma_respawn_from_outside(p: Player, c: Controls)
    requires
        p.x < -1 || p.x > WORLD_WIDTH + 1 || (p.y > WORLD_HEIGHT && p.vel_y >= 0) || (p.y < -1
            && p.vel_y <= 0),
    ensures
        ticked(p, c) == spawned(p.id),
{
}

/// The spawn point lies in the middle of the world, inside it.
pub proof fn lemma_spawn_in_world(id: u32)
    ensures
        spawned(id).x * 2 == WORLD_WIDTH,
        in_world(spawned(id).x as int, spawned(id).y as int),
{
}

} // verus!
