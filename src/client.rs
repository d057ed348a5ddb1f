//! Client-side decisions: key handling, prediction and reconciliation.
//!
//! The render loop owns a `ClientState`. Each frame it applies the keys that
//! arrived since the last frame, advances its predicted player with the
//! latched controls, overwrites the position with whatever the server sent,
//! and hands the control snapshot to the network worker.
use vstd::prelude::*;
use crate::codec::{control_bytes, decode_position, encode_control, parse_position, ParseError};
use crate::physics::{spawned, tick, ticked, Controls, Player};

verus! {

/// A key that the input worker recognizes.
#[derive(Clone, Copy, Debug, PartialEq, Eq, Structural)]
pub enum Key {
    /// `a`
    Left,
    /// `d`
    Right,
    /// space
    Jump,
    /// `ctrl+q`
    Quit,
}

/// The key that a key press stands for, if any. `control` tells whether the
/// control modifier was held, `other_modifiers` whether any other was.
pub open spec fn key_of(code: char, control: bool, other_modifiers: bool) -> Option<Key> {
    if other_modifiers {
        None
    } else if control {
        if code == 'q' {
            Some(Key::Quit)
        } else {
            None
        }
    } else if code == 'a' {
        Some(Key::Left)
    } else if code == 'd' {
        Some(Key::Right)
    } else if code == ' ' {
        Some(Key::Jump)
    } else {
        None
    }
}

/// Controls with the flag of `key` latched on top of `c`.
pub open spec fn latched(c: Controls, key: Key) -> Controls {
    match key {
        Key::Left => Controls { left: true, ..c },
        Key::Right => Controls { right: true, ..c },
        Key::Jump => Controls { jump: true, ..c },
        Key::Quit => c,
    }
}

/// The controls that the network worker sends: the fresh snapshot when there
/// is one, otherwise no key held.
pub open spec fn outgoing_controls(fresh: Option<Controls>) -> Controls {
    match fresh {
        Some(c) => c,
        None => Controls { left: false, right: false, jump: false },
    }
}

/// Recognizes `a`, `d` and space without modifiers and `q` with control
/// alone; every other key press is dropped.
pub fn classify_key(code: char, control: bool, other_modifiers: bool) -> (r: Option<Key>)
    ensures
        r == key_of(code, control, other_modifiers),
{
    if other_modifiers {
        None
    } else if control {
        if code == 'q' {
            Some(Key::Quit)
        } else {
            None
        }
    } else if code == 'a' {
        Some(Key::Left)
    } else if code == 'd' {
        Some(Key::Right)
    } else if code == ' ' {
        Some(Key::Jump)
    } else {
        None
    }
}

/// Latches the flag of a movement key. Returns true for the quit key, which
/// leaves the controls as they are; the caller then tears down and exits.
pub fn got_key(key: Key, controls: &mut Controls) -> (quit: bool)
    ensures
        quit == (key == Key::Quit),
        *final(controls) == latched(*old(controls), key),
{
    match key {
        Key::Quit => true,
        Key::Left => {
            controls.left = true;
            false
        },
        Key::Right => {
            controls.right = true;
            false
        },
        Key::Jump => {
            controls.jump = true;
            false
        },
    }
}

/// Reconciles the local player with a position message from the server. A
/// valid message overwrites `x` and `y` (no blending); a malformed one is
/// reported and leaves the player as it was.
pub fn got_data(data: &[u8; 6], player: &mut Player) -> (r: Result<(), ParseError>)
    ensures
        match parse_position(data@) {
            Ok((x, y)) => r is Ok && *final(player) == (Player {
                x: x as i16,
                y: y as i16,
                ..*old(player)
            }),
            Err(e) => r == Err::<(), ParseError>(e) && *final(player) == *old(player),
        },
{
    match decode_position(data) {
        Ok((x, y)) => {
            player.x = x;
            player.y = y;
            Ok(())
        },
        Err(e) => Err(e),
    }
}

/// The message that one network iteration sends: the fresh control snapshot
/// if the render loop published one, else the neutral "no key held" message.
pub fn outgoing_message(fresh: Option<Controls>) -> (r: [u8; 6])
    ensures
        r@ == control_bytes(outgoing_controls(fresh)),
{
    match fresh {
        Some(c) => encode_control(&c),
        None => encode_control(&Controls::released()),
    }
}

/// The render loop's own state: the predicted player and the controls
/// latched since the last frame.
#[derive(Clone, Copy, Debug, PartialEq, Eq, Structural)]
pub struct ClientState {
    pub player: Player,
    pub controls: Controls,
}

impl ClientState {
    /// A client at process start: the player at the spawn point, no key held.
    pub fn new() -> (r: ClientState)
        ensures
            r.player == spawned(0),
            !r.controls.left && !r.controls.right && !r.controls.jump,
    {
        ClientState { player: Player::spawn(0), controls: Controls::released() }
    }

    /// Ends a frame: predicts one tick with the latched controls, then resets
    /// them. Returns the snapshot that was applied, for the network worker.
    pub fn advance(&mut self) -> (snapshot: Controls)
        ensures
            snapshot == old(self).controls,
            final(self).player == ticked(old(self).player, old(self).controls),
            !final(self).controls.left && !final(self).controls.right && !final(self).controls.jump,
    {
        let snapshot = self.controls;
        tick(&mut self.player, &snapshot);
        self.controls = Controls::released();
        snapshot
    }
}

} // verus!
