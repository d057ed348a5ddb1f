use sidescroll_sync::client::{
    classify_key, got_data, got_key, outgoing_message, ClientState, Key,
};
use sidescroll_sync::codec::ParseError;
use sidescroll_sync::physics::{Controls, Player};

#[test]
fn keys_are_recognized() {
    assert_eq!(classify_key('a', false, false), Some(Key::Left));
    assert_eq!(classify_key('d', false, false), Some(Key::Right));
    assert_eq!(classify_key(' ', false, false), Some(Key::Jump));
    assert_eq!(classify_key('q', true, false), Some(Key::Quit));
}

#[test]
fn other_keys_are_dropped() {
    assert_eq!(classify_key('q', false, false), None);
    assert_eq!(classify_key('a', true, false), None);
    assert_eq!(classify_key('a', false, true), None);
    assert_eq!(classify_key('q', true, true), None);
    assert_eq!(classify_key('w', false, false), None);
}

#[test]
fn got_key_latches_flags() {
    let mut c = Controls::released();
    assert!(!got_key(Key::Left, &mut c));
    assert_eq!(c, Controls { left: true, right: false, jump: false });
    assert!(!got_key(Key::Jump, &mut c));
    assert!(!got_key(Key::Right, &mut c));
    assert_eq!(c, Controls { left: true, right: true, jump: true });
    assert!(got_key(Key::Quit, &mut c));
    assert_eq!(c, Controls { left: true, right: true, jump: true });
}

#[test]
fn got_data_overwrites_position() {
    let mut p = Player { id: 0, x: 3, y: 4, vel_y: -2 };
    assert_eq!(got_data(b"017020", &mut p), Ok(()));
    assert_eq!(p, Player { id: 0, x: 17, y: 20, vel_y: -2 });
}

#[test]
fn got_data_keeps_position_on_bad_data() {
    let mut p = Player { id: 0, x: 3, y: 4, vel_y: 0 };
    assert_eq!(got_data(b"01x020", &mut p), Err(ParseError::InvalidX));
    assert_eq!(got_data(b"017-20", &mut p), Err(ParseError::InvalidY));
    assert_eq!(p, Player { id: 0, x: 3, y: 4, vel_y: 0 });
}

#[test]
fn outgoing_message_sends_snapshot_or_neutral() {
    let c = Controls { left: false, right: true, jump: false };
    assert_eq!(&outgoing_message(Some(c)), b"010000");
    assert_eq!(&outgoing_message(None), b"000000");
}

#[test]
fn advance_predicts_and_resets_controls() {
    let mut s = ClientState::new();
    assert_eq!(s.player, Player { id: 0, x: 20, y: 1, vel_y: 0 });
    got_key(Key::Left, &mut s.controls);
    got_key(Key::Left, &mut s.controls);
    let snap = s.advance();
    assert_eq!(snap, Controls { left: true, right: false, jump: false });
    assert_eq!(s.player, Player { id: 0, x: 19, y: 2, vel_y: 1 });
    assert_eq!(s.controls, Controls::released());
    let snap = s.advance();
    assert_eq!(snap, Controls::released());
    assert_eq!(s.player, Player { id: 0, x: 19, y: 3, vel_y: 1 });
}

#[test]
fn lost_socket_keeps_last_received_position() {
    let mut s = ClientState::new();
    assert_eq!(got_data(b"012020", &mut s.player), Ok(()));
    s.player.vel_y = 0;
    // the socket is gone: no more replies arrive, frames keep running
    for _ in 0..50 {
        let snap = s.advance();
        assert_eq!(&outgoing_message(Some(snap)), b"000000");
    }
    assert_eq!((s.player.x, s.player.y), (12, 20));
}
