use my_first_ggez::input::{InputState, Key};

#[test]
fn input_starts_idle() {
    let i = InputState::default();
    assert_eq!((i.get_xaxis(), i.get_yaxis(), i.get_fire()), (0, 0, false));
}

#[test]
fn arrows_set_and_clear_axes() {
    let mut i = InputState::default();
    i.move_actor(Key::Up);
    i.move_actor(Key::Left);
    assert_eq!((i.get_xaxis(), i.get_yaxis()), (-1, 1));
    i.move_actor(Key::Down);
    i.move_actor(Key::Right);
    assert_eq!((i.get_xaxis(), i.get_yaxis()), (1, -1));
    i.stop_actor(Key::Up);
    assert_eq!((i.get_xaxis(), i.get_yaxis()), (1, 0));
    i.stop_actor(Key::Left);
    assert_eq!((i.get_xaxis(), i.get_yaxis()), (0, 0));
    i.move_actor(Key::Z);
    i.move_actor(Key::Other);
    assert_eq!((i.get_xaxis(), i.get_yaxis(), i.get_fire()), (0, 0, false));
}

#[test]
fn z_starts_and_stops_firing() {
    let mut i = InputState::default();
    i.fire_shot(Key::Up);
    assert!(!i.get_fire());
    i.fire_shot(Key::Z);
    assert!(i.get_fire());
    i.stop_shot(Key::Down);
    assert!(i.get_fire());
    i.stop_shot(Key::Z);
    assert!(!i.get_fire());
}
