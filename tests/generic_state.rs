use demo::v03_generic_state::{Closed, Door, Open, DEFAULT_OPEN_ANGLE};

#[test]
fn v03_generic_state_should_not_look_through_a_closed_door() {
    let door = Door::new_open("brown", 45);

    door.look_through();
}

#[test]
fn generic_state_constructed_open_door_keeps_its_angle() {
    let door = Door::new_open("brown", 45);
    assert_eq!(door.open_angle(), 45);
    assert_eq!(door.open_angle() as f64, 45.0);
    assert_eq!(door.color(), "brown");
}

#[test]
fn generic_state_brown_door_keeps_its_color_over_transitions() {
    let door: Door<Closed> = Door::new_closed("brown");
    let door: Door<Open> = door.open();
    let door: Door<Closed> = door.close();
    let door: Door<Open> = door.open();
    assert_eq!(door.color(), "brown");
}

#[test]
fn generic_state_open_uses_the_default_angle() {
    let door = Door::new_closed("white");
    let door = door.open();
    assert_eq!(door.open_angle(), 90);
    assert_eq!(door.open_angle() as f64, 90.0);
    assert_eq!(DEFAULT_OPEN_ANGLE, 90);
}

#[test]
fn generic_state_open_after_a_close_resets_the_angle() {
    let door = Door::new_open("white", 30);
    let door = door.close().open();
    assert_eq!(door.open_angle(), 90);
}

#[test]
fn generic_state_open_to_sets_the_given_angle() {
    let door = Door::new_closed("grey");
    let door = door.open_to(120);
    assert_eq!(door.open_angle(), 120);
    assert_eq!(door.color(), "grey");
}

#[test]
fn generic_state_red_door_is_red_in_every_reachable_state() {
    let open = Door::new_open("red", 10);
    assert_eq!(open.color(), "red");
    let mut closed = open.close();
    for _ in 0..5 {
        assert_eq!(closed.color(), "red");
        let open = closed.open();
        assert_eq!(open.color(), "red");
        let open = open.close().open_to(15);
        assert_eq!(open.color(), "red");
        closed = open.close();
    }
    let closed = Door::new_closed("red");
    assert_eq!(closed.color(), "red");
    assert_eq!(closed.open().color(), "red");
}

#[test]
fn generic_state_blue_door_scenario() {
    let door = Door::new_closed("blue");
    assert_eq!(door.knock(), "knock knock");
    let door = door.open();
    assert_eq!(door.look_through(), "It's brighter on the other side!");
    assert_eq!(door.open_angle() as f64, 90.0);
    let door = door.close();
    assert_eq!(door.color(), "blue");
}
