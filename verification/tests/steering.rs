use motor_shield::steering::steer;
use motor_shield::steering::Steer;

#[test]
fn strongest_left_pair_turns_left() {
    assert_eq!(steer(&[500, 400, 100, 100, 200, 100]), Steer::Left);
}

#[test]
fn strongest_right_pair_turns_right() {
    assert_eq!(steer(&[100, 100, 200, 100, 500, 400]), Steer::Right);
}

#[test]
fn dominant_centre_drives_ahead() {
    assert_eq!(steer(&[100, 100, 500, 400, 200, 100]), Steer::Ahead);
}

#[test]
fn ties_do_not_turn() {
    // equal levels everywhere: neither side outweighs the centre
    assert_eq!(steer(&[100, 100, 100, 100, 100, 100]), Steer::Ahead);
    // left only ties the centre, right is weaker
    assert_eq!(steer(&[150, 150, 150, 150, 100, 100]), Steer::Ahead);
    // left ties the right but beats the centre: no clear left turn
    assert_eq!(steer(&[200, 200, 100, 100, 200, 200]), Steer::Right);
}

#[test]
fn saturated_sensors_do_not_overflow() {
    assert_eq!(steer(&[65535, 65535, 0, 0, 0, 0]), Steer::Left);
    assert_eq!(steer(&[0, 0, 0, 0, 65535, 65535]), Steer::Right);
    assert_eq!(steer(&[65535, 65535, 65535, 65535, 65535, 65535]), Steer::Ahead);
}
