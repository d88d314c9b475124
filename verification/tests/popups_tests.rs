use ascii_wanderer::gamearea::popups::{Horizontal, Placement, PopUp, Vertical};

#[test]
fn popup_message_is_the_placeholder() {
    assert_eq!(PopUp::gen_popups("Q".to_string()), "Temp Holder Value");
    assert_eq!(PopUp::gen_popups(String::new()), "Temp Holder Value");
}

#[test]
fn placement_above_left_when_it_fits() {
    assert_eq!(
        PopUp::placement(true, true),
        Placement { vertical: Vertical::Above, horizontal: Horizontal::LeftOf }
    );
}

#[test]
fn placement_below_when_no_room_above() {
    assert_eq!(
        PopUp::placement(true, false),
        Placement { vertical: Vertical::Below, horizontal: Horizontal::LeftOf }
    );
}

#[test]
fn placement_right_when_no_room_left() {
    assert_eq!(
        PopUp::placement(false, true),
        Placement { vertical: Vertical::Above, horizontal: Horizontal::RightOf }
    );
}

#[test]
fn placement_below_right_when_cornered() {
    assert_eq!(
        PopUp::placement(false, false),
        Placement { vertical: Vertical::Below, horizontal: Horizontal::RightOf }
    );
}
