use continental::{House, ProductionAction, Restaurant, Workplace};

#[test]
fn house_reports_the_position_it_was_built_at() {
    let house = House::new((3, 5));
    assert_eq!(house.position(), (3, 5));
}

#[test]
fn restaurant_reports_its_position() {
    let restaurant = Restaurant::new((4, 4));
    assert_eq!(restaurant.position(), (4, 4));
}

#[test]
fn workplace_reports_its_position_and_action() {
    let workplace = Workplace::new((6, 2), ProductionAction::Farm);
    assert_eq!(workplace.position(), (6, 2));
    assert_eq!(workplace.action(), ProductionAction::Farm);
}

#[test]
fn positions_may_be_negative_or_extreme() {
    let house = House::new((i32::MIN, i32::MAX));
    assert_eq!(house.position(), (i32::MIN, i32::MAX));
    let workplace = Workplace::new((-3, 7), ProductionAction::Build);
    assert_eq!(workplace.position(), (-3, 7));
    assert_eq!(workplace.action(), ProductionAction::Build);
}
