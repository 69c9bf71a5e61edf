use continental::{Career, ProductionAction};

#[test]
fn unemployed_has_no_production_action() {
    assert_eq!(Career::Unemployed.production_action(), None);
}

#[test]
fn farmer_can_farm() {
    assert_eq!(
        Career::Farmer.production_action(),
        Some(ProductionAction::Farm)
    );
}

#[test]
fn builder_can_build() {
    assert_eq!(
        Career::Builder.production_action(),
        Some(ProductionAction::Build)
    );
}

#[test]
fn unemployed_is_the_default() {
    assert_eq!(Career::default(), Career::Unemployed);
}
