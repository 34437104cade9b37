use tedium::components::{FieldInstance, FieldValue, PointOfInterest};
use tedium::player_animation::{PlayerAnimationState, PlayerAnimationVariant};

fn field(name: &str, value: FieldValue) -> FieldInstance {
    FieldInstance { identifier: name.to_string(), value }
}

#[test]
fn chest_reads_its_active_field() {
    let fields = vec![field("name", FieldValue::Other), field("active", FieldValue::Bool(true))];
    assert_eq!(PointOfInterest::from_entity_fields(&fields), PointOfInterest { active: true });
    let fields = vec![field("active", FieldValue::Bool(false))];
    assert_eq!(PointOfInterest::from_entity_fields(&fields), PointOfInterest { active: false });
}

#[test]
fn chest_without_a_boolean_active_field_is_inactive() {
    assert_eq!(PointOfInterest::from_entity_fields(&Vec::new()), PointOfInterest { active: false });
    let fields = vec![field("active", FieldValue::Other), field("active", FieldValue::Bool(true))];
    assert_eq!(PointOfInterest::from_entity_fields(&fields), PointOfInterest { active: false });
    let fields = vec![field("Active", FieldValue::Bool(true))];
    assert_eq!(PointOfInterest::from_entity_fields(&fields), PointOfInterest { active: false });
}

#[test]
fn animation_pages() {
    assert_eq!(PlayerAnimationVariant::Idle.page(), (0, 6));
    assert_eq!(PlayerAnimationVariant::WalkRight.page(), (24, 6));
    assert_eq!(PlayerAnimationVariant::WalkLeft.page(), (24, 6));
    assert_eq!(PlayerAnimationVariant::WalkDown.page(), (18, 6));
    assert_eq!(PlayerAnimationVariant::WalkUp.page(), (30, 6));
}

#[test]
fn animation_defaults_to_idle() {
    assert_eq!(PlayerAnimationVariant::default(), PlayerAnimationVariant::Idle);
    assert_eq!(
        PlayerAnimationState::default(),
        PlayerAnimationState { variant: PlayerAnimationVariant::Idle, idx: 0 }
    );
}
