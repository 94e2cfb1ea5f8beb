use player_control::catalog::{clip_label, ClipCatalog};
use player_control::input::{DirectionKeys, PlaybackTargets};
use player_control::state::{StateCode, CATALOG_SIZE};

#[test]
fn ordinals_are_one_two_three() {
    assert_eq!(StateCode::Idle.ordinal(), 1);
    assert_eq!(StateCode::Special.ordinal(), 2);
    assert_eq!(StateCode::Moving.ordinal(), 3);
    assert_eq!(CATALOG_SIZE, 4);
}

#[test]
fn clip_for_picks_the_slot_of_the_state() {
    let catalog = ClipCatalog::new("zero", "one", "two", "three");
    assert_eq!(*catalog.clip_for(StateCode::Idle), "one");
    assert_eq!(*catalog.clip_for(StateCode::Special), "two");
    assert_eq!(*catalog.clip_for(StateCode::Moving), "three");
}

#[test]
fn clip_labels_in_slot_order() {
    assert_eq!(clip_label(0), "ba.gltf#Animation2");
    assert_eq!(clip_label(1), "ba.gltf#Animation1");
    assert_eq!(clip_label(2), "ba.gltf#Animation0");
    assert_eq!(clip_label(3), "ba.gltf#Animation3");
}

#[test]
fn catalog_of_labels_maps_states_to_their_clips() {
    let catalog = ClipCatalog::new(
        clip_label(0).to_string(),
        clip_label(1).to_string(),
        clip_label(2).to_string(),
        clip_label(3).to_string(),
    );
    assert_eq!(catalog.clip_for(StateCode::Idle), "ba.gltf#Animation1");
    assert_eq!(catalog.clip_for(StateCode::Special), "ba.gltf#Animation0");
    assert_eq!(catalog.clip_for(StateCode::Moving), "ba.gltf#Animation3");
}

#[test]
fn only_a_single_target_is_ready() {
    assert!(PlaybackTargets::Single.is_ready());
    assert!(!PlaybackTargets::Absent.is_ready());
    assert!(!PlaybackTargets::Ambiguous.is_ready());
}

#[test]
fn any_key_is_true_for_each_single_key() {
    let none = DirectionKeys { up: false, down: false, right: false, left: false };
    assert!(!none.any());
    assert!(DirectionKeys { up: true, ..none }.any());
    assert!(DirectionKeys { down: true, ..none }.any());
    assert!(DirectionKeys { right: true, ..none }.any());
    assert!(DirectionKeys { left: true, ..none }.any());
}
