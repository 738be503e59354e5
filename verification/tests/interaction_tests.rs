use rustcraft::interaction::{
    append_creative_search, click_window_result_stack, dig_restarts, dig_tick_feedback,
    same_vanilla_hitting_item,
};
use rustcraft::inventory::ItemStackView;
use rustcraft::resource_pack::pack_is_enabled;

fn item(item_id: u16, damage: u16) -> ItemStackView {
    ItemStackView {
        item_id,
        count: 1,
        damage,
        nbt: None,
    }
}

fn stack(item_id: u16, count: u8) -> ItemStackView {
    ItemStackView {
        item_id,
        count,
        damage: 0,
        nbt: None,
    }
}

#[test]
fn damageable_item_wear_does_not_restart_digging() {
    assert!(same_vanilla_hitting_item(&item(278, 10), &item(278, 11)));
    assert!(!same_vanilla_hitting_item(&item(1, 0), &item(1, 1)));
}

#[test]
fn digging_item_identity_includes_nbt_and_emptiness() {
    let mut enchanted = item(278, 0);
    enchanted.nbt = Some(vec![1, 2]);
    assert!(!same_vanilla_hitting_item(&item(278, 0), &enchanted));
    assert!(!same_vanilla_hitting_item(&item(278, 0), &item(257, 0)));
    assert!(same_vanilla_hitting_item(&ItemStackView::default(), &stack(1, 0)));
    assert!(!same_vanilla_hitting_item(&ItemStackView::default(), &item(1, 0)));
}

#[test]
fn click_packet_uses_container_slot_click_return_stack() {
    let original = stack(1, 32);
    let placed = stack(1, 32);
    let empty = ItemStackView::default();

    assert_eq!(
        click_window_result_stack(0, original.clone(), empty.clone()),
        original
    );
    assert_eq!(click_window_result_stack(0, empty.clone(), placed), empty);
}

#[test]
fn shift_click_returns_original_stack_only_when_it_moves() {
    let original = stack(276, 1);
    assert_eq!(
        click_window_result_stack(1, original.clone(), ItemStackView::default()),
        original
    );
    assert!(click_window_result_stack(1, original.clone(), original).is_empty());
}

#[test]
fn other_click_modes_report_an_empty_stack() {
    assert!(click_window_result_stack(4, stack(1, 1), ItemStackView::default()).is_empty());
}

#[test]
fn creative_search_keeps_fifteen_printable_characters() {
    let mut search = String::from("ab");
    append_creative_search(&mut search, "c\td");
    assert_eq!(search, "abcd");
    append_creative_search(&mut search, "0123456789abcdef");
    assert_eq!(search, "abcd0123456789a");
}

#[test]
fn enabled_packs_are_found_by_name() {
    let enabled = vec!["Faithful".to_string(), "Dark".to_string()];
    assert!(pack_is_enabled(&enabled, "Dark"));
    assert!(!pack_is_enabled(&enabled, "dark"));
    assert!(!pack_is_enabled(&[], "Dark"));
}

#[test]
fn a_dig_goes_on_only_at_the_same_block_with_the_same_item() {
    let pick = item(278, 10);
    let worn = item(278, 11);
    assert!(!dig_restarts(Some((1, 2, 3)), Some(&pick), (1, 2, 3), &worn));
    assert!(dig_restarts(Some((1, 2, 3)), Some(&pick), (1, 2, 4), &worn));
    assert!(dig_restarts(Some((1, 2, 3)), Some(&pick), (1, 2, 3), &item(1, 0)));
    assert!(dig_restarts(None, None, (1, 2, 3), &pick));
}

#[test]
fn dig_ticks_show_a_particle_every_fourth_tick_and_sound_from_the_first() {
    assert_eq!(dig_tick_feedback(0), (1, false, true));
    assert_eq!(dig_tick_feedback(3), (4, true, false));
    assert_eq!(dig_tick_feedback(4), (5, false, true));
    assert_eq!(dig_tick_feedback(5), (6, false, false));
    assert_eq!(dig_tick_feedback(u32::MAX), (u32::MAX, false, false));
}
