use island_world::inventory_ui::{
    change_hotbar_slot, handle_update_inv_item_entities, inv_slot_spawn_order, mark_slot_dirty,
    setup_inv_slots_ui, setup_inv_ui, slot_needs_respawn, spawn_inv_slot, spawn_item_stack_icon,
    update_inventory_ui, CraftingItems, InventoryPanel, InventorySlotState, InventorySlotType,
    InventoryState, ItemSource, UIElement, UIState,
};
use island_world::world_object::WorldObject;


const ALL_STATES: [UIState; 10] = [
    UIState::Closed,
    UIState::Inventory,
    UIState::NPC,
    UIState::Chest,
    UIState::Skills,
    UIState::Crafting,
    UIState::Furnace,
    UIState::Essence,
    UIState::Options,
    UIState::Scrapper,
];

fn slot(slot_index: usize, slot_type: InventorySlotType, item: Option<u64>) -> InventorySlotState {
    InventorySlotState {
        slot_index,
        item,
        count: item.map(|_| 1),
        obj_type: None,
        slot_type,
        dirty: false,
    }
}

#[test]
fn inventory_open_screens() {
    let open: Vec<UIState> = ALL_STATES.iter().copied().filter(|s| s.is_inv_open()).collect();
    assert_eq!(
        open,
        vec![UIState::Inventory, UIState::Chest, UIState::Crafting, UIState::Furnace, UIState::Scrapper]
    );
    assert_eq!(UIState::default(), UIState::Closed);
}

#[test]
fn slot_kind_predicates() {
    assert!(InventorySlotType::Crafting.is_crafting() && !InventorySlotType::Normal.is_crafting());
    assert!(InventorySlotType::Furnace.is_furnace() && !InventorySlotType::Chest.is_furnace());
    assert!(InventorySlotType::Hotbar.is_hotbar() && !InventorySlotType::Normal.is_hotbar());
    assert!(InventorySlotType::Equipment.is_equipment() && !InventorySlotType::Accessory.is_equipment());
    assert!(InventorySlotType::Accessory.is_accessory() && !InventorySlotType::Equipment.is_accessory());
    assert!(InventorySlotType::Normal.is_inventory() && !InventorySlotType::Hotbar.is_inventory());
    assert!(InventorySlotType::Chest.is_chest() && !InventorySlotType::Scrapper.is_chest());
    assert!(InventorySlotType::Scrapper.is_scrapper() && !InventorySlotType::Chest.is_scrapper());
}

#[test]
fn mark_slot_dirty_marks_matching_and_hotbar_slots() {
    let mut slots = vec![slot(1, InventorySlotType::Normal, None), slot(1, InventorySlotType::Hotbar, None), slot(2, InventorySlotType::Normal, None), slot(1, InventorySlotType::Chest, None)];
    mark_slot_dirty(1, InventorySlotType::Normal, &mut slots);
    let dirty: Vec<bool> = slots.iter().map(|s| s.dirty).collect();
    assert_eq!(dirty, vec![true, true, false, false]);
    // marking again changes nothing more
    mark_slot_dirty(1, InventorySlotType::Normal, &mut slots);
    let again: Vec<bool> = slots.iter().map(|s| s.dirty).collect();
    assert_eq!(again, dirty);
}

#[test]
fn change_hotbar_slot_marks_old_and_new() {
    let mut state = InventoryState { active_hotbar_slot: 0, hotbar_dirty: false };
    let mut slots = vec![slot(0, InventorySlotType::Hotbar, None), slot(1, InventorySlotType::Hotbar, None), slot(3, InventorySlotType::Hotbar, None), slot(3, InventorySlotType::Normal, None)];
    change_hotbar_slot(3, &mut state, &mut slots);
    assert_eq!(state.active_hotbar_slot, 3);
    let dirty: Vec<bool> = slots.iter().map(|s| s.dirty).collect();
    assert_eq!(dirty, vec![true, false, true, false]);
}

#[test]
fn panels_for_screens() {
    assert_eq!(setup_inv_ui(UIState::Inventory), Some(InventoryPanel::Inventory));
    assert_eq!(setup_inv_ui(UIState::Chest), Some(InventoryPanel::Chest));
    assert_eq!(setup_inv_ui(UIState::Scrapper), Some(InventoryPanel::Chest));
    assert_eq!(setup_inv_ui(UIState::Crafting), Some(InventoryPanel::Crafting));
    assert_eq!(setup_inv_ui(UIState::Furnace), Some(InventoryPanel::Furnace));
    assert_eq!(setup_inv_ui(UIState::Skills), None);
    assert_eq!(InventoryPanel::Chest.texture(), UIElement::ChestInventory);
    assert_eq!(InventoryPanel::Furnace.texture(), UIElement::FurnaceInventory);
    for s in ALL_STATES {
        assert_eq!(setup_inv_ui(s).is_some(), s.is_inv_open());
        assert_eq!(setup_inv_slots_ui(s).is_some(), s.is_inv_open());
    }
}

#[test]
fn slot_layouts_for_screens() {
    let l = setup_inv_slots_ui(UIState::Inventory).unwrap();
    assert!(l.spawn_equipment && l.crafting_items == CraftingItems::FromInventory);
    let l = setup_inv_slots_ui(UIState::Crafting).unwrap();
    assert!(l.spawn_equipment && l.crafting_items == CraftingItems::FromContainer);
    let l = setup_inv_slots_ui(UIState::Chest).unwrap();
    assert!(!l.spawn_equipment && l.crafting_items == CraftingItems::NoCrafting);
    let l = setup_inv_slots_ui(UIState::Furnace).unwrap();
    assert!(l.spawn_equipment && l.crafting_items == CraftingItems::NoCrafting);
    assert_eq!(setup_inv_slots_ui(UIState::Options), None);
}

#[test]
fn slot_spawn_order() {
    let order = inv_slot_spawn_order(4, true, 2);
    assert_eq!(
        order,
        vec![
            (InventorySlotType::Normal, 0), (InventorySlotType::Equipment, 0), (InventorySlotType::Accessory, 0),
            (InventorySlotType::Normal, 1), (InventorySlotType::Equipment, 1), (InventorySlotType::Accessory, 1),
            (InventorySlotType::Normal, 2), (InventorySlotType::Equipment, 2), (InventorySlotType::Accessory, 2),
            (InventorySlotType::Normal, 3),
            (InventorySlotType::Crafting, 0), (InventorySlotType::Crafting, 1),
        ]
    );
    assert_eq!(inv_slot_spawn_order(2, false, 0), vec![(InventorySlotType::Normal, 0), (InventorySlotType::Normal, 1)]);
    assert_eq!(inv_slot_spawn_order(0, true, 0), vec![]);
    // n slots, two more for each of the first three with equipment, m crafting slots
    for n in 0..8 {
        for m in 0..3 {
            assert_eq!(inv_slot_spawn_order(n, true, m).len(), n + 2 * n.min(3) + m);
            assert_eq!(inv_slot_spawn_order(n, false, m).len(), n + m);
        }
    }
}

#[test]
fn slot_looks() {
    let l = spawn_inv_slot(2, InventorySlotType::Equipment, 0, None, None);
    assert_eq!(l.slot_icon, Some("ui/icons/ChestSlotIcon.png"));
    assert_eq!(l.texture, UIElement::InventorySlot);
    assert_eq!(l.name, "SLOT");
    assert!(l.attach_to_panel);
    assert!(l.shift_item_text);
    assert_eq!(spawn_inv_slot(1, InventorySlotType::Equipment, 0, None, None).slot_icon, Some("ui/icons/PantsSlotIcon.png"));
    assert_eq!(spawn_inv_slot(0, InventorySlotType::Equipment, 0, None, None).slot_icon, Some("ui/icons/ShoesSlotIcon.png"));
    assert_eq!(spawn_inv_slot(1, InventorySlotType::Accessory, 0, None, None).slot_icon, Some("ui/icons/RingSlotIcon.png"));
    assert_eq!(spawn_inv_slot(0, InventorySlotType::Accessory, 0, None, None).slot_icon, Some("ui/icons/NecklaceSlotIcon.png"));
    assert_eq!(spawn_inv_slot(3, InventorySlotType::Accessory, 0, None, None).slot_icon, None);

    let h = spawn_inv_slot(4, InventorySlotType::Hotbar, 4, Some((WorldObject::Other(12), 3)), Some(99));
    assert_eq!(h.texture, UIElement::InventorySlotHover);
    assert!(!h.attach_to_panel);
    assert!(!h.shift_item_text);
    assert_eq!(h.state.item, Some(99));
    assert_eq!(h.state.count, Some(3));
    assert_eq!(h.state.obj_type, Some(WorldObject::Other(12)));
    assert!(!h.state.dirty);
    assert_eq!(spawn_inv_slot(1, InventorySlotType::Hotbar, 4, None, None).texture, UIElement::InventorySlotHotbar);

    let c = spawn_inv_slot(5, InventorySlotType::Crafting, 0, None, Some(7));
    assert_eq!(c.name, "CRAFTING SLOT");
    assert_eq!(c.state.item, None);
    assert!(c.shift_item_text);
}

#[test]
fn stack_count_text_only_for_several_items() {
    assert!(!spawn_item_stack_icon(0));
    assert!(!spawn_item_stack_icon(1));
    assert!(spawn_item_stack_icon(2));
}

#[test]
fn redraw_sources_and_decisions() {
    let slots = vec![
        slot(0, InventorySlotType::Hotbar, None),
        slot(0, InventorySlotType::Chest, None),
        slot(0, InventorySlotType::Scrapper, None),
        slot(0, InventorySlotType::Furnace, None),
        slot(0, InventorySlotType::Crafting, None),
        slot(0, InventorySlotType::Normal, None),
    ];
    let r = update_inventory_ui(UIState::Chest, &slots, true);
    assert_eq!(
        r,
        vec![
            None,
            Some(ItemSource::Chest),
            Some(ItemSource::Scrapper),
            Some(ItemSource::Furnace),
            Some(ItemSource::CraftingStation),
            Some(ItemSource::PlayerInventory),
        ]
    );
    let r = update_inventory_ui(UIState::Closed, &slots, false);
    assert_eq!(r[0], Some(ItemSource::PlayerInventory));
    assert_eq!(r[4], Some(ItemSource::PlayerInventory));

    let mut s = slot(0, InventorySlotType::Normal, Some(1));
    assert!(!slot_needs_respawn(&s, Some(1)));
    assert!(slot_needs_respawn(&s, Some(2)));
    assert!(slot_needs_respawn(&s, None));
    s.dirty = true;
    assert!(slot_needs_respawn(&s, Some(1)));
    let empty = slot(0, InventorySlotType::Normal, None);
    assert!(!slot_needs_respawn(&empty, None));
}

#[test]
fn item_entities_refreshed_only_when_inventory_shown() {
    let slots = vec![
        slot(0, InventorySlotType::Normal, Some(10)),
        slot(0, InventorySlotType::Hotbar, Some(11)),
        slot(0, InventorySlotType::Chest, Some(12)),
        slot(1, InventorySlotType::Normal, None),
        slot(2, InventorySlotType::Normal, Some(13)),
    ];
    let items = vec![Some(0), None, Some(2), Some(1)];
    let r = handle_update_inv_item_entities(UIState::Inventory, &items, &slots);
    assert_eq!(r, vec![(10, 0), (11, 0), (13, 2)]);
    let r = handle_update_inv_item_entities(UIState::Closed, &items, &slots);
    assert!(r.is_empty());
}
