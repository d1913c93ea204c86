//! Rules of the inventory interface: which screens show the inventory,
//! which slots a screen lays out, how a slot looks, and which slots must be
//! redrawn.
use vstd::prelude::*;

use crate::world_object::WorldObject;

verus! {

/// The interface screens.
#[derive(Clone, Copy, Debug, PartialEq, Eq, Hash, Structural)]
pub enum UIState {
    Closed,
    Inventory,
    NPC,
    Chest,
    Skills,
    Crafting,
    Furnace,
    Essence,
    Options,
    Scrapper,
}

impl Default for UIState {
    fn default() -> (r: UIState)
        ensures
            r == UIState::Closed,
    {
        UIState::Closed
    }
}

/// The screens on which the player's inventory is shown.
pub open spec fn spec_is_inv_open(s: UIState) -> bool {
    s == UIState::Inventory || s == UIState::Chest || s == UIState::Scrapper || s
        == UIState::Crafting || s == UIState::Furnace
}

impl UIState {
    /// Whether the player's inventory is shown on this screen.
    pub fn is_inv_open(&self) -> (r: bool)
        ensures
            r == spec_is_inv_open(*self),
    {
        *self == UIState::Inventory || *self == UIState::Chest || *self == UIState::Scrapper
            || *self == UIState::Crafting || *self == UIState::Furnace
    }
}

/// Marks the entity of the inventory panel.
#[derive(Clone, Copy, Debug, Default)]
pub struct InventoryUI;

/// The kinds of inventory slots.
#[derive(Clone, Copy, Debug, PartialEq, Eq, Structural)]
pub enum InventorySlotType {
    Normal,
    Hotbar,
    Crafting,
    Equipment,
    Accessory,
    Chest,
    Furnace,
    Scrapper,
}

impl InventorySlotType {
    /// Whether this is a crafting slot.
    pub fn is_crafting(self) -> (r: bool)
        ensures
            r == (self == InventorySlotType::Crafting),
    {
        self == InventorySlotType::Crafting
    }

    /// Whether this is a furnace slot.
    pub fn is_furnace(self) -> (r: bool)
        ensures
            r == (self == InventorySlotType::Furnace),
    {
        self == InventorySlotType::Furnace
    }

    /// Whether this is a hotbar slot.
    pub fn is_hotbar(self) -> (r: bool)
        ensures
            r == (self == InventorySlotType::Hotbar),
    {
        self == InventorySlotType::Hotbar
    }

    /// Whether this is an equipment slot.
    pub fn is_equipment(self) -> (r: bool)
        ensures
            r == (self == InventorySlotType::Equipment),
    {
        self == InventorySlotType::Equipment
    }

    /// Whether this is an accessory slot.
    pub fn is_accessory(self) -> (r: bool)
        ensures
            r == (self == InventorySlotType::Accessory),
    {
        self == InventorySlotType::Accessory
    }

    /// Whether this is an ordinary inventory slot.
    pub fn is_inventory(self) -> (r: bool)
        ensures
            r == (self == InventorySlotType::Normal),
    {
        self == InventorySlotType::Normal
    }

    /// Whether this is a chest slot.
    pub fn is_chest(self) -> (r: bool)
        ensures
            r == (self == InventorySlotType::Chest),
    {
        self == InventorySlotType::Chest
    }

    /// Whether this is a scrapper slot.
    pub fn is_scrapper(self) -> (r: bool)
        ensures
            r == (self == InventorySlotType::Scrapper),
    {
        self == InventorySlotType::Scrapper
    }
}

/// What an inventory slot shows: its index, the entity of the item icon in
/// it (by the entity's bits), the count and kind of the item, the kind of
/// slot, and whether it must be redrawn.
#[derive(Clone, Copy, Debug)]
pub struct InventorySlotState {
    pub slot_index: usize,
    pub item: Option<u64>,
    pub count: Option<usize>,
    pub obj_type: Option<WorldObject>,
    pub slot_type: InventorySlotType,
    pub dirty: bool,
}

/// The hotbar slot in use, and whether the hotbar must be redrawn.
#[derive(Clone, Copy, Debug, Default)]
pub struct InventoryState {
    pub active_hotbar_slot: usize,
    pub hotbar_dirty: bool,
}

/// The slot `state` is the slot `slot_index` of kind `slot_type`, or the
/// hotbar slot with that index.
pub open spec fn slot_matches(
    state: InventorySlotState,
    slot_index: usize,
    slot_type: InventorySlotType,
) -> bool {
    state.slot_index == slot_index && (state.slot_type == slot_type || state.slot_type
        == InventorySlotType::Hotbar)
}

/// `after` is `before` marked for redrawing when it is the slot
/// `slot_index` of kind `slot_type` (or that hotbar slot), else `before`
/// unchanged.
pub open spec fn marked_dirty(
    before: InventorySlotState,
    after: InventorySlotState,
    slot_index: usize,
    slot_type: InventorySlotType,
) -> bool {
    if slot_matches(before, slot_index, slot_type) {
        after == InventorySlotState { dirty: true, ..before }
    } else {
        after == before
    }
}

/// Marking a slot for redrawing twice marks it as once does.
pub proof fn lemma_mark_slot_dirty_idempotent(
    before: InventorySlotState,
    once: InventorySlotState,
    twice: InventorySlotState,
    slot_index: usize,
    slot_type: InventorySlotType,
)
    requires
        marked_dirty(before, once, slot_index, slot_type),
        marked_dirty(once, twice, slot_index, slot_type),
    ensures
        twice == once,
{
}

/// Marking sets the dirty flag of exactly the slots with index
/// `slot_index` whose kind is `slot_type` or that are hotbar slots, never
/// clears a dirty flag, and changes nothing else of any slot.
pub proof fn lemma_marked_dirty_fields(
    before: InventorySlotState,
    after: InventorySlotState,
    slot_index: usize,
    slot_type: InventorySlotType,
)
    requires
        marked_dirty(before, after, slot_index, slot_type),
    ensures
        after.dirty == (before.dirty || (before.slot_index == slot_index && (before.slot_type
            == slot_type || before.slot_type == InventorySlotType::Hotbar))),
        after.slot_index == before.slot_index,
        after.item == before.item,
        after.count == before.count,
        after.obj_type == before.obj_type,
        after.slot_type == before.slot_type,
{
}

/// Marks for redrawing the slots with index `slot_index` that are of kind
/// `slot_type` or are hotbar slots; the other slots are left as they are.
pub fn mark_slot_dirty(
    slot_index: usize,
    slot_type: InventorySlotType,
    inv_slots: &mut Vec<InventorySlotState>,
)
    ensures
        final(inv_slots).len() == old(inv_slots).len(),
        forall|i: int|
            0 <= i < old(inv_slots).len() ==> marked_dirty(
                #[trigger] old(inv_slots)[i],
                final(inv_slots)[i],
                slot_index,
                slot_type,
            ),
{
    let n = inv_slots.len();
    let mut i: usize = 0;
    while i < n
        invariant
            n == old(inv_slots).len(),
            inv_slots.len() == n,
            i <= n,
            forall|j: int|
                0 <= j < i ==> marked_dirty(
                    #[trigger] old(inv_slots)[j],
                    inv_slots[j],
                    slot_index,
                    slot_type,
                ),
            forall|j: int| i <= j < n ==> #[trigger] inv_slots[j] == old(inv_slots)[j],
        decreases n - i,
    {
        let state = inv_slots[i];
        if state.slot_index == slot_index && (state.slot_type == slot_type
            || state.slot_type.is_hotbar()) {
            inv_slots.set(i, InventorySlotState { dirty: true, ..state });
        }
        i = i + 1;
    }
}

/// Makes `slot` the hotbar slot in use, marking the hotbar slots that were
/// and that become in use for redrawing.
pub fn change_hotbar_slot(
    slot: usize,
    inv_state: &mut InventoryState,
    inv_slots: &mut Vec<InventorySlotState>,
)
    ensures
        final(inv_state).active_hotbar_slot == slot,
        final(inv_state).hotbar_dirty == old(inv_state).hotbar_dirty,
        final(inv_slots).len() == old(inv_slots).len(),
        forall|i: int|
            0 <= i < old(inv_slots).len() ==> {
                let before = #[trigger] old(inv_slots)[i];
                let after = final(inv_slots)[i];
                if before.slot_type == InventorySlotType::Hotbar && (before.slot_index == old(
                    inv_state,
                ).active_hotbar_slot || before.slot_index == slot) {
                    after == InventorySlotState { dirty: true, ..before }
                } else {
                    after == before
                }
            },
{
    let ghost before = inv_slots@;
    mark_slot_dirty(inv_state.active_hotbar_slot, InventorySlotType::Hotbar, inv_slots);
    let ghost middle = inv_slots@;
    inv_state.active_hotbar_slot = slot;
    mark_slot_dirty(slot, InventorySlotType::Hotbar, inv_slots);
    assert forall|i: int| 0 <= i < before.len() implies marked_dirty(
        #[trigger] before[i],
        middle[i],
        old(inv_state).active_hotbar_slot,
        InventorySlotType::Hotbar,
    ) && marked_dirty(middle[i], inv_slots@[i], slot, InventorySlotType::Hotbar) by {}
}

// ------------------------------------------------------------------------
// Laying out the inventory panel and its slots
// ------------------------------------------------------------------------

/// The interface textures that the inventory uses.
#[derive(Clone, Copy, Debug, PartialEq, Eq, Structural)]
pub enum UIElement {
    Inventory,
    ChestInventory,
    CraftingInventory,
    FurnaceInventory,
    InventorySlot,
    InventorySlotHover,
    InventorySlotHotbar,
}

/// The inventory panels; chest and scrapper screens share one.
#[derive(Clone, Copy, Debug, PartialEq, Eq, Structural)]
pub enum InventoryPanel {
    Inventory,
    Chest,
    Crafting,
    Furnace,
}

impl InventoryPanel {
    /// The texture of this panel.
    pub fn texture(&self) -> (r: UIElement)
        ensures
            *self == InventoryPanel::Inventory ==> r == UIElement::Inventory,
            *self == InventoryPanel::Chest ==> r == UIElement::ChestInventory,
            *self == InventoryPanel::Crafting ==> r == UIElement::CraftingInventory,
            *self == InventoryPanel::Furnace ==> r == UIElement::FurnaceInventory,
    {
        match self {
            InventoryPanel::Inventory => UIElement::Inventory,
            InventoryPanel::Chest => UIElement::ChestInventory,
            InventoryPanel::Crafting => UIElement::CraftingInventory,
            InventoryPanel::Furnace => UIElement::FurnaceInventory,
        }
    }
}

/// The panel drawn for a screen, if the screen shows the inventory.
pub open spec fn spec_panel(state: UIState) -> Option<InventoryPanel> {
    match state {
        UIState::Inventory => Some(InventoryPanel::Inventory),
        UIState::Chest => Some(InventoryPanel::Chest),
        UIState::Scrapper => Some(InventoryPanel::Chest),
        UIState::Crafting => Some(InventoryPanel::Crafting),
        UIState::Furnace => Some(InventoryPanel::Furnace),
        _ => None,
    }
}

/// The panel to set up when the interface enters `state`; none for the
/// screens that do not show the inventory.
pub fn setup_inv_ui(state: UIState) -> (r: Option<InventoryPanel>)
    ensures
        r == spec_panel(state),
        (r is Some) == spec_is_inv_open(state),
{
    match state {
        UIState::Inventory => Some(InventoryPanel::Inventory),
        UIState::Chest => Some(InventoryPanel::Chest),
        UIState::Scrapper => Some(InventoryPanel::Chest),
        UIState::Crafting => Some(InventoryPanel::Crafting),
        UIState::Furnace => Some(InventoryPanel::Furnace),
        _ => None,
    }
}

/// Where the items of the crafting slots of a screen come from.
#[derive(Clone, Copy, Debug, PartialEq, Eq, Structural)]
pub enum CraftingItems {
    /// The screen has no crafting slots.
    NoCrafting,
    /// The crafting grid of the player's inventory.
    FromInventory,
    /// The open crafting station.
    FromContainer,
}

/// Which slots a screen shows besides the inventory slots.
#[derive(Clone, Copy, Debug, PartialEq, Eq, Structural)]
pub struct InventorySlotsLayout {
    /// Equipment and accessory slots are shown.
    pub spawn_equipment: bool,
    /// Where the crafting slots take their items from.
    pub crafting_items: CraftingItems,
}

/// Which slots to set up for `state`; none for the screens that do not
/// show the inventory.
pub fn setup_inv_slots_ui(state: UIState) -> (r: Option<InventorySlotsLayout>)
    ensures
        (r is Some) == spec_is_inv_open(state),
        state == UIState::Inventory ==> r == Some(
            InventorySlotsLayout { spawn_equipment: true, crafting_items: CraftingItems::FromInventory },
        ),
        state == UIState::Crafting ==> r == Some(
            InventorySlotsLayout { spawn_equipment: true, crafting_items: CraftingItems::FromContainer },
        ),
        state == UIState::Chest || state == UIState::Scrapper ==> r == Some(
            InventorySlotsLayout { spawn_equipment: false, crafting_items: CraftingItems::NoCrafting },
        ),
        state == UIState::Furnace ==> r == Some(
            InventorySlotsLayout { spawn_equipment: true, crafting_items: CraftingItems::NoCrafting },
        ),
{
    match state {
        UIState::Inventory => Some(
            InventorySlotsLayout { spawn_equipment: true, crafting_items: CraftingItems::FromInventory },
        ),
        UIState::Crafting => Some(
            InventorySlotsLayout { spawn_equipment: true, crafting_items: CraftingItems::FromContainer },
        ),
        UIState::Chest => Some(
            InventorySlotsLayout { spawn_equipment: false, crafting_items: CraftingItems::NoCrafting },
        ),
        UIState::Scrapper => Some(
            InventorySlotsLayout { spawn_equipment: false, crafting_items: CraftingItems::NoCrafting },
        ),
        UIState::Furnace => Some(
            InventorySlotsLayout { spawn_equipment: true, crafting_items: CraftingItems::NoCrafting },
        ),
        _ => None,
    }
}

/// The slots set up for inventory slot `i`: the slot itself, followed by
/// the equipment and accessory slots of the same index for the first three
/// slots when equipment is shown.
pub open spec fn slot_row(i: nat, spawn_equipment: bool) -> Seq<(InventorySlotType, usize)> {
    seq![(InventorySlotType::Normal, i as usize)] + if i < 3 && spawn_equipment {
        seq![(InventorySlotType::Equipment, i as usize), (InventorySlotType::Accessory, i as usize)]
    } else {
        Seq::<(InventorySlotType, usize)>::empty()
    }
}

/// The slots set up for the first `n` inventory slots, in order.
pub open spec fn inventory_slot_order(n: nat, spawn_equipment: bool) -> Seq<
    (InventorySlotType, usize),
>
    decreases n,
{
    if n == 0 {
        Seq::empty()
    } else {
        inventory_slot_order((n - 1) as nat, spawn_equipment) + slot_row((n - 1) as nat, spawn_equipment)
    }
}

/// The crafting slots `0..m`, in order.
pub open spec fn crafting_slot_order(m: nat) -> Seq<(InventorySlotType, usize)> {
    Seq::new(m, |i: int| (InventorySlotType::Crafting, i as usize))
}

/// Each inventory slot is set up once, each of the first three also gets an
/// equipment and an accessory slot when equipment is shown, and each
/// crafting slot is set up once.
pub proof fn lemma_slot_order_len(n: nat, spawn_equipment: bool, m: nat)
    ensures
        (inventory_slot_order(n, spawn_equipment) + crafting_slot_order(m)).len() == n + (if spawn_equipment {
            2 * (if n < 3 {
                n
            } else {
                3
            })
        } else {
            0
        }) + m,
    decreases n,
{
    if n > 0 {
        lemma_slot_order_len((n - 1) as nat, spawn_equipment, 0);
    }
}

/// Where inventory slot `i` is set up in the order: after the slots of
/// the earlier inventory slots, two more for each of the first three when
/// equipment is shown.
pub open spec fn slot_position(i: nat, spawn_equipment: bool) -> int {
    if spawn_equipment {
        i + 2 * (if i < 3 {
            i as int
        } else {
            3int
        })
    } else {
        i as int
    }
}

/// Inventory slot `i` is set up at `slot_position(i)`, and when equipment
/// is shown and `i < 3`, its equipment slot comes right after it and its
/// accessory slot right after that.
pub proof fn lemma_slot_order_positions(n: nat, spawn_equipment: bool)
    ensures
        inventory_slot_order(n, spawn_equipment).len() == slot_position(n, spawn_equipment),
        forall|i: nat|
            i < n ==> #[trigger] inventory_slot_order(n, spawn_equipment)[slot_position(
                i,
                spawn_equipment,
            )] == (InventorySlotType::Normal, i as usize),
        forall|i: nat|
            i < n && i < 3 && spawn_equipment ==> #[trigger] inventory_slot_order(
                n,
                spawn_equipment,
            )[slot_position(i, spawn_equipment) + 1] == (InventorySlotType::Equipment, i as usize)
                && inventory_slot_order(n, spawn_equipment)[slot_position(i, spawn_equipment) + 2] == (
            InventorySlotType::Accessory,
            i as usize,
        ),
    decreases n,
{
    if n > 0 {
        let m = (n - 1) as nat;
        lemma_slot_order_positions(m, spawn_equipment);
        let prev = inventory_slot_order(m, spawn_equipment);
        let cur = inventory_slot_order(n, spawn_equipment);
        assert(cur == prev + slot_row(m, spawn_equipment));
        assert forall|i: nat| i < n implies #[trigger] cur[slot_position(i, spawn_equipment)] == (
        InventorySlotType::Normal,
        i as usize,
        ) by {
            if i < m {
                assert(cur[slot_position(i, spawn_equipment)] == prev[slot_position(i, spawn_equipment)]);
            }
        }
        assert forall|i: nat| i < n && i < 3 && spawn_equipment implies #[trigger] cur[slot_position(
            i,
            spawn_equipment,
        ) + 1] == (InventorySlotType::Equipment, i as usize) && cur[slot_position(i, spawn_equipment)
            + 2] == (InventorySlotType::Accessory, i as usize) by {
            if i < m {
                assert(slot_position(i, spawn_equipment) + 2 < prev.len());
                assert(cur[slot_position(i, spawn_equipment) + 1] == prev[slot_position(i, spawn_equipment)
                    + 1]);
                assert(cur[slot_position(i, spawn_equipment) + 2] == prev[slot_position(i, spawn_equipment)
                    + 2]);
            }
        }
    }
}

/// The kind and index of every slot to set up, in the order in which they
/// are set up: each of the `n_items` inventory slots (with the equipment and
/// accessory slots of the first three when `spawn_equipment`), then the
/// `n_crafting` crafting slots.
pub fn inv_slot_spawn_order(n_items: usize, spawn_equipment: bool, n_crafting: usize) -> (r: Vec<
    (InventorySlotType, usize),
>)
    ensures
        r@ == inventory_slot_order(n_items as nat, spawn_equipment) + crafting_slot_order(
            n_crafting as nat,
        ),
{
    let mut r: Vec<(InventorySlotType, usize)> = Vec::new();
    let mut slot_index: usize = 0;
    while slot_index < n_items
        invariant
            slot_index <= n_items,
            r@ == inventory_slot_order(slot_index as nat, spawn_equipment),
        decreases n_items - slot_index,
    {
        let ghost prev = r@;
        r.push((InventorySlotType::Normal, slot_index));
        // equipment slots
        if slot_index < 3 && spawn_equipment {
            r.push((InventorySlotType::Equipment, slot_index));
        }
        // accessory slots
        if slot_index < 3 && spawn_equipment {
            r.push((InventorySlotType::Accessory, slot_index));
        }
        assert(r@ =~= prev + slot_row(slot_index as nat, spawn_equipment));
        slot_index = slot_index + 1;
    }
    let ghost items_part = r@;
    let mut slot_index: usize = 0;
    while slot_index < n_crafting
        invariant
            slot_index <= n_crafting,
            r@ == items_part + crafting_slot_order(slot_index as nat),
        decreases n_crafting - slot_index,
    {
        r.push((InventorySlotType::Crafting, slot_index));
        assert(crafting_slot_order((slot_index + 1) as nat) =~= crafting_slot_order(
            slot_index as nat,
        ).push((InventorySlotType::Crafting, slot_index)));
        slot_index = slot_index + 1;
    }
    r
}


// ------------------------------------------------------------------------
// Drawing one slot
// ------------------------------------------------------------------------

/// How a slot is drawn, apart from its position on screen.
#[derive(Clone, Copy, Debug)]
pub struct InventorySlotLook {
    /// The slot's background texture.
    pub texture: UIElement,
    /// The icon drawn in an empty equipment or accessory slot, if any.
    pub slot_icon: Option<&'static str>,
    /// The entity name of the slot.
    pub name: &'static str,
    /// The slot hangs under the inventory panel and reacts to the pointer
    /// (every slot but the hotbar ones).
    pub attach_to_panel: bool,
    /// The count text of the item in the slot is moved half a pixel right.
    pub shift_item_text: bool,
    /// What the slot shows.
    pub state: InventorySlotState,
}

/// The icon of an empty equipment or accessory slot.
pub open spec fn spec_slot_icon(slot_type: InventorySlotType, slot_index: usize) -> Option<
    Seq<char>,
> {
    match slot_type {
        InventorySlotType::Equipment => if slot_index == 2 {
            Some("ui/icons/ChestSlotIcon.png"@)
        } else if slot_index == 1 {
            Some("ui/icons/PantsSlotIcon.png"@)
        } else if slot_index == 0 {
            Some("ui/icons/ShoesSlotIcon.png"@)
        } else {
            None
        },
        InventorySlotType::Accessory => if slot_index == 2 || slot_index == 1 {
            Some("ui/icons/RingSlotIcon.png"@)
        } else if slot_index == 0 {
            Some("ui/icons/NecklaceSlotIcon.png"@)
        } else {
            None
        },
        _ => None,
    }
}

/// The icons of empty equipment and accessory slots: shoes, pants and
/// chest for equipment slots 0, 1 and 2; a necklace for accessory slot 0 and
/// a ring for accessory slots 1 and 2; no icon for any other slot.
pub proof fn lemma_slot_icons(slot_type: InventorySlotType, slot_index: usize)
    ensures
        (spec_slot_icon(slot_type, slot_index) is Some) == ((slot_type == InventorySlotType::Equipment
            || slot_type == InventorySlotType::Accessory) && slot_index < 3),
        spec_slot_icon(InventorySlotType::Equipment, 0) == Some("ui/icons/ShoesSlotIcon.png"@),
        spec_slot_icon(InventorySlotType::Equipment, 1) == Some("ui/icons/PantsSlotIcon.png"@),
        spec_slot_icon(InventorySlotType::Equipment, 2) == Some("ui/icons/ChestSlotIcon.png"@),
        spec_slot_icon(InventorySlotType::Accessory, 0) == Some("ui/icons/NecklaceSlotIcon.png"@),
        spec_slot_icon(InventorySlotType::Accessory, 1) == Some("ui/icons/RingSlotIcon.png"@),
        spec_slot_icon(InventorySlotType::Accessory, 2) == Some("ui/icons/RingSlotIcon.png"@),
{
}

/// How slot `slot_index` of kind `slot_type` is drawn when
/// `active_hotbar_slot` is the hotbar slot in use, holding `item` (its kind
/// and count) whose icon entity is `item_icon`.
pub fn spawn_inv_slot(
    slot_index: usize,
    slot_type: InventorySlotType,
    active_hotbar_slot: usize,
    item: Option<(WorldObject, usize)>,
    item_icon: Option<u64>,
) -> (r: InventorySlotLook)
    ensures
        r.texture == (if slot_type == InventorySlotType::Hotbar && active_hotbar_slot == slot_index {
            UIElement::InventorySlotHover
        } else if slot_type == InventorySlotType::Hotbar {
            UIElement::InventorySlotHotbar
        } else {
            UIElement::InventorySlot
        }),
        (r.slot_icon is Some) == (spec_slot_icon(slot_type, slot_index) is Some),
        r.slot_icon is Some ==> r.slot_icon->0@ == spec_slot_icon(slot_type, slot_index)->0,
        (r.slot_icon is Some) == ((slot_type == InventorySlotType::Equipment || slot_type
            == InventorySlotType::Accessory) && slot_index < 3),
        slot_type == InventorySlotType::Equipment && slot_index == 0 ==> r.slot_icon->0@
            == "ui/icons/ShoesSlotIcon.png"@,
        slot_type == InventorySlotType::Equipment && slot_index == 1 ==> r.slot_icon->0@
            == "ui/icons/PantsSlotIcon.png"@,
        slot_type == InventorySlotType::Equipment && slot_index == 2 ==> r.slot_icon->0@
            == "ui/icons/ChestSlotIcon.png"@,
        slot_type == InventorySlotType::Accessory && slot_index == 0 ==> r.slot_icon->0@
            == "ui/icons/NecklaceSlotIcon.png"@,
        slot_type == InventorySlotType::Accessory && (slot_index == 1 || slot_index == 2)
            ==> r.slot_icon->0@ == "ui/icons/RingSlotIcon.png"@,
        slot_type == InventorySlotType::Crafting ==> r.name@ == "CRAFTING SLOT"@,
        slot_type != InventorySlotType::Crafting ==> r.name@ == "SLOT"@,
        r.attach_to_panel == (slot_type != InventorySlotType::Hotbar),
        r.shift_item_text == (slot_index == 5 || slot_index == 2),
        r.state == (InventorySlotState {
            slot_index,
            item: match item {
                Some(_) => item_icon,
                None => None,
            },
            count: match item {
                Some(i) => Some(i.1),
                None => None,
            },
            obj_type: match item {
                Some(i) => Some(i.0),
                None => None,
            },
            slot_type,
            dirty: false,
        }),
{
    let mut item_icon_option: Option<u64> = None;
    let mut item_type_option: Option<WorldObject> = None;
    let mut item_count_option: Option<usize> = None;
    if let Some(stack) = item {
        item_type_option = Some(stack.0);
        item_count_option = Some(stack.1);
        item_icon_option = item_icon;
    }
    let slot_icon: Option<&'static str> = match slot_type {
        InventorySlotType::Equipment => match slot_index {
            2 => Some("ui/icons/ChestSlotIcon.png"),
            1 => Some("ui/icons/PantsSlotIcon.png"),
            0 => Some("ui/icons/ShoesSlotIcon.png"),
            _ => None,
        },
        InventorySlotType::Accessory => match slot_index {
            2 => Some("ui/icons/RingSlotIcon.png"),
            1 => Some("ui/icons/RingSlotIcon.png"),
            0 => Some("ui/icons/NecklaceSlotIcon.png"),
            _ => None,
        },
        _ => None,
    };
    let texture = if slot_type.is_hotbar() && active_hotbar_slot == slot_index {
        UIElement::InventorySlotHover
    } else if slot_type.is_hotbar() {
        UIElement::InventorySlotHotbar
    } else {
        UIElement::InventorySlot
    };
    let name = if slot_type.is_crafting() {
        "CRAFTING SLOT"
    } else {
        "SLOT"
    };
    InventorySlotLook {
        texture,
        slot_icon,
        name,
        attach_to_panel: !slot_type.is_hotbar(),
        shift_item_text: slot_index == 5 || slot_index == 2,
        state: InventorySlotState {
            slot_index,
            item: item_icon_option,
            obj_type: item_type_option,
            count: item_count_option,
            dirty: false,
            slot_type,
        },
    }
}

/// An item stack's icon carries a count text when it holds more than one
/// item.
pub fn spawn_item_stack_icon(count: usize) -> (r: bool)
    ensures
        r == (count > 1),
{
    count > 1
}

// ------------------------------------------------------------------------
// Redrawing slots
// ------------------------------------------------------------------------

/// The container whose items a slot shows.
#[derive(Clone, Copy, Debug, PartialEq, Eq, Structural)]
pub enum ItemSource {
    Chest,
    Scrapper,
    Furnace,
    /// The open crafting station.
    CraftingStation,
    /// The player's own inventory, in the part that holds this kind of slot.
    PlayerInventory,
}

/// The container that slot kind `slot_type` takes its items from, when a
/// crafting station is open or not.
pub open spec fn spec_item_source(slot_type: InventorySlotType, crafting_open: bool) -> ItemSource {
    if slot_type == InventorySlotType::Chest {
        ItemSource::Chest
    } else if slot_type == InventorySlotType::Scrapper {
        ItemSource::Scrapper
    } else if slot_type == InventorySlotType::Furnace {
        ItemSource::Furnace
    } else if slot_type == InventorySlotType::Crafting && crafting_open {
        ItemSource::CraftingStation
    } else {
        ItemSource::PlayerInventory
    }
}

/// For each slot, where to look up the item it should show, or `None` when
/// its redraw waits: hotbar slots are hidden, and not redrawn, while the
/// inventory is open.
pub fn update_inventory_ui(
    ui_state: UIState,
    slots: &Vec<InventorySlotState>,
    crafting_open: bool,
) -> (r: Vec<Option<ItemSource>>)
    ensures
        r.len() == slots.len(),
        forall|i: int|
            0 <= i < slots.len() ==> #[trigger] r[i] == if spec_is_inv_open(ui_state)
                && slots[i].slot_type == InventorySlotType::Hotbar {
                None
            } else {
                Some(spec_item_source(slots[i].slot_type, crafting_open))
            },
{
    let inv_open = ui_state.is_inv_open();
    let mut r: Vec<Option<ItemSource>> = Vec::new();
    let mut i: usize = 0;
    while i < slots.len()
        invariant
            i <= slots.len(),
            r.len() == i,
            inv_open == spec_is_inv_open(ui_state),
            forall|j: int|
                0 <= j < i ==> #[trigger] r[j] == if spec_is_inv_open(ui_state)
                    && slots[j].slot_type == InventorySlotType::Hotbar {
                    None
                } else {
                    Some(spec_item_source(slots[j].slot_type, crafting_open))
                },
        decreases slots.len() - i,
    {
        let t = slots[i].slot_type;
        let source = if inv_open && t.is_hotbar() {
            None
        } else if t.is_chest() {
            Some(ItemSource::Chest)
        } else if t.is_scrapper() {
            Some(ItemSource::Scrapper)
        } else if t.is_furnace() {
            Some(ItemSource::Furnace)
        } else if t.is_crafting() && crafting_open {
            Some(ItemSource::CraftingStation)
        } else {
            Some(ItemSource::PlayerInventory)
        };
        r.push(source);
        i = i + 1;
    }
    r
}

/// A slot is redrawn when it is marked for redrawing or the count it shows
/// differs from the count of the item that is really in it.
pub fn slot_needs_respawn(slot: &InventorySlotState, real_count: Option<usize>) -> (r: bool)
    ensures
        r == (slot.dirty || slot.count != real_count),
{
    let same = match (slot.count, real_count) {
        (Some(a), Some(b)) => a == b,
        (None, None) => true,
        _ => false,
    };
    slot.dirty || !same
}

// ------------------------------------------------------------------------
// Refreshing item entities
// ------------------------------------------------------------------------

/// The icon entities, among `slots`, of the inventory or hotbar slots with
/// index `slot`, each paired with `item`, in the order of `slots`.
pub open spec fn icons_for_item(
    item: usize,
    slot: usize,
    slots: Seq<InventorySlotState>,
    j: nat,
) -> Seq<(u64, usize)>
    decreases j,
{
    if j == 0 {
        Seq::empty()
    } else {
        let s = slots[j - 1];
        icons_for_item(item, slot, slots, (j - 1) as nat) + if s.slot_index == slot && (s.slot_type
            == InventorySlotType::Normal || s.slot_type == InventorySlotType::Hotbar) && s.item is Some {
            seq![(s.item->0, item)]
        } else {
            Seq::<(u64, usize)>::empty()
        }
    }
}

/// For the first `k` inventory items (by the slot each is in), the icon
/// entities that show them, each paired with the item's position.
pub open spec fn icons_for_items(
    item_slots: Seq<Option<usize>>,
    slots: Seq<InventorySlotState>,
    k: nat,
) -> Seq<(u64, usize)>
    decreases k,
{
    if k == 0 {
        Seq::empty()
    } else {
        icons_for_items(item_slots, slots, (k - 1) as nat) + match item_slots[k - 1] {
            None => Seq::<(u64, usize)>::empty(),
            Some(slot) => icons_for_item((k - 1) as usize, slot, slots, slots.len()),
        }
    }
}

/// Slot `s` shows the icon of an item in inventory place `slot`, and is an
/// inventory or hotbar slot.
pub open spec fn shows_inventory_item(s: InventorySlotState, slot: usize) -> bool {
    &&& s.slot_index == slot
    &&& (s.slot_type == InventorySlotType::Normal || s.slot_type == InventorySlotType::Hotbar)
    &&& s.item is Some
}

proof fn lemma_icons_for_item_members(item: usize, slot: usize, slots: Seq<InventorySlotState>, j: nat)
    requires
        j <= slots.len(),
    ensures
        forall|p: (u64, usize)|
            #[trigger] icons_for_item(item, slot, slots, j).contains(p) ==> p.1 == item && exists|q: int|
                0 <= q < j && shows_inventory_item(slots[q], slot) && slots[q].item == Some(p.0),
        forall|q: int|
            0 <= q < j && shows_inventory_item(slots[q], slot) ==> icons_for_item(
                item,
                slot,
                slots,
                j,
            ).contains((slots[q].item->0, item)),
    decreases j,
{
    if j > 0 {
        let m = (j - 1) as nat;
        lemma_icons_for_item_members(item, slot, slots, m);
        let prev = icons_for_item(item, slot, slots, m);
        let cur = icons_for_item(item, slot, slots, j);
        let s = slots[m as int];
        assert forall|p: (u64, usize)| #[trigger] cur.contains(p) implies p.1 == item && exists|q: int|
            0 <= q < j && shows_inventory_item(slots[q], slot) && slots[q].item == Some(p.0) by {
            let x = choose|x: int| 0 <= x < cur.len() && cur[x] == p;
            if x < prev.len() {
                assert(prev.contains(p));
            } else {
                assert(shows_inventory_item(slots[m as int], slot));
            }
        }
        assert forall|q: int| 0 <= q < j && shows_inventory_item(slots[q], slot) implies cur.contains(
            (slots[q].item->0, item),
        ) by {
            if q < m {
                let x = choose|x: int| 0 <= x < prev.len() && prev[x] == (slots[q].item->0, item);
                assert(cur[x] == prev[x]);
            } else {
                assert(cur[prev.len() as int] == (slots[q].item->0, item));
            }
        }
    }
}

/// The icons refreshed for the first `k` inventory items are exactly the
/// pairs (icon entity, `i`) where `i < k`, item `i` sits in some place, and
/// the icon is shown by an inventory or hotbar slot with that place's index.
pub proof fn lemma_refreshed_icons(
    item_slots: Seq<Option<usize>>,
    slots: Seq<InventorySlotState>,
    k: nat,
)
    requires
        k <= item_slots.len(),
        k <= usize::MAX,
    ensures
        forall|p: (u64, usize)|
            #[trigger] icons_for_items(item_slots, slots, k).contains(p) ==> p.1 < k && item_slots[p.1 as int]
                is Some && exists|q: int|
                0 <= q < slots.len() && shows_inventory_item(slots[q], item_slots[p.1 as int]->0)
                    && slots[q].item == Some(p.0),
        forall|i: int, q: int|
            0 <= i < k && 0 <= q < slots.len() && item_slots[i] is Some && shows_inventory_item(
                slots[q],
                item_slots[i]->0,
            ) ==> icons_for_items(item_slots, slots, k).contains((slots[q].item->0, i as usize)),
    decreases k,
{
    if k > 0 {
        let m = (k - 1) as nat;
        lemma_refreshed_icons(item_slots, slots, m);
        let prev = icons_for_items(item_slots, slots, m);
        let cur = icons_for_items(item_slots, slots, k);
        let add = match item_slots[m as int] {
            None => Seq::<(u64, usize)>::empty(),
            Some(slot) => icons_for_item(m as usize, slot, slots, slots.len()),
        };
        assert(cur == prev + add);
        if let Some(slot) = item_slots[m as int] {
            lemma_icons_for_item_members(m as usize, slot, slots, slots.len());
        }
        assert forall|p: (u64, usize)| #[trigger] cur.contains(p) implies p.1 < k && item_slots[p.1 as int]
            is Some && exists|q: int|
            0 <= q < slots.len() && shows_inventory_item(slots[q], item_slots[p.1 as int]->0)
                && slots[q].item == Some(p.0) by {
            let x = choose|x: int| 0 <= x < cur.len() && cur[x] == p;
            if x < prev.len() {
                assert(prev.contains(p));
            } else {
                assert(add.contains(p));
                assert(p.1 as int == m);
            }
        }
        assert forall|i: int, q: int|
            0 <= i < k && 0 <= q < slots.len() && item_slots[i] is Some && shows_inventory_item(
                slots[q],
                item_slots[i]->0,
            ) implies cur.contains((slots[q].item->0, i as usize)) by {
            let p = (slots[q].item->0, i as usize);
            if i < m {
                let x = choose|x: int| 0 <= x < prev.len() && prev[x] == p;
                assert(cur[x] == prev[x]);
            } else {
                let x = choose|x: int| 0 <= x < add.len() && add[x] == p;
                assert(cur[prev.len() + x] == add[x]);
            }
        }
    }
}

/// Which item icon entities take the new item stacks after the inventory
/// changed: for each item of the inventory (`item_slots[k]` is the slot that
/// item `k` is in, `None` for an empty place), every inventory or hotbar slot
/// with that index that shows an icon, as (icon entity, `k`). Nothing is
/// refreshed while the inventory is not shown.
pub fn handle_update_inv_item_entities(
    ui_state: UIState,
    item_slots: &Vec<Option<usize>>,
    slots: &Vec<InventorySlotState>,
) -> (r: Vec<(u64, usize)>)
    ensures
        r@ == if spec_is_inv_open(ui_state) {
            icons_for_items(item_slots@, slots@, item_slots.len() as nat)
        } else {
            Seq::empty()
        },
{
    let mut r: Vec<(u64, usize)> = Vec::new();
    if !ui_state.is_inv_open() {
        return r;
    }
    let mut k: usize = 0;
    while k < item_slots.len()
        invariant
            k <= item_slots.len(),
            r@ == icons_for_items(item_slots@, slots@, k as nat),
        decreases item_slots.len() - k,
    {
        if let Some(slot) = item_slots[k] {
            let ghost before = r@;
            let mut j: usize = 0;
            while j < slots.len()
                invariant
                    j <= slots.len(),
                    item_slots@[k as int] == Some(slot),
                    r@ == before + icons_for_item(k, slot, slots@, j as nat),
                decreases slots.len() - j,
            {
                let s = slots[j];
                if s.slot_index == slot && (s.slot_type.is_inventory() || s.slot_type.is_hotbar()) {
                    if let Some(item_e) = s.item {
                        r.push((item_e, k));
                    }
                }
                assert(r@ =~= before + icons_for_item(k, slot, slots@, (j + 1) as nat));
                j = j + 1;
            }
        }
        assert(r@ =~= icons_for_items(item_slots@, slots@, (k + 1) as nat));
        k = k + 1;
    }
    r
}

} // verus!
