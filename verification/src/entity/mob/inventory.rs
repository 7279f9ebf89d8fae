//! The piglin's eight-slot inventory: stacks merge into matching stacks first, in slot order.
use vstd::prelude::*;

use crate::item::ItemStack;

verus! {

/// How many stacks the inventory holds.
pub const INVENTORY_SIZE: usize = 8;

/// Room left in a stack, 0 when it is (over)full.
pub open spec fn space_in(slot: ItemStack) -> int {
    if slot.max_stack_size >= slot.item_count {
        slot.max_stack_size - slot.item_count
    } else {
        0
    }
}

/// Merges `item` with `remaining` of it left to place into the first `n` stacks of `inv`, in
/// order: each stack of the same item takes as much as it has room for. Returns the stacks and
/// how many items are still left.
pub open spec fn fill(inv: Seq<ItemStack>, item: ItemStack, n: nat) -> (Seq<ItemStack>, int)
    decreases n,
{
    if n == 0 || n > inv.len() {
        (inv, item.item_count as int)
    } else {
        let (stacks, left) = fill(inv, item, (n - 1) as nat);
        let slot = inv[n - 1];
        if slot.same_item(item) {
            let moved = if left < space_in(slot) {
                left
            } else {
                space_in(slot)
            };
            (stacks.update(n - 1, slot.with_count(slot.item_count + moved)), left - moved)
        } else {
            (stacks, left)
        }
    }
}

/// How many items like `item` the stacks hold in total.
pub open spec fn count_like(inv: Seq<ItemStack>, item: ItemStack) -> int
    decreases inv.len(),
{
    if inv.len() == 0 {
        0
    } else {
        count_like(inv.drop_last(), item) + if inv.last().same_item(item) {
            inv.last().item_count as int
        } else {
            0
        }
    }
}

/// `fill` only touches the first `n` stacks, keeps the length, and never places more than it
/// has.
pub proof fn lemma_fill_frame(inv: Seq<ItemStack>, item: ItemStack, n: nat)
    requires
        n <= inv.len(),
    ensures
        fill(inv, item, n).0.len() == inv.len(),
        forall|j: int| n <= j < inv.len() ==> fill(inv, item, n).0[j] == inv[j],
        forall|j: int| 0 <= j < n ==> (#[trigger] fill(inv, item, n).0[j]).same_item(inv[j]),
        0 <= fill(inv, item, n).1 <= item.item_count,
    decreases n,
{
    if n > 0 {
        lemma_fill_frame(inv, item, (n - 1) as nat);
    }
}

/// Once nothing is left, the remaining stacks stay as they are.
pub proof fn lemma_fill_done(inv: Seq<ItemStack>, item: ItemStack, n: nat, m: nat)
    requires
        n <= m <= inv.len(),
        fill(inv, item, n).1 == 0,
    ensures
        fill(inv, item, m) == fill(inv, item, n),
    decreases m,
{
    if m > n {
        lemma_fill_done(inv, item, n, (m - 1) as nat);
        lemma_fill_frame(inv, item, (m - 1) as nat);
    }
}

/// The count of like items in a sequence split at its end.
pub proof fn lemma_count_like_push(inv: Seq<ItemStack>, stack: ItemStack, item: ItemStack)
    ensures
        count_like(inv.push(stack), item) == count_like(inv, item) + if stack.same_item(item) {
            stack.item_count as int
        } else {
            0
        },
{
    assert(inv.push(stack).drop_last() == inv);
}

/// Changing one stack changes the count of like items by the difference.
pub proof fn lemma_count_like_update(inv: Seq<ItemStack>, i: int, stack: ItemStack, item: ItemStack)
    requires
        0 <= i < inv.len(),
    ensures
        count_like(inv.update(i, stack), item) == count_like(inv, item) - (if inv[i].same_item(
            item,
        ) {
            inv[i].item_count as int
        } else {
            0
        }) + (if stack.same_item(item) {
            stack.item_count as int
        } else {
            0
        }),
    decreases inv.len(),
{
    if i == inv.len() - 1 {
        assert(inv.update(i, stack).drop_last() == inv.drop_last());
    } else {
        lemma_count_like_update(inv.drop_last(), i, stack, item);
        assert(inv.update(i, stack).drop_last() == inv.drop_last().update(i, stack));
    }
}

/// Merging keeps the items: the like items in the stacks plus those left over make what there
/// was before plus the stack placed.
pub proof fn lemma_fill_keeps_items(inv: Seq<ItemStack>, item: ItemStack, n: nat)
    requires
        n <= inv.len(),
    ensures
        count_like(fill(inv, item, n).0, item) + fill(inv, item, n).1 == count_like(inv, item)
            + item.item_count,
    decreases n,
{
    if n > 0 {
        lemma_fill_keeps_items(inv, item, (n - 1) as nat);
        lemma_fill_frame(inv, item, (n - 1) as nat);
        let (stacks, left) = fill(inv, item, (n - 1) as nat);
        let slot = inv[n - 1];
        if slot.same_item(item) {
            let moved = if left < space_in(slot) {
                left
            } else {
                space_in(slot)
            };
            lemma_count_like_update(stacks, n - 1, slot.with_count(slot.item_count + moved), item);
        }
    }
}

/// The stacks and the leftover after adding `item` to `inv`, as `add_to_inventory` does: an
/// empty stack changes nothing; otherwise the stacks of the same item are topped up in slot
/// order, and what is left takes a free slot when there is one.
pub open spec fn added(inv: Seq<ItemStack>, item: ItemStack) -> (Seq<ItemStack>, Option<ItemStack>) {
    if item.is_empty_spec() {
        (inv, None)
    } else {
        let (stacks, left) = fill(inv, item, inv.len());
        if left == 0 {
            (stacks, None)
        } else if stacks.len() < INVENTORY_SIZE {
            (stacks.push(item.with_count(left)), None)
        } else {
            (stacks, Some(item.with_count(left)))
        }
    }
}

/// Adding to the inventory loses and makes no items: the items like `item` in the inventory
/// afterwards, plus those handed back, are those before plus the stack added; and the
/// inventory never grows past eight stacks.
pub proof fn lemma_added_keeps_items(inv: Seq<ItemStack>, item: ItemStack)
    requires
        inv.len() <= INVENTORY_SIZE,
        !item.is_empty_spec(),
    ensures
        added(inv, item).0.len() <= INVENTORY_SIZE,
        count_like(added(inv, item).0, item) + match added(inv, item).1 {
            Some(rest) => rest.item_count as int,
            None => 0,
        } == count_like(inv, item) + item.item_count,
{
    lemma_fill_keeps_items(inv, item, inv.len());
    lemma_fill_frame(inv, item, inv.len());
    let (stacks, left) = fill(inv, item, inv.len());
    if left != 0 && stacks.len() < INVENTORY_SIZE {
        lemma_count_like_push(stacks, item.with_count(left), item);
    }
}

} // verus!
