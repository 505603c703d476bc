//! The purchasable upgrade items and their fixed default set.

use vstd::prelude::*;

verus! {

/// One purchasable upgrade: a name, a description, a price and whether it
/// has been bought.
pub struct UpgradeItem {
    pub name: String,
    pub desc: String,
    pub price: usize,
    pub purchased: bool,
}

impl UpgradeItem {
    /// A not-yet-purchased item.
    pub fn new(name: &str, desc: &str, price: usize) -> (u: UpgradeItem)
        ensures
            u.name@ == name@,
            u.desc@ == desc@,
            u.price == price,
            !u.purchased,
    {
        UpgradeItem { name: name.to_owned(), desc: desc.to_owned(), price, purchased: false }
    }

    /// The price in points.
    pub fn price(&self) -> (r: usize)
        ensures
            r == self.price,
    {
        self.price
    }

    /// Whether the item has been bought.
    pub fn is_purchased(&self) -> (r: bool)
        ensures
            r == self.purchased,
    {
        self.purchased
    }

    /// Marks the item as bought.
    pub fn set_purchased(&mut self)
        ensures
            *final(self) == (UpgradeItem { purchased: true, ..*old(self) }),
    {
        self.purchased = true;
    }
}

/// The list of upgrade items.
pub struct Upgrades {
    pub items: Vec<UpgradeItem>,
}

impl Upgrades {
    /// Wraps an item list.
    pub fn from_items(items: Vec<UpgradeItem>) -> (u: Upgrades)
        ensures
            u.items@ == items@,
    {
        Upgrades { items }
    }

    /// Number of items.
    pub fn len(&self) -> (n: usize)
        ensures
            n == self.items@.len(),
    {
        self.items.len()
    }

    /// The item at an index.
    pub fn item(&self, idx: usize) -> (r: &UpgradeItem)
        requires
            idx < self.items@.len(),
        ensures
            *r == self.items@[idx as int],
    {
        &self.items[idx]
    }

    /// Marks the item at an index as bought.
    pub fn mark_purchased(&mut self, idx: usize)
        requires
            idx < old(self).items@.len(),
        ensures
            final(self).items@ == old(self).items@.update(
                idx as int,
                (UpgradeItem { purchased: true, ..old(self).items@[idx as int] }),
            ),
    {
        let item = &mut self.items[idx];
        item.set_purchased();
    }
}

impl Default for Upgrades {
    /// The fixed default set of three upgrades, none purchased.
    fn default() -> (u: Upgrades)
        ensures
            u.items@.len() == 3,
            u.items@[0].name@ == "Exploding Shrapnel"@,
            u.items@[0].desc@ == "Increases all strategem rewards by +100 Democracy Points"@,
            u.items@[0].price == 2500,
            !u.items@[0].purchased,
            u.items@[1].name@ == "Liquid-Ventilated Cockpit"@,
            u.items@[1].desc@ == "Reduces time penalty after failed strategem"@,
            u.items@[1].price == 3000,
            !u.items@[1].purchased,
            u.items@[2].name@ == "Targeting Software Upgrade"@,
            u.items@[2].desc@
                == "Increases time reward after successfully completing strategem by +0.5s"@,
            u.items@[2].price == 5000,
            !u.items@[2].purchased,
    {
        let mut items: Vec<UpgradeItem> = Vec::new();
        items.push(
            UpgradeItem::new(
                "Exploding Shrapnel",
                "Increases all strategem rewards by +100 Democracy Points",
                2500,
            ),
        );
        items.push(
            UpgradeItem::new(
                "Liquid-Ventilated Cockpit",
                "Reduces time penalty after failed strategem",
                3000,
            ),
        );
        items.push(
            UpgradeItem::new(
                "Targeting Software Upgrade",
                "Increases time reward after successfully completing strategem by +0.5s",
                5000,
            ),
        );
        Upgrades { items }
    }
}

} // verus!
