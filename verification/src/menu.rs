//! A selectable list of items, built one entry at a time. The interactive
//! loop that drives it lives with the terminal layer; the library only owns
//! the item list itself.

use vstd::prelude::*;

verus! {

/// A fixed list of selectable items.
pub struct Menu<T> {
    pub items: Vec<T>,
}

impl<T> Menu<T> {
    /// Starts an empty builder.
    pub fn builder() -> (b: MenuBuilder<T>)
        ensures
            b.items@.len() == 0,
    {
        MenuBuilder::new()
    }

    /// Number of items.
    pub fn len(&self) -> (n: usize)
        ensures
            n == self.items@.len(),
    {
        self.items.len()
    }

    /// The item at an index.
    pub fn item(&self, idx: usize) -> (r: &T)
        requires
            idx < self.items@.len(),
        ensures
            *r == self.items@[idx as int],
    {
        &self.items[idx]
    }
}

/// Accumulates menu items in display order.
pub struct MenuBuilder<T> {
    pub items: Vec<T>,
}

impl<T> MenuBuilder<T> {
    /// An empty builder.
    pub fn new() -> (b: MenuBuilder<T>)
        ensures
            b.items@.len() == 0,
    {
        MenuBuilder { items: Vec::new() }
    }

    /// Appends one item.
    pub fn add_item(self, value: T) -> (b: MenuBuilder<T>)
        ensures
            b.items@ == self.items@.push(value),
    {
        let MenuBuilder { mut items } = self;
        items.push(value);
        MenuBuilder { items }
    }

    /// Finishes the menu with the items in insertion order.
    pub fn build(self) -> (m: Menu<T>)
        ensures
            m.items@ == self.items@,
    {
        Menu { items: self.items }
    }
}

} // verus!
