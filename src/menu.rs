use vstd::prelude::*;

verus! {

broadcast use vstd::std_specs::vec::group_vec_axioms;

/// The handle that the native layer assigns to a realized menu entry.
pub type MenuHash = u16;

/// A leaf entry of a tray menu: an item that the caller names.
#[derive(Clone, Debug)]
pub struct CustomMenuItem {
    /// The native handle of the item.
    pub id: MenuHash,
    /// The identifier that the caller gave the item.
    pub id_str: String,
    /// The label shown for the item.
    pub title: String,
    /// Whether the item can be clicked.
    pub enabled: bool,
    /// Whether the item shows a check mark.
    pub selected: bool,
}

impl CustomMenuItem {
    /// An enabled, unselected item with the given handle, identifier and title.
    pub fn new(id: MenuHash, id_str: String, title: String) -> (r: Self)
        ensures
            r.id == id,
            r.id_str@ == id_str@,
            r.title@ == title@,
            r.enabled,
            !r.selected,
    {
        CustomMenuItem { id, id_str, title, enabled: true, selected: false }
    }
}

/// A decorative entry that the platform draws itself.
#[derive(Clone, Copy, Debug, PartialEq, Eq)]
pub enum SystemTrayMenuItem {
    Separator,
}

/// A nested menu, shown under a title.
#[derive(Debug)]
pub struct SystemTraySubmenu {
    pub title: String,
    pub enabled: bool,
    pub inner: SystemTrayMenu,
}

impl SystemTraySubmenu {
    /// An enabled submenu holding `inner`.
    pub fn new(title: String, inner: SystemTrayMenu) -> (r: Self)
        ensures
            r.title@ == title@,
            r.inner == inner,
            r.enabled,
    {
        SystemTraySubmenu { title, enabled: true, inner }
    }
}

/// One entry of a tray menu.
#[derive(Debug)]
pub enum SystemTrayMenuEntry {
    CustomItem(CustomMenuItem),
    NativeItem(SystemTrayMenuItem),
    Submenu(SystemTraySubmenu),
}

/// An ordered tray menu, possibly nested.
#[derive(Debug)]
pub struct SystemTrayMenu {
    pub items: Vec<SystemTrayMenuEntry>,
}

impl SystemTrayMenu {
    /// A menu without entries.
    pub fn new() -> (r: Self)
        ensures
            r.items@.len() == 0,
    {
        SystemTrayMenu { items: Vec::new() }
    }

    /// The menu with `item` appended.
    pub fn add_item(self, item: CustomMenuItem) -> (r: Self)
        ensures
            r.items@ == self.items@.push(SystemTrayMenuEntry::CustomItem(item)),
    {
        let mut items = self.items;
        items.push(SystemTrayMenuEntry::CustomItem(item));
        SystemTrayMenu { items }
    }

    /// The menu with a native entry appended.
    pub fn add_native_item(self, item: SystemTrayMenuItem) -> (r: Self)
        ensures
            r.items@ == self.items@.push(SystemTrayMenuEntry::NativeItem(item)),
    {
        let mut items = self.items;
        items.push(SystemTrayMenuEntry::NativeItem(item));
        SystemTrayMenu { items }
    }

    /// The menu with `submenu` appended.
    pub fn add_submenu(self, submenu: SystemTraySubmenu) -> (r: Self)
        ensures
            r.items@ == self.items@.push(SystemTrayMenuEntry::Submenu(submenu)),
    {
        let mut items = self.items;
        items.push(SystemTrayMenuEntry::Submenu(submenu));
        SystemTrayMenu { items }
    }
}

/// The (handle, identifier) pairs of the leaves under one entry, in declared order.
pub open spec fn entry_leaves(e: SystemTrayMenuEntry) -> Seq<(MenuHash, Seq<char>)>
    decreases e, 0nat,
{
    match e {
        SystemTrayMenuEntry::CustomItem(c) => seq![(c.id, c.id_str@)],
        SystemTrayMenuEntry::NativeItem(_) => Seq::empty(),
        SystemTrayMenuEntry::Submenu(s) => items_leaves(s.inner.items@, s.inner.items@.len()),
    }
}

/// The leaves under the first `n` entries of `items`, in declared order.
pub open spec fn items_leaves(items: Seq<SystemTrayMenuEntry>, n: nat) -> Seq<(MenuHash, Seq<char>)>
    decreases items, n,
{
    if n == 0 || n > items.len() {
        Seq::empty()
    } else {
        items_leaves(items, (n - 1) as nat) + entry_leaves(items[n - 1])
    }
}

/// The leaves of a whole menu, in declared order, submenus included.
pub open spec fn menu_leaves(menu: SystemTrayMenu) -> Seq<(MenuHash, Seq<char>)> {
    items_leaves(menu.items@, menu.items@.len())
}

} // verus!
