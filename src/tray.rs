use vstd::prelude::*;

use std::sync::{Arc, Mutex};

use crate::error::Error;
use crate::menu::{MenuHash, SystemTrayMenu};
use crate::menu::menu_leaves;
use crate::registry::{
    flatten, get_menu_ids, handles_unique, identifiers_unique, lemma_flatten_resolves_leaf, names,
    Registry,
};

verus! {

/// The standard mutex, carried through as an opaque value.
#[verifier::external_type_specification]
#[verifier::external_body]
#[verifier::reject_recursive_types(T)]
pub struct ExMutex<T: ?Sized>(Mutex<T>);

/// The platforms that a tray runs on.
#[derive(Clone, Copy, Debug, PartialEq, Eq)]
pub enum TargetOs {
    Linux,
    Windows,
    MacOs,
}

/// A tray icon: a file on disk, or the bytes of an image.
#[derive(Clone, Debug)]
pub enum TrayIcon {
    /// The path of an image file. Linux takes only this kind.
    File(String),
    /// The bytes of an image. Windows and macOS take only this kind.
    Raw(Vec<u8>),
}

impl TrayIcon {
    /// Whether `os` accepts an icon of this kind.
    pub open spec fn supported_on(&self, os: TargetOs) -> bool {
        match self {
            TrayIcon::File(_) => os == TargetOs::Linux,
            TrayIcon::Raw(_) => os != TargetOs::Linux,
        }
    }

    /// `Ok` when `os` accepts an icon of this kind, else `UnsupportedIcon`.
    pub fn check_platform(&self, os: TargetOs) -> (r: Result<(), Error>)
        ensures
            r is Ok <==> self.supported_on(os),
            r is Err ==> r == Err::<(), Error>(Error::UnsupportedIcon),
    {
        let linux = match os {
            TargetOs::Linux => true,
            _ => false,
        };
        match self {
            TrayIcon::File(_) => if linux {
                Ok(())
            } else {
                Err(Error::UnsupportedIcon)
            },
            TrayIcon::Raw(_) => if linux {
                Err(Error::UnsupportedIcon)
            } else {
                Ok(())
            },
        }
    }
}

/// A system image that macOS can show beside a menu item.
#[derive(Clone, Copy, Debug, PartialEq, Eq)]
pub enum NativeImage {
    Add,
    Remove,
    Refresh,
    StatusAvailable,
    StatusUnavailable,
    User,
}

/// A change to one realized menu item.
#[derive(Clone, Debug)]
pub enum MenuUpdate {
    SetEnabled(bool),
    SetTitle(String),
    SetSelected(bool),
    SetNativeImage(NativeImage),
}

/// The native tray that a platform backend provides. Its methods report the
/// platform's verdict, which this library passes on unchanged.
pub trait TrayHandle: Clone + Sized {
    /// Shows `icon` as the tray icon.
    fn set_icon(&self, icon: TrayIcon) -> Result<(), Error>;

    /// Realizes `menu` as the tray's context menu, replacing the one shown.
    fn set_menu(&self, menu: SystemTrayMenu) -> Result<(), Error>;

    /// Applies `update` to the realized item whose handle is `id`.
    fn update_item(&self, id: MenuHash, update: MenuUpdate) -> Result<(), Error>;

    /// Marks the tray icon as a template image (macOS).
    fn set_icon_as_template(&self, is_template: bool) -> Result<(), Error>;
}

/// Relies on `std::sync::Mutex::new`: a lock that holds `ids`.
#[verifier::external_body]
fn new_lock(ids: Arc<Registry>) -> Mutex<Arc<Registry>> {
    Mutex::new(ids)
}

/// Relies on `std::sync::Mutex::lock`: the registry that the lock held at the
/// moment of the call, shared, not copied. A lock poisoned by a panic elsewhere
/// still hands out its value.
#[verifier::external_body]
fn snapshot(ids: &Arc<Mutex<Arc<Registry>>>) -> Arc<Registry> {
    match ids.lock() {
        Ok(guard) => Arc::clone(&guard),
        Err(poisoned) => Arc::clone(&poisoned.into_inner()),
    }
}

/// Relies on `std::sync::Mutex::lock`: replaces the held registry, whole, while
/// the lock is held, so no reader sees a mix of the old and the new.
#[verifier::external_body]
fn publish(ids: &Arc<Mutex<Arc<Registry>>>, fresh: Arc<Registry>) {
    match ids.lock() {
        Ok(mut guard) => *guard = fresh,
        Err(poisoned) => *poisoned.into_inner() = fresh,
    }
}

/// Which registry a tray holds after a menu replacement whose native call
/// returned `outcome`: `Some(fresh)` to install, `None` to keep the old one.
pub fn commit(fresh: Registry, outcome: &Result<(), Error>) -> (r: Option<Registry>)
    ensures
        r is Some <==> outcome is Ok,
        r matches Some(x) ==> x@ == fresh@,
        forall|current: Map<MenuHash, Seq<char>>|
            #[trigger] held_after(current, fresh@, *outcome) == match r {
                Some(x) => x@,
                None => current,
            },
{
    match outcome {
        Ok(()) => Some(fresh),
        Err(_) => None,
    }
}

/// The registry held after a replacement: the fresh one when the native call
/// succeeded, the current one when it failed.
pub open spec fn held_after(
    current: Map<MenuHash, Seq<char>>,
    fresh: Map<MenuHash, Seq<char>>,
    outcome: Result<(), Error>,
) -> Map<MenuHash, Seq<char>> {
    if outcome is Ok {
        fresh
    } else {
        current
    }
}

/// A replacement whose native call fails leaves the tray's mapping as it was,
/// so every identifier of the old menu still resolves.
pub proof fn lemma_failed_replacement_keeps_items(
    current: Map<MenuHash, Seq<char>>,
    fresh: Map<MenuHash, Seq<char>>,
    e: Error,
    id: Seq<char>,
)
    ensures
        held_after(current, fresh, Err(e)) == current,
        names(current, id) ==> names(held_after(current, fresh, Err(e)), id),
{
}

/// After a failed replacement, an identifier of the old menu still resolves to
/// the handle it had: where the old menu's handles and identifiers are
/// distinct, to that handle alone.
pub proof fn lemma_failed_replacement_keeps_handle(
    old_menu: SystemTrayMenu,
    fresh: Map<MenuHash, Seq<char>>,
    e: Error,
    i: int,
)
    requires
        handles_unique(menu_leaves(old_menu)),
        identifiers_unique(menu_leaves(old_menu)),
        0 <= i < menu_leaves(old_menu).len(),
    ensures
        ({
            let held = held_after(flatten(old_menu), fresh, Err(e));
            let leaf = menu_leaves(old_menu)[i];
            &&& held.contains_key(leaf.0)
            &&& held[leaf.0] == leaf.1
            &&& forall|h: MenuHash| held.contains_key(h) && #[trigger] held[h] == leaf.1 ==> h == leaf.0
        }),
{
    lemma_flatten_resolves_leaf(old_menu, i);
}

/// Whatever the native call returned, the mapping that a reader finds after a
/// replacement is one whole registry, the old one or the new one, never a mix.
pub proof fn lemma_replacement_is_whole(
    current: Map<MenuHash, Seq<char>>,
    fresh: Map<MenuHash, Seq<char>>,
    outcome: Result<(), Error>,
)
    ensures
        held_after(current, fresh, outcome) == current || held_after(current, fresh, outcome) == fresh,
{
}

/// A handle to a system tray, shared by every clone. Allows querying and
/// updating the context menu items from any thread.
#[derive(Debug)]
pub struct SystemTrayHandle<H: TrayHandle> {
    ids: Arc<Mutex<Arc<Registry>>>,
    inner: H,
}

impl<H: TrayHandle> Clone for SystemTrayHandle<H> {
    /// A handle sharing this tray's registry lock and a clone of its native tray.
    fn clone(&self) -> (r: Self)
        ensures
            r.lock() == self.lock(),
            call_ensures(H::clone, (&self.native(),), r.native()),
    {
        SystemTrayHandle { ids: self.ids.clone(), inner: self.inner.clone() }
    }
}

/// A handle to one item of a tray's installed menu.
#[derive(Debug)]
pub struct SystemTrayMenuItemHandle<H: TrayHandle> {
    id: MenuHash,
    tray_handler: H,
}

impl<H: TrayHandle> Clone for SystemTrayMenuItemHandle<H> {
    fn clone(&self) -> (r: Self)
        ensures
            r.hash() == self.hash(),
            call_ensures(H::clone, (&self.handler(),), r.handler()),
    {
        SystemTrayMenuItemHandle { id: self.id, tray_handler: self.tray_handler.clone() }
    }
}

impl<H: TrayHandle> SystemTrayMenuItemHandle<H> {
    /// The native handle of the item.
    pub closed spec fn hash(&self) -> MenuHash {
        self.id
    }

    /// The native tray that updates of the item go to.
    pub closed spec fn handler(&self) -> H {
        self.tray_handler
    }

    /// The native handle of the item.
    pub fn menu_hash(&self) -> (r: MenuHash)
        ensures
            r == self.hash(),
    {
        self.id
    }

    /// Modifies the enabled state of the menu item.
    pub fn set_enabled(&self, enabled: bool) -> (r: Result<(), Error>)
        ensures
            call_ensures(H::update_item, (&self.handler(), self.hash(), MenuUpdate::SetEnabled(enabled)), r),
    {
        self.tray_handler.update_item(self.id, MenuUpdate::SetEnabled(enabled))
    }

    /// Modifies the title (label) of the menu item.
    pub fn set_title(&self, title: String) -> (r: Result<(), Error>)
        ensures
            call_ensures(H::update_item, (&self.handler(), self.hash(), MenuUpdate::SetTitle(title)), r),
    {
        self.tray_handler.update_item(self.id, MenuUpdate::SetTitle(title))
    }

    /// Modifies the selected state of the menu item.
    pub fn set_selected(&self, selected: bool) -> (r: Result<(), Error>)
        ensures
            call_ensures(H::update_item, (&self.handler(), self.hash(), MenuUpdate::SetSelected(selected)), r),
    {
        self.tray_handler.update_item(self.id, MenuUpdate::SetSelected(selected))
    }

    /// Sets the system image shown beside the item (macOS).
    pub fn set_native_image(&self, image: NativeImage) -> (r: Result<(), Error>)
        ensures
            call_ensures(H::update_item, (&self.handler(), self.hash(), MenuUpdate::SetNativeImage(image)), r),
    {
        self.tray_handler.update_item(self.id, MenuUpdate::SetNativeImage(image))
    }
}

impl<H: TrayHandle> SystemTrayHandle<H> {
    /// The native tray that this handle drives.
    pub closed spec fn native(&self) -> H {
        self.inner
    }

    /// The lock, shared by every clone of the handle, that holds the registry.
    pub closed spec fn lock(&self) -> Arc<Mutex<Arc<Registry>>> {
        self.ids
    }

    /// A handle to `inner`, whose installed menu is `menu`.
    pub fn new(inner: H, menu: &SystemTrayMenu) -> (r: Self)
        ensures
            r.native() == inner,
    {
        SystemTrayHandle { ids: Arc::new(new_lock(Arc::new(get_menu_ids(menu)))), inner }
    }

    /// A handle to the item that `ids` maps to `id`, or `ItemNotFound` when no
    /// handle of `ids` names `id`.
    pub fn item_in(&self, ids: &Registry, id: &str) -> (r: Result<SystemTrayMenuItemHandle<H>, Error>)
        ensures
            r is Err <==> !names(ids@, id@),
            r matches Err(e) ==> e matches Error::ItemNotFound(s) && s@ == id@,
            r matches Ok(item) ==> ids@.contains_key(item.hash()) && ids@[item.hash()] == id@,
            r matches Ok(item) ==> call_ensures(H::clone, (&self.native(),), item.handler()),
    {
        match ids.find(id) {
            Some(h) => Ok(SystemTrayMenuItemHandle { id: h, tray_handler: self.inner.clone() }),
            None => Err(Error::ItemNotFound(id.to_owned())),
        }
    }

    /// Gets a handle to the menu item that has the specified `id` in the menu
    /// installed when the call is made, or `ItemNotFound`.
    pub fn get_item(&self, id: &str) -> (r: Result<SystemTrayMenuItemHandle<H>, Error>)
        ensures
            r matches Err(e) ==> e matches Error::ItemNotFound(s) && s@ == id@,
            r matches Ok(item) ==> call_ensures(H::clone, (&self.native(),), item.handler()),
    {
        let ids = snapshot(&self.ids);
        self.item_in(&*ids, id)
    }

    /// Updates the tray icon. The platform decides whether it takes the icon's kind.
    pub fn set_icon(&self, icon: TrayIcon) -> (r: Result<(), Error>)
        ensures
            call_ensures(H::set_icon, (&self.native(), icon), r),
    {
        self.inner.set_icon(icon)
    }

    /// Updates the tray menu. The registry of the tray is replaced, whole, only
    /// once the native layer has taken the new menu; on failure the old menu and
    /// its registry stay, and the native error is returned.
    pub fn set_menu(&self, menu: SystemTrayMenu) -> (r: Result<(), Error>)
        ensures
            call_ensures(H::set_menu, (&self.native(), menu), r),
    {
        let fresh = get_menu_ids(&menu);
        let outcome = self.inner.set_menu(menu);
        match commit(fresh, &outcome) {
            Some(ids) => publish(&self.ids, Arc::new(ids)),
            None => {},
        }
        outcome
    }

    /// Makes the tray icon a template image, so that macOS adjusts it to the
    /// menu bar's colour.
    pub fn set_icon_as_template(&self, is_template: bool) -> (r: Result<(), Error>)
        ensures
            call_ensures(H::set_icon_as_template, (&self.native(), is_template), r),
    {
        self.inner.set_icon_as_template(is_template)
    }
}

} // verus!
