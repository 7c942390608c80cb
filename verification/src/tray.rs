//! The tray model: the unit of displayable state.
//!
//! A [`Tray`] holds a stable 128-bit identifier, a title, an optional click
//! action, an optional context menu and an optional decoded icon image set.
//! It is built and configured by the caller, then handed to a backend whole;
//! nothing mutates it afterwards — the recreation path after a shell restart
//! reuses the same data unchanged.
//!
//! The status-notifier-facing accessors (`id`, `title`, `category`, `menu`,
//! `icon_pixmap`, `activate`, `watcher_offine`) return exactly what the
//! service publishes, as plain values.

use vstd::prelude::*;

use crate::decimal::{dec_chars, decimal_string};
use crate::menu::{ActionId, MenuItem};

verus! {

/// One decoded icon bitmap: dimensions and raw pixel bytes.
///
/// Decoding an icon container into these is an external concern; the tray
/// only carries the result.
#[derive(Debug)]
pub struct IconImage {
    pub width: i32,
    pub height: i32,
    pub data: Vec<u8>,
}

/// Two images carry the same picture: same dimensions, same pixel bytes.
pub open spec fn image_matches(a: IconImage, b: IconImage) -> bool {
    a.width == b.width && a.height == b.height && a.data@ == b.data@
}

impl Clone for IconImage {
    fn clone(&self) -> (r: Self)
        ensures
            image_matches(r, *self),
    {
        let mut data: Vec<u8> = Vec::new();
        for i in 0..self.data.len()
            invariant
                data@ =~= self.data@.take(i as int),
        {
            data.push(self.data[i]);
        }
        proof {
            assert(data@ =~= self.data@);
        }
        IconImage { width: self.width, height: self.height, data }
    }
}

/// One entry of the menu as the status-notifier service renders it: either
/// a standard entry — label, enabled flag, and the token of its activation
/// action if it has one — or a separator.
pub enum MenuEntry {
    Standard { label: String, enabled: bool, action: Option<ActionId> },
    Separator,
}

/// How a rendered entry must relate to the model item at the same position:
/// a button becomes an enabled entry carrying its action token, a label a
/// disabled entry without one, a separator a separator.
pub open spec fn entry_matches(e: MenuEntry, item: MenuItem) -> bool {
    match item {
        MenuItem::Button { label, action } => (e matches MenuEntry::Standard {
            label: l,
            enabled,
            action: a,
        } && l@ == label@ && enabled && a == Some(action)),
        MenuItem::Label { label } => (e matches MenuEntry::Standard {
            label: l,
            enabled,
            action: a,
        } && l@ == label@ && !enabled && a is None),
        MenuItem::Separator => e is Separator,
    }
}

/// One notification-area presence: identifier, title, optional click
/// action, optional menu, optional icon images.
pub struct Tray {
    guid: u128,
    title: String,
    click: Option<ActionId>,
    menu: Option<Vec<MenuItem>>,
    icon: Option<Vec<IconImage>>,
}

impl Tray {
    /// The stable 128-bit identifier.
    pub closed spec fn spec_guid(&self) -> u128 {
        self.guid
    }

    /// The title text.
    pub closed spec fn spec_title(&self) -> Seq<char> {
        self.title@
    }

    /// The token of the click action, if one is attached.
    pub closed spec fn spec_click(&self) -> Option<ActionId> {
        self.click
    }

    /// The menu items, if a menu is attached.
    pub closed spec fn spec_menu(&self) -> Option<Seq<MenuItem>> {
        match self.menu {
            Some(ref m) => Some(m@),
            None => None,
        }
    }

    /// The icon images, if any were attached.
    pub closed spec fn spec_icon(&self) -> Option<Seq<IconImage>> {
        match self.icon {
            Some(ref v) => Some(v@),
            None => None,
        }
    }

    /// A tray is well formed when its title and every menu label fit the
    /// 32-bit length fields of the native descriptors, and the menu is
    /// short enough for positional item identifiers.
    pub open spec fn wf(&self) -> bool {
        &&& 2 * self.spec_title().len() + 1 <= u32::MAX
        &&& match self.spec_menu() {
            Some(m) => m.len() <= u32::MAX && forall|i: int|
                0 <= i < m.len() ==> #[trigger] m[i].wf(),
            None => true,
        }
    }

    /// A tray with an identifier and a title, and nothing else yet.
    pub fn new(guid: u128, title: &str) -> (r: Self)
        requires
            2 * title@.len() + 1 <= u32::MAX,
        ensures
            r.spec_guid() == guid,
            r.spec_title() == title@,
            r.spec_click() is None,
            r.spec_menu() is None,
            r.spec_icon() is None,
            r.wf(),
    {
        Tray { guid, title: title.to_owned(), click: None, menu: None, icon: None }
    }

    /// Attach the click action's token; at most one, last write wins.
    pub fn set_click(&mut self, action: ActionId)
        ensures
            final(self).spec_click() == Some(action),
            final(self).spec_guid() == old(self).spec_guid(),
            final(self).spec_title() == old(self).spec_title(),
            final(self).spec_menu() == old(self).spec_menu(),
            final(self).spec_icon() == old(self).spec_icon(),
            old(self).wf() ==> final(self).wf(),
    {
        self.click = Some(action);
    }

    /// Attach the menu; at most one, last write wins. Call before the tray
    /// is handed to a backend.
    pub fn set_menu(&mut self, menu: Vec<MenuItem>)
        requires
            menu@.len() <= u32::MAX,
            forall|i: int| 0 <= i < menu@.len() ==> #[trigger] menu@[i].wf(),
        ensures
            final(self).spec_menu() == Some(menu@),
            final(self).spec_guid() == old(self).spec_guid(),
            final(self).spec_title() == old(self).spec_title(),
            final(self).spec_click() == old(self).spec_click(),
            final(self).spec_icon() == old(self).spec_icon(),
            old(self).wf() ==> final(self).wf(),
    {
        self.menu = Some(menu);
    }

    /// Attach the decoded icon images; at most one set, last write wins.
    pub fn set_icon(&mut self, icon: Vec<IconImage>)
        ensures
            final(self).spec_icon() == Some(icon@),
            final(self).spec_guid() == old(self).spec_guid(),
            final(self).spec_title() == old(self).spec_title(),
            final(self).spec_click() == old(self).spec_click(),
            final(self).spec_menu() == old(self).spec_menu(),
            old(self).wf() ==> final(self).wf(),
    {
        self.icon = Some(icon);
    }

    /// The identifier as a value.
    pub fn guid(&self) -> (r: u128)
        ensures
            r == self.spec_guid(),
    {
        self.guid
    }

    /// The service identity: the identifier in decimal text.
    pub fn id(&self) -> (r: String)
        ensures
            r@ == dec_chars(self.spec_guid() as nat),
    {
        decimal_string(self.guid)
    }

    /// The display name.
    pub fn title(&self) -> (r: String)
        ensures
            r@ == self.spec_title(),
    {
        self.title.clone()
    }

    /// The category the service reports for this item.
    pub fn category(&self) -> (r: &'static str)
        ensures
            r@ == "ApplicationStatus"@,
    {
        "ApplicationStatus"
    }

    /// Primary activation: the token of the action to invoke, if a click
    /// action is attached; otherwise nothing happens.
    pub fn activate(&self) -> (r: Option<ActionId>)
        ensures
            r == self.spec_click(),
    {
        self.click
    }

    /// The icon images the service publishes; empty when none were set.
    pub fn icon_pixmap(&self) -> (r: Vec<IconImage>)
        ensures
            match self.spec_icon() {
                Some(v) => r@.len() == v.len() && forall|i: int|
                    0 <= i < v.len() ==> #[trigger] image_matches(r@[i], v[i]),
                None => r@.len() == 0,
            },
    {
        match &self.icon {
            Some(v) => {
                let mut r: Vec<IconImage> = Vec::new();
                for i in 0..v.len()
                    invariant
                        r@.len() == i,
                        forall|j: int| 0 <= j < i ==> #[trigger] image_matches(r@[j], v@[j]),
                {
                    r.push(v[i].clone());
                }
                r
            },
            None => Vec::new(),
        }
    }

    /// The service never treats the watcher as offline.
    pub fn watcher_offine(&self) -> (r: bool)
        ensures
            r == false,
    {
        false
    }

    /// The menu as the status-notifier service renders it: one entry per
    /// item, in order — buttons enabled and carrying their action token,
    /// labels disabled, separators as separators. No menu renders as no
    /// entries.
    pub fn menu(&self) -> (r: Vec<MenuEntry>)
        ensures
            match self.spec_menu() {
                Some(m) => r@.len() == m.len() && forall|i: int|
                    0 <= i < m.len() ==> #[trigger] entry_matches(r@[i], m[i]),
                None => r@.len() == 0,
            },
    {
        match &self.menu {
            Some(items) => {
                let mut r: Vec<MenuEntry> = Vec::new();
                for i in 0..items.len()
                    invariant
                        r@.len() == i,
                        forall|j: int|
                            0 <= j < i ==> #[trigger] entry_matches(r@[j], items@[j]),
                {
                    let entry = match &items[i] {
                        MenuItem::Button { label, action } => MenuEntry::Standard {
                            label: label.clone(),
                            enabled: true,
                            action: Some(*action),
                        },
                        MenuItem::Label { label } => MenuEntry::Standard {
                            label: label.clone(),
                            enabled: false,
                            action: None,
                        },
                        MenuItem::Separator => MenuEntry::Separator,
                    };
                    r.push(entry);
                }
                r
            },
            None => Vec::new(),
        }
    }

    /// The menu items themselves, for the routing and popup layers.
    pub fn menu_items(&self) -> (r: &Option<Vec<MenuItem>>)
        ensures
            match self.spec_menu() {
                Some(m) => (*r matches Some(v) && v@ == m),
                None => *r is None,
            },
    {
        &self.menu
    }
}

} // verus!
