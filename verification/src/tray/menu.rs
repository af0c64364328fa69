use vstd::prelude::*;

use crate::tray::TrayEvent;

verus! {

/// Menu flag: the place of the new item is given as a position.
pub const MF_BYPOSITION: u32 = 0x0000_0400;

/// Menu flag: the item cannot be selected.
pub const MF_DISABLED: u32 = 0x0000_0002;

/// Menu flag: the item is a separating line.
pub const MF_SEPARATOR: u32 = 0x0000_0800;

/// One item of the menu, as it is inserted into the popup menu.
#[derive(Debug)]
pub struct MenuItem {
    /// The position at which the item is inserted.
    pub position: u32,
    /// The menu flags of the item.
    pub flags: u32,
    /// The number that a selection of the item reports.
    pub id: usize,
    /// The text of the item; a separator has none.
    pub label: Option<String>,
}

/// A menu item as a mathematical value.
pub struct MenuItemView {
    pub position: u32,
    pub flags: u32,
    pub id: usize,
    pub label: Option<Seq<char>>,
}

impl View for MenuItem {
    type V = MenuItemView;

    open spec fn view(&self) -> MenuItemView {
        MenuItemView {
            position: self.position,
            flags: self.flags,
            id: self.id,
            label: match self.label {
                Some(label) => Some(label@),
                None => None,
            },
        }
    }
}

impl MenuItemView {
    /// The button at `position` with the text `label`. A button with an
    /// event reports the number of the event when it is selected; a button
    /// without an event is disabled.
    pub open spec fn button(position: u32, label: Seq<char>, event: Option<TrayEvent>) -> MenuItemView {
        match event {
            Some(event) => MenuItemView {
                position,
                flags: MF_BYPOSITION,
                id: event.id() as usize,
                label: Some(label),
            },
            None => MenuItemView {
                position,
                flags: MF_BYPOSITION | MF_DISABLED,
                id: 0,
                label: Some(label),
            },
        }
    }

    /// The separating line at `position`.
    pub open spec fn separator(position: u32) -> MenuItemView {
        MenuItemView { position, flags: MF_BYPOSITION | MF_SEPARATOR, id: 0, label: None }
    }
}

/// The popup menu of the tray icon, ready to be shown.
#[derive(Debug)]
pub struct TrayMenu {
    items: Vec<MenuItem>,
    position: (i32, i32),
}

/// Collects the items of a popup menu.
#[derive(Debug)]
pub struct TrayMenuBuilder {
    position: Option<(i32, i32)>,
    items: Vec<MenuItem>,
}

impl TrayMenu {
    /// The items of the menu, from top to bottom.
    pub closed spec fn entries(&self) -> Seq<MenuItemView> {
        self.items@.map_values(|item: MenuItem| item@)
    }

    /// The point of the screen at which the menu is shown.
    pub closed spec fn place(&self) -> (i32, i32) {
        self.position
    }

    /// Begins a menu without items.
    pub fn new() -> (r: TrayMenuBuilder)
        ensures
            r.entries() == Seq::<MenuItemView>::empty(),
            r.place() == None::<(i32, i32)>,
    {
        let r = TrayMenuBuilder { position: None, items: Vec::new() };
        assert(r.entries() =~= Seq::<MenuItemView>::empty());
        r
    }

    /// Returns the items of the menu, from top to bottom.
    pub fn items(&self) -> (r: &Vec<MenuItem>)
        ensures
            r@.map_values(|item: MenuItem| item@) == self.entries(),
    {
        &self.items
    }

    /// Returns the point of the screen at which the menu is shown.
    pub fn position(&self) -> (r: (i32, i32))
        ensures
            r == self.place(),
    {
        self.position
    }
}

impl TrayMenuBuilder {
    /// The items added so far, from top to bottom.
    pub closed spec fn entries(&self) -> Seq<MenuItemView> {
        self.items@.map_values(|item: MenuItem| item@)
    }

    /// The point at which the menu is to be shown, if one has been set.
    pub closed spec fn place(&self) -> Option<(i32, i32)> {
        self.position
    }

    /// Sets the point of the screen at which the menu is shown.
    pub fn set_position(&mut self, position: (i32, i32)) -> (r: &mut Self)
        ensures
            r.place() == Some(position),
            r.entries() == old(self).entries(),
            *final(self) == *final(r),
    {
        self.position = Some(position);
        self
    }

    /// Adds a button with the text `label` below the items added so far. The
    /// button reports `event` when it is selected; without an event it is
    /// disabled and greyed out.
    pub fn add_button(&mut self, label: &str, event: Option<TrayEvent>) -> (r: &mut Self)
        requires
            old(self).entries().len() < u32::MAX,
        ensures
            r.entries() == old(self).entries().push(
                MenuItemView::button((old(self).entries().len() + 1) as u32, label@, event),
            ),
            r.place() == old(self).place(),
            *final(self) == *final(r),
    {
        let position: u32 = (self.items.len() + 1) as u32;
        let item = match event {
            Some(event) => MenuItem {
                position,
                flags: MF_BYPOSITION,
                id: event.to_id() as usize,
                label: Some(String::from_str(label)),
            },
            None => MenuItem {
                position,
                flags: MF_BYPOSITION | MF_DISABLED,
                id: 0,
                label: Some(String::from_str(label)),
            },
        };
        self.items.push(item);
        proof {
            assert(self.entries() =~= old(self).entries().push(
                MenuItemView::button((old(self).entries().len() + 1) as u32, label@, event),
            ));
        }
        self
    }

    /// Adds a separating line below the items added so far.
    pub fn add_separator(&mut self) -> (r: &mut Self)
        requires
            old(self).entries().len() < u32::MAX,
        ensures
            r.entries() == old(self).entries().push(
                MenuItemView::separator((old(self).entries().len() + 1) as u32),
            ),
            r.place() == old(self).place(),
            *final(self) == *final(r),
    {
        let position: u32 = (self.items.len() + 1) as u32;
        let item = MenuItem {
            position,
            flags: MF_BYPOSITION | MF_SEPARATOR,
            id: 0,
            label: None,
        };
        self.items.push(item);
        proof {
            assert(self.entries() =~= old(self).entries().push(
                MenuItemView::separator((old(self).entries().len() + 1) as u32),
            ));
        }
        self
    }

    /// Finishes the menu. It is shown at the point that was set, and at
    /// `cursor`, the position of the mouse pointer, if none was.
    pub fn build(&mut self, cursor: (i32, i32)) -> (r: TrayMenu)
        ensures
            r.entries() == old(self).entries(),
            r.place() == (match old(self).place() {
                Some(position) => position,
                None => cursor,
            }),
            final(self).entries() == Seq::<MenuItemView>::empty(),
            final(self).place() == old(self).place(),
    {
        let position = match self.position {
            Some(position) => position,
            None => cursor,
        };
        let mut items: Vec<MenuItem> = Vec::new();
        std::mem::swap(&mut items, &mut self.items);
        proof {
            assert(self.entries() =~= Seq::<MenuItemView>::empty());
        }
        TrayMenu { items, position }
    }
}

} // verus!
