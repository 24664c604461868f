//! The menu bar and the dock's menu, and how an item's tag finds its action again.

use vstd::prelude::*;

use crate::macos::menu::{
    all_lowered, create_items, item_actions, items_actions, lowered, Action, KeyBinding, Menu,
    MenuItem, NativeItem,
};
use crate::macos::version::OsVersion;
use crate::text::same_text;

verus! {

/// A menu of the bar.
#[derive(Debug)]
pub struct NativeMenu {
    pub title: String,
    pub items: Vec<NativeItem>,
    /// Whether the system lists the app's windows in it.
    pub lists_windows: bool,
}

/// The actions of the first `count` menus.
pub open spec fn menus_actions(menus: Seq<Menu>, count: nat) -> Seq<Action>
    decreases count,
{
    if count == 0 || count > menus.len() {
        seq![]
    } else {
        menus_actions(menus, (count - 1) as nat) + items_actions(
            menus[count - 1].items@,
            menus[count - 1].items@.len(),
        )
    }
}

/// Whether a native menu is what a menu becomes, with its actions numbered from
/// `base` on.
pub open spec fn menu_lowered(
    menu: Menu,
    native: NativeMenu,
    base: nat,
    keymap: Seq<KeyBinding>,
    fixed: bool,
) -> bool {
    &&& native.title@ == menu.name@
    &&& native.items@.len() == menu.items@.len()
    &&& all_lowered(menu.items@, native.items@, menu.items@.len(), base, keymap, fixed)
    &&& native.lists_windows == (menu.name@ == "Window"@)
}

/// The menus of an app. The actions of every menu that was ever set stay in the
/// list, so that the tags of an earlier one keep their meaning.
pub struct Menus {
    pub actions: Vec<Action>,
    /// The menus of the bar, as they were set.
    pub menus: Option<Vec<Menu>>,
    /// The dock's menu.
    pub dock: Option<Vec<NativeItem>>,
}

/// Whether key equivalents can be kept where they are: from version 12 on.
pub open spec fn keeps_equivalents(os: OsVersion) -> bool {
    os.reaches(OsVersion { major: 12, minor: 0, patch: 0 })
}

/// The action that a tag finds in a list.
pub open spec fn action_at(actions: Seq<Action>, tag: i64) -> Option<Action> {
    if 0 <= tag < actions.len() {
        Some(actions[tag as int])
    } else {
        None
    }
}

impl Menus {
    /// No menu yet.
    pub fn new() -> (menus: Menus)
        ensures
            menus.actions@ == Seq::<Action>::empty(),
            menus.menus is None,
            menus.dock is None,
    {
        Menus { actions: Vec::new(), menus: None, dock: None }
    }

    /// Makes the menu bar, and keeps the menus it was made of.
    pub fn set_menus(&mut self, menus: Vec<Menu>, keymap: &Vec<KeyBinding>, os: OsVersion) -> (bar:
        Vec<NativeMenu>)
        ensures
            final(self).actions@ == old(self).actions@ + menus_actions(menus@, menus@.len()),
            final(self).menus == Some(menus),
            final(self).dock == old(self).dock,
            bar@.len() == menus@.len(),
            forall|i: int|
                0 <= i < menus@.len() ==> #[trigger] menu_lowered(
                    menus@[i],
                    bar@[i],
                    old(self).actions@.len() + menus_actions(menus@, i as nat).len(),
                    keymap@,
                    keeps_equivalents(os),
                ),
    {
        let fixed: bool = os.at_least(12, 0, 0);
        let mut bar: Vec<NativeMenu> = Vec::new();
        let mut i: usize = 0;
        assert(self.actions@ =~= old(self).actions@ + menus_actions(menus@, 0));
        while i < menus.len()
            invariant
                i <= menus@.len(),
                fixed == keeps_equivalents(os),
                bar@.len() == i,
                self.dock == old(self).dock,
                self.actions@ == old(self).actions@ + menus_actions(menus@, i as nat),
                forall|j: int|
                    0 <= j < i ==> #[trigger] menu_lowered(
                        menus@[j],
                        bar@[j],
                        old(self).actions@.len() + menus_actions(menus@, j as nat).len(),
                        keymap@,
                        fixed,
                    ),
            decreases menus@.len() - i,
        {
            let menu: &Menu = &menus[i];
            let items = create_items(&menu.items, &mut self.actions, keymap, fixed);
            let native = NativeMenu {
                title: menu.name.clone(),
                items,
                lists_windows: same_text(menu.name.as_str(), "Window"),
            };
            proof {
                assert(menu_lowered(
                    menus@[i as int],
                    native,
                    old(self).actions@.len() + menus_actions(menus@, i as nat).len(),
                    keymap@,
                    fixed,
                ));
                assert(self.actions@ =~= old(self).actions@ + menus_actions(
                    menus@,
                    (i + 1) as nat,
                ));
            }
            bar.push(native);
            i += 1;
        }
        self.menus = Some(menus);
        bar
    }

    /// The menus of the bar, if they were set.
    pub fn get_menus(&self) -> (menus: Option<&Vec<Menu>>)
        ensures
            match (menus, self.menus) {
                (Some(menus), Some(set)) => *menus == set,
                (None, None) => true,
                _ => false,
            },
    {
        match &self.menus {
            Some(menus) => Some(menus),
            None => None,
        }
    }

    /// Makes the dock's menu in place of the one it had, which is to be released.
    pub fn set_dock_menu(&mut self, items: &Vec<MenuItem>, keymap: &Vec<KeyBinding>, os: OsVersion) -> (released:
        Option<Vec<NativeItem>>)
        ensures
            final(self).actions@ == old(self).actions@ + items_actions(items@, items@.len()),
            final(self).menus == old(self).menus,
            released == old(self).dock,
            final(self).dock matches Some(natives) && natives@.len() == items@.len()
                && all_lowered(
                items@,
                natives@,
                items@.len(),
                old(self).actions@.len(),
                keymap@,
                keeps_equivalents(os),
            ),
    {
        let fixed: bool = os.at_least(12, 0, 0);
        let natives = create_items(items, &mut self.actions, keymap, fixed);
        let released = self.dock.take();
        self.dock = Some(natives);
        released
    }

    /// The action of the item with a tag.
    pub fn action(&self, tag: i64) -> (action: Option<Action>)
        ensures
            action == action_at(self.actions@, tag),
    {
        if tag >= 0 && (tag as u64) < self.actions.len() as u64 {
            Some(self.actions[tag as usize])
        } else {
            None
        }
    }
}

/// Whether the tags in a native item find the actions of the item it came from.
pub open spec fn tags_find(item: MenuItem, native: NativeItem, actions: Seq<Action>) -> bool
    decreases item, 0nat,
{
    match (item, native) {
        (MenuItem::Action { action, .. }, NativeItem::Action { tag, .. }) => tag < actions.len()
            && actions[tag as int] == action,
        (MenuItem::Submenu(menu), NativeItem::Submenu { items, .. }) => all_tags_find(
            menu.items@,
            items@,
            menu.items@.len(),
            actions,
        ),
        _ => true,
    }
}

/// The same for the first `count` items.
pub open spec fn all_tags_find(
    items: Seq<MenuItem>,
    natives: Seq<NativeItem>,
    count: nat,
    actions: Seq<Action>,
) -> bool
    decreases items, count,
{
    if count == 0 || count > items.len() || count > natives.len() {
        true
    } else {
        &&& all_tags_find(items, natives, (count - 1) as nat, actions)
        &&& tags_find(items[count - 1], natives[count - 1], actions)
    }
}

/// The tag of every item, in whatever submenu, finds the item's own action, and does
/// so for as long as the list only grows.
pub proof fn tags_find_their_actions(
    item: MenuItem,
    native: NativeItem,
    before: Seq<Action>,
    after: Seq<Action>,
    keymap: Seq<KeyBinding>,
    fixed: bool,
)
    requires
        lowered(item, native, before.len(), keymap, fixed),
    ensures
        tags_find(item, native, before + item_actions(item) + after),
    decreases item, 0nat,
{
    if let MenuItem::Submenu(menu) = item {
        if let NativeItem::Submenu { items, .. } = native {
            all_tags_find_their_actions(
                menu.items@,
                items@,
                menu.items@.len(),
                before,
                after,
                keymap,
                fixed,
            );
        }
    }
}

/// The same for the first `count` items.
pub proof fn all_tags_find_their_actions(
    items: Seq<MenuItem>,
    natives: Seq<NativeItem>,
    count: nat,
    before: Seq<Action>,
    after: Seq<Action>,
    keymap: Seq<KeyBinding>,
    fixed: bool,
)
    requires
        count <= items.len(),
        all_lowered(items, natives, count, before.len(), keymap, fixed),
    ensures
        all_tags_find(items, natives, count, before + items_actions(items, count) + after),
    decreases items, count,
{
    if count > 0 {
        let last = (count - 1) as nat;
        let own = item_actions(items[last as int]);
        let earlier = items_actions(items, last);
        all_tags_find_their_actions(items, natives, last, before, own + after, keymap, fixed);
        assert(before + earlier + (own + after) =~= before + items_actions(items, count) + after);
        tags_find_their_actions(
            items[last as int],
            natives[last as int],
            before + earlier,
            after,
            keymap,
            fixed,
        );
        assert((before + earlier) + own + after =~= before + items_actions(items, count) + after);
    }
}

/// Key equivalents are kept where they are on every system from version 12 on, and on no
/// earlier one.
pub proof fn equivalents_are_kept_from_version_twelve(os: OsVersion)
    ensures
        keeps_equivalents(os) <==> os.major >= 12,
{
}

/// A menu of the bar has its menu's name and its items, in their order, and lists the
/// windows exactly where it is named for them.
pub proof fn menus_of_the_bar_say_what_menus_say(
    menu: Menu,
    native: NativeMenu,
    base: nat,
    keymap: Seq<KeyBinding>,
    fixed: bool,
)
    requires
        menu_lowered(menu, native, base, keymap, fixed),
    ensures
        native.title@ == menu.name@,
        native.items@.len() == menu.items@.len(),
        native.lists_windows <==> menu.name@ == seq!['W', 'i', 'n', 'd', 'o', 'w'],
{
    reveal_strlit("Window");
    assert("Window"@ =~= seq!['W', 'i', 'n', 'd', 'o', 'w']);
}

/// Every item of a menu becomes the native item at its place, with its actions numbered
/// behind those of the items before it.
pub proof fn items_keep_their_places(
    items: Seq<MenuItem>,
    natives: Seq<NativeItem>,
    count: nat,
    base: nat,
    keymap: Seq<KeyBinding>,
    fixed: bool,
    place: int,
)
    requires
        all_lowered(items, natives, count, base, keymap, fixed),
        0 <= place < count,
    ensures
        place < items.len(),
        place < natives.len(),
        lowered(
            items[place],
            natives[place],
            base + items_actions(items, place as nat).len(),
            keymap,
            fixed,
        ),
    decreases count,
{
    if place < count - 1 {
        items_keep_their_places(items, natives, (count - 1) as nat, base, keymap, fixed, place);
    }
}

/// An item of an action has that action alone, a submenu those of its items one after the
/// other, and a separator or a menu of the system none.
pub proof fn actions_are_numbered_in_order(items: Seq<MenuItem>, count: nat)
    requires
        0 < count <= items.len(),
    ensures
        items_actions(items, count) == items_actions(items, (count - 1) as nat) + item_actions(
            items[count - 1],
        ),
        items_actions(items, 0) == Seq::<Action>::empty(),
        items[count - 1] matches MenuItem::Action { action, .. } ==> item_actions(items[count - 1])
            == seq![action],
        items[count - 1] matches MenuItem::Submenu(menu) ==> item_actions(items[count - 1])
            == items_actions(menu.items@, menu.items@.len()),
        items[count - 1] is Separator || items[count - 1] is SystemMenu ==> item_actions(
            items[count - 1],
        ) == Seq::<Action>::empty(),
{
}

/// A tag finds the action that was numbered so, however many are numbered behind it; a tag
/// that was never given finds none.
pub proof fn a_tag_finds_what_was_numbered(
    before: Seq<Action>,
    action: Action,
    after: Seq<Action>,
    tag: i64,
)
    ensures
        tag == before.len() ==> action_at(before.push(action) + after, tag) == Some(action),
        tag < 0 ==> action_at(before, tag) is None,
        tag >= before.len() ==> action_at(before, tag) is None,
        0 <= tag < before.len() ==> action_at(before + after, tag) == Some(before[tag as int]),
{
}

/// The actions of a menu come behind those of the menus before it.
pub proof fn menus_number_their_actions_in_order(menus: Seq<Menu>, count: nat)
    requires
        0 < count <= menus.len(),
    ensures
        menus_actions(menus, 0) == Seq::<Action>::empty(),
        menus_actions(menus, count) == menus_actions(menus, (count - 1) as nat) + items_actions(
            menus[count - 1].items@,
            menus[count - 1].items@.len(),
        ),
        menus_actions(menus, count).len() >= menus_actions(menus, (count - 1) as nat).len(),
{
}

} // verus!
