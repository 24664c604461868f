//! From the app's menus to native ones.
//!
//! A native item carries a number, its tag; the actions are kept in a list, and the
//! tag is the index of the item's action in it.

use vstd::prelude::*;

use crate::input::Modifiers;

verus! {

/// An action, by the number it goes by.
#[derive(Clone, Copy, Debug, PartialEq, Eq, Structural)]
pub struct Action {
    pub id: u64,
}

/// An action that the system knows.
#[derive(Clone, Copy, Debug, PartialEq, Eq, Structural)]
pub enum OsAction {
    Cut,
    Copy,
    Paste,
    SelectAll,
    Undo,
    Redo,
}

/// A menu that the system fills.
#[derive(Clone, Copy, Debug, PartialEq, Eq, Structural)]
pub enum SystemMenuType {
    Services,
}

/// A menu.
#[derive(Debug)]
pub struct Menu {
    pub name: String,
    pub items: Vec<MenuItem>,
    pub disabled: bool,
}

/// A menu's item.
#[derive(Debug)]
pub enum MenuItem {
    Separator,
    Action {
        name: String,
        action: Action,
        os_action: Option<OsAction>,
        checked: bool,
        disabled: bool,
    },
    Submenu(Menu),
    SystemMenu { name: String, menu_type: SystemMenuType },
}

/// One stroke of a key binding.
#[derive(Debug)]
pub struct BindingKeystroke {
    pub key: String,
    pub modifiers: Modifiers,
}

/// A key binding.
#[derive(Debug)]
pub struct KeyBinding {
    pub action: Action,
    /// Whether the binding applies in an editor in a pane in the workspace, which it
    /// does if it has no condition.
    pub applies: bool,
    pub keystrokes: Vec<BindingKeystroke>,
}

/// The message that an item sends.
#[derive(Clone, Copy, Debug, PartialEq, Eq, Structural)]
pub enum Selector {
    Cut,
    Copy,
    Paste,
    SelectAll,
    HandleGpuiMenuItem,
}

/// The modifier keys of a key equivalent.
#[derive(Clone, Copy, Debug, PartialEq, Eq, Structural)]
pub struct ModifierMask {
    pub command: bool,
    pub control: bool,
    pub alternate: bool,
    pub shift: bool,
}

/// A key that stands for an item.
#[derive(Debug)]
pub struct KeyEquivalent {
    /// The key by the app's name for it; whoever makes the native item gives it the
    /// character that the system knows the key by.
    pub key: String,
    pub mask: ModifierMask,
    /// Turn off that the system moves the key to where another layout has it. Earlier
    /// systems cannot.
    pub fixed: bool,
}

/// A native item.
#[derive(Debug)]
pub enum NativeItem {
    Separator,
    Action {
        title: String,
        selector: Selector,
        equivalent: Option<KeyEquivalent>,
        checked: bool,
        enabled: bool,
        tag: usize,
    },
    Submenu { title: String, items: Vec<NativeItem>, enabled: bool },
    Services { title: String },
}

/// The message that an item sends. Undo and redo go through the app: the system's own
/// need a text view to be enabled on.
pub open spec fn selector_spec(os_action: Option<OsAction>) -> Selector {
    match os_action {
        Some(OsAction::Cut) => Selector::Cut,
        Some(OsAction::Copy) => Selector::Copy,
        Some(OsAction::Paste) => Selector::Paste,
        Some(OsAction::SelectAll) => Selector::SelectAll,
        _ => Selector::HandleGpuiMenuItem,
    }
}

/// The index of the first binding of an action from `from` on; `keymap.len()` where
/// there is none.
pub open spec fn first_binding(keymap: Seq<KeyBinding>, action: Action, from: int) -> int
    decreases keymap.len() - from,
{
    if from < 0 || from >= keymap.len() {
        keymap.len() as int
    } else if keymap[from].action == action {
        from
    } else {
        first_binding(keymap, action, from + 1)
    }
}

/// The index of the first binding of an action from `from` on that applies.
pub open spec fn first_applying(keymap: Seq<KeyBinding>, action: Action, from: int) -> int
    decreases keymap.len() - from,
{
    if from < 0 || from >= keymap.len() {
        keymap.len() as int
    } else if keymap[from].action == action && keymap[from].applies {
        from
    } else {
        first_applying(keymap, action, from + 1)
    }
}

/// The binding that an item shows: the first of the action's that applies, or else
/// the first.
pub open spec fn shown_binding(keymap: Seq<KeyBinding>, action: Action) -> Option<int> {
    let applying = first_applying(keymap, action, 0);
    let first = first_binding(keymap, action, 0);
    if applying < keymap.len() {
        Some(applying)
    } else if first < keymap.len() {
        Some(first)
    } else {
        None
    }
}

/// The mask of modifiers.
pub open spec fn mask_spec(modifiers: Modifiers) -> ModifierMask {
    ModifierMask {
        command: modifiers.platform,
        control: modifiers.control,
        alternate: modifiers.alt,
        shift: modifiers.shift,
    }
}

/// The key that stands for an item of an action: that of a binding of one stroke.
pub open spec fn equivalent_spec(
    keymap: Seq<KeyBinding>,
    action: Action,
    fixed: bool,
) -> Option<(Seq<char>, ModifierMask, bool)> {
    match shown_binding(keymap, action) {
        Some(index) => if keymap[index].keystrokes@.len() == 1 {
            let keystroke = keymap[index].keystrokes@[0];
            Some((keystroke.key@, mask_spec(keystroke.modifiers), fixed))
        } else {
            None
        },
        None => None,
    }
}

/// What an optional key equivalent says.
pub open spec fn equivalent_view(equivalent: Option<KeyEquivalent>) -> Option<
    (Seq<char>, ModifierMask, bool),
> {
    match equivalent {
        Some(e) => Some((e.key@, e.mask, e.fixed)),
        None => None,
    }
}

/// The actions of an item, in the order in which they are numbered.
pub open spec fn item_actions(item: MenuItem) -> Seq<Action>
    decreases item,
{
    match item {
        MenuItem::Action { action, .. } => seq![action],
        MenuItem::Submenu(menu) => items_actions(menu.items@, menu.items@.len()),
        _ => seq![],
    }
}

/// The actions of the first `count` items.
pub open spec fn items_actions(items: Seq<MenuItem>, count: nat) -> Seq<Action>
    decreases items, count,
{
    if count == 0 || count > items.len() {
        seq![]
    } else {
        items_actions(items, (count - 1) as nat) + item_actions(items[count - 1])
    }
}

/// Whether a native item is what an item becomes, with its actions numbered from
/// `base` on.
pub open spec fn lowered(
    item: MenuItem,
    native: NativeItem,
    base: nat,
    keymap: Seq<KeyBinding>,
    fixed: bool,
) -> bool
    decreases item, 0nat,
{
    match item {
        MenuItem::Separator => native is Separator,
        MenuItem::Action { name, action, os_action, checked, disabled } => {
            &&& native matches NativeItem::Action {
                title,
                selector,
                equivalent,
                checked: native_checked,
                enabled,
                tag,
            }
            &&& title@ == name@
            &&& selector == selector_spec(os_action)
            &&& equivalent_view(equivalent) == equivalent_spec(keymap, action, fixed)
            &&& native_checked == checked
            &&& enabled == !disabled
            &&& tag == base
        },
        MenuItem::Submenu(menu) => {
            &&& native matches NativeItem::Submenu { title, items, enabled }
            &&& title@ == menu.name@
            &&& enabled == !menu.disabled
            &&& items@.len() == menu.items@.len()
            &&& all_lowered(menu.items@, items@, menu.items@.len(), base, keymap, fixed)
        },
        MenuItem::SystemMenu { name, menu_type: SystemMenuType::Services } => {
            native matches NativeItem::Services { title } && title@ == name@
        },
    }
}

/// Whether the first `count` native items are what the first `count` items become.
pub open spec fn all_lowered(
    items: Seq<MenuItem>,
    natives: Seq<NativeItem>,
    count: nat,
    base: nat,
    keymap: Seq<KeyBinding>,
    fixed: bool,
) -> bool
    decreases items, count,
{
    if count == 0 {
        true
    } else if count > items.len() || count > natives.len() {
        false
    } else {
        let last = (count - 1) as nat;
        &&& all_lowered(items, natives, last, base, keymap, fixed)
        &&& lowered(
            items[last as int],
            natives[last as int],
            base + items_actions(items, last).len(),
            keymap,
            fixed,
        )
    }
}

proof fn more_natives_keep_lowered(
    items: Seq<MenuItem>,
    natives: Seq<NativeItem>,
    native: NativeItem,
    count: nat,
    base: nat,
    keymap: Seq<KeyBinding>,
    fixed: bool,
)
    requires
        all_lowered(items, natives, count, base, keymap, fixed),
        count <= natives.len(),
    ensures
        all_lowered(items, natives.push(native), count, base, keymap, fixed),
    decreases count,
{
    if count > 0 {
        more_natives_keep_lowered(
            items,
            natives,
            native,
            (count - 1) as nat,
            base,
            keymap,
            fixed,
        );
    }
}

fn selector(os_action: Option<OsAction>) -> (selector: Selector)
    ensures
        selector == selector_spec(os_action),
{
    match os_action {
        Some(OsAction::Cut) => Selector::Cut,
        Some(OsAction::Copy) => Selector::Copy,
        Some(OsAction::Paste) => Selector::Paste,
        Some(OsAction::SelectAll) => Selector::SelectAll,
        Some(OsAction::Undo) => Selector::HandleGpuiMenuItem,
        Some(OsAction::Redo) => Selector::HandleGpuiMenuItem,
        None => Selector::HandleGpuiMenuItem,
    }
}

/// The binding that an item shows: the first of the action's that applies, or else
/// the first.
pub fn find_binding(keymap: &Vec<KeyBinding>, action: Action) -> (found: Option<usize>)
    ensures
        match found {
            Some(index) => shown_binding(keymap@, action) == Some(index as int) && index
                < keymap@.len(),
            None => shown_binding(keymap@, action) is None,
        },
{
    let mut first: Option<usize> = None;
    let mut i: usize = 0;
    while i < keymap.len()
        invariant
            i <= keymap@.len(),
            first_applying(keymap@, action, 0) == first_applying(keymap@, action, i as int),
            match first {
                Some(index) => index < i && first_binding(keymap@, action, 0) == index,
                None => first_binding(keymap@, action, 0) == first_binding(
                    keymap@,
                    action,
                    i as int,
                ),
            },
        decreases keymap@.len() - i,
    {
        if keymap[i].action == action {
            if keymap[i].applies {
                return Some(i);
            }
            if first.is_none() {
                first = Some(i);
            }
        }
        i += 1;
    }
    first
}

fn key_equivalent(keymap: &Vec<KeyBinding>, action: Action, fixed: bool) -> (equivalent: Option<
    KeyEquivalent,
>)
    ensures
        equivalent_view(equivalent) == equivalent_spec(keymap@, action, fixed),
{
    match find_binding(keymap, action) {
        Some(index) => {
            let keystrokes: &Vec<BindingKeystroke> = &keymap[index].keystrokes;
            if keystrokes.len() == 1 {
                let keystroke: &BindingKeystroke = &keystrokes[0];
                let mask = ModifierMask {
                    command: keystroke.modifiers.platform,
                    control: keystroke.modifiers.control,
                    alternate: keystroke.modifiers.alt,
                    shift: keystroke.modifiers.shift,
                };
                Some(KeyEquivalent { key: keystroke.key.clone(), mask, fixed })
            } else {
                None
            }
        },
        None => None,
    }
}

/// Makes a native item of an item, and appends its actions to the list. `fixed` says
/// whether the system can keep key equivalents where they are.
pub fn create_menu_item(
    item: &MenuItem,
    actions: &mut Vec<Action>,
    keymap: &Vec<KeyBinding>,
    fixed: bool,
) -> (native: NativeItem)
    ensures
        final(actions)@ == old(actions)@ + item_actions(*item),
        lowered(*item, native, old(actions)@.len(), keymap@, fixed),
    decreases *item,
{
    match item {
        MenuItem::Separator => {
            assert(actions@ =~= old(actions)@ + item_actions(*item));
            NativeItem::Separator
        },
        MenuItem::Action { name, action, os_action, checked, disabled } => {
            let equivalent = key_equivalent(keymap, *action, fixed);
            let tag: usize = actions.len();
            actions.push(*action);
            assert(actions@ =~= old(actions)@ + item_actions(*item));
            NativeItem::Action {
                title: name.clone(),
                selector: selector(*os_action),
                equivalent,
                checked: *checked,
                enabled: !*disabled,
                tag,
            }
        },
        MenuItem::Submenu(menu) => {
            let items = create_items(&menu.items, actions, keymap, fixed);
            let native = NativeItem::Submenu {
                title: menu.name.clone(),
                items,
                enabled: !menu.disabled,
            };
            assert(lowered(*item, native, old(actions)@.len(), keymap@, fixed));
            native
        },
        MenuItem::SystemMenu { name, menu_type: _ } => {
            assert(actions@ =~= old(actions)@ + item_actions(*item));
            NativeItem::Services { title: name.clone() }
        },
    }
}

/// Makes native items of items.
pub fn create_items(
    items: &Vec<MenuItem>,
    actions: &mut Vec<Action>,
    keymap: &Vec<KeyBinding>,
    fixed: bool,
) -> (natives: Vec<NativeItem>)
    ensures
        final(actions)@ == old(actions)@ + items_actions(items@, items@.len()),
        natives@.len() == items@.len(),
        all_lowered(items@, natives@, items@.len(), old(actions)@.len(), keymap@, fixed),
    decreases items,
{
    let mut natives: Vec<NativeItem> = Vec::new();
    let mut i: usize = 0;
    assert(actions@ =~= old(actions)@ + items_actions(items@, 0));
    while i < items.len()
        invariant
            i <= items@.len(),
            natives@.len() == i,
            actions@ == old(actions)@ + items_actions(items@, i as nat),
            all_lowered(items@, natives@, i as nat, old(actions)@.len(), keymap@, fixed),
        decreases items@.len() - i,
    {
        let native = create_menu_item(&items[i], actions, keymap, fixed);
        proof {
            more_natives_keep_lowered(
                items@,
                natives@,
                native,
                i as nat,
                old(actions)@.len(),
                keymap@,
                fixed,
            );
        }
        natives.push(native);
        proof {
            assert(actions@ =~= old(actions)@ + items_actions(items@, (i + 1) as nat));
        }
        i += 1;
    }
    natives
}

/// Every action of the system sends its own message: cut, copy, paste and select all. Undo,
/// redo and what the system does not know go through the app.
pub proof fn system_actions_send_their_own_message(os_action: Option<OsAction>)
    ensures
        selector_spec(os_action) == Selector::Cut <==> os_action == Some(OsAction::Cut),
        selector_spec(os_action) == Selector::Copy <==> os_action == Some(OsAction::Copy),
        selector_spec(os_action) == Selector::Paste <==> os_action == Some(OsAction::Paste),
        selector_spec(os_action) == Selector::SelectAll <==> os_action == Some(OsAction::SelectAll),
        selector_spec(os_action) == Selector::HandleGpuiMenuItem <==> os_action is None || os_action
            == Some(OsAction::Undo) || os_action == Some(OsAction::Redo),
{
}

/// A native item says what its item says: it has the item's name, its mark, and can be
/// chosen exactly where the item can; it sends the message of the item's own action of the
/// system, and a separator, a submenu and the services' menu stay what they are.
pub proof fn native_items_say_what_items_say(
    item: MenuItem,
    native: NativeItem,
    base: nat,
    keymap: Seq<KeyBinding>,
    fixed: bool,
)
    requires
        lowered(item, native, base, keymap, fixed),
    ensures
        native is Separator <==> item is Separator,
        native is Submenu <==> item is Submenu,
        native is Services <==> item is SystemMenu,
        item matches MenuItem::Action { name, action, os_action, checked: marked, disabled } ==> {
            &&& native matches NativeItem::Action {
                title,
                selector,
                equivalent,
                checked,
                enabled,
                tag,
            }
            &&& title@ == name@
            &&& checked == marked
            &&& enabled != disabled
            &&& tag == base
            &&& (selector == Selector::Cut <==> os_action == Some(OsAction::Cut))
            &&& (selector == Selector::Copy <==> os_action == Some(OsAction::Copy))
            &&& (selector == Selector::Paste <==> os_action == Some(OsAction::Paste))
            &&& (selector == Selector::SelectAll <==> os_action == Some(OsAction::SelectAll))
            &&& equivalent matches Some(equivalent) ==> equivalent.fixed == fixed
        },
        item matches MenuItem::Submenu(menu) ==> {
            &&& native matches NativeItem::Submenu { title, items, enabled }
            &&& title@ == menu.name@
            &&& enabled != menu.disabled
            &&& items@.len() == menu.items@.len()
        },
        item matches MenuItem::SystemMenu { name, .. } ==> (native matches NativeItem::Services {
            title,
        } && title@ == name@),
{
}

/// Each modifier of a binding is the system's key of the same name: the platform's is the
/// command key, alt is the option key.
pub proof fn masks_hold_the_same_keys(modifiers: Modifiers)
    ensures
        mask_spec(modifiers).command <==> modifiers.platform,
        mask_spec(modifiers).control <==> modifiers.control,
        mask_spec(modifiers).alternate <==> modifiers.alt,
        mask_spec(modifiers).shift <==> modifiers.shift,
{
}

proof fn first_binding_is_first(keymap: Seq<KeyBinding>, action: Action, from: int)
    requires
        0 <= from <= keymap.len(),
    ensures
        from <= first_binding(keymap, action, from) <= keymap.len(),
        first_binding(keymap, action, from) < keymap.len() ==> keymap[first_binding(
            keymap,
            action,
            from,
        )].action == action,
        forall|i: int|
            from <= i < first_binding(keymap, action, from) ==> (#[trigger] keymap[i]).action
                != action,
    decreases keymap.len() - from,
{
    if from < keymap.len() && keymap[from].action != action {
        first_binding_is_first(keymap, action, from + 1);
    }
}

proof fn first_applying_is_first(keymap: Seq<KeyBinding>, action: Action, from: int)
    requires
        0 <= from <= keymap.len(),
    ensures
        from <= first_applying(keymap, action, from) <= keymap.len(),
        first_applying(keymap, action, from) < keymap.len() ==> keymap[first_applying(
            keymap,
            action,
            from,
        )].action == action && keymap[first_applying(keymap, action, from)].applies,
        forall|i: int|
            from <= i < first_applying(keymap, action, from) ==> !((#[trigger] keymap[i]).action
                == action && keymap[i].applies),
    decreases keymap.len() - from,
{
    if from < keymap.len() && !(keymap[from].action == action && keymap[from].applies) {
        first_applying_is_first(keymap, action, from + 1);
    }
}

/// The binding that an item shows is one of its action's. It applies if any of them does,
/// and it is then the first that does; else it is the first. An item shows none exactly
/// where its action has none.
pub proof fn items_show_the_first_binding_that_applies(
    keymap: Seq<KeyBinding>,
    action: Action,
    other: int,
)
    requires
        0 <= other < keymap.len(),
        keymap[other].action == action,
    ensures
        shown_binding(keymap, action) matches Some(shown) && {
            &&& 0 <= shown < keymap.len()
            &&& keymap[shown].action == action
            &&& keymap[other].applies ==> keymap[shown].applies && shown <= other
            &&& !keymap[shown].applies ==> shown <= other
        },
{
    first_binding_is_first(keymap, action, 0);
    first_applying_is_first(keymap, action, 0);
}

/// An action without a binding has no key, and a key that an item shows is that of a
/// binding of one stroke: the stroke's own key and modifiers.
pub proof fn a_key_is_that_of_one_stroke(keymap: Seq<KeyBinding>, action: Action, fixed: bool)
    ensures
        (forall|i: int| 0 <= i < keymap.len() ==> (#[trigger] keymap[i]).action != action)
            ==> equivalent_spec(keymap, action, fixed) is None,
        equivalent_spec(keymap, action, fixed) matches Some((key, mask, keeps)) ==> {
            &&& keeps == fixed
            &&& shown_binding(keymap, action) matches Some(shown)
            &&& keymap[shown].action == action
            &&& keymap[shown].keystrokes@.len() == 1
            &&& key == keymap[shown].keystrokes@[0].key@
            &&& mask.command == keymap[shown].keystrokes@[0].modifiers.platform
            &&& mask.control == keymap[shown].keystrokes@[0].modifiers.control
            &&& mask.alternate == keymap[shown].keystrokes@[0].modifiers.alt
            &&& mask.shift == keymap[shown].keystrokes@[0].modifiers.shift
        },
        shown_binding(keymap, action) matches Some(shown)
            && keymap[shown].keystrokes@.len() == 1 ==> equivalent_spec(keymap, action, fixed)
            is Some,
{
    first_binding_is_first(keymap, action, 0);
    first_applying_is_first(keymap, action, 0);
}

} // verus!
