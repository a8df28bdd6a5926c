use vstd::prelude::*;

use crate::error::{ErrorStatus, NativeError};
use crate::platform::Platform;
use crate::text::{concat3, owned, str_eq};

verus! {

/// Options of one menu entry as the script side describes it.
#[derive(Debug)]
pub struct MenuItemOptions {
    pub id: Option<String>,
    pub label: Option<String>,
    pub enabled: Option<bool>,
    pub accelerator: Option<String>,
    pub submenu: Option<MenuOptions>,
    pub role: Option<String>,
}

/// A list of menu entries.
#[derive(Debug)]
pub struct MenuOptions {
    pub items: Vec<MenuItemOptions>,
}

/// The predefined, platform-provided menu items that a role names.
#[derive(Clone, Copy, Debug, PartialEq, Eq, Structural)]
pub enum PredefinedRole {
    Copy,
    Paste,
    Cut,
    Undo,
    Redo,
    SelectAll,
    Separator,
    Minimize,
    Maximize,
    Fullscreen,
    CloseWindow,
    Quit,
    About,
    Hide,
    HideOthers,
    ShowAll,
    Services,
    BringAllToFront,
}

/// One entry of a menu that is ready to be handed to the menu toolkit.
#[derive(Debug)]
pub enum MenuEntry {
    /// A submenu; it is always enabled.
    Submenu { label: String, children: Vec<MenuEntry> },
    /// A predefined item.
    Predefined { role: PredefinedRole },
    /// A custom item whose clicks are reported with `id`.
    Item { id: String, label: String, enabled: bool, accelerator: Option<String> },
}

/// A whole menu bar: its top-level entries in order.
#[derive(Debug)]
pub struct MenuPlan {
    pub entries: Vec<MenuEntry>,
}

/// The mathematical form of a menu entry.
pub enum MenuNode {
    Submenu { label: Seq<char>, children: Seq<MenuNode> },
    Predefined { role: PredefinedRole },
    Item { id: Seq<char>, label: Seq<char>, enabled: bool, accelerator: Option<Seq<char>> },
}

pub open spec fn opt_view(o: Option<String>) -> Option<Seq<char>> {
    match o {
        Some(s) => Some(s@),
        None => None,
    }
}

pub open spec fn entry_node(e: MenuEntry) -> MenuNode
    decreases e,
{
    match e {
        MenuEntry::Submenu { label, children } => MenuNode::Submenu {
            label: label@,
            children: entries_nodes(children@),
        },
        MenuEntry::Predefined { role } => MenuNode::Predefined { role },
        MenuEntry::Item { id, label, enabled, accelerator } => MenuNode::Item {
            id: id@,
            label: label@,
            enabled,
            accelerator: opt_view(accelerator),
        },
    }
}

pub open spec fn entries_nodes(es: Seq<MenuEntry>) -> Seq<MenuNode>
    decreases es,
{
    if es.len() == 0 {
        Seq::empty()
    } else {
        entries_nodes(es.drop_last()).push(entry_node(es.last()))
    }
}


/// The predefined item that a role names, if any; several roles have two spellings.
pub open spec fn role_item(role: Seq<char>) -> Option<PredefinedRole> {
    if role == "copy"@ {
        Some(PredefinedRole::Copy)
    } else if role == "paste"@ {
        Some(PredefinedRole::Paste)
    } else if role == "cut"@ {
        Some(PredefinedRole::Cut)
    } else if role == "undo"@ {
        Some(PredefinedRole::Undo)
    } else if role == "redo"@ {
        Some(PredefinedRole::Redo)
    } else if role == "selectall"@ || role == "select-all"@ {
        Some(PredefinedRole::SelectAll)
    } else if role == "separator"@ || role == "-"@ {
        Some(PredefinedRole::Separator)
    } else if role == "minimize"@ {
        Some(PredefinedRole::Minimize)
    } else if role == "maximize"@ {
        Some(PredefinedRole::Maximize)
    } else if role == "fullscreen"@ {
        Some(PredefinedRole::Fullscreen)
    } else if role == "close"@ || role == "closewindow"@ || role == "close-window"@ {
        Some(PredefinedRole::CloseWindow)
    } else if role == "quit"@ {
        Some(PredefinedRole::Quit)
    } else if role == "about"@ {
        Some(PredefinedRole::About)
    } else if role == "hide"@ {
        Some(PredefinedRole::Hide)
    } else if role == "hideothers"@ || role == "hide-others"@ {
        Some(PredefinedRole::HideOthers)
    } else if role == "showall"@ || role == "show-all"@ {
        Some(PredefinedRole::ShowAll)
    } else if role == "services"@ {
        Some(PredefinedRole::Services)
    } else if role == "bringalltofront"@ || role == "bring-all-to-front"@ {
        Some(PredefinedRole::BringAllToFront)
    } else {
        None
    }
}

/// The message of the error for a role that names no predefined item.
pub open spec fn unknown_role_message(role: Seq<char>) -> Seq<char> {
    "Unknown menu role: \""@ + role + "\""@
}

/// The text of an optional label, empty when absent.
pub open spec fn label_text(label: Option<String>) -> Seq<char> {
    match label {
        Some(l) => l@,
        None => Seq::empty(),
    }
}

/// The id reported for a custom item: its id, else its label, else `item`.
pub open spec fn item_id(item: MenuItemOptions) -> Seq<char> {
    match item.id {
        Some(id) => id@,
        None => match item.label {
            Some(l) => l@,
            None => "item"@,
        },
    }
}

/// What one entry of the options becomes: an entry, nothing (an entry with neither
/// submenu, role, id nor label is left out), or the message of an unknown role.
pub open spec fn item_plan(item: MenuItemOptions) -> Result<Option<MenuNode>, Seq<char>>
    decreases item,
{
    match item.submenu {
        Some(sub) => match items_plan(sub.items@) {
            Ok(children) => Ok(Some(MenuNode::Submenu { label: label_text(item.label), children })),
            Err(m) => Err(m),
        },
        None => match item.role {
            Some(role) => match role_item(role@) {
                Some(r) => Ok(Some(MenuNode::Predefined { role: r })),
                None => Err(unknown_role_message(role@)),
            },
            None => if item.id is Some || item.label is Some {
                Ok(
                    Some(
                        MenuNode::Item {
                            id: item_id(item),
                            label: label_text(item.label),
                            enabled: match item.enabled {
                                Some(e) => e,
                                None => true,
                            },
                            accelerator: opt_view(item.accelerator),
                        },
                    ),
                )
            } else {
                Ok(None)
            },
        },
    }
}

/// What a list of option entries becomes, in order; the first unknown role, in
/// depth-first order, stops the whole list.
pub open spec fn items_plan(items: Seq<MenuItemOptions>) -> Result<Seq<MenuNode>, Seq<char>>
    decreases items,
{
    if items.len() == 0 {
        Ok(Seq::empty())
    } else {
        match items_plan(items.drop_last()) {
            Err(m) => Err(m),
            Ok(prev) => match item_plan(items.last()) {
                Err(m) => Err(m),
                Ok(None) => Ok(prev),
                Ok(Some(n)) => Ok(prev.push(n)),
            },
        }
    }
}

/// Maps a role name to its predefined item; an unknown role is an invalid argument.
pub fn role_to_predefined(role: &str) -> (r: Result<PredefinedRole, NativeError>)
    ensures
        match r {
            Ok(p) => role_item(role@) == Some(p),
            Err(e) => role_item(role@) is None && e.status == ErrorStatus::InvalidArg
                && e.message@ == unknown_role_message(role@),
        },
{
    if str_eq(role, "copy") {
        Ok(PredefinedRole::Copy)
    } else if str_eq(role, "paste") {
        Ok(PredefinedRole::Paste)
    } else if str_eq(role, "cut") {
        Ok(PredefinedRole::Cut)
    } else if str_eq(role, "undo") {
        Ok(PredefinedRole::Undo)
    } else if str_eq(role, "redo") {
        Ok(PredefinedRole::Redo)
    } else if str_eq(role, "selectall") || str_eq(role, "select-all") {
        Ok(PredefinedRole::SelectAll)
    } else if str_eq(role, "separator") || str_eq(role, "-") {
        Ok(PredefinedRole::Separator)
    } else if str_eq(role, "minimize") {
        Ok(PredefinedRole::Minimize)
    } else if str_eq(role, "maximize") {
        Ok(PredefinedRole::Maximize)
    } else if str_eq(role, "fullscreen") {
        Ok(PredefinedRole::Fullscreen)
    } else if str_eq(role, "close") || str_eq(role, "closewindow") || str_eq(role, "close-window") {
        Ok(PredefinedRole::CloseWindow)
    } else if str_eq(role, "quit") {
        Ok(PredefinedRole::Quit)
    } else if str_eq(role, "about") {
        Ok(PredefinedRole::About)
    } else if str_eq(role, "hide") {
        Ok(PredefinedRole::Hide)
    } else if str_eq(role, "hideothers") || str_eq(role, "hide-others") {
        Ok(PredefinedRole::HideOthers)
    } else if str_eq(role, "showall") || str_eq(role, "show-all") {
        Ok(PredefinedRole::ShowAll)
    } else if str_eq(role, "services") {
        Ok(PredefinedRole::Services)
    } else if str_eq(role, "bringalltofront") || str_eq(role, "bring-all-to-front") {
        Ok(PredefinedRole::BringAllToFront)
    } else {
        Err(NativeError::new(ErrorStatus::InvalidArg, concat3("Unknown menu role: \"", role, "\"")))
    }
}


/// Whether an executable result for one option entry agrees with `item_plan`.
pub open spec fn entry_result_agrees(
    r: Result<Option<MenuEntry>, NativeError>,
    s: Result<Option<MenuNode>, Seq<char>>,
) -> bool {
    match r {
        Ok(Some(e)) => s == Result::<Option<MenuNode>, Seq<char>>::Ok(Some(entry_node(e))),
        Ok(None) => s == Result::<Option<MenuNode>, Seq<char>>::Ok(None),
        Err(e) => s == Result::<Option<MenuNode>, Seq<char>>::Err(e.message@) && e.status
            == ErrorStatus::InvalidArg,
    }
}

/// Whether an executable result for a list of option entries agrees with `items_plan`.
pub open spec fn entries_result_agrees(
    r: Result<Vec<MenuEntry>, NativeError>,
    s: Result<Seq<MenuNode>, Seq<char>>,
) -> bool {
    match r {
        Ok(v) => s == Result::<Seq<MenuNode>, Seq<char>>::Ok(entries_nodes(v@)),
        Err(e) => s == Result::<Seq<MenuNode>, Seq<char>>::Err(e.message@) && e.status
            == ErrorStatus::InvalidArg,
    }
}

fn copy_opt(o: &Option<String>) -> (r: Option<String>)
    ensures
        opt_view(r) == opt_view(*o),
{
    match o {
        Some(s) => Some(s.clone()),
        None => None,
    }
}

fn label_or_empty(label: &Option<String>) -> (r: String)
    ensures
        r@ == label_text(*label),
{
    match label {
        Some(l) => l.clone(),
        None => String::new(),
    }
}

/// Builds the custom item for an entry: id from its id, else its label, else `item`;
/// an absent label is empty; an item is enabled unless it says otherwise; the
/// accelerator text is handed on unchanged.
pub fn make_menu_item(item: &MenuItemOptions) -> (e: MenuEntry)
    ensures
        entry_node(e) == (MenuNode::Item {
            id: item_id(*item),
            label: label_text(item.label),
            enabled: match item.enabled {
                Some(b) => b,
                None => true,
            },
            accelerator: opt_view(item.accelerator),
        }),
{
    let id = match &item.id {
        Some(id) => id.clone(),
        None => match &item.label {
            Some(l) => l.clone(),
            None => owned("item"),
        },
    };
    let enabled = match item.enabled {
        Some(b) => b,
        None => true,
    };
    MenuEntry::Item {
        id,
        label: label_or_empty(&item.label),
        enabled,
        accelerator: copy_opt(&item.accelerator),
    }
}

proof fn lemma_entries_nodes_push(es: Seq<MenuEntry>, e: MenuEntry)
    ensures
        entries_nodes(es.push(e)) == entries_nodes(es).push(entry_node(e)),
{
    assert(es.push(e).drop_last() =~= es);
}

proof fn lemma_items_plan_step(items: Seq<MenuItemOptions>, i: int)
    requires
        0 <= i < items.len(),
    ensures
        items_plan(items.take(i + 1)) == (match items_plan(items.take(i)) {
            Err(m) => Err(m),
            Ok(prev) => match item_plan(items[i]) {
                Err(m) => Err(m),
                Ok(None) => Ok(prev),
                Ok(Some(n)) => Ok(prev.push(n)),
            },
        }),
{
    assert(items.take(i + 1).drop_last() =~= items.take(i));
    assert(items.take(i + 1).last() == items[i]);
}

proof fn lemma_items_plan_err_persists(items: Seq<MenuItemOptions>, k: int)
    requires
        0 <= k <= items.len(),
        items_plan(items.take(k)) is Err,
    ensures
        items_plan(items) == items_plan(items.take(k)),
    decreases items.len() - k,
{
    if k < items.len() {
        lemma_items_plan_step(items, k);
        lemma_items_plan_err_persists(items, k + 1);
    } else {
        assert(items.take(k) =~= items);
    }
}

/// Plans one option entry: a submenu (always enabled, its children planned in
/// turn), a predefined item for a role, a custom item when there is an id or a
/// label, or nothing.
pub fn plan_menu_item(item: &MenuItemOptions) -> (r: Result<Option<MenuEntry>, NativeError>)
    ensures
        entry_result_agrees(r, item_plan(*item)),
    decreases item,
{
    match &item.submenu {
        Some(sub) => {
            match plan_menu_items(&sub.items) {
                Ok(children) => Ok(Some(MenuEntry::Submenu { label: label_or_empty(&item.label), children })),
                Err(e) => Err(e),
            }
        },
        None => match &item.role {
            Some(role) => match role_to_predefined(role.as_str()) {
                Ok(p) => Ok(Some(MenuEntry::Predefined { role: p })),
                Err(e) => Err(e),
            },
            None => {
                if item.id.is_some() || item.label.is_some() {
                    Ok(Some(make_menu_item(item)))
                } else {
                    Ok(None)
                }
            },
        },
    }
}

/// Plans a list of option entries in order, stopping at the first unknown role.
pub fn plan_menu_items(items: &Vec<MenuItemOptions>) -> (r: Result<Vec<MenuEntry>, NativeError>)
    ensures
        entries_result_agrees(r, items_plan(items@)),
    decreases items,
{
    let mut out: Vec<MenuEntry> = Vec::new();
    let n = items.len();
    let mut i: usize = 0;
    assert(items@.take(0) =~= Seq::<MenuItemOptions>::empty());
    while i < n
        invariant
            n == items@.len(),
            i <= n,
            items_plan(items@.take(i as int)) == Result::<Seq<MenuNode>, Seq<char>>::Ok(
                entries_nodes(out@),
            ),
        decreases n - i,
    {
        proof {
            assert(decreases_to!(items => items@[i as int]));
            lemma_items_plan_step(items@, i as int);
        }
        match plan_menu_item(&items[i]) {
            Ok(Some(e)) => {
                proof {
                    lemma_entries_nodes_push(out@, e);
                }
                out.push(e);
            },
            Ok(None) => {},
            Err(e) => {
                proof {
                    lemma_items_plan_err_persists(items@, i + 1);
                }
                return Err(e);
            },
        }
        i = i + 1;
    }
    assert(items@.take(n as int) =~= items@);
    Ok(out)
}


/// The ids of the custom items of a menu entry, depth first, in menu order.
pub open spec fn node_item_ids(n: MenuNode) -> Seq<Seq<char>>
    decreases n,
{
    match n {
        MenuNode::Submenu { children, .. } => nodes_item_ids(children),
        MenuNode::Predefined { .. } => Seq::empty(),
        MenuNode::Item { id, .. } => seq![id],
    }
}

/// The ids of the custom items of a list of menu entries, in menu order.
pub open spec fn nodes_item_ids(ns: Seq<MenuNode>) -> Seq<Seq<char>>
    decreases ns,
{
    if ns.len() == 0 {
        Seq::empty()
    } else {
        nodes_item_ids(ns.drop_last()) + node_item_ids(ns.last())
    }
}

/// The texts of a list of strings.
pub open spec fn strings_view(v: Seq<String>) -> Seq<Seq<char>> {
    v.map_values(|s: String| s@)
}

proof fn lemma_strings_view_push(v: Seq<String>, s: String)
    ensures
        strings_view(v.push(s)) == strings_view(v).push(s@),
{
    assert(strings_view(v.push(s)) =~= strings_view(v).push(s@));
}

proof fn lemma_nodes_item_ids_push(ns: Seq<MenuNode>, n: MenuNode)
    ensures
        nodes_item_ids(ns.push(n)) == nodes_item_ids(ns) + node_item_ids(n),
{
    assert(ns.push(n).drop_last() =~= ns);
}

/// Appends the ids of the custom items of one entry to `out`.
fn collect_entry_ids(e: &MenuEntry, out: &mut Vec<String>)
    ensures
        strings_view(final(out)@) == strings_view(old(out)@) + node_item_ids(entry_node(*e)),
    decreases e,
{
    match e {
        MenuEntry::Submenu { children, .. } => {
            collect_entries_ids(children, out);
        },
        MenuEntry::Predefined { .. } => {
            assert(strings_view(out@) =~= strings_view(out@) + Seq::<Seq<char>>::empty());
        },
        MenuEntry::Item { id, .. } => {
            let ghost pre = out@;
            let copy = id.clone();
            out.push(copy);
            proof {
                lemma_strings_view_push(pre, copy);
            }
            assert(strings_view(out@) =~= strings_view(pre) + seq![id@]);
        },
    }
}

/// Appends the ids of the custom items of a list of entries to `out`.
fn collect_entries_ids(es: &Vec<MenuEntry>, out: &mut Vec<String>)
    ensures
        strings_view(final(out)@) == strings_view(old(out)@) + nodes_item_ids(entries_nodes(es@)),
    decreases es,
{
    let ghost pre = out@;
    let n = es.len();
    let mut i: usize = 0;
    assert(es@.take(0) =~= Seq::<MenuEntry>::empty());
    assert(strings_view(out@) =~= strings_view(pre) + Seq::<Seq<char>>::empty());
    while i < n
        invariant
            n == es@.len(),
            i <= n,
            strings_view(out@) == strings_view(pre) + nodes_item_ids(entries_nodes(es@.take(i as int))),
        decreases n - i,
    {
        proof {
            assert(decreases_to!(es => es@[i as int]));
            assert(es@.take(i + 1) =~= es@.take(i as int).push(es@[i as int]));
            lemma_entries_nodes_push(es@.take(i as int), es@[i as int]);
            lemma_nodes_item_ids_push(entries_nodes(es@.take(i as int)), entry_node(es@[i as int]));
        }
        collect_entry_ids(&es[i], out);
        assert(strings_view(out@) =~= strings_view(pre) + nodes_item_ids(entries_nodes(es@.take(i + 1))));
        i = i + 1;
    }
    assert(es@.take(n as int) =~= es@);
}

/// The ids of the custom items of a menu bar, depth first, in menu order: the ids
/// whose clicks come from this menu.
pub fn menu_item_ids(menu: &MenuPlan) -> (ids: Vec<String>)
    ensures
        strings_view(ids@) == nodes_item_ids(entries_nodes(menu.entries@)),
{
    let mut ids: Vec<String> = Vec::new();
    assert(strings_view(ids@) =~= Seq::<Seq<char>>::empty());
    collect_entries_ids(&menu.entries, &mut ids);
    assert(strings_view(ids@) =~= nodes_item_ids(entries_nodes(menu.entries@)));
    ids
}

/// The standard application submenu of macOS: About, Hide, Hide Others, Show All and
/// Quit, with separators.
pub open spec fn app_submenu_node() -> MenuNode {
    MenuNode::Submenu {
        label: "App"@,
        children: seq![
            MenuNode::Predefined { role: PredefinedRole::About },
            MenuNode::Predefined { role: PredefinedRole::Separator },
            MenuNode::Predefined { role: PredefinedRole::Hide },
            MenuNode::Predefined { role: PredefinedRole::HideOthers },
            MenuNode::Predefined { role: PredefinedRole::ShowAll },
            MenuNode::Predefined { role: PredefinedRole::Separator },
            MenuNode::Predefined { role: PredefinedRole::Quit },
        ],
    }
}

/// The menu bar that options describe: on macOS the application submenu comes first.
pub open spec fn menu_bar_plan(items: Seq<MenuItemOptions>, platform: Platform) -> Result<
    Seq<MenuNode>,
    Seq<char>,
> {
    match items_plan(items) {
        Ok(nodes) => Ok(
            if platform == Platform::MacOs {
                seq![app_submenu_node()] + nodes
            } else {
                nodes
            },
        ),
        Err(m) => Err(m),
    }
}

pub proof fn lemma_entries_nodes_concat(a: Seq<MenuEntry>, b: Seq<MenuEntry>)
    ensures
        entries_nodes(a + b) == entries_nodes(a) + entries_nodes(b),
    decreases b.len(),
{
    if b.len() == 0 {
        assert(a + b =~= a);
        assert(entries_nodes(a) + entries_nodes(b) =~= entries_nodes(a));
    } else {
        lemma_entries_nodes_concat(a, b.drop_last());
        assert((a + b).drop_last() =~= a + b.drop_last());
        assert((a + b).last() == b.last());
        assert(entries_nodes(a) + entries_nodes(b) =~= (entries_nodes(a) + entries_nodes(
            b.drop_last(),
        )).push(entry_node(b.last())));
    }
}

fn predefined(role: PredefinedRole) -> (e: MenuEntry)
    ensures
        entry_node(e) == (MenuNode::Predefined { role }),
{
    MenuEntry::Predefined { role }
}

/// Builds the standard application submenu of macOS.
pub fn app_submenu() -> (e: MenuEntry)
    ensures
        entry_node(e) == app_submenu_node(),
{
    let mut children: Vec<MenuEntry> = Vec::new();
    let roles = [
        PredefinedRole::About,
        PredefinedRole::Separator,
        PredefinedRole::Hide,
        PredefinedRole::HideOthers,
        PredefinedRole::ShowAll,
        PredefinedRole::Separator,
        PredefinedRole::Quit,
    ];
    let mut i: usize = 0;
    while i < 7
        invariant
            i <= 7,
            roles@ == seq![
                PredefinedRole::About,
                PredefinedRole::Separator,
                PredefinedRole::Hide,
                PredefinedRole::HideOthers,
                PredefinedRole::ShowAll,
                PredefinedRole::Separator,
                PredefinedRole::Quit,
            ],
            entries_nodes(children@) == Seq::new(
                i as nat,
                |j: int| MenuNode::Predefined { role: roles@[j] },
            ),
        decreases 7 - i,
    {
        let e = predefined(roles[i]);
        proof {
            lemma_entries_nodes_push(children@, e);
        }
        children.push(e);
        assert(entries_nodes(children@) =~= Seq::new(
            (i + 1) as nat,
            |j: int| MenuNode::Predefined { role: roles@[j] },
        ));
        i = i + 1;
    }
    let e = MenuEntry::Submenu { label: owned("App"), children };
    assert(entries_nodes(children@) =~= seq![
        MenuNode::Predefined { role: PredefinedRole::About },
        MenuNode::Predefined { role: PredefinedRole::Separator },
        MenuNode::Predefined { role: PredefinedRole::Hide },
        MenuNode::Predefined { role: PredefinedRole::HideOthers },
        MenuNode::Predefined { role: PredefinedRole::ShowAll },
        MenuNode::Predefined { role: PredefinedRole::Separator },
        MenuNode::Predefined { role: PredefinedRole::Quit },
    ]);
    e
}

/// The menu that macOS shows before any menu is set: the application submenu alone.
pub fn make_default_macos_menu() -> (m: MenuPlan)
    ensures
        entries_nodes(m.entries@) == seq![app_submenu_node()],
{
    let mut entries: Vec<MenuEntry> = Vec::new();
    let app = app_submenu();
    proof {
        lemma_entries_nodes_push(entries@, app);
        assert(entries_nodes(Seq::<MenuEntry>::empty()) =~= Seq::<MenuNode>::empty());
    }
    entries.push(app);
    assert(entries_nodes(entries@) =~= seq![app_submenu_node()]);
    MenuPlan { entries }
}

/// Builds a menu bar from options; on macOS the application submenu is put first.
/// The first unknown role, in depth-first order, makes the whole call fail.
pub fn create_menu_from_options(options: MenuOptions, platform: Platform) -> (r: Result<
    MenuPlan,
    NativeError,
>)
    ensures
        match r {
            Ok(m) => menu_bar_plan(options.items@, platform) == Result::<
                Seq<MenuNode>,
                Seq<char>,
            >::Ok(entries_nodes(m.entries@)),
            Err(e) => menu_bar_plan(options.items@, platform) == Result::<
                Seq<MenuNode>,
                Seq<char>,
            >::Err(e.message@) && e.status == ErrorStatus::InvalidArg,
        },
{
    match plan_menu_items(&options.items) {
        Err(e) => Err(e),
        Ok(mut planned) => {
            if platform == Platform::MacOs {
                let mut entries: Vec<MenuEntry> = Vec::new();
                let app = app_submenu();
                proof {
                    lemma_entries_nodes_push(entries@, app);
                    assert(entries_nodes(Seq::<MenuEntry>::empty()) =~= Seq::<MenuNode>::empty());
                }
                entries.push(app);
                let ghost first = entries@;
                let ghost rest = planned@;
                entries.append(&mut planned);
                proof {
                    lemma_entries_nodes_concat(first, rest);
                    assert(entries_nodes(first) =~= seq![app_submenu_node()]);
                }
                Ok(MenuPlan { entries })
            } else {
                Ok(MenuPlan { entries: planned })
            }
        },
    }
}


/// The length and the first and third characters of a text. No two spellings that
/// `role_item` knows share them, which tells the spellings apart.
spec fn spelling_key(s: Seq<char>) -> (nat, char, char) {
    (s.len(), s[0], s[2])
}

/// The keys of the role spellings (the one-character spelling by its length).
proof fn lemma_spelling_keys()
    ensures
        spelling_key("copy"@) == (4nat, 'c', 'p'),
        spelling_key("paste"@) == (5nat, 'p', 's'),
        spelling_key("cut"@) == (3nat, 'c', 't'),
        spelling_key("undo"@) == (4nat, 'u', 'd'),
        spelling_key("redo"@) == (4nat, 'r', 'd'),
        spelling_key("selectall"@) == (9nat, 's', 'l'),
        spelling_key("select-all"@) == (10nat, 's', 'l'),
        spelling_key("separator"@) == (9nat, 's', 'p'),
        "-"@.len() == 1,
        spelling_key("minimize"@) == (8nat, 'm', 'n'),
        spelling_key("maximize"@) == (8nat, 'm', 'x'),
        spelling_key("fullscreen"@) == (10nat, 'f', 'l'),
        spelling_key("close"@) == (5nat, 'c', 'o'),
        spelling_key("closewindow"@) == (11nat, 'c', 'o'),
        spelling_key("close-window"@) == (12nat, 'c', 'o'),
        spelling_key("quit"@) == (4nat, 'q', 'i'),
        spelling_key("about"@) == (5nat, 'a', 'o'),
        spelling_key("hide"@) == (4nat, 'h', 'd'),
        spelling_key("hideothers"@) == (10nat, 'h', 'd'),
        spelling_key("hide-others"@) == (11nat, 'h', 'd'),
        spelling_key("showall"@) == (7nat, 's', 'o'),
        spelling_key("show-all"@) == (8nat, 's', 'o'),
        spelling_key("services"@) == (8nat, 's', 'r'),
        spelling_key("bringalltofront"@) == (15nat, 'b', 'i'),
        spelling_key("bring-all-to-front"@) == (18nat, 'b', 'i'),
        spelling_key("Copy"@) == (4nat, 'C', 'p'),
{
    reveal_strlit("copy");
    reveal_strlit("paste");
    reveal_strlit("cut");
    reveal_strlit("undo");
    reveal_strlit("redo");
    reveal_strlit("selectall");
    reveal_strlit("select-all");
    reveal_strlit("separator");
    reveal_strlit("-");
    reveal_strlit("minimize");
    reveal_strlit("maximize");
    reveal_strlit("fullscreen");
    reveal_strlit("close");
    reveal_strlit("closewindow");
    reveal_strlit("close-window");
    reveal_strlit("quit");
    reveal_strlit("about");
    reveal_strlit("hide");
    reveal_strlit("hideothers");
    reveal_strlit("hide-others");
    reveal_strlit("showall");
    reveal_strlit("show-all");
    reveal_strlit("services");
    reveal_strlit("bringalltofront");
    reveal_strlit("bring-all-to-front");
    reveal_strlit("Copy");
}

/// Each role names the predefined item of the same name; roles with two or three
/// spellings name the same item, and role names are matched exactly, so a
/// capitalised role is unknown.
pub proof fn law_role_spellings()
    ensures
        role_item("copy"@) == Some(PredefinedRole::Copy),
        role_item("paste"@) == Some(PredefinedRole::Paste),
        role_item("cut"@) == Some(PredefinedRole::Cut),
        role_item("undo"@) == Some(PredefinedRole::Undo),
        role_item("redo"@) == Some(PredefinedRole::Redo),
        role_item("minimize"@) == Some(PredefinedRole::Minimize),
        role_item("maximize"@) == Some(PredefinedRole::Maximize),
        role_item("fullscreen"@) == Some(PredefinedRole::Fullscreen),
        role_item("quit"@) == Some(PredefinedRole::Quit),
        role_item("about"@) == Some(PredefinedRole::About),
        role_item("hide"@) == Some(PredefinedRole::Hide),
        role_item("services"@) == Some(PredefinedRole::Services),
        role_item("selectall"@) == Some(PredefinedRole::SelectAll),
        role_item("select-all"@) == Some(PredefinedRole::SelectAll),
        role_item("separator"@) == Some(PredefinedRole::Separator),
        role_item("-"@) == Some(PredefinedRole::Separator),
        role_item("close"@) == Some(PredefinedRole::CloseWindow),
        role_item("closewindow"@) == Some(PredefinedRole::CloseWindow),
        role_item("close-window"@) == Some(PredefinedRole::CloseWindow),
        role_item("hideothers"@) == Some(PredefinedRole::HideOthers),
        role_item("hide-others"@) == Some(PredefinedRole::HideOthers),
        role_item("showall"@) == Some(PredefinedRole::ShowAll),
        role_item("show-all"@) == Some(PredefinedRole::ShowAll),
        role_item("bringalltofront"@) == Some(PredefinedRole::BringAllToFront),
        role_item("bring-all-to-front"@) == Some(PredefinedRole::BringAllToFront),
        role_item("Copy"@) is None,
{
    lemma_spelling_keys();
}

} // verus!
