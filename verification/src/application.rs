use vstd::prelude::*;

use crate::error::{ErrorStatus, NativeError};
use crate::menu::{
    app_submenu_node, create_menu_from_options, entries_nodes, make_default_macos_menu, menu_bar_plan,
    strings_view, MenuNode, MenuOptions, MenuPlan,
};
use crate::text::str_eq;
use crate::platform::Platform;
use crate::window::{is_default_window_options, BrowserWindowOptions};

verus! {

/// A command for a window.
#[derive(Clone, Copy, Debug, PartialEq, Eq, Structural)]
pub enum WindowCommand {
    Close,
    Show,
    Hide,
}

/// The kinds of application events delivered to the script side.
#[derive(Clone, Copy, Debug, PartialEq, Eq, Structural)]
pub enum WebviewApplicationEvent {
    /// The user asked to close a window.
    WindowCloseRequested,
    /// The last window was closed.
    ApplicationCloseRequested,
    /// A custom menu item was clicked.
    CustomMenuClick,
}

/// Which custom menu item was clicked.
#[derive(Clone, Debug)]
pub struct CustomMenuEvent {
    pub id: String,
    pub window_id: u32,
}

/// An application event.
#[derive(Clone, Debug)]
pub struct ApplicationEvent {
    pub event: WebviewApplicationEvent,
    pub custom_menu_event: Option<CustomMenuEvent>,
}

/// Kept for compatibility; the event loop is always polled.
#[derive(Clone, Copy, Debug, PartialEq, Eq, Structural)]
pub enum JsControlFlow {
    Poll,
    Wait,
    WaitUntil,
    Exit,
    ExitWithCode,
}

/// Options of a new application; accepted and unused.
#[derive(Clone, Copy, Debug)]
pub struct ApplicationOptions {
    pub control_flow: Option<JsControlFlow>,
    pub wait_time: Option<i32>,
    pub exit_code: Option<i32>,
}

/// Options of the event pump, read by the script-side wrapper.
#[derive(Clone, Copy, Debug)]
pub struct ApplicationRunOptions {
    /// The interval in milliseconds to pump events. Defaults to 16 (60 FPS).
    pub interval: Option<u32>,
    /// Whether to keep the event loop alive. Defaults to true.
    pub ref_: Option<bool>,
}

/// The window events the application reacts to.
#[derive(Clone, Copy, Debug, PartialEq, Eq, Structural)]
pub enum WindowEvent {
    /// The window's inner size changed, in physical pixels.
    Resized { width: u32, height: u32 },
    /// The user asked to close the window.
    CloseRequested,
    /// Any other event.
    Other,
}

/// What the application asks its host to do in answer to an event.
#[derive(Clone, Debug)]
pub enum AppAction {
    /// Hide a window.
    HideWindow { window: u64 },
    /// Make every webview of a window fill it.
    ResizeWebviews { window: u64, width: u32, height: u32 },
    /// Deliver an event to the script side's handler.
    Fire(ApplicationEvent),
}

/// What the event loop should do after an event.
#[derive(Clone, Copy, Debug, PartialEq, Eq, Structural)]
pub enum LoopControl {
    Poll,
    ExitWithCode(i32),
}

/// The mathematical form of an action.
pub enum ActionModel {
    Hide(u64),
    Resize(u64, u32, u32),
    Fire(WebviewApplicationEvent, Option<(Seq<char>, u32)>),
}

pub open spec fn menu_item_model(m: Option<CustomMenuEvent>) -> Option<(Seq<char>, u32)> {
    match m {
        Some(c) => Some((c.id@, c.window_id)),
        None => None,
    }
}

pub open spec fn action_model(a: AppAction) -> ActionModel {
    match a {
        AppAction::HideWindow { window } => ActionModel::Hide(window),
        AppAction::ResizeWebviews { window, width, height } => ActionModel::Resize(window, width, height),
        AppAction::Fire(e) => ActionModel::Fire(e.event, menu_item_model(e.custom_menu_event)),
    }
}

pub open spec fn actions_model(v: Seq<AppAction>) -> Seq<ActionModel> {
    v.map_values(|a: AppAction| action_model(a))
}

/// The mathematical form of the application's state.
pub struct AppModel {
    pub should_exit: bool,
    /// The windows that are open (closing one hides it and forgets it).
    pub windows: Set<u64>,
    /// The windows whose webviews follow their size.
    pub webview_windows: Set<u64>,
    /// The global menu, if any.
    pub global_menu: Option<Seq<MenuNode>>,
    /// Whether menu clicks are delivered.
    pub menu_events: bool,
    pub platform: Platform,
    /// The windows with a menu of their own and the ids of its custom items, in the
    /// order they were registered.
    pub window_menus: Seq<(u32, Seq<Seq<char>>)>,
}

/// The window whose own menu holds a custom item with this id: the one registered
/// last, or `None` when no window menu holds it.
pub open spec fn menu_owner(ms: Seq<(u32, Seq<Seq<char>>)>, id: Seq<char>) -> Option<u32>
    decreases ms.len(),
{
    if ms.len() == 0 {
        None
    } else if ms.last().1.contains(id) {
        Some(ms.last().0)
    } else {
        menu_owner(ms.drop_last(), id)
    }
}

/// The window a click on the item with this id is reported from: the window whose
/// own menu holds it, or 0 for the global menu.
pub open spec fn click_window(ms: Seq<(u32, Seq<Seq<char>>)>, id: Seq<char>) -> u32 {
    match menu_owner(ms, id) {
        Some(w) => w,
        None => 0,
    }
}

pub open spec fn window_menus_view(v: Seq<(u32, Vec<String>)>) -> Seq<(u32, Seq<Seq<char>>)> {
    v.map_values(|p: (u32, Vec<String>)| (p.0, strings_view(p.1@)))
}

pub open spec fn fire(kind: WebviewApplicationEvent) -> ActionModel {
    ActionModel::Fire(kind, None)
}

/// One window event: the state after it and the actions it calls for. After the
/// application has exited nothing happens. A resize makes the window's webviews
/// follow. A close request hides and forgets the window, reports the request, and
/// when no window is left reports that the application closes and exits.
pub open spec fn window_event_step(m: AppModel, w: u64, e: WindowEvent) -> (AppModel, Seq<ActionModel>) {
    if m.should_exit {
        (m, Seq::empty())
    } else {
        match e {
            WindowEvent::Resized { width, height } => (
                m,
                if m.webview_windows.contains(w) {
                    seq![ActionModel::Resize(w, width, height)]
                } else {
                    Seq::empty()
                },
            ),
            WindowEvent::CloseRequested => {
                let left = m.windows.remove(w);
                let hide: Seq<ActionModel> = if m.windows.contains(w) {
                    seq![ActionModel::Hide(w)]
                } else {
                    Seq::empty()
                };
                let closing: Seq<ActionModel> = if left.is_empty() {
                    seq![fire(WebviewApplicationEvent::ApplicationCloseRequested)]
                } else {
                    Seq::empty()
                };
                (
                    AppModel { windows: left, should_exit: left.is_empty(), ..m },
                    hide + seq![fire(WebviewApplicationEvent::WindowCloseRequested)] + closing,
                )
            },
            WindowEvent::Other => (m, Seq::empty()),
        }
    }
}

/// Where a script-side callback is kept (`F` is the callback).
pub struct HandlerSlot<F> {
    handler: Option<F>,
}

impl<F> HandlerSlot<F> {
    pub closed spec fn current(&self) -> Option<F> {
        self.handler
    }

    /// An empty slot.
    pub fn new() -> (s: Self)
        ensures
            s.current() is None,
    {
        HandlerSlot { handler: None }
    }

    /// Sets the application's event callback; `None` removes it.
    pub fn on_event(&mut self, handler: Option<F>)
        ensures
            final(self).current() == handler,
    {
        self.handler = handler;
    }

    /// The same as `on_event`.
    pub fn bind(&mut self, handler: Option<F>)
        ensures
            final(self).current() == handler,
    {
        self.on_event(handler);
    }

    /// The callback, if one is set.
    pub fn get(&self) -> (h: &Option<F>)
        ensures
            *h == self.current(),
    {
        &self.handler
    }
}

/// The application's own state: whether it has exited, its windows, its global menu
/// and whether menu clicks are delivered. The host owns the event loop and the
/// native windows and asks this state what to do.
pub struct Application {
    should_exit: bool,
    windows: Vec<u64>,
    webview_windows: Vec<u64>,
    global_menu: Option<MenuPlan>,
    menu_events: bool,
    platform: Platform,
    window_menus: Vec<(u32, Vec<String>)>,
}

impl View for Application {
    type V = AppModel;

    closed spec fn view(&self) -> AppModel {
        AppModel {
            should_exit: self.should_exit,
            windows: self.windows@.to_set(),
            webview_windows: self.webview_windows@.to_set(),
            global_menu: match self.global_menu {
                Some(p) => Some(entries_nodes(p.entries@)),
                None => None,
            },
            menu_events: self.menu_events,
            platform: self.platform,
            window_menus: window_menus_view(self.window_menus@),
        }
    }
}

proof fn lemma_remove_unique(s: Seq<u64>, k: int)
    requires
        s.no_duplicates(),
        0 <= k < s.len(),
    ensures
        s.remove(k).no_duplicates(),
        s.remove(k).to_set() =~= s.to_set().remove(s[k]),
{
    let t = s.remove(k);
    assert forall|i: int, j: int| 0 <= i < t.len() && 0 <= j < t.len() && i != j implies t[i] != t[j] by {
        let i2 = if i < k { i } else { i + 1 };
        let j2 = if j < k { j } else { j + 1 };
        assert(t[i] == s[i2] && t[j] == s[j2]);
    }
    assert forall|x: u64| #[trigger] t.to_set().contains(x) <==> s.to_set().remove(s[k]).contains(x) by {
        if t.to_set().contains(x) {
            assert(t.contains(x));
            let i = choose|i: int| 0 <= i < t.len() && t[i] == x;
            let i2 = if i < k { i } else { i + 1 };
            assert(s[i2] == x);
            assert(s.contains(x));
        }
        if s.to_set().remove(s[k]).contains(x) {
            assert(s.contains(x));
            let i = choose|i: int| 0 <= i < s.len() && s[i] == x;
            assert(i != k);
            let i2 = if i < k { i } else { i - 1 };
            assert(t[i2] == x);
            assert(t.contains(x));
        }
    }
}

fn index_of(v: &Vec<u64>, x: u64) -> (r: Option<usize>)
    ensures
        match r {
            Some(k) => k < v@.len() && v@[k as int] == x,
            None => !v@.contains(x),
        },
{
    let n = v.len();
    let mut k: usize = 0;
    while k < n
        invariant
            n == v@.len(),
            k <= n,
            forall|j: int| 0 <= j < k ==> v@[j] != x,
        decreases n - k,
    {
        if v[k] == x {
            return Some(k);
        }
        k = k + 1;
    }
    None
}

fn insert_unique(v: &mut Vec<u64>, x: u64)
    requires
        old(v)@.no_duplicates(),
    ensures
        final(v)@.no_duplicates(),
        final(v)@.to_set() == old(v)@.to_set().insert(x),
{
    match index_of(v, x) {
        Some(k) => {
            assert(old(v)@.to_set().insert(x) =~= old(v)@.to_set());
        },
        None => {
            let ghost pre = v@;
            v.push(x);
            assert(v@.to_set() =~= pre.to_set().insert(x)) by {
                assert forall|y: u64| v@.contains(y) <==> pre.contains(y) || y == x by {
                    if v@.contains(y) {
                        let i = choose|i: int| 0 <= i < v@.len() && v@[i] == y;
                        if i < pre.len() {
                            assert(pre[i] == y);
                        }
                    }
                    if pre.contains(y) {
                        let i = choose|i: int| 0 <= i < pre.len() && pre[i] == y;
                        assert(v@[i] == y);
                    }
                    if y == x {
                        assert(v@[pre.len() as int] == y);
                    }
                }
            }
        },
    }
}

/// Whether a list of strings holds `id`.
fn ids_contain(v: &Vec<String>, id: &str) -> (b: bool)
    ensures
        b == strings_view(v@).contains(id@),
{
    let n = v.len();
    let mut i: usize = 0;
    while i < n
        invariant
            n == v@.len(),
            i <= n,
            forall|j: int| 0 <= j < i ==> v@[j]@ != id@,
        decreases n - i,
    {
        if str_eq(v[i].as_str(), id) {
            assert(strings_view(v@)[i as int] == id@);
            return true;
        }
        i = i + 1;
    }
    assert forall|j: int| 0 <= j < strings_view(v@).len() implies strings_view(v@)[j] != id@ by {
        assert(strings_view(v@)[j] == v@[j]@);
    }
    false
}

impl Application {
    /// The invariant: no window is tracked twice.
    pub closed spec fn wf(&self) -> bool {
        self.windows@.no_duplicates() && self.webview_windows@.no_duplicates()
    }

    /// A running application with no window. On macOS the standard application menu
    /// is installed at once and menu clicks are delivered from the start.
    pub fn new(platform: Platform, _options: Option<ApplicationOptions>) -> (a: Self)
        ensures
            a.wf(),
            !a@.should_exit,
            a@.windows.is_empty(),
            a@.webview_windows.is_empty(),
            a@.platform == platform,
            a@.window_menus.len() == 0,
            platform == Platform::MacOs ==> a@.global_menu == Some(seq![app_submenu_node()]) && a@.menu_events,
            platform != Platform::MacOs ==> a@.global_menu is None && !a@.menu_events,
    {
        let global_menu = if platform == Platform::MacOs {
            Some(make_default_macos_menu())
        } else {
            None
        };
        let a = Application {
            should_exit: false,
            windows: Vec::new(),
            webview_windows: Vec::new(),
            global_menu,
            menu_events: platform == Platform::MacOs,
            platform,
            window_menus: Vec::new(),
        };
        assert(a@.windows =~= Set::<u64>::empty());
        assert(a@.webview_windows =~= Set::<u64>::empty());
        a
    }

    /// Whether the application still runs; the pump stops once it is `false`.
    pub fn is_alive(&self) -> (b: bool)
        ensures
            b == !self@.should_exit,
    {
        !self.should_exit
    }

    /// Whether menu clicks are delivered.
    pub fn menu_events_enabled(&self) -> (b: bool)
        ensures
            b == self@.menu_events,
    {
        self.menu_events
    }

    /// The global menu, if any.
    pub fn global_menu(&self) -> (m: &Option<MenuPlan>)
        ensures
            match *m {
                Some(p) => self@.global_menu == Some(entries_nodes(p.entries@)),
                None => self@.global_menu is None,
            },
    {
        &self.global_menu
    }

    /// What the event loop does after an event: keep polling, or stop with code 0
    /// once the application has exited.
    pub fn loop_control(&self) -> (c: LoopControl)
        ensures
            c == if self@.should_exit { LoopControl::ExitWithCode(0) } else { LoopControl::Poll },
    {
        if self.should_exit {
            LoopControl::ExitWithCode(0)
        } else {
            LoopControl::Poll
        }
    }

    /// Starts following a new window and its webviews.
    pub fn track_window(&mut self, window: u64)
        requires
            old(self).wf(),
        ensures
            final(self).wf(),
            final(self)@ == (AppModel {
                windows: old(self)@.windows.insert(window),
                webview_windows: old(self)@.webview_windows.insert(window),
                ..old(self)@
            }),
    {
        insert_unique(&mut self.windows, window);
        insert_unique(&mut self.webview_windows, window);
    }

    /// Reacts to an event of a window; see `window_event_step`.
    pub fn handle_window_event(&mut self, window: u64, event: WindowEvent) -> (actions: Vec<AppAction>)
        requires
            old(self).wf(),
        ensures
            final(self).wf(),
            (final(self)@, actions_model(actions@)) == window_event_step(old(self)@, window, event),
    {
        let mut actions: Vec<AppAction> = Vec::new();
        let ghost m = self@;
        if self.should_exit {
            assert(actions_model(actions@) =~= Seq::<ActionModel>::empty());
            return actions;
        }
        match event {
            WindowEvent::Resized { width, height } => {
                match index_of(&self.webview_windows, window) {
                    Some(_) => {
                        actions.push(AppAction::ResizeWebviews { window, width, height });
                        assert(actions_model(actions@) =~= seq![ActionModel::Resize(window, width, height)]);
                    },
                    None => {
                        assert(!m.webview_windows.contains(window));
                        assert(actions_model(actions@) =~= Seq::<ActionModel>::empty());
                    },
                }
            },
            WindowEvent::CloseRequested => {
                let ghost hide: Seq<ActionModel> = if m.windows.contains(window) {
                    seq![ActionModel::Hide(window)]
                } else {
                    Seq::empty()
                };
                match index_of(&self.windows, window) {
                    Some(k) => {
                        proof {
                            lemma_remove_unique(self.windows@, k as int);
                            assert(m.windows.contains(window));
                        }
                        self.windows.remove(k);
                        actions.push(AppAction::HideWindow { window });
                    },
                    None => {
                        proof {
                            assert(!m.windows.contains(window));
                            assert(m.windows.remove(window) =~= m.windows);
                        }
                    },
                }
                assert(actions_model(actions@) =~= hide);
                actions.push(
                    AppAction::Fire(
                        ApplicationEvent {
                            event: WebviewApplicationEvent::WindowCloseRequested,
                            custom_menu_event: None,
                        },
                    ),
                );
                assert(actions_model(actions@) =~= hide + seq![fire(WebviewApplicationEvent::WindowCloseRequested)]);
                let ghost left = m.windows.remove(window);
                assert(self@.windows == left);
                if self.windows.len() == 0 {
                    assert(left =~= Set::<u64>::empty());
                    actions.push(
                        AppAction::Fire(
                            ApplicationEvent {
                                event: WebviewApplicationEvent::ApplicationCloseRequested,
                                custom_menu_event: None,
                            },
                        ),
                    );
                    self.should_exit = true;
                    assert(actions_model(actions@) =~= hide + seq![
                        fire(WebviewApplicationEvent::WindowCloseRequested),
                    ] + seq![fire(WebviewApplicationEvent::ApplicationCloseRequested)]);
                } else {
                    assert(self.windows@.to_set().contains(self.windows@[0]));
                    assert(!left.is_empty());
                    assert(actions_model(actions@) =~= hide + seq![
                        fire(WebviewApplicationEvent::WindowCloseRequested),
                    ] + Seq::<ActionModel>::empty());
                }
            },
            WindowEvent::Other => {
                assert(actions_model(actions@) =~= Seq::<ActionModel>::empty());
            },
        }
        actions
    }

    /// Stops the application: every open window is handed back to be hidden, none is
    /// followed any more, and the application has exited.
    pub fn exit(&mut self) -> (hidden: Vec<u64>)
        requires
            old(self).wf(),
        ensures
            final(self).wf(),
            hidden@.no_duplicates(),
            hidden@.to_set() == old(self)@.windows,
            final(self)@ == (AppModel { should_exit: true, windows: Set::empty(), ..old(self)@ }),
    {
        let mut hidden: Vec<u64> = Vec::new();
        std::mem::swap(&mut hidden, &mut self.windows);
        self.should_exit = true;
        assert(self@.windows =~= Set::<u64>::empty());
        hidden
    }

    /// Sets or removes the global menu. A menu built from options replaces the global
    /// menu and turns menu clicks on; an unknown role fails the call and changes
    /// nothing. Removing the menu restores the standard application menu on macOS
    /// (menu clicks stay as they were) and leaves no menu elsewhere, with menu clicks
    /// off. On Android menus do not exist and nothing changes.
    pub fn set_menu(&mut self, menu_options: Option<MenuOptions>) -> (r: Result<(), NativeError>)
        requires
            old(self).wf(),
        ensures
            final(self).wf(),
            old(self)@.platform == Platform::Android ==> r is Ok && final(self)@ == old(self)@,
            old(self)@.platform != Platform::Android ==> match menu_options {
                Some(o) => match menu_bar_plan(o.items@, old(self)@.platform) {
                    Ok(nodes) => r is Ok && final(self)@ == (AppModel {
                        global_menu: Some(nodes),
                        menu_events: true,
                        ..old(self)@
                    }),
                    Err(m) => r matches Err(e) && e.message@ == m && e.status == ErrorStatus::InvalidArg
                        && final(self)@ == old(self)@,
                },
                None => r is Ok && if old(self)@.platform == Platform::MacOs {
                    final(self)@ == (AppModel { global_menu: Some(seq![app_submenu_node()]), ..old(self)@ })
                } else {
                    final(self)@ == (AppModel { global_menu: None, menu_events: false, ..old(self)@ })
                },
            },
    {
        if self.platform == Platform::Android {
            return Ok(());
        }
        match menu_options {
            Some(options) => {
                match create_menu_from_options(options, self.platform) {
                    Ok(m) => {
                        self.menu_events = true;
                        self.global_menu = Some(m);
                        Ok(())
                    },
                    Err(e) => Err(e),
                }
            },
            None => {
                if self.platform == Platform::MacOs {
                    self.global_menu = Some(make_default_macos_menu());
                } else {
                    self.global_menu = None;
                    self.menu_events = false;
                }
                Ok(())
            },
        }
    }

    /// The options a new top-level window is created with: the defaults when none are
    /// given; a window without a menu of its own shows the global menu when there is
    /// one (not on Android).
    pub fn new_window_options(&self, options: Option<BrowserWindowOptions>) -> (o: BrowserWindowOptions)
        ensures
            match options {
                Some(given) => o == if self@.platform != Platform::Android && given.menu is None
                    && self@.global_menu is Some {
                    BrowserWindowOptions { show_menu: Some(true), ..given }
                } else {
                    given
                },
                None => is_default_window_options(o),
            },
    {
        let mut o = match options {
            Some(given) => given,
            None => BrowserWindowOptions::default(),
        };
        if self.platform != Platform::Android && o.menu.is_none() && self.global_menu.is_some() {
            o.show_menu = Some(true);
        }
        o
    }

    /// Remembers the custom item ids of a window's own menu, so that their clicks are
    /// reported from that window.
    pub fn register_window_menu(&mut self, window_id: u32, item_ids: Vec<String>)
        requires
            old(self).wf(),
        ensures
            final(self).wf(),
            final(self)@ == (AppModel {
                window_menus: old(self)@.window_menus.push((window_id, strings_view(item_ids@))),
                ..old(self)@
            }),
    {
        let ghost pre = self.window_menus@;
        self.window_menus.push((window_id, item_ids));
        assert(window_menus_view(self.window_menus@) =~= window_menus_view(pre).push(
            (window_id, strings_view(item_ids@)),
        ));
    }

    /// The window a click on the custom item `id` comes from; see `click_window`.
    pub fn click_source(&self, id: &str) -> (w: u32)
        ensures
            w == click_window(self@.window_menus, id@),
    {
        let ghost ms = self@.window_menus;
        let mut k: usize = self.window_menus.len();
        assert(ms.take(k as int) =~= ms);
        while k > 0
            invariant
                k <= self.window_menus@.len(),
                ms == window_menus_view(self.window_menus@),
                menu_owner(ms, id@) == menu_owner(ms.take(k as int), id@),
            decreases k,
        {
            let entry = &self.window_menus[k - 1];
            proof {
                assert(ms.take(k as int).drop_last() =~= ms.take(k - 1));
                assert(ms.take(k as int).last() == ms[k - 1]);
                assert(ms[k - 1] == (entry.0, strings_view(entry.1@)));
            }
            if ids_contain(&entry.1, id) {
                return entry.0;
            }
            k = k - 1;
        }
        0
    }

    /// The events for menu clicks received since the last pump, in order, each
    /// reported from the window whose own menu holds the item (0 for the global
    /// menu): none once the application has exited or while menu clicks are off.
    pub fn menu_click_events(&self, ids: Vec<String>) -> (events: Vec<ApplicationEvent>)
        ensures
            (self@.should_exit || !self@.menu_events) ==> events@.len() == 0,
            (!self@.should_exit && self@.menu_events) ==> events@.len() == ids@.len() && forall|i: int|
                0 <= i < ids@.len() ==> (#[trigger] events@[i]).event == WebviewApplicationEvent::CustomMenuClick
                    && menu_item_model(events@[i].custom_menu_event) == Some(
                    (ids@[i]@, click_window(self@.window_menus, ids@[i]@)),
                ),
    {
        let mut events: Vec<ApplicationEvent> = Vec::new();
        if self.should_exit || !self.menu_events {
            return events;
        }
        let n = ids.len();
        let mut i: usize = 0;
        while i < n
            invariant
                n == ids@.len(),
                i <= n,
                events@.len() == i,
                forall|j: int| 0 <= j < i ==> (#[trigger] events@[j]).event == WebviewApplicationEvent::CustomMenuClick
                    && menu_item_model(events@[j].custom_menu_event) == Some(
                    (ids@[j]@, click_window(self@.window_menus, ids@[j]@)),
                ),
            decreases n - i,
        {
            let window_id = self.click_source(ids[i].as_str());
            events.push(Self::menu_click_event(ids[i].clone(), window_id));
            i = i + 1;
        }
        events
    }

    /// The event for a click on a custom menu item: its id and the window it came from.
    pub fn menu_click_event(id: String, window_id: u32) -> (e: ApplicationEvent)
        ensures
            e.event == WebviewApplicationEvent::CustomMenuClick,
            menu_item_model(e.custom_menu_event) == Some((id@, window_id)),
    {
        ApplicationEvent {
            event: WebviewApplicationEvent::CustomMenuClick,
            custom_menu_event: Some(CustomMenuEvent { id, window_id }),
        }
    }
}


/// Closing the last open window reports the close request, then that the application
/// closes, and the application exits; the pump then stops.
pub proof fn law_closing_last_window_exits(m: AppModel, w: u64)
    requires
        !m.should_exit,
        m.windows == Set::<u64>::empty().insert(w),
    ensures
        window_event_step(m, w, WindowEvent::CloseRequested).0.should_exit,
        window_event_step(m, w, WindowEvent::CloseRequested).0.windows.is_empty(),
        window_event_step(m, w, WindowEvent::CloseRequested).1 == seq![
            ActionModel::Hide(w),
            fire(WebviewApplicationEvent::WindowCloseRequested),
            fire(WebviewApplicationEvent::ApplicationCloseRequested),
        ],
{
    assert(m.windows.remove(w) =~= Set::<u64>::empty());
    assert(seq![ActionModel::Hide(w)] + seq![fire(WebviewApplicationEvent::WindowCloseRequested)]
        + seq![fire(WebviewApplicationEvent::ApplicationCloseRequested)] =~= seq![
        ActionModel::Hide(w),
        fire(WebviewApplicationEvent::WindowCloseRequested),
        fire(WebviewApplicationEvent::ApplicationCloseRequested),
    ]);
}

/// Closing a window while another stays open only hides it and reports the request;
/// the application keeps running.
pub proof fn law_closing_other_window_keeps_running(m: AppModel, w: u64, v: u64)
    requires
        !m.should_exit,
        m.windows.contains(w),
        m.windows.contains(v),
        w != v,
    ensures
        !window_event_step(m, w, WindowEvent::CloseRequested).0.should_exit,
        window_event_step(m, w, WindowEvent::CloseRequested).0.windows == m.windows.remove(w),
        window_event_step(m, w, WindowEvent::CloseRequested).1 == seq![
            ActionModel::Hide(w),
            fire(WebviewApplicationEvent::WindowCloseRequested),
        ],
{
    assert(m.windows.remove(w).contains(v));
    assert(seq![ActionModel::Hide(w)] + seq![fire(WebviewApplicationEvent::WindowCloseRequested)]
        + Seq::<ActionModel>::empty() =~= seq![
        ActionModel::Hide(w),
        fire(WebviewApplicationEvent::WindowCloseRequested),
    ]);
}

/// Once a window's own menu is registered, a click on any of its items is reported
/// from that window.
pub proof fn law_registered_menu_owns_its_items(
    ms: Seq<(u32, Seq<Seq<char>>)>,
    window_id: u32,
    ids: Seq<Seq<char>>,
    id: Seq<char>,
)
    requires
        ids.contains(id),
    ensures
        click_window(ms.push((window_id, ids)), id) == window_id,
{
    assert(ms.push((window_id, ids)).last() == (window_id, ids));
}

/// A click on an item that no registered window menu holds comes from the global
/// menu and is reported from window 0.
pub proof fn law_global_menu_clicks_have_no_window(ms: Seq<(u32, Seq<Seq<char>>)>, id: Seq<char>)
    requires
        forall|i: int| 0 <= i < ms.len() ==> !(#[trigger] ms[i]).1.contains(id),
    ensures
        click_window(ms, id) == 0,
    decreases ms.len(),
{
    if ms.len() > 0 {
        assert(!ms[ms.len() - 1].1.contains(id));
        assert forall|i: int| 0 <= i < ms.drop_last().len() implies !(#[trigger] ms.drop_last()[i]).1.contains(id) by {
            assert(ms.drop_last()[i] == ms[i]);
        }
        law_global_menu_clicks_have_no_window(ms.drop_last(), id);
    }
}

/// Once the application has exited, window events change nothing and call for
/// nothing.
pub proof fn law_exited_application_ignores_events(m: AppModel, w: u64, e: WindowEvent)
    requires
        m.should_exit,
    ensures
        window_event_step(m, w, e) == (m, Seq::<ActionModel>::empty()),
{
}

/// An exited application stays exited whatever window events follow.
pub proof fn law_exit_is_final(m: AppModel, w: u64, e: WindowEvent)
    ensures
        m.should_exit ==> window_event_step(m, w, e).0.should_exit,
{
}

} // verus!
