use vstd::prelude::*;

use crate::error::{failed_to, ErrorStatus, NativeError};
use crate::http_parts::{
    check_header_value, header_map_contents, header_map_insert, header_name_char, header_name_form, header_value_ok,
    new_header_map, parse_header_name, HeaderData,
};
use crate::json::{json_quote, json_quote_list, json_string_array, json_string_literal};
use crate::platform::Platform;
use crate::text::{ascii_lower_char, is_ascii_text, owned, str_eq, to_lowercase, unicode_lowercase};
use crate::window::opt_string_view;
use http::header::HeaderMap;

verus! {

/// A colour scheme.
#[derive(Clone, Copy, Debug, PartialEq, Eq, Structural)]
pub enum Theme {
    Light,
    Dark,
    System,
}

/// A request delivered to a custom-protocol handler.
#[derive(Clone, Debug)]
pub struct CustomProtocolRequest {
    pub url: String,
    pub method: String,
    pub headers: Vec<HeaderData>,
    pub body: Option<Vec<u8>>,
}

/// The options of a new webview that the library decides on. Its position and size,
/// which are floating-point numbers, are handled beside it.
#[derive(Clone, Debug)]
pub struct WebviewOptions {
    pub url: Option<String>,
    pub html: Option<String>,
    pub enable_devtools: Option<bool>,
    pub incognito: Option<bool>,
    pub user_agent: Option<String>,
    pub child: Option<bool>,
    pub preload: Option<String>,
    pub transparent: Option<bool>,
    pub theme: Option<Theme>,
    pub hotkeys_zoom: Option<bool>,
    pub clipboard: Option<bool>,
    pub autoplay: Option<bool>,
    pub back_forward_navigation_gestures: Option<bool>,
    /// Another name under which the page reaches the IPC object (`window.ipc` stays).
    pub ipc_name: Option<String>,
}

/// The defaults of a new webview: devtools on, not incognito, user agent
/// `WebviewJS`, not a child, opaque, zoom hotkeys, clipboard, autoplay and
/// navigation gestures on, no content and no IPC alias.
pub open spec fn is_default_webview_options(o: WebviewOptions) -> bool {
    &&& o.url is None
    &&& o.html is None
    &&& o.enable_devtools == Some(true)
    &&& o.incognito == Some(false)
    &&& o.user_agent matches Some(u) && u@ == "WebviewJS"@
    &&& o.child == Some(false)
    &&& o.preload is None
    &&& o.transparent == Some(false)
    &&& o.theme is None
    &&& o.hotkeys_zoom == Some(true)
    &&& o.clipboard == Some(true)
    &&& o.autoplay == Some(true)
    &&& o.back_forward_navigation_gestures == Some(true)
    &&& o.ipc_name is None
}

impl Default for WebviewOptions {
    fn default() -> (o: Self)
        ensures
            is_default_webview_options(o),
    {
        WebviewOptions {
            url: None,
            html: None,
            enable_devtools: Some(true),
            incognito: Some(false),
            user_agent: Some(owned("WebviewJS")),
            child: Some(false),
            preload: None,
            transparent: Some(false),
            theme: None,
            hotkeys_zoom: Some(true),
            clipboard: Some(true),
            autoplay: Some(true),
            back_forward_navigation_gestures: Some(true),
            ipc_name: None,
        }
    }
}

/// Webviews are only made through a window; constructing one directly fails.
pub fn webview_constructor_error() -> (e: NativeError)
    ensures
        e.status == ErrorStatus::GenericFailure,
        e.message@ == "Webview constructor is not directly supported"@,
{
    NativeError::new(ErrorStatus::GenericFailure, owned("Webview constructor is not directly supported"))
}

/// A colour scheme that the webview engine knows (Windows only).
#[derive(Clone, Copy, Debug, PartialEq, Eq, Structural)]
pub enum WebviewTheme {
    Light,
    Dark,
    Auto,
}

/// Everything the webview engine is told when a webview is built. Each `Option` is
/// a setting applied only when present.
#[derive(Clone, Debug)]
pub struct WebviewPlan {
    pub devtools: Option<bool>,
    /// The webview is given explicit bounds instead of filling its window.
    pub explicit_bounds: bool,
    pub incognito: Option<bool>,
    /// Scripts run before each page loads, in order.
    pub init_scripts: Vec<String>,
    pub transparent: Option<bool>,
    pub autoplay: Option<bool>,
    pub clipboard: Option<bool>,
    pub back_forward_navigation_gestures: Option<bool>,
    pub hotkeys_zoom: Option<bool>,
    pub theme: Option<WebviewTheme>,
    pub user_agent: Option<String>,
    pub html: Option<String>,
    pub url: Option<String>,
    /// The webview is added inside its window rather than as its whole content.
    pub as_child: bool,
}

/// The script that makes `window[name]` another name for `window.ipc`, or `None` when
/// the name is `ipc` itself.
pub open spec fn ipc_alias_script_of(name: Seq<char>) -> Option<Seq<char>> {
    if name == "ipc"@ {
        None
    } else {
        Some(
            "Object.defineProperty(window,"@ + json_string_literal(name)
                + ",{get:()=>window.ipc,configurable:true,enumerable:true});"@,
        )
    }
}

/// Builds the script that aliases the IPC object under another name.
pub fn ipc_alias_script(name: &str) -> (r: Option<String>)
    ensures
        opt_string_view(r) == ipc_alias_script_of(name@),
{
    if str_eq(name, "ipc") {
        return None;
    }
    let quoted = match json_quote(name) {
        Ok(q) => q,
        Err(_) => {
            let mut q = owned("\"");
            q.append(name);
            q.append("\"");
            q
        },
    };
    let mut script = owned("Object.defineProperty(window,");
    script.append(quoted.as_str());
    script.append(",{get:()=>window.ipc,configurable:true,enumerable:true});");
    Some(script)
}

pub open spec fn theme_for_engine(platform: Platform, t: Option<Theme>) -> Option<WebviewTheme> {
    if platform == Platform::Windows {
        match t {
            Some(Theme::Light) => Some(WebviewTheme::Light),
            Some(Theme::Dark) => Some(WebviewTheme::Dark),
            Some(Theme::System) => Some(WebviewTheme::Auto),
            None => None,
        }
    } else {
        None
    }
}

/// The scripts run before each page: the preload script, then the IPC alias.
pub open spec fn init_scripts_of(o: WebviewOptions) -> Seq<Seq<char>> {
    (match o.preload {
        Some(p) => seq![p@],
        None => Seq::empty(),
    }) + (match o.ipc_name {
        Some(n) => match ipc_alias_script_of(n@) {
            Some(s) => seq![s],
            None => Seq::empty(),
        },
        None => Seq::empty(),
    })
}

/// Whether a webview plan carries out its options.
pub open spec fn webview_plan_agrees(
    o: WebviewOptions,
    platform: Platform,
    window_is_child: bool,
    geometry_given: bool,
    p: WebviewPlan,
) -> bool {
    &&& p.devtools == o.enable_devtools
    &&& p.explicit_bounds == (platform == Platform::MacOs || o.child == Some(true) || window_is_child
        || geometry_given)
    &&& p.incognito == o.incognito
    &&& p.init_scripts@.map_values(|s: String| s@) == init_scripts_of(o)
    &&& p.transparent == o.transparent
    &&& p.autoplay == o.autoplay
    &&& p.clipboard == o.clipboard
    &&& p.back_forward_navigation_gestures == o.back_forward_navigation_gestures
    &&& p.hotkeys_zoom == o.hotkeys_zoom
    &&& p.theme == theme_for_engine(platform, o.theme)
    &&& opt_string_view(p.user_agent) == opt_string_view(o.user_agent)
    &&& opt_string_view(p.html) == opt_string_view(o.html)
    &&& opt_string_view(p.url) == opt_string_view(o.url)
    &&& p.as_child == (platform == Platform::MacOs || o.child == Some(true) || window_is_child)
}

/// On Windows the engine is given the colour scheme that was asked for (light as
/// light, dark as dark, the system's as automatic); elsewhere, or when none is asked
/// for, no theme is given.
pub proof fn law_engine_theme_is_the_requested_one(
    o: WebviewOptions,
    platform: Platform,
    window_is_child: bool,
    geometry_given: bool,
    p: WebviewPlan,
)
    requires
        webview_plan_agrees(o, platform, window_is_child, geometry_given, p),
    ensures
        platform == Platform::Windows && o.theme == Some(Theme::Light) ==> p.theme == Some(WebviewTheme::Light),
        platform == Platform::Windows && o.theme == Some(Theme::Dark) ==> p.theme == Some(WebviewTheme::Dark),
        platform == Platform::Windows && o.theme == Some(Theme::System) ==> p.theme == Some(WebviewTheme::Auto),
        o.theme is None || platform != Platform::Windows ==> p.theme is None,
{
}

/// A webview is built with the settings its options give: the flags and texts as
/// given; explicit bounds for a child webview, a webview in a child window, one
/// given a position or size, and every webview on macOS; built inside its window for
/// a child webview, a webview in a child window, and every webview on macOS.
pub proof fn law_webview_plan_follows_options(
    o: WebviewOptions,
    platform: Platform,
    window_is_child: bool,
    geometry_given: bool,
    p: WebviewPlan,
)
    requires
        webview_plan_agrees(o, platform, window_is_child, geometry_given, p),
    ensures
        p.devtools == o.enable_devtools,
        p.incognito == o.incognito,
        p.transparent == o.transparent,
        p.autoplay == o.autoplay,
        p.clipboard == o.clipboard,
        p.back_forward_navigation_gestures == o.back_forward_navigation_gestures,
        p.hotkeys_zoom == o.hotkeys_zoom,
        opt_string_view(p.user_agent) == opt_string_view(o.user_agent),
        opt_string_view(p.html) == opt_string_view(o.html),
        opt_string_view(p.url) == opt_string_view(o.url),
        p.explicit_bounds <==> (platform == Platform::MacOs || o.child == Some(true) || window_is_child
            || geometry_given),
        p.as_child <==> (platform == Platform::MacOs || o.child == Some(true) || window_is_child),
        window_is_child ==> p.explicit_bounds && p.as_child,
{
}

/// Decides how a webview is built. A child webview, a webview in a child window, or
/// one given a position or size gets explicit bounds; a child webview and a webview
/// in a child window are added inside the window and fill a precise region of it; on
/// macOS every webview is. The theme only reaches the engine on Windows (`System`
/// becomes automatic). `window_is_child` says whether the window is a child window,
/// `geometry_given` whether any of position and size was given.
pub fn plan_webview(options: WebviewOptions, platform: Platform, window_is_child: bool, geometry_given: bool) -> (p:
    WebviewPlan)
    ensures
        webview_plan_agrees(options, platform, window_is_child, geometry_given, p),
        platform == Platform::Windows && options.theme == Some(Theme::Light) ==> p.theme == Some(WebviewTheme::Light),
        platform == Platform::Windows && options.theme == Some(Theme::Dark) ==> p.theme == Some(WebviewTheme::Dark),
        platform == Platform::Windows && options.theme == Some(Theme::System) ==> p.theme == Some(WebviewTheme::Auto),
        options.theme is None || platform != Platform::Windows ==> p.theme is None,
{
    let child = options.child == Some(true) || window_is_child;
    let mut init_scripts: Vec<String> = Vec::new();
    match &options.preload {
        Some(p) => init_scripts.push(p.clone()),
        None => {},
    }
    let ghost first = init_scripts@.map_values(|s: String| s@);
    assert(first =~= match options.preload {
        Some(p) => seq![p@],
        None => Seq::<Seq<char>>::empty(),
    });
    match &options.ipc_name {
        Some(n) => match ipc_alias_script(n.as_str()) {
            Some(s) => {
                let ghost before = init_scripts@;
                init_scripts.push(s);
                assert(init_scripts@.map_values(|s: String| s@) =~= before.map_values(|s: String| s@).push(
                    s@,
                ));
            },
            None => {},
        },
        None => {},
    }
    assert(init_scripts@.map_values(|s: String| s@) =~= init_scripts_of(options));
    let theme = if platform == Platform::Windows {
        match options.theme {
            Some(Theme::Light) => Some(WebviewTheme::Light),
            Some(Theme::Dark) => Some(WebviewTheme::Dark),
            Some(Theme::System) => Some(WebviewTheme::Auto),
            None => None,
        }
    } else {
        None
    };
    WebviewPlan {
        devtools: options.enable_devtools,
        explicit_bounds: platform == Platform::MacOs || child || geometry_given,
        incognito: options.incognito,
        init_scripts,
        transparent: options.transparent,
        autoplay: options.autoplay,
        clipboard: options.clipboard,
        back_forward_navigation_gestures: options.back_forward_navigation_gestures,
        hotkeys_zoom: options.hotkeys_zoom,
        theme,
        user_agent: options.user_agent,
        html: options.html,
        url: options.url,
        as_child: platform == Platform::MacOs || child,
    }
}

/// The start of the expose page script, up to the static values.
pub const EXPOSE_PRELUDE: &'static str = "(function(){\n  if(!window.__webviewjs__){\n    let __id=0;\n    const __p=new Map();\n    window.__webviewjs__={\n      resolve:function(id,val){const e=__p.get(id);if(e){__p.delete(id);e[0](val);}},\n      reject:function(id,message,name){const e=__p.get(id);if(e){__p.delete(id);const err=new Error(message);err.name=name||'Error';e[1](err);}},\n      call:function(ns,method,args){\n        let argsJson;\n        try{argsJson=JSON.stringify(args);if(argsJson===undefined)throw new Error('not serialisable');}\n        catch{const err=new Error('Arguments are not JSON-serialisable');err.name='SerializationError';return Promise.reject(err);}\n        return new Promise(function(res,rej){\n          const id=++__id;\n          __p.set(id,[res,rej]);\n          window.ipc.postMessage(JSON.stringify({__e:true,ns:ns,method:method,id:id,args:JSON.parse(argsJson)}));\n        });\n      }\n    };\n  }\n  const __statics=";

/// The expose script between the static values and the function names.
pub const EXPOSE_AFTER_STATICS: &'static str = ";\n  const __funcs=";

/// The expose script between the function names and the namespace used in calls.
pub const EXPOSE_AFTER_FUNCS: &'static str = ";\n  const __ns=Object.assign({},__statics);\n  for(const fn of __funcs){\n    (function(m){__ns[m]=function(){return window.__webviewjs__.call(";

/// The expose script between the two uses of the namespace.
pub const EXPOSE_AFTER_CALL_NAME: &'static str = ",m,Array.from(arguments));};})(fn);\n  }\n  window[";

/// The end of the expose script.
pub const EXPOSE_END: &'static str = "]=__ns;\n})();";

/// The page script that `expose` injects: it sets up the shared call machinery once,
/// then makes `window[name]` an object holding the static values and one async stub
/// per function name, each stub posting `{__e:true, ns, method, id, args}` over IPC.
pub open spec fn expose_script_of(name: Seq<char>, statics_json: Seq<char>, func_names: Seq<Seq<char>>) -> Seq<
    char,
> {
    EXPOSE_PRELUDE@ + statics_json + EXPOSE_AFTER_STATICS@ + json_string_array(func_names)
        + EXPOSE_AFTER_FUNCS@ + json_string_literal(name) + EXPOSE_AFTER_CALL_NAME@
        + json_string_literal(name) + EXPOSE_END@
}

/// The handlers of exposed namespaces, one per name (`H` is a handler).
pub struct ExposeRegistry<H> {
    entries: Vec<(String, H)>,
}

impl<H> ExposeRegistry<H> {
    pub closed spec fn wf(&self) -> bool {
        forall|i: int, j: int|
            0 <= i < self.entries@.len() && 0 <= j < self.entries@.len() && i != j ==> (
            #[trigger] self.entries@[i]).0@ != (#[trigger] self.entries@[j]).0@
    }

    pub closed spec fn has(&self, name: Seq<char>) -> bool {
        exists|i: int| 0 <= i < self.entries@.len() && (#[trigger] self.entries@[i]).0@ == name
    }

    pub closed spec fn handler_of(&self, name: Seq<char>) -> H {
        self.entries@[choose|i: int| 0 <= i < self.entries@.len() && (#[trigger] self.entries@[i]).0@
            == name].1
    }

    /// The registered handlers, by namespace.
    pub open spec fn handlers(&self) -> Map<Seq<char>, H> {
        Map::new(|n: Seq<char>| self.has(n), |n: Seq<char>| self.handler_of(n))
    }

    /// No namespace is exposed yet.
    pub fn new() -> (r: Self)
        ensures
            r.wf(),
            r.handlers() == Map::<Seq<char>, H>::empty(),
    {
        let r = ExposeRegistry { entries: Vec::new() };
        assert(r.handlers() =~= Map::<Seq<char>, H>::empty());
        r
    }

    fn find(&self, name: &str) -> (r: Option<usize>)
        requires
            self.wf(),
        ensures
            match r {
                Some(i) => i < self.entries@.len() && self.entries@[i as int].0@ == name@,
                None => !self.has(name@),
            },
    {
        let n = self.entries.len();
        let mut i: usize = 0;
        while i < n
            invariant
                n == self.entries@.len(),
                i <= n,
                forall|j: int| 0 <= j < i ==> (#[trigger] self.entries@[j]).0@ != name@,
            decreases n - i,
        {
            if str_eq(self.entries[i].0.as_str(), name) {
                return Some(i);
            }
            i = i + 1;
        }
        None
    }

    proof fn lemma_handler_at(&self, i: int)
        requires
            self.wf(),
            0 <= i < self.entries@.len(),
        ensures
            self.has(self.entries@[i].0@),
            self.handler_of(self.entries@[i].0@) == self.entries@[i].1,
    {
        let name = self.entries@[i].0@;
        assert(self.entries@[i].0@ == name);
        let k = choose|k: int| 0 <= k < self.entries@.len() && (#[trigger] self.entries@[k]).0@ == name;
        assert(self.entries@[k].0@ == name);
        if k != i {
            assert(self.entries@[k].0@ != self.entries@[i].0@);
        }
    }

    /// The handler of a namespace, if it is exposed.
    pub fn lookup(&self, ns: &str) -> (r: Option<&H>)
        requires
            self.wf(),
        ensures
            match r {
                Some(h) => self.handlers().contains_key(ns@) && *h == self.handlers()[ns@],
                None => !self.handlers().contains_key(ns@),
            },
    {
        match self.find(ns) {
            Some(i) => {
                proof {
                    self.lemma_handler_at(i as int);
                }
                Some(&self.entries[i].1)
            },
            None => None,
        }
    }

    /// Exposes a namespace; a handler already there for the name is replaced.
    pub fn register(&mut self, name: String, handler: H)
        requires
            old(self).wf(),
        ensures
            final(self).wf(),
            final(self).handlers() == old(self).handlers().insert(name@, handler),
    {
        let ghost pre = *self;
        match self.find(name.as_str()) {
            Some(i) => {
                self.entries.set(i, (name, handler));
                proof {
                    assert forall|a: int, b: int|
                        0 <= a < self.entries@.len() && 0 <= b < self.entries@.len() && a != b implies (
                        #[trigger] self.entries@[a]).0@ != (#[trigger] self.entries@[b]).0@ by {
                        assert(pre.entries@[a].0@ != pre.entries@[b].0@);
                    }
                    assert forall|n: Seq<char>| #[trigger] self.has(n) == pre.handlers().insert(name@, handler).contains_key(n) by {
                        if self.has(n) {
                            let k = choose|k: int| 0 <= k < self.entries@.len() && (#[trigger] self.entries@[k]).0@ == n;
                            if k != i {
                                assert(pre.entries@[k].0@ == n);
                            }
                        }
                        if pre.has(n) {
                            let k = choose|k: int| 0 <= k < pre.entries@.len() && (#[trigger] pre.entries@[k]).0@ == n;
                            assert(self.entries@[k].0@ == n);
                        }
                        if n == name@ {
                            assert(self.entries@[i as int].0@ == n);
                        }
                    }
                    assert forall|n: Seq<char>| #[trigger] self.has(n) implies self.handler_of(n) == pre.handlers().insert(name@, handler)[n] by {
                        let k = choose|k: int| 0 <= k < self.entries@.len() && (#[trigger] self.entries@[k]).0@ == n;
                        self.lemma_handler_at(k);
                        if k != i {
                            pre.lemma_handler_at(k);
                        }
                    }
                    assert(self.handlers() =~= pre.handlers().insert(name@, handler));
                }
            },
            None => {
                self.entries.push((name, handler));
                proof {
                    let last = self.entries@.len() - 1;
                    assert forall|a: int, b: int|
                        0 <= a < self.entries@.len() && 0 <= b < self.entries@.len() && a != b implies (
                        #[trigger] self.entries@[a]).0@ != (#[trigger] self.entries@[b]).0@ by {
                        if a < last && b < last {
                            assert(pre.entries@[a].0@ != pre.entries@[b].0@);
                        } else if a < last {
                            assert(pre.entries@[a].0@ == self.entries@[a].0@);
                        } else {
                            assert(pre.entries@[b].0@ == self.entries@[b].0@);
                        }
                    }
                    assert forall|n: Seq<char>| #[trigger] self.has(n) == pre.handlers().insert(name@, handler).contains_key(n) by {
                        if self.has(n) {
                            let k = choose|k: int| 0 <= k < self.entries@.len() && (#[trigger] self.entries@[k]).0@ == n;
                            if k != last {
                                assert(pre.entries@[k].0@ == n);
                            }
                        }
                        if pre.has(n) {
                            let k = choose|k: int| 0 <= k < pre.entries@.len() && (#[trigger] pre.entries@[k]).0@ == n;
                            assert(self.entries@[k].0@ == n);
                        }
                        if n == name@ {
                            assert(self.entries@[last].0@ == n);
                        }
                    }
                    assert forall|n: Seq<char>| #[trigger] self.has(n) implies self.handler_of(n) == pre.handlers().insert(name@, handler)[n] by {
                        let k = choose|k: int| 0 <= k < self.entries@.len() && (#[trigger] self.entries@[k]).0@ == n;
                        self.lemma_handler_at(k);
                        if k != last {
                            pre.lemma_handler_at(k);
                        }
                    }
                    assert(self.handlers() =~= pre.handlers().insert(name@, handler));
                }
            },
        }
    }
}

/// Exposes a namespace to the page: registers its handler (replacing an earlier one
/// of the same name) and gives back the page script to run, built from the static
/// values (a JSON object text, inserted as it is) and the function names.
pub fn expose_internal<H>(
    registry: &mut ExposeRegistry<H>,
    name: String,
    statics_json: String,
    func_names: Vec<String>,
    handler: H,
) -> (r: Result<String, NativeError>)
    requires
        old(registry).wf(),
    ensures
        final(registry).wf(),
        final(registry).handlers() == old(registry).handlers().insert(name@, handler),
        r matches Ok(script) && script@ == expose_script_of(
            name@,
            statics_json@,
            func_names@.map_values(|f: String| f@),
        ),
{
    registry.register(name.clone(), handler);
    let name_json = match json_quote(name.as_str()) {
        Ok(q) => q,
        Err(m) => return Err(NativeError::new(ErrorStatus::GenericFailure, m)),
    };
    let funcs_json = match json_quote_list(&func_names) {
        Ok(q) => q,
        Err(m) => return Err(NativeError::new(ErrorStatus::GenericFailure, m)),
    };
    let mut script = owned(EXPOSE_PRELUDE);
    script.append(statics_json.as_str());
    script.append(EXPOSE_AFTER_STATICS);
    script.append(funcs_json.as_str());
    script.append(EXPOSE_AFTER_FUNCS);
    script.append(name_json.as_str());
    script.append(EXPOSE_AFTER_CALL_NAME);
    script.append(name_json.as_str());
    script.append(EXPOSE_END);
    Ok(script)
}

/// Where an IPC message from the page goes.
#[derive(Debug)]
pub enum IpcRoute<'a, H> {
    /// An expose call, for the namespace's handler.
    Expose(&'a H),
    /// An expose call for a namespace that is not exposed: dropped.
    ExposeDropped,
    /// An ordinary message, for the user's IPC handler.
    User,
    /// An ordinary message while no IPC handler is set: dropped.
    Dropped,
}

/// Routes a message from the page. A message marked as an expose call (`ns` is its
/// namespace) goes only to that namespace's handler and never to the user's IPC
/// handler; any other message goes to the user's handler when one is set.
pub fn route_ipc_message<'a, H>(registry: &'a ExposeRegistry<H>, expose_ns: Option<&str>, has_user_handler: bool) -> (r: IpcRoute<'a, H>)
    requires
        registry.wf(),
    ensures
        match expose_ns {
            Some(ns) => match r {
                IpcRoute::Expose(h) => registry.handlers().contains_key(ns@) && *h == registry.handlers()[ns@],
                IpcRoute::ExposeDropped => !registry.handlers().contains_key(ns@),
                _ => false,
            },
            None => if has_user_handler {
                r is User
            } else {
                r is Dropped
            },
        },
{
    match expose_ns {
        Some(ns) => match registry.lookup(ns) {
            Some(h) => IpcRoute::Expose(h),
            None => IpcRoute::ExposeDropped,
        },
        None => if has_user_handler {
            IpcRoute::User
        } else {
            IpcRoute::Dropped
        },
    }
}


/// A cookie as the script side describes it.
#[derive(Clone, Debug)]
pub struct WebviewCookie {
    pub name: String,
    pub value: String,
    pub domain: Option<String>,
    pub path: Option<String>,
    pub http_only: Option<bool>,
    pub secure: Option<bool>,
    /// `"strict"`, `"lax"`, or `"none"`.
    pub same_site: Option<String>,
}

/// A cookie's same-site policy.
#[derive(Clone, Copy, Debug, PartialEq, Eq, Structural)]
pub enum SameSite {
    Strict,
    Lax,
    /// Sent on cross-site requests too (`None` in the cookie standard).
    Unrestricted,
}

/// A cookie as the webview engine stores it; absent attributes are not set.
#[derive(Clone, Debug)]
pub struct CookieSpec {
    pub name: String,
    pub value: String,
    pub domain: Option<String>,
    pub path: Option<String>,
    pub http_only: Option<bool>,
    pub secure: Option<bool>,
    pub same_site: Option<SameSite>,
}

/// The policy a lower-cased same-site text names: `strict`, `none`, and anything else
/// is `lax`.
pub open spec fn same_site_from_lower(l: Seq<char>) -> SameSite {
    if l == "strict"@ {
        SameSite::Strict
    } else if l == "none"@ {
        SameSite::Unrestricted
    } else {
        SameSite::Lax
    }
}

pub open spec fn same_site_text(s: SameSite) -> Seq<char> {
    match s {
        SameSite::Strict => "strict"@,
        SameSite::Lax => "lax"@,
        SameSite::Unrestricted => "none"@,
    }
}

/// Whether the engine's cookie keeps the script side's name, value, domain, path
/// and flags.
pub open spec fn cookie_fields_agree(c: WebviewCookie, k: CookieSpec) -> bool {
    &&& c.name@ == k.name@
    &&& c.value@ == k.value@
    &&& opt_string_view(c.domain) == opt_string_view(k.domain)
    &&& opt_string_view(c.path) == opt_string_view(k.path)
    &&& c.http_only == k.http_only
    &&& c.secure == k.secure
}

/// A cookie handed between the script side and the engine keeps its name, its value,
/// its domain and path, and its flags, each unchanged.
pub proof fn law_cookie_keeps_its_fields(c: WebviewCookie, k: CookieSpec)
    requires
        cookie_fields_agree(c, k),
    ensures
        c.name@ == k.name@,
        c.value@ == k.value@,
        opt_string_view(c.domain) == opt_string_view(k.domain),
        opt_string_view(c.path) == opt_string_view(k.path),
        c.http_only == k.http_only,
        c.secure == k.secure,
{
}

fn copy_text(o: &Option<String>) -> (r: Option<String>)
    ensures
        opt_string_view(r) == opt_string_view(*o),
{
    match o {
        Some(s) => Some(s.clone()),
        None => None,
    }
}

/// The engine's cookie for a script-side one. The same-site text is compared in lower
/// case: `strict`, `none`, anything else `lax`.
pub fn js_to_cookie(c: &WebviewCookie) -> (k: CookieSpec)
    ensures
        cookie_fields_agree(*c, k),
        k.name@ == c.name@,
        k.value@ == c.value@,
        opt_string_view(k.domain) == opt_string_view(c.domain),
        opt_string_view(k.path) == opt_string_view(c.path),
        k.http_only == c.http_only,
        k.secure == c.secure,
        k.same_site == match c.same_site {
            Some(s) => Some(same_site_from_lower(unicode_lowercase(s@))),
            None => None,
        },
        match c.same_site {
            Some(s) => is_ascii_text(s@) ==> k.same_site == Some(
                same_site_from_lower(s@.map_values(|ch: char| ascii_lower_char(ch))),
            ),
            None => true,
        },
{
    let same_site = match &c.same_site {
        Some(ss) => {
            let lower = to_lowercase(ss.as_str());
            if str_eq(lower.as_str(), "strict") {
                Some(SameSite::Strict)
            } else if str_eq(lower.as_str(), "none") {
                Some(SameSite::Unrestricted)
            } else {
                Some(SameSite::Lax)
            }
        },
        None => None,
    };
    CookieSpec {
        name: c.name.clone(),
        value: c.value.clone(),
        domain: copy_text(&c.domain),
        path: copy_text(&c.path),
        http_only: c.http_only,
        secure: c.secure,
        same_site,
    }
}

/// The script-side form of a stored cookie; the same-site policy is written in lower
/// case.
pub fn cookie_to_js(k: CookieSpec) -> (c: WebviewCookie)
    ensures
        cookie_fields_agree(c, k),
        c.name@ == k.name@,
        c.value@ == k.value@,
        opt_string_view(c.domain) == opt_string_view(k.domain),
        opt_string_view(c.path) == opt_string_view(k.path),
        c.http_only == k.http_only,
        c.secure == k.secure,
        match k.same_site {
            Some(s) => c.same_site matches Some(t) && t@ == same_site_text(s),
            None => c.same_site is None,
        },
{
    let same_site = match k.same_site {
        Some(SameSite::Strict) => Some(owned("strict")),
        Some(SameSite::Lax) => Some(owned("lax")),
        Some(SameSite::Unrestricted) => Some(owned("none")),
        None => None,
    };
    WebviewCookie {
        name: k.name,
        value: k.value,
        domain: k.domain,
        path: k.path,
        http_only: k.http_only,
        secure: k.secure,
        same_site,
    }
}

/// The cookie used to delete one by name: an empty value, and the domain and path
/// only when given (without them the deletion is not narrowed).
pub fn deletion_cookie(name: String, domain: Option<String>, path: Option<String>) -> (k: CookieSpec)
    ensures
        k.name@ == name@,
        k.value@ == Seq::<char>::empty(),
        opt_string_view(k.domain) == opt_string_view(domain),
        opt_string_view(k.path) == opt_string_view(path),
        k.http_only is None,
        k.secure is None,
        k.same_site is None,
{
    CookieSpec { name, value: String::new(), domain, path, http_only: None, secure: None, same_site: None }
}

/// The same-site texts name their policies: `strict` the strict one, `none` the one
/// sent on cross-site requests too, `lax` and any other text the lax one; and each
/// policy is written out under its own name.
pub proof fn law_same_site_names(other: Seq<char>)
    requires
        other != "strict"@,
        other != "none"@,
    ensures
        same_site_from_lower("strict"@) == SameSite::Strict,
        same_site_from_lower("none"@) == SameSite::Unrestricted,
        same_site_from_lower("lax"@) == SameSite::Lax,
        same_site_from_lower(other) == SameSite::Lax,
        same_site_text(SameSite::Strict) == "strict"@,
        same_site_text(SameSite::Lax) == "lax"@,
        same_site_text(SameSite::Unrestricted) == "none"@,
{
    reveal_strlit("strict");
    reveal_strlit("none");
    reveal_strlit("lax");
    assert("lax"@.len() == 3);
    assert("none"@.len() == 4);
    assert("strict"@.len() == 6);
}

/// A same-site policy written out by `cookie_to_js` is read back unchanged by
/// `js_to_cookie` (the texts are lower-case ASCII).
pub proof fn law_same_site_round_trip(s: SameSite)
    ensures
        is_ascii_text(same_site_text(s)),
        same_site_from_lower(same_site_text(s).map_values(|ch: char| ascii_lower_char(ch))) == s,
{
    reveal_strlit("strict");
    reveal_strlit("lax");
    reveal_strlit("none");
    let t = same_site_text(s);
    assert(t.map_values(|ch: char| ascii_lower_char(ch)) =~= t);
}

/// The extra request headers that `load_url_with_headers` sends: each header with a
/// valid name and a valid value, under its normalised name; a later header of the
/// same name, in whatever case, replaces an earlier one.
pub open spec fn request_header_contents(hs: Seq<HeaderData>) -> Map<Seq<char>, Seq<Seq<char>>>
    decreases hs.len(),
{
    if hs.len() == 0 {
        Map::empty()
    } else {
        let prev = request_header_contents(hs.drop_last());
        let h = hs.last();
        match (header_name_form(h.key@), h.value) {
            (Some(n), Some(v)) => if header_value_ok(v@) {
                prev.insert(n, seq![v@])
            } else {
                prev
            },
            _ => prev,
        }
    }
}

proof fn lemma_request_header_contents_size(hs: Seq<HeaderData>)
    ensures
        request_header_contents(hs).dom().finite(),
        request_header_contents(hs).dom().len() <= hs.len(),
    decreases hs.len(),
{
    if hs.len() > 0 {
        lemma_request_header_contents_size(hs.drop_last());
    }
}

proof fn lemma_request_header_contents_grows(hs: Seq<HeaderData>, i: int)
    requires
        0 <= i <= hs.len(),
    ensures
        request_header_contents(hs.take(i)).dom().subset_of(request_header_contents(hs).dom()),
    decreases hs.len() - i,
{
    if i < hs.len() {
        lemma_request_header_contents_step(hs, i);
        lemma_request_header_contents_grows(hs, i + 1);
    } else {
        assert(hs.take(i) =~= hs);
    }
}

proof fn lemma_request_header_contents_step(hs: Seq<HeaderData>, i: int)
    requires
        0 <= i < hs.len(),
    ensures
        request_header_contents(hs.take(i + 1)) == (match (header_name_form(hs[i].key@), hs[i].value) {
            (Some(n), Some(v)) => if header_value_ok(v@) {
                request_header_contents(hs.take(i)).insert(n, seq![v@])
            } else {
                request_header_contents(hs.take(i))
            },
            _ => request_header_contents(hs.take(i)),
        }),
{
    assert(hs.take(i + 1).drop_last() =~= hs.take(i));
}

/// The extra request headers sent with a URL, in an `http::HeaderMap`; see
/// `request_header_contents`. The map fails to grow only with thousands of names,
/// which is reported as an error; while fewer than 6554 distinct header names are
/// sent it always succeeds.
pub fn request_headers(headers: Vec<HeaderData>) -> (r: Result<HeaderMap, NativeError>)
    ensures
        match r {
            Ok(m) => header_map_contents(m) == request_header_contents(headers@),
            Err(e) => e.status == ErrorStatus::GenericFailure,
        },
        request_header_contents(headers@).dom().len() < 6554 ==> r is Ok,
        headers@.len() < 6554 ==> r is Ok,
{
    let mut m = new_header_map();
    let n = headers.len();
    let mut i: usize = 0;
    assert(headers@.take(0) =~= Seq::<HeaderData>::empty());
    assert(header_map_contents(m) =~= request_header_contents(headers@.take(0)));
    while i < n
        invariant
            n == headers@.len(),
            i <= n,
            header_map_contents(m) == request_header_contents(headers@.take(i as int)),
        decreases n - i,
    {
        proof {
            lemma_request_header_contents_step(headers@, i as int);
            lemma_request_header_contents_size(headers@.take(i as int));
            lemma_request_header_contents_size(headers@);
            lemma_request_header_contents_grows(headers@, i as int);
            vstd::set_lib::lemma_len_subset(
                request_header_contents(headers@.take(i as int)).dom(),
                request_header_contents(headers@).dom(),
            );
        }
        let h = &headers[i];
        match (parse_header_name(h.key.as_str()), &h.value) {
            (Ok(_), Some(v)) => {
                match check_header_value(v.as_str()) {
                    Ok(()) => {
                        match header_map_insert(&mut m, h.key.as_str(), v.as_str()) {
                            Ok(()) => {},
                            Err(e) => {
                                return Err(failed_to("insert a request header", e.as_str()));
                            },
                        }
                    },
                    Err(_) => {},
                }
            },
            _ => {},
        }
        i = i + 1;
    }
    assert(headers@.take(n as int) =~= headers@);
    Ok(m)
}

/// Header names that differ only in the case of ASCII letters are the same header:
/// they have one normalised form, so a later one replaces an earlier one.
pub proof fn law_header_names_ignore_case(hs: Seq<HeaderData>, h: HeaderData, k: Seq<char>)
    requires
        header_name_form(k) is Some,
        k.map_values(|c: char| ascii_lower_char(c)) == h.key@.map_values(|c: char| ascii_lower_char(c)),
        h.value matches Some(v) && header_value_ok(v@),
    ensures
        header_name_form(h.key@) == header_name_form(k),
        request_header_contents(hs.push(h))[header_name_form(k).unwrap()] == seq![h.value.unwrap()@],
{
    let a = k.map_values(|c: char| ascii_lower_char(c));
    let b = h.key@.map_values(|c: char| ascii_lower_char(c));
    assert(k.len() == h.key@.len()) by {
        assert(a.len() == b.len());
    }
    assert forall|i: int| 0 <= i < k.len() implies header_name_char(#[trigger] h.key@[i]) by {
        assert(a[i] == b[i]);
        assert(header_name_char(k[i]));
    }
    assert(hs.push(h).drop_last() =~= hs);
}

} // verus!
