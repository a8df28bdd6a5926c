use whynottao::platform::Platform;
use whynottao::webview::{
    cookie_to_js, deletion_cookie, expose_internal, ipc_alias_script, js_to_cookie, plan_webview,
    request_headers, route_ipc_message, webview_constructor_error, CookieSpec, ExposeRegistry,
    IpcRoute, SameSite, Theme, WebviewCookie, WebviewOptions, WebviewTheme,
};
use whynottao::json::parse_expose_envelope;
use whynottao::HeaderData;

#[test]
fn webview_defaults() {
    let o = WebviewOptions::default();
    assert_eq!(o.enable_devtools, Some(true));
    assert_eq!(o.incognito, Some(false));
    assert_eq!(o.user_agent.as_deref(), Some("WebviewJS"));
    assert_eq!(o.child, Some(false));
    assert_eq!(o.autoplay, Some(true));
    assert!(o.url.is_none() && o.html.is_none() && o.ipc_name.is_none());
}

#[test]
fn webview_bounds_and_child() {
    let p = plan_webview(WebviewOptions::default(), Platform::Windows, false, false);
    assert!(!p.explicit_bounds);
    assert!(!p.as_child);
    let p = plan_webview(WebviewOptions::default(), Platform::Windows, false, true);
    assert!(p.explicit_bounds);
    assert!(!p.as_child);
    let p = plan_webview(WebviewOptions::default(), Platform::MacOs, false, false);
    assert!(p.explicit_bounds);
    assert!(p.as_child);
    let mut o = WebviewOptions::default();
    o.child = Some(true);
    let p = plan_webview(o, Platform::Linux, false, false);
    assert!(p.explicit_bounds && p.as_child);
}

#[test]
fn webview_in_a_child_window_fills_a_region() {
    let p = plan_webview(WebviewOptions::default(), Platform::Windows, true, false);
    assert!(p.explicit_bounds);
    assert!(p.as_child);
    let p = plan_webview(WebviewOptions::default(), Platform::Linux, true, true);
    assert!(p.explicit_bounds && p.as_child);
}

#[test]
fn webview_theme_only_on_windows() {
    let mut o = WebviewOptions::default();
    o.theme = Some(Theme::System);
    assert_eq!(plan_webview(o.clone(), Platform::Windows, false, false).theme, Some(WebviewTheme::Auto));
    assert_eq!(plan_webview(o, Platform::Linux, false, false).theme, None);
}

#[test]
fn ipc_alias() {
    assert_eq!(ipc_alias_script("ipc"), None);
    assert_eq!(
        ipc_alias_script("bindings").as_deref(),
        Some("Object.defineProperty(window,\"bindings\",{get:()=>window.ipc,configurable:true,enumerable:true});")
    );
    assert_eq!(
        ipc_alias_script("a\"b").as_deref(),
        Some("Object.defineProperty(window,\"a\\\"b\",{get:()=>window.ipc,configurable:true,enumerable:true});")
    );
}

#[test]
fn init_scripts_preload_then_alias() {
    let mut o = WebviewOptions::default();
    o.preload = Some("window.x=1;".to_string());
    o.ipc_name = Some("bindings".to_string());
    o.url = Some("app://localhost/index.html".to_string());
    let p = plan_webview(o, Platform::Linux, false, false);
    assert_eq!(p.init_scripts.len(), 2);
    assert_eq!(p.init_scripts[0], "window.x=1;");
    assert!(p.init_scripts[1].starts_with("Object.defineProperty(window,\"bindings\""));
    assert_eq!(p.url.as_deref(), Some("app://localhost/index.html"));
    let mut o = WebviewOptions::default();
    o.ipc_name = Some("ipc".to_string());
    assert!(plan_webview(o, Platform::Linux, false, false).init_scripts.is_empty());
}

#[test]
fn expose_registers_and_builds_the_page_script() {
    let mut registry: ExposeRegistry<u8> = ExposeRegistry::new();
    let script = expose_internal(
        &mut registry,
        "native".to_string(),
        "{\"version\":\"0.1.4\"}".to_string(),
        vec!["readConfig".to_string(), "getGreeting".to_string()],
        1,
    )
    .unwrap();
    assert!(script.starts_with("(function(){\n  if(!window.__webviewjs__){"));
    assert!(script.contains("const __statics={\"version\":\"0.1.4\"};\n  const __funcs=[\"readConfig\",\"getGreeting\"];"));
    assert!(script.contains("return window.__webviewjs__.call(\"native\",m,Array.from(arguments));"));
    assert!(script.ends_with("window[\"native\"]=__ns;\n})();"));
    assert_eq!(registry.lookup("native"), Some(&1));
    assert_eq!(registry.lookup("other"), None);
    let script = expose_internal(&mut registry, "native".to_string(), "{}".to_string(), vec![], 2).unwrap();
    assert!(script.contains("const __funcs=[];"));
    assert_eq!(registry.lookup("native"), Some(&2));
}

#[test]
fn expose_calls_never_reach_the_user_handler() {
    let mut registry: ExposeRegistry<u8> = ExposeRegistry::new();
    registry.register("native".to_string(), 4);
    assert!(matches!(route_ipc_message(&registry, Some("native"), true), IpcRoute::Expose(&4)));
    assert!(matches!(route_ipc_message(&registry, Some("missing"), true), IpcRoute::ExposeDropped));
    assert!(matches!(route_ipc_message(&registry, None, true), IpcRoute::User));
    assert!(matches!(route_ipc_message(&registry, None, false), IpcRoute::Dropped));
}

fn cookie(same_site: Option<&str>) -> WebviewCookie {
    WebviewCookie {
        name: "session".to_string(),
        value: "abc".to_string(),
        domain: Some("example.com".to_string()),
        path: None,
        http_only: Some(true),
        secure: None,
        same_site: same_site.map(|s| s.to_string()),
    }
}

#[test]
fn cookie_same_site_is_read_case_insensitively() {
    assert_eq!(js_to_cookie(&cookie(Some("Strict"))).same_site, Some(SameSite::Strict));
    assert_eq!(js_to_cookie(&cookie(Some("NONE"))).same_site, Some(SameSite::Unrestricted));
    assert_eq!(js_to_cookie(&cookie(Some("lax"))).same_site, Some(SameSite::Lax));
    assert_eq!(js_to_cookie(&cookie(Some("whatever"))).same_site, Some(SameSite::Lax));
    assert_eq!(js_to_cookie(&cookie(None)).same_site, None);
    let k = js_to_cookie(&cookie(Some("strict")));
    assert_eq!(k.name, "session");
    assert_eq!(k.domain.as_deref(), Some("example.com"));
    assert_eq!(k.http_only, Some(true));
}

#[test]
fn cookie_round_trip() {
    for s in [SameSite::Strict, SameSite::Lax, SameSite::Unrestricted] {
        let k = CookieSpec {
            name: "n".to_string(),
            value: "v".to_string(),
            domain: None,
            path: Some("/".to_string()),
            http_only: None,
            secure: Some(false),
            same_site: Some(s),
        };
        let c = cookie_to_js(k);
        assert_eq!(js_to_cookie(&c).same_site, Some(s));
        assert_eq!(c.path.as_deref(), Some("/"));
    }
    let c = cookie_to_js(js_to_cookie(&cookie(Some("NoNe"))));
    assert_eq!(c.same_site.as_deref(), Some("none"));
}

#[test]
fn deleting_a_cookie() {
    let k = deletion_cookie("session".to_string(), None, Some("/app".to_string()));
    assert_eq!(k.name, "session");
    assert_eq!(k.value, "");
    assert_eq!(k.domain, None);
    assert_eq!(k.path.as_deref(), Some("/app"));
    assert_eq!(k.same_site, None);
}

fn h(k: &str, v: Option<&str>) -> HeaderData {
    HeaderData { key: k.to_string(), value: v.map(|s| s.to_string()) }
}

#[test]
fn request_headers_are_checked_and_merged() {
    let m = request_headers(vec![
        h("X-Token", Some("one")),
        h("bad name", Some("x")),
        h("X-Empty", None),
        h("X-Bad-Value", Some("a\u{0}b")),
        h("Accept", Some("text/html")),
        h("x-token", Some("two")),
    ])
    .unwrap();
    assert_eq!(m.len(), 2);
    assert_eq!(m.keys_len(), 2);
    assert_eq!(m.get("x-token").unwrap().to_str().unwrap(), "two");
    assert_eq!(m.get("X-TOKEN").unwrap().to_str().unwrap(), "two");
    assert_eq!(m.get_all("x-token").iter().count(), 1);
    assert_eq!(m.get("accept").unwrap().to_str().unwrap(), "text/html");
    let names: Vec<&str> = m.keys().map(|k| k.as_str()).collect();
    assert_eq!(names, vec!["x-token", "accept"]);
    assert!(request_headers(vec![]).unwrap().is_empty());
}

#[test]
fn direct_webview_construction_fails() {
    let e = webview_constructor_error();
    assert_eq!(e.message, "Webview constructor is not directly supported");
}

#[test]
fn expose_calls_are_read_from_the_message_body() {
    let e = parse_expose_envelope(r#"{"__e":true,"ns":"math","method":"add","id":3,"args":[1,"two"]}"#).unwrap();
    assert_eq!(e.ns, "math");
    assert_eq!(e.method, "add");
    assert_eq!(e.args_json, r#"[1,"two"]"#);
    let e = parse_expose_envelope(r#"{"__e":true,"ns":5}"#).unwrap();
    assert_eq!(e.ns, "");
    assert_eq!(e.method, "");
    assert_eq!(e.args_json, "[]");
    assert!(parse_expose_envelope(r#"{"__e":false,"ns":"math"}"#).is_none());
    assert!(parse_expose_envelope(r#"{"__e":"true","ns":"math"}"#).is_none());
    assert!(parse_expose_envelope(r#"{"ns":"math"}"#).is_none());
    assert!(parse_expose_envelope("hello from the page").is_none());
    assert!(parse_expose_envelope("[true]").is_none());
}

#[test]
fn json_literals_escape_control_characters() {
    assert_eq!(
        ipc_alias_script("t\u{1}\n\\").as_deref(),
        Some("Object.defineProperty(window,\"t\\u0001\\n\\\\\",{get:()=>window.ipc,configurable:true,enumerable:true});")
    );
    assert_eq!(
        ipc_alias_script("é\u{7f}").as_deref(),
        Some("Object.defineProperty(window,\"é\u{7f}\",{get:()=>window.ipc,configurable:true,enumerable:true});")
    );
}

#[test]
fn long_and_non_ascii_header_names() {
    let long = format!("X-{}", "A".repeat(70));
    let m = request_headers(vec![h(&long, Some("v")), h("X-Café", Some("w")), h("", Some("x"))]).unwrap();
    assert_eq!(m.len(), 1);
    assert_eq!(m.get(long.to_lowercase().as_str()).unwrap().to_str().unwrap(), "v");
    let names: Vec<&str> = m.keys().map(|k| k.as_str()).collect();
    assert_eq!(names, vec![long.to_lowercase().as_str()]);
}

#[test]
fn many_headers_of_few_names_are_accepted() {
    let mut hs = Vec::new();
    for i in 0..7000 {
        hs.push(h(if i % 2 == 0 { "X-Count" } else { "x-other" }, Some(&i.to_string())));
    }
    let m = request_headers(hs).unwrap();
    assert_eq!(m.len(), 2);
    assert_eq!(m.get("x-count").unwrap().to_str().unwrap(), "6998");
    assert_eq!(m.get("x-other").unwrap().to_str().unwrap(), "6999");
}
