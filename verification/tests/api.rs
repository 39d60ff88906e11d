use identicon_core::api::{
    comparison_page, etag_payload, is_mail_user_agent, referer_origin, render_error_reply,
    request_audience, resolve_options, route_label, unknown_theme_message, RequestError,
    GALLERY_PEOPLE,
};
use identicon_core::{palettes, Engine, RenderError, RenderOptions, Theme};

#[test]
fn audience_classifies_web_mail_and_unknown() {
    // Header values are handed over as text, empty when the header is absent.
    assert_eq!(request_audience("", "https://app.example", "", false), "web");

    let referer = "https://app.example/people/alice";
    assert_eq!(request_audience("", "", referer, false), "web");
    assert_eq!(referer_origin(referer), "https://app.example");

    let mail_ua = "Mozilla/5.0 (Windows NT 5.1; rv:11.0) Gecko Firefox/11.0 (via ggpht.com GoogleImageProxy)";
    assert_eq!(request_audience(mail_ua, "https://app.example", "", false), "mail");

    assert_eq!(request_audience("kube-probe/1.30", "", "", false), "unknown");
    assert_eq!(request_audience("", "", "", false), "unknown");
    assert_eq!(referer_origin(""), "");
}

#[test]
fn sec_fetch_headers_mark_web_traffic() {
    assert_eq!(request_audience("curl/8", "", "", true), "web");
    assert_eq!(request_audience("Thunderbird/115", "", "", true), "mail");
}

#[test]
fn referer_origins() {
    assert_eq!(referer_origin("http://host?x=1"), "http://host");
    assert_eq!(referer_origin("http://host#frag"), "http://host");
    assert_eq!(referer_origin("https://"), "");
    assert_eq!(referer_origin("https:///path"), "");
    assert_eq!(referer_origin("no scheme here"), "");
    assert_eq!(referer_origin("a://b://c/d"), "a://b:");
}

#[test]
fn mail_agents() {
    assert!(is_mail_user_agent("Microsoft Outlook 16.0"));
    assert!(is_mail_user_agent("x YahooMailProxy; y"));
    assert!(is_mail_user_agent("superhuman"));
    assert!(!is_mail_user_agent("Mozilla/5.0 Firefox"));
    assert!(!is_mail_user_agent("outlook"));
    assert!(!is_mail_user_agent(""));
}

#[test]
fn route_labels() {
    assert_eq!(route_label("/health"), "/health");
    assert_eq!(route_label("/metrics"), "/metrics");
    assert_eq!(route_label("/alice"), "/{input}");
    assert_eq!(route_label("/health/"), "/{input}");
    assert_eq!(route_label(""), "/{input}");
}

#[test]
fn etag_payload_covers_every_option() {
    let opts = RenderOptions { engine: Engine::Ribbon, ..RenderOptions::default() };
    assert_eq!(etag_payload("alice", &opts), "alice|256|auto|true|false|ribbon");
    let themed = RenderOptions {
        size: 128,
        theme: Some(Theme::Mer),
        background: false,
        animated: true,
        engine: Engine::Blob,
    };
    assert_eq!(etag_payload("bob", &themed), "bob|128|10|false|true|blob");
    let crest = RenderOptions { engine: Engine::Crest, ..RenderOptions::default() };
    assert_ne!(etag_payload("alice", &RenderOptions::default()), etag_payload("alice", &crest));
}

#[test]
fn unknown_theme_lists_every_theme() {
    let names: Vec<&str> = palettes().iter().map(|p| p.name).collect();
    assert_eq!(unknown_theme_message(), format!("unknown theme; valid: {}", names.join(", ")));
    assert_eq!(
        RequestError::UnknownEngine.message(),
        "unknown engine; valid: blob, crest, voronoi, kaleido, ribbon, constellation, monogram"
    );
    assert_eq!(RequestError::UnknownTheme.message(), unknown_theme_message());
}

#[test]
fn queries_resolve_to_options() {
    let omitted = resolve_options(None, None, None, None, None).unwrap();
    let ribbon = resolve_options(None, None, None, None, Some("ribbon")).unwrap();
    assert_eq!(omitted, ribbon);
    assert_eq!(
        omitted,
        RenderOptions { size: 256, theme: None, background: true, animated: false, engine: Engine::Ribbon }
    );
    let full = resolve_options(Some(64), Some("Nord"), Some(false), Some(true), Some("crest")).unwrap();
    assert_eq!(
        full,
        RenderOptions { size: 64, theme: Some(Theme::Nord), background: false, animated: true, engine: Engine::Crest }
    );
    assert_eq!(resolve_options(None, None, None, None, Some("nope")), Err(RequestError::UnknownEngine));
    assert_eq!(resolve_options(None, Some("nope"), None, None, Some("nope")), Err(RequestError::UnknownTheme));
}

#[test]
fn refused_inputs_get_their_reply() {
    assert_eq!(render_error_reply(RenderError::EmptyInput), "input must not be empty");
    assert_eq!(render_error_reply(RenderError::InputTooLong), "input too long");
    assert_eq!(render_error_reply(RenderError::InvalidCharset), "invalid characters in input");
    assert_eq!(RenderError::InputTooLong.message(), "input exceeds maximum length");
}

#[test]
fn comparison_page_lists_every_theme_and_engine() {
    let html = comparison_page();
    assert!(html.starts_with("<!doctype html>"));
    assert!(html.ends_with("</body></html>"));
    let mut sources = Vec::new();
    let mut rest = html.as_str();
    while let Some(start) = rest.find("src=\"") {
        rest = &rest[start + 5..];
        let end = rest.find('"').unwrap();
        sources.push(rest[..end].to_string());
        rest = &rest[end..];
    }
    assert_eq!(sources.len(), Engine::ALL.len() * palettes().len() * GALLERY_PEOPLE.len());
    assert_eq!(sources[0], "/alice?engine=blob&theme=aurora&size=104");
    for engine in Engine::ALL {
        assert!(html.contains(&format!("id=\"{}\"", engine.name())));
    }
    for palette in palettes() {
        assert!(html.contains(palette.name));
    }
    for person in GALLERY_PEOPLE {
        assert!(html.contains(&format!("<th>{person}</th>")));
    }
}

use identicon_core::api::etag;

#[test]
fn etags_quote_the_payload_digest() {
    let opts = RenderOptions::default();
    let expected = format!("\"{}\"", blake3::hash(etag_payload("alice", &opts).as_bytes()).to_hex());
    assert_eq!(etag("alice", &opts), expected);
    assert_eq!(etag("alice", &opts).len(), 66);
    let crest = RenderOptions { engine: Engine::Crest, ..opts };
    assert_ne!(etag("alice", &opts), etag("alice", &crest));
}
