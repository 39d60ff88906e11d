//! The decisions of the HTTP service: route labels for metrics, caller
//! classes for logs, query handling, cache keys and the comparison page.
use vstd::prelude::*;

use crate::engines::{engine_named, lemma_engine_name_round_trip, lemma_engine_named_is_name, Engine};
use crate::palette::{
    lemma_theme_named_is_palette_name, palette_at, palette_by_index, theme_named, Theme, PALETTE_COUNT,
};
use crate::text::{
    bool_text, chars_of, contains, contains_chars, decimal, find_from, matches_at, find_in, lemma_find_from,
    lower_seq, lowercase_chars, spells, string_of_prefix, write_bool, write_decimal,
};
use crate::hash::{blake3_digest, blake3_hash};
use crate::text::{hex_text, write_hex_byte};
use crate::{RenderError, RenderOptions};
use vstd::string::StringSliceAdditionalSpecFns;
use vstd::utf8::encode_utf8;

verus! {

/// The metrics label of a request path: the two fixed routes by name, every
/// other path as the identicon route.
pub open spec fn route_of(path: Seq<char>) -> &'static str {
    if path == "/health"@ {
        "/health"
    } else if path == "/metrics"@ {
        "/metrics"
    } else {
        "/{input}"
    }
}

pub fn route_label(path: &str) -> (r: &'static str)
    ensures
        r == route_of(path@),
{
    let p = chars_of(path);
    if spells(&p, "/health") {
        "/health"
    } else if spells(&p, "/metrics") {
        "/metrics"
    } else {
        "/{input}"
    }
}

/// Whether a lower-cased user agent names a mail client or mail image proxy.
pub open spec fn mail_agent(ua: Seq<char>) -> bool {
    contains(ua, "googleimageproxy"@)
        || contains(ua, "yahoomailproxy"@)
        || contains(ua, "thunderbird"@)
        || contains(ua, "microsoft outlook"@)
        || contains(ua, "outlook-ios"@)
        || contains(ua, "outlook-android"@)
        || contains(ua, "superhuman"@)
        || contains(ua, "airmail"@)
        || contains(ua, "protonmail"@)
        || contains(ua, "mailspring"@)
}

/// Whether the user agent, in any ASCII case, names a mail client or proxy.
pub fn is_mail_user_agent(user_agent: &str) -> (b: bool)
    ensures
        b == mail_agent(lower_seq(user_agent@)),
{
    let ua = lowercase_chars(user_agent);
    if contains_chars(&ua, "googleimageproxy") {
        return true;
    }
    if contains_chars(&ua, "yahoomailproxy") {
        return true;
    }
    if contains_chars(&ua, "thunderbird") {
        return true;
    }
    if contains_chars(&ua, "microsoft outlook") {
        return true;
    }
    if contains_chars(&ua, "outlook-ios") {
        return true;
    }
    if contains_chars(&ua, "outlook-android") {
        return true;
    }
    if contains_chars(&ua, "superhuman") {
        return true;
    }
    if contains_chars(&ua, "airmail") {
        return true;
    }
    if contains_chars(&ua, "protonmail") {
        return true;
    }
    if contains_chars(&ua, "mailspring") {
        return true;
    }
    false
}

/// Whether `c` ends the authority part of a URL.
pub open spec fn is_authority_end(c: char) -> bool {
    c == '/' || c == '?' || c == '#'
}

/// The first position at or after `k` that ends the authority part.
pub open spec fn authority_end_from(s: Seq<char>, k: int) -> Option<int>
    decreases s.len() - k,
{
    if k < 0 || k >= s.len() {
        None
    } else if is_authority_end(s[k]) {
        Some(k)
    } else {
        authority_end_from(s, k + 1)
    }
}

/// Scheme and host of a URL (`https://host`), dropping path, query and fragment;
/// empty when there is no `://` or no host after it.
pub open spec fn origin_of(url: Seq<char>) -> Seq<char> {
    match find_from(url, "://"@, 0) {
        None => Seq::empty(),
        Some(e) => {
            let start = e + 3;
            let stop = match authority_end_from(url, start) {
                Some(j) => j,
                None => url.len() as int,
            };
            if stop == start {
                Seq::empty()
            } else {
                url.take(stop)
            }
        },
    }
}

/// Scheme and host of a `Referer` value (empty when there is none). The path is
/// dropped so logs keep the origin only.
pub fn referer_origin(referer: &str) -> (o: String)
    ensures
        o@ == origin_of(referer@),
{
    proof {
        reveal_strlit("://");
    }
    let url = chars_of(referer);
    let url_len = url.len();
    let sep = chars_of("://");
    assert(sep@.len() == 3);
    let found = find_in(&url, &sep, 0);
    proof {
        lemma_find_from(url@, sep@, 0);
    }
    match found {
        None => {
            assert(find_from(url@, "://"@, 0) is None);
            String::new()
        },
        Some(e) => {
            assert(matches_at(url@, sep@, e as int));
            assert(e + 3 <= url_len);
            let start = e + 3;
            let mut j: usize = start;
            while j < url.len() && !(url[j] == '/' || url[j] == '?' || url[j] == '#')
                invariant
                    start <= j <= url@.len(),
                    authority_end_from(url@, start as int) == authority_end_from(url@, j as int),
                decreases url@.len() - j,
            {
                j = j + 1;
            }
            if j == start {
                String::new()
            } else {
                string_of_prefix(&url, j)
            }
        },
    }
}

/// Coarse caller class of a request: `mail` for mail clients and image proxies,
/// `web` for browser provenance (an `Origin` or `Referer`, or any `Sec-Fetch-*`
/// header), `unknown` otherwise. Header values are given empty when absent.
pub open spec fn audience_of(user_agent: Seq<char>, origin: Seq<char>, referer: Seq<char>, sec_fetch: bool) -> &'static str {
    if user_agent.len() > 0 && mail_agent(lower_seq(user_agent)) {
        "mail"
    } else if origin.len() > 0 || referer.len() > 0 || sec_fetch {
        "web"
    } else {
        "unknown"
    }
}

/// Coarse caller class recorded on each request so web-app and mail traffic can
/// be scoped later. Mail image proxies win over browser headers.
pub fn request_audience(user_agent: &str, origin: &str, referer: &str, sec_fetch: bool) -> (a: &'static str)
    ensures
        a == audience_of(user_agent@, origin@, referer@, sec_fetch),
{
    if !user_agent.is_empty() && is_mail_user_agent(user_agent) {
        return "mail";
    }
    if !origin.is_empty() || !referer.is_empty() || sec_fetch {
        return "web";
    }
    "unknown"
}

/// The theme part of a cache key: the theme's palette position, or `auto`.
pub open spec fn theme_key(theme: Option<Theme>) -> Seq<char> {
    match theme {
        Some(t) => decimal(t.spec_index() as nat),
        None => "auto"@,
    }
}

/// What the cache key of a render covers: input, size, theme, background,
/// animation and engine, separated by `|`.
pub open spec fn etag_payload_of(input: Seq<char>, opts: RenderOptions) -> Seq<char> {
    input + "|"@ + decimal(opts.size as nat) + "|"@ + theme_key(opts.theme) + "|"@ + bool_text(
        opts.background,
    ) + "|"@ + bool_text(opts.animated) + "|"@ + opts.engine.spec_name()@
}

pub fn etag_payload(input: &str, opts: &RenderOptions) -> (s: String)
    ensures
        s@ == etag_payload_of(input@, *opts),
{
    let mut s = String::new();
    s.push_str(input);
    s.push_str("|");
    write_decimal(&mut s, opts.size as u64);
    s.push_str("|");
    match opts.theme {
        Some(t) => write_decimal(&mut s, t.index() as u64),
        None => s.push_str("auto"),
    }
    s.push_str("|");
    write_bool(&mut s, opts.background);
    s.push_str("|");
    write_bool(&mut s, opts.animated);
    s.push_str("|");
    s.push_str(opts.engine.name());
    s
}

/// The `ETag` of a render: the lower-case hexadecimal BLAKE3 digest of its
/// payload, in double quotes.
pub open spec fn etag_text(input: Seq<char>, opts: RenderOptions) -> Seq<char> {
    "\""@ + hex_text(blake3_hash(encode_utf8(etag_payload_of(input, opts)))) + "\""@
}

pub fn etag(input: &str, opts: &RenderOptions) -> (e: String)
    ensures
        e@ == etag_text(input@, *opts),
{
    let payload = etag_payload(input, opts);
    let digest = blake3_digest(payload.as_str().as_bytes());
    let mut e = String::new();
    e.push_str("\"");
    let ghost head = e@;
    let mut i: usize = 0;
    while i < 32
        invariant
            i <= 32,
            digest@.len() == 32,
            e@ == head + hex_text(digest@.take(i as int)),
        decreases 32 - i,
    {
        write_hex_byte(&mut e, digest[i]);
        i = i + 1;
        assert(digest@.take(i as int).drop_last() =~= digest@.take(i - 1));
    }
    assert(digest@.take(32) =~= digest@);
    e.push_str("\"");
    e
}

/// The names of the first `n` palettes, separated by `, `.
pub open spec fn palette_names(n: nat) -> Seq<char>
    decreases n,
{
    if n == 0 {
        Seq::empty()
    } else if n == 1 {
        palette_at(0).name@
    } else {
        palette_names((n - 1) as nat) + ", "@ + palette_at(n - 1).name@
    }
}

/// The message for an unknown theme, listing every valid one.
pub open spec fn unknown_theme_text() -> Seq<char> {
    "unknown theme; valid: "@ + palette_names(PALETTE_COUNT as nat)
}

pub fn unknown_theme_message() -> (m: String)
    ensures
        m@ == unknown_theme_text(),
{
    let mut m = String::new();
    m.push_str("unknown theme; valid: ");
    let ghost head = m@;
    let mut i: usize = 0;
    while i < PALETTE_COUNT
        invariant
            i <= PALETTE_COUNT,
            m@ == head + palette_names(i as nat),
        decreases PALETTE_COUNT - i,
    {
        if i > 0 {
            m.push_str(", ");
        }
        m.push_str(palette_by_index(i).name);
        i = i + 1;
    }
    m
}

/// Why a query cannot be served.
#[derive(Clone, Copy, Debug, PartialEq, Eq, Structural)]
pub enum RequestError {
    UnknownTheme,
    UnknownEngine,
}

/// The render options a query asks for: each field's default where the query
/// is silent (size 256, automatic theme, background, no animation, the ribbon
/// engine); an unknown theme is refused before an unknown engine.
pub open spec fn query_options(
    size: Option<u32>,
    theme: Option<Seq<char>>,
    background: Option<bool>,
    animated: Option<bool>,
    engine: Option<Seq<char>>,
) -> Result<RenderOptions, RequestError> {
    let t = match theme {
        Some(n) => theme_named(lower_seq(n)),
        None => None,
    };
    let e = match engine {
        Some(n) => engine_named(lower_seq(n)),
        None => Some(Engine::Ribbon),
    };
    if theme is Some && t is None {
        Err(RequestError::UnknownTheme)
    } else if e is None {
        Err(RequestError::UnknownEngine)
    } else {
        Ok(
            RenderOptions {
                size: match size {
                    Some(s) => s,
                    None => 256,
                },
                theme: t,
                background: match background {
                    Some(b) => b,
                    None => true,
                },
                animated: match animated {
                    Some(b) => b,
                    None => false,
                },
                engine: e.unwrap(),
            },
        )
    }
}

/// How the query's values become options: a given size, background or
/// animation flag is taken as it is; without them the canvas is 256 pixels, the
/// background is painted and nothing animates. Without a theme the hash picks
/// the palette, and without an engine the ribbons are drawn; a query naming
/// neither is always accepted.
pub proof fn lemma_query_values(
    size: Option<u32>,
    theme: Option<Seq<char>>,
    background: Option<bool>,
    animated: Option<bool>,
    engine: Option<Seq<char>>,
)
    ensures
        theme is None && engine is None ==> query_options(size, theme, background, animated, engine) is Ok,
        query_options(size, theme, background, animated, engine) matches Ok(o) ==> {
            &&& (size matches Some(v) ==> o.size == v)
            &&& (size is None ==> o.size == 256)
            &&& (background matches Some(b) ==> o.background == b)
            &&& (background is None ==> o.background)
            &&& (animated matches Some(b) ==> o.animated == b)
            &&& (animated is None ==> !o.animated)
            &&& (theme is None ==> o.theme is None)
            &&& (theme matches Some(n) ==> (o.theme matches Some(t)
                && palette_at(t.spec_index()).name@ == lower_seq(n)))
            &&& (engine is None ==> o.engine == Engine::Ribbon)
            &&& (engine matches Some(n) ==> o.engine.spec_name()@ == lower_seq(n))
        },
{
    if let Some(n) = theme {
        lemma_theme_named_is_palette_name(lower_seq(n));
    }
    if let Some(n) = engine {
        lemma_engine_named_is_name(lower_seq(n));
    }
}

pub open spec fn opt_view(s: Option<&str>) -> Option<Seq<char>> {
    match s {
        Some(v) => Some(v@),
        None => None,
    }
}

/// Turns the query parameters of an identicon request into render options.
pub fn resolve_options(
    size: Option<u32>,
    theme: Option<&str>,
    background: Option<bool>,
    animated: Option<bool>,
    engine: Option<&str>,
) -> (r: Result<RenderOptions, RequestError>)
    ensures
        r == query_options(size, opt_view(theme), background, animated, opt_view(engine)),
        theme is None && engine is None ==> r is Ok,
        r matches Ok(o) ==> {
            &&& (size matches Some(v) ==> o.size == v)
            &&& (size is None ==> o.size == 256)
            &&& (background matches Some(b) ==> o.background == b)
            &&& (background is None ==> o.background)
            &&& (animated matches Some(b) ==> o.animated == b)
            &&& (animated is None ==> !o.animated)
            &&& (theme is None ==> o.theme is None)
            &&& (engine is None ==> o.engine == Engine::Ribbon)
        },
{
    proof {
        lemma_query_values(size, opt_view(theme), background, animated, opt_view(engine));
    }
    let t = match theme {
        Some(name) => match Theme::from_name(name) {
            Some(t) => Some(t),
            None => {
                return Err(RequestError::UnknownTheme);
            },
        },
        None => None,
    };
    let e = match engine {
        Some(name) => match Engine::from_name(name) {
            Some(e) => e,
            None => {
                return Err(RequestError::UnknownEngine);
            },
        },
        None => Engine::Ribbon,
    };
    Ok(
        RenderOptions {
            size: match size {
                Some(s) => s,
                None => 256,
            },
            theme: t,
            background: match background {
                Some(b) => b,
                None => true,
            },
            animated: match animated {
                Some(b) => b,
                None => false,
            },
            engine: e,
        },
    )
}

/// A query that names no engine is served exactly as one that names `ribbon`.
pub proof fn lemma_engine_defaults_to_ribbon(
    size: Option<u32>,
    theme: Option<Seq<char>>,
    background: Option<bool>,
    animated: Option<bool>,
)
    ensures
        query_options(size, theme, background, animated, None) == query_options(
            size,
            theme,
            background,
            animated,
            Some("ribbon"@),
        ),
{
    lemma_engine_name_round_trip(Engine::Ribbon);
}

/// The message for an unknown engine, listing every valid one.
pub open spec fn unknown_engine_text() -> Seq<char> {
    "unknown engine; valid: blob, crest, voronoi, kaleido, ribbon, constellation, monogram"@
}

impl RequestError {
    /// The body of the `400 Bad Request` reply.
    pub fn message(&self) -> (m: String)
        ensures
            m@ == match self {
                RequestError::UnknownTheme => unknown_theme_text(),
                RequestError::UnknownEngine => unknown_engine_text(),
            },
    {
        match self {
            RequestError::UnknownTheme => unknown_theme_message(),
            RequestError::UnknownEngine => {
                let mut m = String::new();
                m.push_str("unknown engine; valid: blob, crest, voronoi, kaleido, ribbon, constellation, monogram");
                m
            },
        }
    }
}

/// The body of the `400 Bad Request` reply to a refused input.
pub open spec fn render_error_text(e: RenderError) -> Seq<char> {
    match e {
        RenderError::EmptyInput => "input must not be empty"@,
        RenderError::InputTooLong => "input too long"@,
        RenderError::InvalidCharset => "invalid characters in input"@,
    }
}

pub fn render_error_reply(e: RenderError) -> (m: &'static str)
    ensures
        m@ == render_error_text(e),
{
    match e {
        RenderError::EmptyInput => "input must not be empty",
        RenderError::InputTooLong => "input too long",
        RenderError::InvalidCharset => "invalid characters in input",
    }
}

/// The five people of the comparison page.
pub const GALLERY_PEOPLE: [&'static str; 5] = ["alice", "bob", "carol", "diego", "emma"];

/// The comparison page's head, title and introduction.
pub open spec fn page_head() -> Seq<char> {
    "<!doctype html><html lang=\"fr\"><head><meta charset=\"utf-8\"><meta name=\"viewport\" content=\"width=device-width, initial-scale=1\"><title>Comparaison des identicons</title><style>\nbody{margin:0;padding:28px 32px 64px;background:#111318;color:#e8eaed;font-family:Inter,system-ui,sans-serif}\nh1{margin:0 0 6px;font-size:28px} .lead{margin:0 0 28px;color:#9aa0a6;max-width:46rem;line-height:1.45}\nsection{margin-bottom:36px} h2{margin:0 0 8px;font-size:20px;text-transform:capitalize;position:sticky;top:0;background:#111318;padding:8px 0}\ntable{border-collapse:separate;border-spacing:12px 14px;margin-left:-12px}\nth{font-weight:600;text-align:center;color:#9aa0a6;font-size:13px} th.theme{text-align:left;color:#e8eaed;font-size:15px;text-transform:capitalize;width:8rem}\nimg{width:104px;height:104px;border-radius:14px;display:block;background:#1c1f27}\n</style></head><body><h1>Comparaison des identicons</h1><p class=\"lead\">Cinq personnes pour chaque thème et chaque moteur. Chaque image est servie par l'API, par exemple <code>/alice?engine=ribbon&amp;theme=nord&amp;size=104</code>. Sans <code>engine</code>, l'API utilise <code>ribbon</code>.</p>"@
}

/// The header cells of the first `n` people.
pub open spec fn people_heads(n: nat) -> Seq<char>
    decreases n,
{
    if n == 0 {
        Seq::empty()
    } else {
        people_heads((n - 1) as nat) + "<th>"@ + GALLERY_PEOPLE[n - 1]@ + "</th>"@
    }
}

/// One image cell: `person` drawn by engine `name` with theme `theme`, served by the API.
pub open spec fn gallery_cell(person: Seq<char>, name: Seq<char>, theme: Seq<char>) -> Seq<char> {
    "<td><img alt=\""@ + person + ", moteur "@ + name + ", thème "@ + theme
        + "\" width=\"104\" height=\"104\" loading=\"lazy\" src=\"/"@ + person + "?engine="@ + name
        + "&theme="@ + theme + "&size=104\"></td>"@
}

/// The cells of the first `n` people for one engine and theme.
pub open spec fn gallery_cells(name: Seq<char>, theme: Seq<char>, n: nat) -> Seq<char>
    decreases n,
{
    if n == 0 {
        Seq::empty()
    } else {
        gallery_cells(name, theme, (n - 1) as nat) + gallery_cell(GALLERY_PEOPLE[n - 1]@, name, theme)
    }
}

/// The rows of the first `n` palettes for one engine.
pub open spec fn gallery_rows(name: Seq<char>, n: nat) -> Seq<char>
    decreases n,
{
    if n == 0 {
        Seq::empty()
    } else {
        gallery_rows(name, (n - 1) as nat) + gallery_row(name, palette_at(n - 1).name@)
    }
}

/// The row of one theme: its name, then one cell per person.
pub open spec fn gallery_row(name: Seq<char>, theme: Seq<char>) -> Seq<char> {
    "<tr><th class=\"theme\">"@ + theme + "</th>"@ + gallery_cells(name, theme, 5) + "</tr>"@
}

/// The section of one engine: a table of every theme against every person.
pub open spec fn gallery_section(name: Seq<char>) -> Seq<char> {
    "<section id=\""@ + name + "\"><h2>"@ + name + "</h2><table><thead><tr><th></th>"@
        + people_heads(5) + "</tr></thead><tbody>"@ + gallery_rows(name, PALETTE_COUNT as nat)
        + "</tbody></table></section>"@
}

/// The sections of the first `n` engines.
pub open spec fn gallery_sections(n: nat) -> Seq<char>
    decreases n,
{
    if n == 0 {
        Seq::empty()
    } else {
        gallery_sections((n - 1) as nat) + gallery_section(Engine::ALL[n - 1].spec_name()@)
    }
}

/// The comparison page: every engine, each with every theme for every person.
pub open spec fn comparison_page_text() -> Seq<char> {
    page_head() + gallery_sections(7) + "</body></html>"@
}

fn write_cell(html: &mut String, person: &str, name: &str, theme: &str)
    ensures
        final(html)@ == old(html)@ + gallery_cell(person@, name@, theme@),
{
    html.push_str("<td><img alt=\"");
    html.push_str(person);
    html.push_str(", moteur ");
    html.push_str(name);
    html.push_str(", thème ");
    html.push_str(theme);
    html.push_str("\" width=\"104\" height=\"104\" loading=\"lazy\" src=\"/");
    html.push_str(person);
    html.push_str("?engine=");
    html.push_str(name);
    html.push_str("&theme=");
    html.push_str(theme);
    html.push_str("&size=104\"></td>");
}

fn write_row(html: &mut String, name: &str, theme: &str)
    ensures
        final(html)@ == old(html)@ + gallery_row(name@, theme@),
{
    html.push_str("<tr><th class=\"theme\">");
    html.push_str(theme);
    html.push_str("</th>");
    let ghost cells_start = html@;
    let mut k: usize = 0;
    while k < 5
        invariant
            k <= 5,
            html@ == cells_start + gallery_cells(name@, theme@, k as nat),
        decreases 5 - k,
    {
        write_cell(html, GALLERY_PEOPLE[k], name, theme);
        k = k + 1;
    }
    html.push_str("</tr>");
}

fn write_section(html: &mut String, name: &str)
    ensures
        final(html)@ == old(html)@ + gallery_section(name@),
{
    html.push_str("<section id=\"");
    html.push_str(name);
    html.push_str("\"><h2>");
    html.push_str(name);
    html.push_str("</h2><table><thead><tr><th></th>");
    let ghost start = html@;
    let mut k: usize = 0;
    while k < 5
        invariant
            k <= 5,
            html@ == start + people_heads(k as nat),
        decreases 5 - k,
    {
        html.push_str("<th>");
        html.push_str(GALLERY_PEOPLE[k]);
        html.push_str("</th>");
        k = k + 1;
    }
    html.push_str("</tr></thead><tbody>");
    let ghost rows_start = html@;
    let mut p: usize = 0;
    while p < PALETTE_COUNT
        invariant
            p <= PALETTE_COUNT,
            html@ == rows_start + gallery_rows(name@, p as nat),
        decreases PALETTE_COUNT - p,
    {
        let theme = palette_by_index(p).name;
        assert(theme == palette_at(p as int).name);
        write_row(html, name, theme);
        assert(gallery_rows(name@, (p + 1) as nat)
            == gallery_rows(name@, p as nat) + gallery_row(name@, theme@));
        p = p + 1;
    }
    html.push_str("</tbody></table></section>");
}

/// The HTML page that compares every theme and engine on five people.
pub fn comparison_page() -> (html: String)
    ensures
        html@ == comparison_page_text(),
{
    let mut html = String::new();
    html.push_str("<!doctype html><html lang=\"fr\"><head><meta charset=\"utf-8\"><meta name=\"viewport\" content=\"width=device-width, initial-scale=1\"><title>Comparaison des identicons</title><style>\nbody{margin:0;padding:28px 32px 64px;background:#111318;color:#e8eaed;font-family:Inter,system-ui,sans-serif}\nh1{margin:0 0 6px;font-size:28px} .lead{margin:0 0 28px;color:#9aa0a6;max-width:46rem;line-height:1.45}\nsection{margin-bottom:36px} h2{margin:0 0 8px;font-size:20px;text-transform:capitalize;position:sticky;top:0;background:#111318;padding:8px 0}\ntable{border-collapse:separate;border-spacing:12px 14px;margin-left:-12px}\nth{font-weight:600;text-align:center;color:#9aa0a6;font-size:13px} th.theme{text-align:left;color:#e8eaed;font-size:15px;text-transform:capitalize;width:8rem}\nimg{width:104px;height:104px;border-radius:14px;display:block;background:#1c1f27}\n</style></head><body><h1>Comparaison des identicons</h1><p class=\"lead\">Cinq personnes pour chaque thème et chaque moteur. Chaque image est servie par l'API, par exemple <code>/alice?engine=ribbon&amp;theme=nord&amp;size=104</code>. Sans <code>engine</code>, l'API utilise <code>ribbon</code>.</p>");
    let ghost start = html@;
    let mut i: usize = 0;
    while i < 7
        invariant
            i <= 7,
            html@ == start + gallery_sections(i as nat),
        decreases 7 - i,
    {
        let engine = Engine::ALL[i];
        write_section(&mut html, engine.name());
        i = i + 1;
    }
    html.push_str("</body></html>");
    html
}

} // verus!
