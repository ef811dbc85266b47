//! Decisions for packages whose updates come from the mod site's file listing.
use vstd::prelude::*;
use crate::error::UpdateError;
use crate::text::{first_where, lemma_first_where_is, lemma_first_where_none, str_eq};

verus! {

/// The site's numeric id of the game whose files are requested.
pub const GAME_ID: u32 = 1303;

/// The endpoint that hands out signed download URLs.
pub const DOWNLOAD_URL_ENDPOINT: &'static str = "https://www.nexusmods.com/Core/Libs/Common/Managers/Downloads?GenerateDownloadUrl";

/// The browser cookie that carries the site's session.
pub const SESSION_COOKIE: &'static str = "sid_develop";

/// The version reported for a mod-site install: the site exposes no version string.
pub const MODSITE_VERSION: &'static str = "latest";

/// Name for what scraper finds in a page: for the first element that the CSS
/// selector matches, whether it has the attribute and its value; none where no
/// element matches or the selector does not parse.
pub uninterp spec fn first_attr_of(page: Seq<char>, css: Seq<char>, attr: Seq<char>) -> Option<Option<Seq<char>>>;

/// Name for what serde_json reads from a reply body: none where the body is not a
/// JSON object with a `url` field, `Some(None)` where that field is not a string.
pub uninterp spec fn url_field_of(body: Seq<char>) -> Option<Option<Seq<char>>>;

/// The characters of an optional optional string.
pub open spec fn oo_view(o: Option<Option<String>>) -> Option<Option<Seq<char>>> {
    match o {
        None => None,
        Some(None) => Some(None),
        Some(Some(s)) => Some(Some(s@)),
    }
}

/// Relies on `scraper::Html::parse_document`, `Selector::parse`, `Html::select`
/// and `ElementRef::attr`: the attribute of the first matching element, as
/// `first_attr_of` names it.
#[verifier::external_body]
fn page_first_attr(page: &str, css: &str, attr: &str) -> (r: Option<Option<String>>)
    ensures
        oo_view(r) == first_attr_of(page@, css@, attr@),
{
    let doc = scraper::Html::parse_document(page);
    let sel = scraper::Selector::parse(css).ok()?;
    let found = doc.select(&sel).next();
    found.map(|e| e.attr(attr).map(|a| a.to_string()))
}

/// Relies on `serde_json::from_str`, `Value::get` and `Value::as_str`: the reply's
/// `url` field, as `url_field_of` names it.
#[verifier::external_body]
fn reply_url_field(body: &str) -> (r: Option<Option<String>>)
    ensures
        oo_view(r) == url_field_of(body@),
{
    let v: serde_json::Value = serde_json::from_str(body).ok()?;
    let field = v.get("url")?;
    Some(field.as_str().map(|s| s.to_string()))
}

/// The listing page of a mod.
pub fn listing_url(id: &str) -> (r: String)
    ensures
        r@ == "https://nexusmods.com/stardewvalley/mods/"@ + id@ + "?tab=files"@,
{
    let mut r = String::from_str("https://nexusmods.com/stardewvalley/mods/");
    r.append(id);
    r.append("?tab=files");
    r
}

/// The cookie header that carries the session token.
pub fn cookie_header(token: &str) -> (r: String)
    ensures
        r@ == "sid_develop="@ + token@,
{
    let mut r = String::from_str("sid_develop=");
    r.append(token);
    r
}

/// The file id from the listing: the main file's entry, else the first update
/// file's; each is the first matching element and, if it was found, its `data-id`.
pub fn pick_file_id(main: Option<Option<String>>, update: Option<Option<String>>) -> (r: Result<String, UpdateError>)
    ensures
        (match if main is Some { main } else { update } {
            None => r matches Err(UpdateError::Malformed(m)) && m@ == "HTML parsing failed: couldn't locate main file element"@,
            Some(None) => r matches Err(UpdateError::Malformed(m)) && m@ == "HTML parsing failed: couldn't find data-id attribute"@,
            Some(Some(id)) => r matches Ok(s) && s@ == id@,
        }),
{
    let found = match main {
        Some(a) => Some(a),
        None => update,
    };
    match found {
        None => Err(UpdateError::Malformed(String::from_str("HTML parsing failed: couldn't locate main file element"))),
        Some(None) => Err(UpdateError::Malformed(String::from_str("HTML parsing failed: couldn't find data-id attribute"))),
        Some(Some(id)) => Ok(id),
    }
}

pub open spec fn main_files_css() -> Seq<char> {
    "#file-container-main-files .file-expander-header"@
}

pub open spec fn update_files_css() -> Seq<char> {
    "#file-container-update-files .file-expander-header"@
}

/// The element that the file id is read from: the main file's entry, else the
/// first update file's.
pub open spec fn file_entry_of(page: Seq<char>) -> Option<Option<Seq<char>>> {
    let main = first_attr_of(page, main_files_css(), "data-id"@);
    if main is Some {
        main
    } else {
        first_attr_of(page, update_files_css(), "data-id"@)
    }
}

/// The file id that the listing page points to.
pub fn locate_file_id(page: &str) -> (r: Result<String, UpdateError>)
    ensures
        (match file_entry_of(page@) {
            None => r matches Err(UpdateError::Malformed(m)) && m@ == "HTML parsing failed: couldn't locate main file element"@,
            Some(None) => r matches Err(UpdateError::Malformed(m)) && m@ == "HTML parsing failed: couldn't find data-id attribute"@,
            Some(Some(id)) => r matches Ok(s) && s@ == id,
        }),
{
    let main = page_first_attr(page, "#file-container-main-files .file-expander-header", "data-id");
    if main.is_some() {
        pick_file_id(main, None)
    } else {
        let update = page_first_attr(page, "#file-container-update-files .file-expander-header", "data-id");
        pick_file_id(None, update)
    }
}

/// Holds at the positions of `cookies` whose name is the session cookie's.
pub open spec fn is_session(cookies: Seq<(String, String)>) -> spec_fn(int) -> bool {
    |k: int| cookies[k].0@ == "sid_develop"@
}

/// The value of the first session cookie among the browser's cookies
/// (name, value).
pub fn session_token(cookies: &Vec<(String, String)>) -> (r: Result<String, UpdateError>)
    ensures
        first_where(is_session(cookies@), cookies@.len() as int) matches Some(i) ==> (r matches Ok(t) && t@ == cookies@[i].1@),
        first_where(is_session(cookies@), cookies@.len() as int) is None ==> (r matches Err(UpdateError::Malformed(m))
            && m@ == "Could not find Nexus cookie. Please sign in to Nexus in any web browser and try again."@),
{
    let ghost p = is_session(cookies@);
    let mut i: usize = 0;
    while i < cookies.len()
        invariant
            i <= cookies@.len(),
            p == is_session(cookies@),
            forall|k: int| 0 <= k < i ==> !#[trigger] p(k),
        decreases cookies@.len() - i,
    {
        if str_eq(cookies[i].0.as_str(), "sid_develop") {
            proof {
                lemma_first_where_is(p, cookies@.len() as int, i as int);
            }
            return Ok(cookies[i].1.clone());
        }
        i = i + 1;
    }
    proof {
        lemma_first_where_none(p, cookies@.len() as int);
    }
    Err(UpdateError::Malformed(String::from_str("Could not find Nexus cookie. Please sign in to Nexus in any web browser and try again.")))
}

/// The download URL from the reply's `url` field: none where the field is
/// missing, `Some(None)` where it is not a string.
pub fn url_from_field(field: Option<Option<String>>) -> (r: Result<String, UpdateError>)
    ensures
        (match field {
            None => r matches Err(UpdateError::Malformed(m)) && m@ == "Invalid response from Nexus: Expected url"@,
            Some(None) => r matches Err(UpdateError::Malformed(m)) && m@ == "Invalid response from Nexus: Expected string"@,
            Some(Some(u)) => r matches Ok(s) && s@ == u@,
        }),
{
    match field {
        None => Err(UpdateError::Malformed(String::from_str("Invalid response from Nexus: Expected url"))),
        Some(None) => Err(UpdateError::Malformed(String::from_str("Invalid response from Nexus: Expected string"))),
        Some(Some(u)) => Ok(u),
    }
}

/// The signed download URL in the reply body `{url}`.
pub fn download_url(body: &str) -> (r: Result<String, UpdateError>)
    ensures
        (match url_field_of(body@) {
            None => r matches Err(UpdateError::Malformed(m)) && m@ == "Invalid response from Nexus: Expected url"@,
            Some(None) => r matches Err(UpdateError::Malformed(m)) && m@ == "Invalid response from Nexus: Expected string"@,
            Some(Some(u)) => r matches Ok(s) && s@ == u,
        }),
{
    url_from_field(reply_url_field(body))
}

} // verus!
