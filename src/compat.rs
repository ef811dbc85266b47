//! The request to the shared compatibility service, and the reading of its reply.
use vstd::prelude::*;
use crate::error::UpdateError;
use crate::install::opt_view;
use crate::manifest::Mod;
use crate::outcome::UpdateOutcome;
use crate::source::UpdateKey;

verus! {

/// Where the compatibility service takes its requests.
pub const COMPAT_ENDPOINT: &'static str = "https://smapi.io/api/v3.0/mods";

/// The service API version that requests declare.
pub const COMPAT_API_VERSION: &'static str = "4.0.7";

/// Name for what serde_json reads from a reply body: none where the body is not
/// a JSON array, `Some(None)` where the array is empty, `Some(Some(None))` where
/// its first entry is not an object, else whether that entry holds `key`.
pub uninterp spec fn reply_entry_has(body: Seq<char>, key: Seq<char>) -> Option<Option<Option<bool>>>;

/// Relies on `serde_json::from_str`, `Value::as_array`, `Value::as_object` and
/// `Map::contains_key`: how the reply's first entry reads, as `reply_entry_has` names it.
#[verifier::external_body]
fn first_entry_has(body: &str, key: &str) -> (r: Option<Option<Option<bool>>>)
    ensures
        r == reply_entry_has(body@, key@),
{
    let v: serde_json::Value = serde_json::from_str(body).ok()?;
    let entries = v.as_array()?;
    let first = match entries.first() {
        Some(f) => f,
        None => return Some(None),
    };
    Some(Some(first.as_object().map(|o| o.contains_key(key))))
}

/// One entry of a compatibility request.
#[derive(Clone, Debug, PartialEq, Eq)]
pub struct CompatEntry {
    pub id: String,
    pub update_key: String,
    pub installed_version: String,
}

/// The identifier sent for a package: its declared one, else a placeholder
/// `FAKE.<source>.<id>`.
pub open spec fn entry_id_spec(unique_id: Option<Seq<char>>, key: UpdateKey) -> Seq<char> {
    match unique_id {
        Some(u) => u,
        None => "FAKE."@ + key.source@ + "."@ + key.id@,
    }
}

/// The request entry for a package and its preferred key.
pub fn compat_entry(m: &Mod, key: &UpdateKey) -> (r: CompatEntry)
    ensures
        r.id@ == entry_id_spec(opt_view(m.manifest.unique_id), *key),
        r.update_key@ == key.source@ + ":"@ + key.id@,
        r.installed_version@ == match opt_view(m.manifest.version) {
            Some(v) => v,
            None => Seq::<char>::empty(),
        },
{
    let id = match &m.manifest.unique_id {
        Some(u) => u.clone(),
        None => {
            let mut s = String::from_str("FAKE.");
            s.append(key.source.as_str());
            s.append(".");
            s.append(key.id.as_str());
            s
        },
    };
    let mut update_key = key.source.clone();
    update_key.append(":");
    update_key.append(key.id.as_str());
    let installed_version = match &m.manifest.version {
        Some(v) => v.clone(),
        None => String::new(),
    };
    CompatEntry { id, update_key, installed_version }
}

/// The shape of the service's reply, as far as the check reads it.
#[derive(Clone, Copy, Debug, PartialEq, Eq, Structural)]
pub enum CompatReply {
    NotArray,
    Empty,
    NotObject,
    Entry { suggested_update: bool },
}

/// Whether a reply of this shape says that an update is available.
pub fn interpret_reply(r: CompatReply) -> (res: Result<bool, UpdateError>)
    ensures
        r matches CompatReply::Entry { suggested_update } ==> res == Ok::<bool, UpdateError>(suggested_update),
        r == CompatReply::NotArray ==> (res matches Err(UpdateError::Malformed(m)) && m@ == "Expected array"@),
        r == CompatReply::Empty ==> (res matches Err(UpdateError::Malformed(m)) && m@ == "Expected a reply entry"@),
        r == CompatReply::NotObject ==> (res matches Err(UpdateError::Malformed(m)) && m@ == "Expected object"@),
{
    match r {
        CompatReply::NotArray => Err(UpdateError::Malformed(String::from_str("Expected array"))),
        CompatReply::Empty => Err(UpdateError::Malformed(String::from_str("Expected a reply entry"))),
        CompatReply::NotObject => Err(UpdateError::Malformed(String::from_str("Expected object"))),
        CompatReply::Entry { suggested_update } => Ok(suggested_update),
    }
}

/// The shape of a reply, from what serde_json reads of it.
pub open spec fn shape_spec(o: Option<Option<Option<bool>>>) -> CompatReply {
    match o {
        None => CompatReply::NotArray,
        Some(None) => CompatReply::Empty,
        Some(Some(None)) => CompatReply::NotObject,
        Some(Some(Some(b))) => CompatReply::Entry { suggested_update: b },
    }
}

/// The shape of a reply, from what serde_json reads of it.
pub fn classify_reply(o: Option<Option<Option<bool>>>) -> (r: CompatReply)
    ensures
        r == shape_spec(o),
{
    match o {
        None => CompatReply::NotArray,
        Some(None) => CompatReply::Empty,
        Some(Some(None)) => CompatReply::NotObject,
        Some(Some(Some(b))) => CompatReply::Entry { suggested_update: b },
    }
}

/// Whether the reply body says that an update is available: its first entry
/// holds `suggestedUpdate`.
pub fn update_suggested(body: &str) -> (r: Result<bool, UpdateError>)
    ensures
        reply_entry_has(body@, "suggestedUpdate"@) matches Some(Some(Some(b))) ==> r == Ok::<bool, UpdateError>(b),
        reply_entry_has(body@, "suggestedUpdate"@) is None ==> (r matches Err(UpdateError::Malformed(m)) && m@ == "Expected array"@),
        reply_entry_has(body@, "suggestedUpdate"@) == Some(None::<Option<bool>>) ==> (r matches Err(UpdateError::Malformed(m))
            && m@ == "Expected a reply entry"@),
        reply_entry_has(body@, "suggestedUpdate"@) == Some(Some(None::<bool>)) ==> (r matches Err(UpdateError::Malformed(m))
            && m@ == "Expected object"@),
{
    interpret_reply(classify_reply(first_entry_has(body, "suggestedUpdate")))
}

/// The outcome settled by the compatibility check: none, so that the source is
/// asked, when an update is suggested.
pub fn gate_outcome(suggested: bool) -> (r: Option<UpdateOutcome>)
    ensures
        suggested ==> r is None,
        !suggested ==> (r matches Some(UpdateOutcome::UpToDate)),
{
    if suggested {
        None
    } else {
        Some(UpdateOutcome::UpToDate)
    }
}

} // verus!
