//! The per-package decisions of an update run.
use vstd::prelude::*;
use crate::error::UpdateError;
use crate::manifest::Mod;
use crate::source::{kind_spec, preferred_index, SourceKind, UpdateKey, UpdateKeys};

verus! {

/// The source that a package is updated from, or why it is not attempted: no
/// supported source, or a preferred key with a subkey.
pub open spec fn route_spec(keys: Seq<UpdateKey>) -> Result<SourceKind, Seq<char>> {
    match preferred_index(keys) {
        None => Err("Unknown or unsupported source"@),
        Some(i) => if keys[i].subkey is Some {
            Err("Subkeys are not yet supported"@)
        } else {
            Ok(kind_spec(keys[i].source@)->Some_0)
        },
    }
}

/// The preferred key of a package and its kind, or the failure that settles the
/// package without any remote work.
pub fn route(m: &Mod) -> (r: Result<(SourceKind, &UpdateKey), UpdateError>)
    ensures
        route_spec(m.manifest.update_keys@) matches Ok(kind) ==> (r matches Ok(p) && p.0 == kind
            && *p.1 == m.manifest.update_keys@[preferred_index(m.manifest.update_keys@)->Some_0]),
        route_spec(m.manifest.update_keys@) matches Err(t) ==> (r matches Err(UpdateError::Unsupported(s)) && s@ == t),
{
    match m.manifest.update_keys.as_slice().preferred() {
        None => Err(UpdateError::Unsupported(String::from_str("Unknown or unsupported source"))),
        Some(key) => {
            if key.subkey.is_some() {
                Err(UpdateError::Unsupported(String::from_str("Subkeys are not yet supported")))
            } else {
                proof {
                    lemma_preferred_has_kind(m.manifest.update_keys@);
                }
                match key.kind() {
                    Some(kind) => Ok((kind, key)),
                    None => Err(UpdateError::Unsupported(String::from_str("Unknown or unsupported source"))),
                }
            }
        },
    }
}

/// The preferred key always has a supported kind.
pub proof fn lemma_preferred_has_kind(keys: Seq<UpdateKey>)
    ensures
        preferred_index(keys) matches Some(i) ==> 0 <= i < keys.len() && kind_spec(keys[i].source@) is Some,
{
    let ph = crate::source::kind_is(keys, SourceKind::HostedRelease);
    let pm = crate::source::kind_is(keys, SourceKind::ModSite);
    let n = keys.len() as int;
    if crate::text::first_where(ph, n) is Some {
        let i = choose|i: int| crate::text::is_first_where(ph, n, i);
        crate::text::lemma_first_where_is(ph, n, i);
        assert(ph(i));
    } else if crate::text::first_where(pm, n) is Some {
        let i = choose|i: int| crate::text::is_first_where(pm, n, i);
        crate::text::lemma_first_where_is(pm, n, i);
        assert(pm(i));
    }
}

/// The name a package is reported under: its declared name, else its path
/// relative to the mods directory.
pub fn display_name(m: &Mod, relative_path: &str) -> (r: String)
    ensures
        r@ == match crate::install::opt_view(m.manifest.name) {
            Some(n) => n,
            None => relative_path@,
        },
{
    match &m.manifest.name {
        Some(n) => n.clone(),
        None => String::from_str(relative_path),
    }
}

} // verus!
