//! Installed packages and the metadata their manifests declare.
use vstd::prelude::*;
use crate::source::UpdateKey;

verus! {

/// Metadata that a package's manifest declares.
#[derive(Clone, Debug)]
pub struct Manifest {
    pub name: Option<String>,
    pub author: Option<String>,
    pub version: Option<String>,
    pub description: Option<String>,
    pub unique_id: Option<String>,
    pub update_keys: Vec<UpdateKey>,
}

/// One installed package: its directory and its manifest.
#[derive(Clone, Debug)]
pub struct Mod {
    pub path: String,
    pub manifest: Manifest,
}

} // verus!
