//! Update sources declared by a package, and the choice of the preferred one.
use vstd::prelude::*;
use crate::text::{find_char, first_index, first_where, is_first_where, lemma_first_where_is,
    lemma_first_where_none, slice_string, str_eq};
use crate::error::UpdateError;

verus! {

/// Name for what `str::to_lowercase` returns on a sequence of characters.
pub uninterp spec fn lower_of(s: Seq<char>) -> Seq<char>;

/// Relies on `str::to_lowercase`: the result depends on the characters alone.
#[verifier::external_body]
fn lowercase(s: &str) -> (r: String)
    ensures
        r@ == lower_of(s@),
{
    s.to_lowercase()
}

/// The kinds of remote origin that updates can be fetched from.
#[derive(Clone, Copy, Debug, PartialEq, Eq, Structural)]
pub enum SourceKind {
    /// A hosted repository's published releases (`github`).
    HostedRelease,
    /// A mod site's file listing (`nexus`).
    ModSite,
}

/// One declared update source: `source:id`, where `id` may carry an `@subkey` suffix.
#[derive(Clone, Debug, PartialEq, Eq)]
pub struct UpdateKey {
    pub source: String,
    pub id: String,
    /// The suffix from `@` on, `@` included.
    pub subkey: Option<String>,
}

/// The characters of each part of a key.
pub struct KeyView {
    pub source: Seq<char>,
    pub id: Seq<char>,
    pub subkey: Option<Seq<char>>,
}

impl View for UpdateKey {
    type V = KeyView;

    open spec fn view(&self) -> KeyView {
        KeyView {
            source: self.source@,
            id: self.id@,
            subkey: match self.subkey {
                Some(s) => Some(s@),
                None => None,
            },
        }
    }
}

/// The key that `s` denotes: split at the first `:`, then the rest at its first `@`.
pub open spec fn parse_key_spec(s: Seq<char>) -> Option<KeyView> {
    match first_index(s, ':') {
        None => None,
        Some(i) => {
            let rest = s.subrange(i + 1, s.len() as int);
            match first_index(rest, '@') {
                None => Some(KeyView { source: s.subrange(0, i), id: rest, subkey: None }),
                Some(j) => Some(
                    KeyView {
                        source: s.subrange(0, i),
                        id: rest.subrange(0, j),
                        subkey: Some(rest.subrange(j, rest.len() as int)),
                    },
                ),
            }
        },
    }
}

/// The kind that a lower-cased source name stands for.
pub open spec fn kind_of_lower(l: Seq<char>) -> Option<SourceKind> {
    if l == "github"@ {
        Some(SourceKind::HostedRelease)
    } else if l == "nexus"@ {
        Some(SourceKind::ModSite)
    } else {
        None
    }
}

/// The kind of a source name, compared without regard to case.
pub open spec fn kind_spec(source: Seq<char>) -> Option<SourceKind> {
    kind_of_lower(lower_of(source))
}

/// Holds at the positions of `keys` whose source is of kind `kind`.
pub open spec fn kind_is(keys: Seq<UpdateKey>, kind: SourceKind) -> spec_fn(int) -> bool {
    |k: int| kind_spec(keys[k].source@) == Some(kind)
}

/// Index of the preferred key: the first hosted-release key, else the first mod-site key.
pub open spec fn preferred_index(keys: Seq<UpdateKey>) -> Option<int> {
    match first_where(kind_is(keys, SourceKind::HostedRelease), keys.len() as int) {
        Some(i) => Some(i),
        None => first_where(kind_is(keys, SourceKind::ModSite), keys.len() as int),
    }
}

/// A hosted-release key is preferred over every mod-site key, wherever the
/// keys stand in the declaration: the preferred key is the first hosted-release one.
pub proof fn lemma_hosted_release_preferred(keys: Seq<UpdateKey>, j: int)
    requires
        0 <= j < keys.len(),
        kind_spec(keys[j].source@) == Some(SourceKind::HostedRelease),
    ensures
        preferred_index(keys) matches Some(i) && i <= j && kind_spec(keys[i].source@) == Some(SourceKind::HostedRelease)
            && forall|k: int| 0 <= k < i ==> kind_spec(#[trigger] keys[k].source@) != Some(SourceKind::HostedRelease),
{
    let p = kind_is(keys, SourceKind::HostedRelease);
    let n = keys.len() as int;
    assert(p(j));
    assert(exists|i: int| is_first_where(p, n, i)) by {
        lemma_least_where(p, n, j);
    }
    let i = choose|i: int| is_first_where(p, n, i);
    lemma_first_where_is(p, n, i);
    assert forall|k: int| 0 <= k < i implies kind_spec(#[trigger] keys[k].source@) != Some(SourceKind::HostedRelease) by {
        assert(!p(k));
    }
}

/// The kind of the preferred key, if there is one.
pub open spec fn preferred_kind(keys: Seq<UpdateKey>) -> Option<SourceKind> {
    match preferred_index(keys) {
        Some(i) => kind_spec(keys[i].source@),
        None => None,
    }
}

/// Some key of `keys` has kind `kind`.
pub open spec fn has_kind(keys: Seq<UpdateKey>, kind: SourceKind) -> bool {
    exists|j: int| 0 <= j < keys.len() && kind_spec(#[trigger] keys[j].source@) == Some(kind)
}

/// The preferred kind is hosted release where any key has it, else mod site
/// where any key has it, else none.
pub proof fn lemma_preferred_kind(keys: Seq<UpdateKey>)
    ensures
        preferred_kind(keys) == if has_kind(keys, SourceKind::HostedRelease) {
            Some(SourceKind::HostedRelease)
        } else if has_kind(keys, SourceKind::ModSite) {
            Some(SourceKind::ModSite)
        } else {
            None
        },
{
    let n = keys.len() as int;
    let ph = kind_is(keys, SourceKind::HostedRelease);
    let pm = kind_is(keys, SourceKind::ModSite);
    if has_kind(keys, SourceKind::HostedRelease) {
        let j = choose|j: int| 0 <= j < keys.len() && kind_spec(#[trigger] keys[j].source@) == Some(SourceKind::HostedRelease);
        lemma_hosted_release_preferred(keys, j);
    } else {
        assert forall|k: int| 0 <= k < n implies !#[trigger] ph(k) by {
            if ph(k) {
                assert(kind_spec(keys[k].source@) == Some(SourceKind::HostedRelease));
            }
        }
        lemma_first_where_none(ph, n);
        if has_kind(keys, SourceKind::ModSite) {
            let j = choose|j: int| 0 <= j < keys.len() && kind_spec(#[trigger] keys[j].source@) == Some(SourceKind::ModSite);
            assert(pm(j));
            lemma_least_where(pm, n, j);
            let i = choose|i: int| is_first_where(pm, n, i);
            lemma_first_where_is(pm, n, i);
        } else {
            assert forall|k: int| 0 <= k < n implies !#[trigger] pm(k) by {
                if pm(k) {
                    assert(kind_spec(keys[k].source@) == Some(SourceKind::ModSite));
                }
            }
            lemma_first_where_none(pm, n);
        }
    }
}

/// The kind of the preferred key does not depend on the order in which the keys
/// are declared: two lists that hold the same keys prefer the same kind.
pub proof fn lemma_preferred_kind_order_free(a: Seq<UpdateKey>, b: Seq<UpdateKey>)
    requires
        a.to_multiset() =~= b.to_multiset(),
    ensures
        preferred_kind(a) == preferred_kind(b),
{
    lemma_preferred_kind(a);
    lemma_preferred_kind(b);
    lemma_has_kind_shared(a, b, SourceKind::HostedRelease);
    lemma_has_kind_shared(b, a, SourceKind::HostedRelease);
    lemma_has_kind_shared(a, b, SourceKind::ModSite);
    lemma_has_kind_shared(b, a, SourceKind::ModSite);
}

proof fn lemma_has_kind_shared(a: Seq<UpdateKey>, b: Seq<UpdateKey>, kind: SourceKind)
    requires
        a.to_multiset() =~= b.to_multiset(),
    ensures
        has_kind(a, kind) ==> has_kind(b, kind),
{
    if has_kind(a, kind) {
        let j = choose|j: int| 0 <= j < a.len() && kind_spec(#[trigger] a[j].source@) == Some(kind);
        a.to_multiset_ensures();
        b.to_multiset_ensures();
        assert(a.contains(a[j]));
        assert(b.to_multiset().count(a[j]) > 0);
        assert(b.contains(a[j]));
        let k = choose|k: int| 0 <= k < b.len() && b[k] == a[j];
        assert(kind_spec(b[k].source@) == Some(kind));
    }
}

/// Where `p` holds below `n`, it holds first somewhere.
proof fn lemma_least_where(p: spec_fn(int) -> bool, n: int, j: int)
    requires
        0 <= j < n,
        p(j),
    ensures
        exists|i: int| is_first_where(p, n, i),
    decreases j,
{
    if forall|k: int| 0 <= k < j ==> !#[trigger] p(k) {
        assert(is_first_where(p, n, j));
    } else {
        let k = choose|k: int| 0 <= k < j && #[trigger] p(k);
        lemma_least_where(p, n, k);
    }
}

impl UpdateKey {
    /// Parses `source:id` or `source:id@subkey`.
    pub fn parse(s: &str) -> (r: Result<UpdateKey, UpdateError>)
        ensures
            r is Ok <==> parse_key_spec(s@) is Some,
            r matches Ok(k) ==> k@ == parse_key_spec(s@)->Some_0,
            r is Err ==> r == Err::<UpdateKey, UpdateError>(UpdateError::InvalidFormat),
    {
        let n = s.unicode_len();
        match find_char(s, ':') {
            None => Err(UpdateError::InvalidFormat),
            Some(i) => {
                let source = slice_string(s, 0, i);
                let rest = slice_string(s, i + 1, n);
                match find_char(rest.as_str(), '@') {
                    None => Ok(UpdateKey { source, id: rest, subkey: None }),
                    Some(j) => {
                        let m = rest.unicode_len();
                        let id = slice_string(rest.as_str(), 0, j);
                        let subkey = slice_string(rest.as_str(), j, m);
                        let k = UpdateKey { source, id, subkey: Some(subkey) };
                        assert(k@ == parse_key_spec(s@)->Some_0);
                        Ok(k)
                    },
                }
            },
        }
    }

    /// The kind of this key's source, if it is one that updates can come from.
    pub fn kind(&self) -> (r: Option<SourceKind>)
        ensures
            r == kind_spec(self.source@),
    {
        let l = lowercase(self.source.as_str());
        kind_of_lowered(l.as_str())
    }
}

/// The kind that an already lower-cased source name stands for.
pub fn kind_of_lowered(l: &str) -> (r: Option<SourceKind>)
    ensures
        r == kind_of_lower(l@),
{
    proof {
        reveal_strlit("github");
        reveal_strlit("nexus");
    }
    if str_eq(l, "github") {
        Some(SourceKind::HostedRelease)
    } else if str_eq(l, "nexus") {
        Some(SourceKind::ModSite)
    } else {
        None
    }
}

/// Position of the first key of kind `kind`.
fn first_of_kind(keys: &[UpdateKey], kind: SourceKind) -> (r: Option<usize>)
    ensures
        r matches Some(i) ==> first_where(kind_is(keys@, kind), keys@.len() as int) == Some(i as int),
        r is None ==> first_where(kind_is(keys@, kind), keys@.len() as int) is None,
{
    let ghost p = kind_is(keys@, kind);
    let mut i: usize = 0;
    while i < keys.len()
        invariant
            i <= keys@.len(),
            p == kind_is(keys@, kind),
            forall|k: int| 0 <= k < i ==> !#[trigger] p(k),
        decreases keys@.len() - i,
    {
        if keys[i].kind() == Some(kind) {
            proof {
                lemma_first_where_is(p, keys@.len() as int, i as int);
            }
            return Some(i);
        }
        i = i + 1;
    }
    proof {
        lemma_first_where_none(p, keys@.len() as int);
    }
    None
}

/// Choice of one update source among those that a package declares.
pub trait UpdateKeys {
    spec fn keys(&self) -> Seq<UpdateKey>;

    /// The first hosted-release key, else the first mod-site key, else none.
    fn preferred(&self) -> (r: Option<&UpdateKey>)
        ensures
            r is Some <==> preferred_index(self.keys()) is Some,
            r matches Some(k) ==> *k == self.keys()[preferred_index(self.keys())->Some_0];
}

impl UpdateKeys for [UpdateKey] {
    open spec fn keys(&self) -> Seq<UpdateKey> {
        self@
    }

    fn preferred(&self) -> (r: Option<&UpdateKey>) {
        match first_of_kind(self, SourceKind::HostedRelease) {
            Some(i) => Some(&self[i]),
            None => match first_of_kind(self, SourceKind::ModSite) {
                Some(i) => Some(&self[i]),
                None => None,
            },
        }
    }
}

} // verus!
