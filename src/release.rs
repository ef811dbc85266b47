//! Decisions for packages whose updates come from a hosted repository's releases.
use vstd::prelude::*;
use crate::text::{ends_with, find_char, slice_string};
use crate::error::UpdateError;
use crate::install::opt_view;

verus! {

/// A version-prefix letter.
pub open spec fn is_prefix_letter(c: char) -> bool {
    c == 'v' || c == 'V'
}

/// A release tag with its leading version-prefix letter, if any, removed.
pub open spec fn normalize_spec(tag: Seq<char>) -> Seq<char> {
    if tag.len() > 0 && is_prefix_letter(tag[0]) {
        tag.subrange(1, tag.len() as int)
    } else {
        tag
    }
}

/// The version that a release tag names.
pub fn normalize_tag(tag: &str) -> (r: String)
    ensures
        r@ == normalize_spec(tag@),
{
    let n = tag.unicode_len();
    if n > 0 {
        let c = tag.get_char(0);
        if c == 'v' || c == 'V' {
            return slice_string(tag, 1, n);
        }
    }
    let r = String::from_str(tag);
    r
}

/// The `owner/repo` split of a repository id, at its first `/`.
pub open spec fn split_repo_spec(id: Seq<char>) -> Option<(Seq<char>, Seq<char>)> {
    match crate::text::first_index(id, '/') {
        Some(i) => Some((id.subrange(0, i), id.subrange(i + 1, id.len() as int))),
        None => None,
    }
}

/// Splits a repository id into owner and repository name.
pub fn split_repo(id: &str) -> (r: Result<(String, String), UpdateError>)
    ensures
        split_repo_spec(id@) matches Some(p) ==> (r matches Ok(q) && q.0@ == p.0 && q.1@ == p.1),
        split_repo_spec(id@) is None ==> (r matches Err(UpdateError::Malformed(m)) && m@ == "Invalid GitHub repo"@),
{
    match find_char(id, '/') {
        Some(i) => {
            let n = id.unicode_len();
            Ok((slice_string(id, 0, i), slice_string(id, i + 1, n)))
        },
        None => Err(UpdateError::Malformed(String::from_str("Invalid GitHub repo"))),
    }
}

/// An asset name of the archive kind that can be installed.
pub open spec fn is_archive_name(name: Seq<char>) -> bool {
    name.len() >= 4 && name.subrange(name.len() - 4, name.len() as int) == ".zip"@
}

/// The installable asset names among `names`, in order.
pub open spec fn archive_names(names: Seq<Seq<char>>) -> Seq<Seq<char>>
    decreases names.len(),
{
    if names.len() == 0 {
        Seq::empty()
    } else if is_archive_name(names.last()) {
        archive_names(names.drop_last()).push(names.last())
    } else {
        archive_names(names.drop_last())
    }
}

/// The names joined with `", "`.
pub open spec fn join_spec(parts: Seq<Seq<char>>) -> Seq<char>
    decreases parts.len(),
{
    if parts.len() == 0 {
        Seq::empty()
    } else if parts.len() == 1 {
        parts[0]
    } else {
        join_spec(parts.drop_last()) + ", "@ + parts.last()
    }
}

pub open spec fn views(v: Seq<String>) -> Seq<Seq<char>> {
    v.map_values(|s: String| s@)
}

proof fn lemma_archive_names_one(names: Seq<Seq<char>>, i: int)
    requires
        archive_names(names).len() == 1,
        0 <= i < names.len(),
        is_archive_name(names[i]),
        forall|k: int| 0 <= k < names.len() && k != i ==> !is_archive_name(#[trigger] names[k]),
    ensures
        archive_names(names)[0] == names[i],
    decreases names.len(),
{
    if i < names.len() - 1 {
        assert(names.drop_last()[i] == names[i]);
        assert forall|k: int| 0 <= k < names.drop_last().len() && k != i implies !is_archive_name(#[trigger] names.drop_last()[k]) by {
            assert(names.drop_last()[k] == names[k]);
        }
        lemma_archive_names_one(names.drop_last(), i);
    }
}

/// Picks the single installable asset of a release.
pub fn pick_asset(names: &Vec<String>) -> (r: Result<usize, UpdateError>)
    ensures
        archive_names(views(names@)).len() == 0 ==> (r matches Err(UpdateError::Ambiguous(m)) && m@ == "No valid release assets found"@),
        archive_names(views(names@)).len() == 1 ==> (r matches Ok(i) && i < names@.len() && names@[i as int]@ == archive_names(views(names@))[0]),
        archive_names(views(names@)).len() > 1 ==> (r matches Err(UpdateError::Ambiguous(m)) && m@ == "Multiple valid assets found: "@ + join_spec(archive_names(views(names@)))),
{
    let ghost all = views(names@);
    let mut found: Vec<String> = Vec::new();
    let mut joined = String::new();
    let mut last: usize = 0;
    let mut i: usize = 0;
    while i < names.len()
        invariant
            all == views(names@),
            i <= names@.len(),
            views(found@) == archive_names(all.take(i as int)),
            joined@ == join_spec(views(found@)),
            found@.len() > 0 ==> last < i && is_archive_name(all[last as int]),
            found@.len() == 0 ==> forall|k: int| 0 <= k < i ==> !is_archive_name(#[trigger] all[k]),
            found@.len() == 1 ==> forall|k: int| 0 <= k < i && k != last ==> !is_archive_name(#[trigger] all[k]),
        decreases names@.len() - i,
    {
        proof {
            assert(all.take(i + 1).drop_last() =~= all.take(i as int));
            assert(all.take(i + 1).last() == all[i as int]);
        }
        if ends_with(names[i].as_str(), ".zip") {
            proof {
                reveal_strlit(".zip");
            }
            if found.len() > 0 {
                joined.append(", ");
            }
            joined.append(names[i].as_str());
            let ghost before = found@;
            found.push(names[i].clone());
            proof {
                assert(views(found@) =~= views(before).push(all[i as int]));
                assert(views(found@).drop_last() =~= views(before));
            }
            last = i;
        } else {
            proof {
                reveal_strlit(".zip");
            }
        }
        i = i + 1;
    }
    assert(all.take(names@.len() as int) =~= all);
    if found.len() == 0 {
        Err(UpdateError::Ambiguous(String::from_str("No valid release assets found")))
    } else if found.len() == 1 {
        proof {
            lemma_archive_names_one(all, last as int);
        }
        Ok(last)
    } else {
        let mut m = String::from_str("Multiple valid assets found: ");
        m.append(joined.as_str());
        Err(UpdateError::Ambiguous(m))
    }
}

/// What to do once the latest release is known.
#[derive(Clone, Debug, PartialEq, Eq)]
pub enum ReleaseStep {
    /// The installed version is already the released one.
    UpToDate,
    /// Download the asset at this position; it installs this version.
    Fetch { asset: usize, version: String },
}

/// Decides, from the installed version and the latest release's tag and asset
/// names, whether to fetch and which asset; `force` disregards the versions.
pub fn release_step(installed: &Option<String>, force: bool, tag: &str, asset_names: &Vec<String>) -> (r: Result<ReleaseStep, UpdateError>)
    ensures
        !force && opt_view(*installed) == Some(normalize_spec(tag@)) ==> r matches Ok(ReleaseStep::UpToDate),
        !(!force && opt_view(*installed) == Some(normalize_spec(tag@))) ==> (match pick_asset_spec(views(asset_names@)) {
            Ok(i) => r matches Ok(ReleaseStep::Fetch { asset, version }) && asset == i && version@ == normalize_spec(tag@),
            Err(m) => r matches Err(UpdateError::Ambiguous(t)) && t@ == m,
        }),
{
    let version = normalize_tag(tag);
    if !force {
        match installed {
            Some(v) => {
                if crate::text::str_eq(v.as_str(), version.as_str()) {
                    return Ok(ReleaseStep::UpToDate);
                }
            },
            None => {},
        }
    }
    match pick_asset(asset_names) {
        Ok(i) => {
            proof {
                lemma_pick_unique(views(asset_names@), i as int);
            }
            Ok(ReleaseStep::Fetch { asset: i, version })
        },
        Err(e) => Err(e),
    }
}

/// The asset position that `pick_asset` gives, or the text of its failure.
pub open spec fn pick_asset_spec(names: Seq<Seq<char>>) -> Result<int, Seq<char>> {
    let found = archive_names(names);
    if found.len() == 0 {
        Err("No valid release assets found"@)
    } else if found.len() == 1 {
        Ok(choose|i: int| 0 <= i < names.len() && names[i] == found[0] && is_archive_name(names[i]))
    } else {
        Err("Multiple valid assets found: "@ + join_spec(found))
    }
}

proof fn lemma_archive_names_sound(names: Seq<Seq<char>>)
    ensures
        forall|k: int| 0 <= k < archive_names(names).len() ==> is_archive_name(#[trigger] archive_names(names)[k]),
        archive_names(names).len() <= names.len(),
    decreases names.len(),
{
    if names.len() > 0 {
        lemma_archive_names_sound(names.drop_last());
    }
}

/// Two installable positions give at least two installable names.
proof fn lemma_only_archive(names: Seq<Seq<char>>, i: int, j: int)
    requires
        0 <= i < j < names.len(),
        is_archive_name(names[i]),
        is_archive_name(names[j]),
    ensures
        archive_names(names).len() >= 2,
    decreases names.len(),
{
    let init = names.drop_last();
    if j == names.len() - 1 {
        assert(init[i] == names[i]);
        lemma_count_positive(init, i);
    } else {
        assert(init[i] == names[i]);
        assert(init[j] == names[j]);
        lemma_only_archive(init, i, j);
    }
}

proof fn lemma_count_positive(names: Seq<Seq<char>>, i: int)
    requires
        0 <= i < names.len(),
        is_archive_name(names[i]),
    ensures
        archive_names(names).len() >= 1,
    decreases names.len(),
{
    if i < names.len() - 1 {
        assert(names.drop_last()[i] == names[i]);
        lemma_count_positive(names.drop_last(), i);
    }
}

proof fn lemma_pick_unique(names: Seq<Seq<char>>, i: int)
    requires
        archive_names(names).len() == 1,
        0 <= i < names.len(),
        names[i] == archive_names(names)[0],
    ensures
        pick_asset_spec(names) == Ok::<int, Seq<char>>(i),
{
    lemma_archive_names_sound(names);
    let found = archive_names(names);
    assert(is_archive_name(found[0]));
    let j = choose|j: int| 0 <= j < names.len() && names[j] == found[0] && is_archive_name(names[j]);
    assert(0 <= i < names.len() && names[i] == found[0] && is_archive_name(names[i]));
    if j < i {
        lemma_only_archive(names, j, i);
    } else if i < j {
        lemma_only_archive(names, i, j);
    }
}

} // verus!
