//! Release listings as the tool installers read them: a release carries a
//! tag and a set of named assets, and an installer picks the first asset
//! whose name ends in its platform's suffix.

use vstd::prelude::*;

use crate::text::ends_with;
use crate::text::str_ends_with;

verus! {

/// One downloadable file of a release.
#[derive(Debug)]
pub struct Asset {
    pub name: String,
    pub browser_download_url: String,
}

/// A published release: its tag and its assets.
#[derive(Debug)]
pub struct Release {
    pub tag_name: String,
    pub assets: Vec<Asset>,
}

/// The index of the first asset whose name ends in `suffix`.
pub fn find_asset(assets: &Vec<Asset>, suffix: &str) -> (r: Option<usize>)
    ensures
        r matches Some(i) ==> i < assets@.len() && ends_with(assets@[i as int].name@, suffix@) && (
        forall|j: int| 0 <= j < i ==> !ends_with(assets@[j].name@, suffix@)),
        r is None ==> forall|j: int| 0 <= j < assets@.len() ==> !ends_with(assets@[j].name@, suffix@),
{
    let mut i: usize = 0;
    while i < assets.len()
        invariant
            0 <= i <= assets@.len(),
            forall|j: int| 0 <= j < i ==> !ends_with(assets@[j].name@, suffix@),
        decreases assets@.len() - i,
    {
        if str_ends_with(assets[i].name.as_str(), suffix) {
            return Some(i);
        }
        i += 1;
    }
    None
}

} // verus!
