//! The catalog's answers as the pipeline reads them, and the stand-in
//! catalog used when no real one is configured.

use vstd::prelude::*;

use crate::util::ArchiveSite;
use crate::util::CatalogError;
use crate::util::Metadata;

verus! {

/// How the catalog's search reply is read: the video counts as archived
/// when the search returned any hit at all.
pub fn search_indicates_archived(total_hits: u64) -> (r: bool)
    ensures
        r == (total_hits > 0),
{
    total_hits > 0
}

/// A stand-in catalog: it reports nothing as archived and accepts every
/// registration, remembering what it was handed.
pub struct MockRagtag {
    pub archive_log: Vec<String>,
}

impl MockRagtag {
    pub fn new() -> (r: MockRagtag)
        ensures
            r.archive_log@ == Seq::<String>::empty(),
    {
        MockRagtag { archive_log: Vec::new() }
    }
}

impl ArchiveSite for MockRagtag {
    open spec fn archived_reply(&self, id: Seq<char>) -> Option<bool> {
        Some(false)
    }

    open spec fn archive_ok(&self) -> bool {
        true
    }

    open spec fn archive_calls(&self) -> Seq<Seq<char>> {
        self.archive_log@.map_values(|s: String| s@)
    }

    fn is_archived(&mut self, id: &str) -> (r: Result<bool, CatalogError>) {
        Ok(false)
    }

    fn archive(&mut self, id: &str, metadata: &Metadata) -> (r: Result<(), CatalogError>) {
        self.archive_log.push(id.to_owned());
        proof {
            assert(self.archive_log@.map_values(|s: String| s@) =~= old(
                self,
            ).archive_log@.map_values(|s: String| s@).push(id@));
        }
        Ok(())
    }
}

} // verus!
