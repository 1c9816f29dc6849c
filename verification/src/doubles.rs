//! Verified test doubles, one per collaborator interface.  Each is
//! configured with plain values, behaves deterministically, and records
//! what it was asked to do, so tests can drive the pipeline end to end
//! and watch every side effect.

use vstd::prelude::*;

use crate::archiver::ArchiverState;
use crate::util::EventSink;
use crate::util::FetchError;
use crate::util::Metadata;
use crate::util::MetadataExtractor;
use crate::util::MetadataView;
use crate::util::ProcessOutputView;
use crate::util::QueueError;
use crate::util::ExtractionError;
use crate::util::TaskConsumeResponse;
use crate::util::TaskInsertResponse;
use crate::util::TaskListResponse;
use crate::util::TaskQueue;
use crate::util::TransferError;
use crate::util::Uploader;
use crate::util::VideoDownloadResult;
use crate::util::VideoDownloader;
use crate::util::WorkdirError;
use crate::util::Workspace;

verus! {

/// A queue holding one task, handed out on every `consume` (or failing
/// outright when `fail` is set), and remembering every requeued payload.
pub struct MockTasq {
    pub key: String,
    pub data: String,
    pub fail: bool,
    pub insert_log: Vec<String>,
}

impl TaskQueue for MockTasq {
    open spec fn consume_reply(&self) -> Option<(Seq<char>, Seq<char>)> {
        if self.fail {
            Option::None
        } else {
            Option::Some((self.key@, self.data@))
        }
    }

    open spec fn insert_calls(&self) -> Seq<Seq<char>> {
        self.insert_log@.map_values(|s: String| s@)
    }

    fn insert(&mut self, data: String) -> (r: Result<TaskInsertResponse, QueueError>) {
        let key = self.key.clone();
        let ghost data_view = data@;
        self.insert_log.push(data);
        proof {
            assert(self.insert_log@.map_values(|s: String| s@) =~= old(
                self,
            ).insert_log@.map_values(|s: String| s@).push(data_view));
        }
        Ok(TaskInsertResponse { key })
    }

    fn list(&mut self) -> (r: Result<TaskListResponse, QueueError>) {
        let mut tasks: Vec<String> = Vec::new();
        tasks.push(self.key.clone());
        Ok(TaskListResponse { tasks, count: 1 })
    }

    fn consume(&mut self) -> (r: Result<TaskConsumeResponse, QueueError>) {
        if self.fail {
            Err(QueueError { message: String::from_str("queue unreachable") })
        } else {
            Ok(TaskConsumeResponse { key: self.key.clone(), data: self.data.clone() })
        }
    }
}

/// A fetcher that replies with a fixed outcome (or, when configured with
/// none, fails to start) and records every URL it was asked for.
pub struct MockYTDL {
    pub reply: Option<VideoDownloadResult>,
    pub calls: Vec<String>,
}

impl VideoDownloader for MockYTDL {
    open spec fn download_reply(&self) -> Option<ProcessOutputView> {
        match self.reply {
            Option::Some(v) => Option::Some(v@),
            Option::None => Option::None,
        }
    }

    open spec fn download_calls(&self) -> Seq<Seq<char>> {
        self.calls@.map_values(|s: String| s@)
    }

    fn download(&mut self, url: &str, workdir: &str) -> (r: Result<
        VideoDownloadResult,
        FetchError,
    >) {
        self.calls.push(url.to_owned());
        proof {
            assert(self.calls@.map_values(|s: String| s@) =~= old(self).calls@.map_values(
                |s: String| s@,
            ).push(url@));
        }
        match &self.reply {
            Option::Some(v) => Ok(v.duplicate()),
            Option::None => Err(FetchError { message: String::from_str("spawn failed") }),
        }
    }
}

/// An extractor that hands out its prepared record once; asked again, or
/// prepared with none, it fails.
pub struct MockMetadataExtractor {
    pub reply: Option<Metadata>,
    pub calls: Ghost<nat>,
}

impl MockMetadataExtractor {
    pub fn new(reply: Option<Metadata>) -> (r: MockMetadataExtractor)
        ensures
            r.reply == reply,
            r.calls@ == 0,
    {
        MockMetadataExtractor { reply, calls: Ghost(0) }
    }
}

impl MetadataExtractor for MockMetadataExtractor {
    open spec fn extract_reply(&self) -> Option<MetadataView> {
        match self.reply {
            Option::Some(m) => Option::Some(m@),
            Option::None => Option::None,
        }
    }

    open spec fn extract_calls(&self) -> nat {
        self.calls@
    }

    fn extract(&mut self, workdir: &str) -> (r: Result<Metadata, ExtractionError>) {
        self.calls = Ghost(self.calls@ + 1);
        match self.reply.take() {
            Option::Some(m) => Ok(m),
            Option::None => Err(
                ExtractionError { message: String::from_str("no metadata to extract") },
            ),
        }
    }
}

/// An uploader that succeeds or fails as configured and records every
/// (source, target) pair handed to it.
pub struct MockRclone {
    pub ok: bool,
    pub upload_log: Vec<(String, String)>,
}

impl Uploader for MockRclone {
    open spec fn upload_ok(&self) -> bool {
        self.ok
    }

    open spec fn upload_calls(&self) -> Seq<(Seq<char>, Seq<char>)> {
        self.upload_log@.map_values(|p: (String, String)| (p.0@, p.1@))
    }

    fn upload(&mut self, source_dir: &str, target_dir: &str) -> (r: Result<(), TransferError>) {
        self.upload_log.push((source_dir.to_owned(), target_dir.to_owned()));
        proof {
            assert(self.upload_log@.map_values(|p: (String, String)| (p.0@, p.1@)) =~= old(
                self,
            ).upload_log@.map_values(|p: (String, String)| (p.0@, p.1@)).push(
                (source_dir@, target_dir@),
            ));
        }
        if self.ok {
            Ok(())
        } else {
            Err(TransferError { message: String::from_str("transfer refused") })
        }
    }
}

/// A scratch-directory manager with a single directory named "work",
/// handed out while free and failing while in use (or always, when
/// configured to fail).
pub struct MockWorkspace {
    pub in_use: bool,
    pub fail: bool,
}

impl Workspace for MockWorkspace {
    open spec fn live_dirs(&self) -> Set<Seq<char>> {
        if self.in_use {
            Set::empty().insert("work"@)
        } else {
            Set::empty()
        }
    }

    open spec fn next_dir(&self) -> Seq<char> {
        "work"@
    }

    open spec fn create_ok(&self) -> bool {
        !self.fail && !self.in_use
    }

    fn create(&mut self) -> (r: Result<String, WorkdirError>) {
        if self.fail || self.in_use {
            Err(WorkdirError { message: String::from_str("no scratch directory") })
        } else {
            self.in_use = true;
            proof {
                assert(self.live_dirs() =~= old(self).live_dirs().insert("work"@));
            }
            Ok(String::from_str("work"))
        }
    }

    fn remove(&mut self, dir: &str) {
        if crate::text::str_eq(dir, "work") {
            self.in_use = false;
        }
        proof {
            assert(self.live_dirs() =~= old(self).live_dirs().remove(dir@));
        }
    }
}

/// A catalog that answers the idempotency check as configured (or fails
/// it), accepts or refuses registrations as configured, and records every
/// id handed to `archive`.
pub struct MockArchiveSite {
    pub archived: bool,
    pub check_fails: bool,
    pub ok: bool,
    pub archive_log: Vec<String>,
}

impl crate::util::ArchiveSite for MockArchiveSite {
    open spec fn archived_reply(&self, id: Seq<char>) -> Option<bool> {
        if self.check_fails {
            Option::None
        } else {
            Option::Some(self.archived)
        }
    }

    open spec fn archive_ok(&self) -> bool {
        self.ok
    }

    open spec fn archive_calls(&self) -> Seq<Seq<char>> {
        self.archive_log@.map_values(|s: String| s@)
    }

    fn is_archived(&mut self, id: &str) -> (r: Result<bool, crate::util::CatalogError>) {
        if self.check_fails {
            Err(crate::util::CatalogError { message: String::from_str("catalog unreachable") })
        } else {
            Ok(self.archived)
        }
    }

    fn archive(&mut self, id: &str, metadata: &Metadata) -> (r: Result<
        (),
        crate::util::CatalogError,
    >) {
        self.archive_log.push(id.to_owned());
        proof {
            assert(self.archive_log@.map_values(|s: String| s@) =~= old(
                self,
            ).archive_log@.map_values(|s: String| s@).push(id@));
        }
        if self.ok {
            Ok(())
        } else {
            Err(crate::util::CatalogError { message: String::from_str("registration refused") })
        }
    }
}

/// A self-installing tool whose probe and installer behave as configured.
pub struct MockTool {
    pub present: bool,
    pub install_works: bool,
}

impl crate::util::SelfInstallable for MockTool {
    open spec fn installed(&self) -> bool {
        self.present
    }

    open spec fn install_ok(&self) -> bool {
        self.install_works
    }

    fn is_installed(&self) -> (r: bool) {
        self.present
    }

    fn install(&mut self) -> (r: Result<(), crate::util::InstallError>) {
        if self.install_works {
            self.present = true;
            Ok(())
        } else {
            Err(
                crate::util::InstallError::Failed {
                    message: String::from_str("download failed"),
                },
            )
        }
    }
}

/// An event sink that keeps every published state, in order.
pub struct VecEventSink {
    pub log: Vec<ArchiverState>,
}

impl VecEventSink {
    pub fn new() -> (r: VecEventSink)
        ensures
            r.log@ == Seq::<ArchiverState>::empty(),
    {
        VecEventSink { log: Vec::new() }
    }
}

impl EventSink for VecEventSink {
    open spec fn events(&self) -> Seq<ArchiverState> {
        self.log@
    }

    fn publish(&mut self, state: ArchiverState) {
        self.log.push(state);
    }
}

} // verus!
