//! Building the normalized metadata record out of the fetch byproducts:
//! the parsed info record, the artifact listing, the looked-up timestamps
//! and the archival moment.

use vstd::prelude::*;

use crate::text::ends_with;
use crate::text::find_with_suffix;
use crate::util::ExtractionError;
use crate::util::Metadata;
use crate::util::MetadataFileEntry;
use crate::util::MetadataTimestamps;

verus! {

/// The fields read out of the fetcher's per-video info record.
#[derive(Debug)]
pub struct InfoJson {
    pub id: String,
    pub uploader: String,
    pub channel_id: String,
    pub upload_date: String,
    pub title: String,
    pub description: String,
    pub duration: u64,
    pub width: i32,
    pub height: i32,
    pub fps: i32,
    pub format_id: String,
    pub view_count: u64,
    pub like_count: u64,
    pub dislike_count: Option<i64>,
}

/// One item of the timestamp lookup's reply.
#[derive(Debug)]
pub struct TimestampsSnippet {
    pub published_at: Option<String>,
}

#[derive(Debug)]
pub struct TimestampsLiveDetails {
    pub scheduled_start_time: Option<String>,
    pub actual_start_time: Option<String>,
    pub actual_end_time: Option<String>,
}

#[derive(Debug)]
pub struct TimestampsItem {
    pub live_streaming_details: Option<TimestampsLiveDetails>,
    pub snippet: Option<TimestampsSnippet>,
}

/// A date of the form YYYYMMDD rewritten as YYYY-MM-DD.  A shorter input
/// keeps its characters, with the dashes placed after what is there of
/// the year and the month; anything past the eighth character is cut.
pub open spec fn fixed_upload_date(s: Seq<char>) -> Seq<char> {
    let a = if s.len() < 4 {
        s.len() as int
    } else {
        4int
    };
    let b = if s.len() < 6 {
        s.len() as int
    } else {
        6int
    };
    let c = if s.len() < 8 {
        s.len() as int
    } else {
        8int
    };
    s.subrange(0, a) + "-"@ + s.subrange(a, b) + "-"@ + s.subrange(b, c)
}

/// Convert YYYYMMDD to YYYY-MM-DD.
pub fn fix_upload_date(date: &str) -> (r: String)
    ensures
        r@ == fixed_upload_date(date@),
{
    let n = date.unicode_len();
    let a: usize = if n < 4 {
        n
    } else {
        4
    };
    let b: usize = if n < 6 {
        n
    } else {
        6
    };
    let c: usize = if n < 8 {
        n
    } else {
        8
    };
    let year = date.substring_char(0, a);
    let month = date.substring_char(a, b);
    let day = date.substring_char(b, c);
    String::from_str(year).concat("-").concat(month).concat("-").concat(day)
}

/// The first name in `names` that looks like the fetcher's info record
/// (`*.info.json`); its absence means extraction cannot proceed.
pub fn find_info_json(names: &Vec<String>) -> (r: Result<usize, ExtractionError>)
    ensures
        r matches Ok(i) ==> i < names@.len() && ends_with(names@[i as int]@, ".info.json"@) && (
        forall|j: int| 0 <= j < i ==> !ends_with(names@[j]@, ".info.json"@)),
        r is Err <==> forall|j: int|
            0 <= j < names@.len() ==> !ends_with(names@[j]@, ".info.json"@),
{
    match find_with_suffix(names, ".info.json") {
        Some(i) => Ok(i),
        None => Err(
            ExtractionError { message: String::from_str("Could not find info.json") },
        ),
    }
}

/// The timestamps of the first item of the lookup's reply; an empty reply
/// is an extraction failure.
pub fn timestamps_from_items(items: Vec<TimestampsItem>) -> (r: Result<
    MetadataTimestamps,
    ExtractionError,
>)
    ensures
        r is Ok <==> items@.len() > 0,
        r matches Ok(t) ==> {
            &&& t.published_at == match items@[0].snippet {
                Option::Some(s) => s.published_at,
                Option::None => Option::<String>::None,
            }
            &&& t.scheduled_start_time == match items@[0].live_streaming_details {
                Option::Some(d) => d.scheduled_start_time,
                Option::None => Option::<String>::None,
            }
            &&& t.actual_start_time == match items@[0].live_streaming_details {
                Option::Some(d) => d.actual_start_time,
                Option::None => Option::<String>::None,
            }
            &&& t.actual_end_time == match items@[0].live_streaming_details {
                Option::Some(d) => d.actual_end_time,
                Option::None => Option::<String>::None,
            }
        },
{
    let mut items = items;
    if items.len() == 0 {
        return Err(ExtractionError { message: String::from_str("No items in response") });
    }
    let item = items.remove(0);
    let (published_at, scheduled_start_time, actual_start_time, actual_end_time) = match item {
        TimestampsItem { live_streaming_details: Option::Some(d), snippet: Option::Some(s) } => (
            s.published_at,
            d.scheduled_start_time,
            d.actual_start_time,
            d.actual_end_time,
        ),
        TimestampsItem { live_streaming_details: Option::Some(d), snippet: Option::None } => (
            Option::None,
            d.scheduled_start_time,
            d.actual_start_time,
            d.actual_end_time,
        ),
        TimestampsItem { live_streaming_details: Option::None, snippet: Option::Some(s) } => (
            s.published_at,
            Option::None,
            Option::None,
            Option::None,
        ),
        TimestampsItem { live_streaming_details: Option::None, snippet: Option::None } => (
            Option::None,
            Option::None,
            Option::None,
            Option::None,
        ),
    };
    Ok(
        MetadataTimestamps {
            actual_start_time,
            published_at,
            scheduled_start_time,
            actual_end_time,
        },
    )
}

/// Map the info record, the artifact listing and the timestamps onto the
/// record registered with the catalog.  The upload date is normalized and
/// a missing dislike count becomes -1.
pub fn build_metadata(
    info: InfoJson,
    files: Vec<MetadataFileEntry>,
    drive_base: String,
    archived_timestamp: String,
    timestamps: MetadataTimestamps,
) -> (m: Metadata)
    ensures
        m.video_id == info.id,
        m.channel_name == info.uploader,
        m.channel_id == info.channel_id,
        m.upload_date@ == fixed_upload_date(info.upload_date@),
        m.title == info.title,
        m.description == info.description,
        m.duration == info.duration,
        m.width == info.width,
        m.height == info.height,
        m.fps == info.fps,
        m.format_id == info.format_id,
        m.view_count == info.view_count,
        m.like_count == info.like_count,
        m.dislike_count == match info.dislike_count {
            Option::Some(d) => d,
            Option::None => -1i64,
        },
        m.files == files,
        m.drive_base == drive_base,
        m.archived_timestamp == archived_timestamp,
        m.timestamps == Option::Some(timestamps),
{
    let upload_date = fix_upload_date(info.upload_date.as_str());
    let dislike_count = match info.dislike_count {
        Option::Some(d) => d,
        Option::None => -1,
    };
    Metadata {
        video_id: info.id,
        channel_name: info.uploader,
        channel_id: info.channel_id,
        upload_date,
        title: info.title,
        description: info.description,
        duration: info.duration,
        width: info.width,
        height: info.height,
        fps: info.fps,
        format_id: info.format_id,
        view_count: info.view_count,
        like_count: info.like_count,
        dislike_count,
        files,
        drive_base,
        archived_timestamp,
        timestamps: Option::Some(timestamps),
    }
}

} // verus!
