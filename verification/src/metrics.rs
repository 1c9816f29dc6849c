//! The metrics endpoint's text: one gauge per archiver state, exactly one
//! of them set, and the cache directory's size in bytes.

use vstd::prelude::*;

use crate::archiver::ArchiverState;
use crate::text::dec_digits;
use crate::text::u64_to_dec;

verus! {

/// One state gauge line: 1 for the current state, 0 for every other.
pub open spec fn state_line_spec(current: ArchiverState, state: ArchiverState) -> Seq<char> {
    "archivebot_state{state=\""@ + state.label_spec() + "\"} "@ + (if current == state {
        "1"@
    } else {
        "0"@
    }) + "\n"@
}

/// The whole metrics text: the five state gauges in their fixed order,
/// then the cache directory size gauge.
pub open spec fn metrics_text_spec(current: ArchiverState, cache_dir_size: u64) -> Seq<char> {
    state_line_spec(current, ArchiverState::Idle) + state_line_spec(
        current,
        ArchiverState::Starting,
    ) + state_line_spec(current, ArchiverState::FailureBackoff) + state_line_spec(
        current,
        ArchiverState::Downloading,
    ) + state_line_spec(current, ArchiverState::Uploading) + "archivebot_cache_dir_size_bytes "@
        + dec_digits(cache_dir_size as int) + "\n"@
}

fn state_line(current: ArchiverState, state: ArchiverState) -> (r: String)
    ensures
        r@ == state_line_spec(current, state),
{
    let value = if current == state {
        "1"
    } else {
        "0"
    };
    String::from_str("archivebot_state{state=\"").concat(state.label()).concat("\"} ").concat(
        value,
    ).concat("\n")
}

/// Render the point-in-time metrics for the current state and the cache
/// directory's on-disk size.
pub fn generate_metrics(current: ArchiverState, cache_dir_size: u64) -> (r: String)
    ensures
        r@ == metrics_text_spec(current, cache_dir_size),
{
    let size = u64_to_dec(cache_dir_size);
    state_line(current, ArchiverState::Idle).concat(
        state_line(current, ArchiverState::Starting).as_str(),
    ).concat(state_line(current, ArchiverState::FailureBackoff).as_str()).concat(
        state_line(current, ArchiverState::Downloading).as_str(),
    ).concat(state_line(current, ArchiverState::Uploading).as_str()).concat(
        "archivebot_cache_dir_size_bytes ",
    ).concat(size.as_str()).concat("\n")
}

} // verus!
