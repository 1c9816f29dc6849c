//! The media fetcher: where its binaries live, the exact command lines of
//! the primary (video) and secondary (live chat) fetches, the
//! per-architecture download locations of its tools, and the rule that
//! combines the two concurrent fetch outcomes.

use vstd::prelude::*;

use crate::util::FetchError;
use crate::util::InstallError;
use crate::util::ProcessOutput;
use crate::util::VideoDownloadResult;
use crate::text::str_eq;

verus! {

/// The fetcher's configuration: where its tools are kept and which proof
///-of-origin server its requests go through.
pub struct YTDL {
    pub ytdlp_path: String,
    pub ffmpeg_path: String,
    pub pot_plugin_path: String,
    pub pot_server_url: String,
    pub deno_path: String,
}

/// How the two concurrent fetch outcomes combine: the primary outcome
/// alone decides.  A primary that could not be started is the error; a
/// primary that ran is the result, whatever its exit code.  The secondary
/// outcome is not consulted.
pub open spec fn resolved_fetch(
    video: Result<ProcessOutput, FetchError>,
    live_chat: Result<ProcessOutput, FetchError>,
) -> Result<VideoDownloadResult, FetchError> {
    match video {
        Result::Ok(o) => Result::Ok(VideoDownloadResult { output: o }),
        Result::Err(e) => Result::Err(e),
    }
}

/// The secondary fetch deserves a warning in the log: it could not be
/// started or did not exit cleanly.
pub open spec fn secondary_warns(live_chat: Result<ProcessOutput, FetchError>) -> bool {
    !(live_chat matches Ok(o) && o@.success())
}

/// Combine the outcomes of the primary and the secondary fetch.
pub fn resolve_fetch(
    video: Result<ProcessOutput, FetchError>,
    live_chat: Result<ProcessOutput, FetchError>,
) -> (r: Result<VideoDownloadResult, FetchError>)
    ensures
        r == resolved_fetch(video, live_chat),
{
    let _ = live_chat;
    match video {
        Ok(o) => Ok(VideoDownloadResult { output: o }),
        Err(e) => Err(e),
    }
}

/// Whether the secondary fetch's outcome is worth a warning; it degrades
/// the unit of work, never fails it.
pub fn secondary_warning(live_chat: &Result<ProcessOutput, FetchError>) -> (r: bool)
    ensures
        r == secondary_warns(*live_chat),
{
    match live_chat {
        Ok(o) => !o.success(),
        Err(_) => true,
    }
}

/// A secondary outcome never changes what the fetch returns; only the
/// primary outcome does.
pub proof fn lemma_secondary_fetch_never_decides(
    video: Result<ProcessOutput, FetchError>,
    live_chat_a: Result<ProcessOutput, FetchError>,
    live_chat_b: Result<ProcessOutput, FetchError>,
)
    ensures
        resolved_fetch(video, live_chat_a) == resolved_fetch(video, live_chat_b),
{
}

impl YTDL {
    /// The fetcher keeps its tools in the cache directory and its plugin
    /// in the plugins directory.
    pub fn new(cache_dir: &str, plugins_dir: &str, pot_server_url: String) -> (r: YTDL)
        ensures
            r.ytdlp_path@ == cache_dir@ + "/yt-dlp"@,
            r.ffmpeg_path@ == cache_dir@ + "/ffmpeg"@,
            r.pot_plugin_path@ == plugins_dir@ + "/yt-dlp-get-pot.zip"@,
            r.deno_path@ == cache_dir@ + "/deno"@,
            r.pot_server_url == pot_server_url,
    {
        YTDL {
            ytdlp_path: String::from_str(cache_dir).concat("/yt-dlp"),
            ffmpeg_path: String::from_str(cache_dir).concat("/ffmpeg"),
            pot_plugin_path: String::from_str(plugins_dir).concat("/yt-dlp-get-pot.zip"),
            pot_server_url,
            deno_path: String::from_str(cache_dir).concat("/deno"),
        }
    }

    /// The argument list of the primary fetch: full media with subtitles,
    /// thumbnail, comments and info record, everything embedded, merged
    /// into one file named after the video id.
    pub open spec fn video_args_spec(&self, url: Seq<char>) -> Seq<Seq<char>> {
        seq![
            "-f"@,
            "bestvideo+bestaudio"@,
            "--ffmpeg-location"@,
            self.ffmpeg_path@,
            "--extractor-args"@,
            "youtube:getpot_bgutil_baseurl="@ + self.pot_server_url@,
            "--write-subs"@,
            "--sub-format"@,
            "srv3/best"@,
            "--sub-langs"@,
            "all,-live_chat"@,
            "--match-filter"@,
            "!is_live & !is_upcoming"@,
            "--write-thumbnail"@,
            "--write-comments"@,
            "--write-info-json"@,
            "--embed-subs"@,
            "--embed-metadata"@,
            "--embed-info-json"@,
            "--embed-chapters"@,
            "--merge-output-format"@,
            "webm/mp4/mkv"@,
            "--output"@,
            "%(id)s.%(ext)s"@,
            url,
        ]
    }

    /// The argument list of the secondary fetch: no media, only the live
    /// chat subtitle stream as JSON.
    pub open spec fn live_chat_args_spec(&self, url: Seq<char>) -> Seq<Seq<char>> {
        seq![
            "--extractor-args"@,
            "youtubepot-bgutilhttp:base_url=="@ + self.pot_server_url@,
            "--ffmpeg-location"@,
            self.ffmpeg_path@,
            "--skip-download"@,
            "--write-subs"@,
            "--match-filter"@,
            "!is_live & !is_upcoming"@,
            "--sub-langs"@,
            "live_chat"@,
            "--sub-format"@,
            "json"@,
            "--output"@,
            "%(id)s.%(ext)s"@,
            url,
        ]
    }

    /// Build the primary fetch's command line for `url`.
    pub fn video_args(&self, url: &str) -> (r: Vec<String>)
        ensures
            r@.map_values(|s: String| s@) == self.video_args_spec(url@),
    {
        let mut v: Vec<String> = Vec::new();
        v.push(String::from_str("-f"));
        v.push(String::from_str("bestvideo+bestaudio"));
        v.push(String::from_str("--ffmpeg-location"));
        v.push(self.ffmpeg_path.clone());
        v.push(String::from_str("--extractor-args"));
        v.push(
            String::from_str("youtube:getpot_bgutil_baseurl=").concat(self.pot_server_url.as_str()),
        );
        v.push(String::from_str("--write-subs"));
        v.push(String::from_str("--sub-format"));
        v.push(String::from_str("srv3/best"));
        v.push(String::from_str("--sub-langs"));
        v.push(String::from_str("all,-live_chat"));
        v.push(String::from_str("--match-filter"));
        v.push(String::from_str("!is_live & !is_upcoming"));
        v.push(String::from_str("--write-thumbnail"));
        v.push(String::from_str("--write-comments"));
        v.push(String::from_str("--write-info-json"));
        v.push(String::from_str("--embed-subs"));
        v.push(String::from_str("--embed-metadata"));
        v.push(String::from_str("--embed-info-json"));
        v.push(String::from_str("--embed-chapters"));
        v.push(String::from_str("--merge-output-format"));
        v.push(String::from_str("webm/mp4/mkv"));
        v.push(String::from_str("--output"));
        v.push(String::from_str("%(id)s.%(ext)s"));
        v.push(String::from_str(url));
        proof {
            assert(v@.map_values(|s: String| s@) =~= self.video_args_spec(url@));
        }
        v
    }

    /// Build the secondary fetch's command line for `url`.
    pub fn live_chat_args(&self, url: &str) -> (r: Vec<String>)
        ensures
            r@.map_values(|s: String| s@) == self.live_chat_args_spec(url@),
    {
        let mut v: Vec<String> = Vec::new();
        v.push(String::from_str("--extractor-args"));
        v.push(
            String::from_str("youtubepot-bgutilhttp:base_url==").concat(
                self.pot_server_url.as_str(),
            ),
        );
        v.push(String::from_str("--ffmpeg-location"));
        v.push(self.ffmpeg_path.clone());
        v.push(String::from_str("--skip-download"));
        v.push(String::from_str("--write-subs"));
        v.push(String::from_str("--match-filter"));
        v.push(String::from_str("!is_live & !is_upcoming"));
        v.push(String::from_str("--sub-langs"));
        v.push(String::from_str("live_chat"));
        v.push(String::from_str("--sub-format"));
        v.push(String::from_str("json"));
        v.push(String::from_str("--output"));
        v.push(String::from_str("%(id)s.%(ext)s"));
        v.push(String::from_str(url));
        proof {
            assert(v@.map_values(|s: String| s@) =~= self.live_chat_args_spec(url@));
        }
        v
    }
}

/// Where the fetcher's tools are downloaded from, for the running CPU
/// architecture: the fetcher itself, a static ffmpeg build, and the deno
/// runtime its plugin needs.  An architecture without builds is a fatal,
/// non-retryable error.
pub fn ytdl_release_urls(arch: &str) -> (r: Result<
    (&'static str, &'static str, &'static str),
    InstallError,
>)
    ensures
        arch@ == "x86_64"@ ==> (r matches Ok(u)
            && u.0@ == "https://github.com/yt-dlp/yt-dlp/releases/latest/download/yt-dlp_linux"@
            && u.1@
            == "https://github.com/eugeneware/ffmpeg-static/releases/download/b5.0.1/linux-x64"@
            && u.2@
            == "https://github.com/denoland/deno/releases/download/v2.6.3/deno-x86_64-unknown-linux-gnu.zip"@),
        arch@ == "aarch64"@ ==> (r matches Ok(u) && u.0@
            == "https://github.com/yt-dlp/yt-dlp/releases/latest/download/yt-dlp_linux_aarch64"@
            && u.1@
            == "https://github.com/eugeneware/ffmpeg-static/releases/download/b5.0.1/linux-arm64"@
            && u.2@
            == "https://github.com/denoland/deno/releases/download/v2.6.3/deno-aarch64-unknown-linux-gnu.zip"@),
        r is Err <==> (arch@ != "x86_64"@ && arch@ != "aarch64"@),
        r matches Err(e) ==> e is UnsupportedArchitecture,
{
    proof {
        reveal_strlit("x86_64");
        reveal_strlit("aarch64");
        assert("x86_64"@.len() == 6);
        assert("aarch64"@.len() == 7);
        assert("x86_64"@ != "aarch64"@);
    }
    if str_eq(arch, "x86_64") {
        Ok(
            (
                "https://github.com/yt-dlp/yt-dlp/releases/latest/download/yt-dlp_linux",
                "https://github.com/eugeneware/ffmpeg-static/releases/download/b5.0.1/linux-x64",
                "https://github.com/denoland/deno/releases/download/v2.6.3/deno-x86_64-unknown-linux-gnu.zip",
            ),
        )
    } else if str_eq(arch, "aarch64") {
        Ok(
            (
                "https://github.com/yt-dlp/yt-dlp/releases/latest/download/yt-dlp_linux_aarch64",
                "https://github.com/eugeneware/ffmpeg-static/releases/download/b5.0.1/linux-arm64",
                "https://github.com/denoland/deno/releases/download/v2.6.3/deno-aarch64-unknown-linux-gnu.zip",
            ),
        )
    } else {
        Err(InstallError::UnsupportedArchitecture)
    }
}

/// Where the fetcher's proof-of-origin plugin is downloaded from, on
/// every architecture.
pub fn pot_plugin_url() -> (r: &'static str)
    ensures
        r@
            == "https://github.com/Brainicism/bgutil-ytdlp-pot-provider/releases/download/1.2.2/bgutil-ytdlp-pot-provider.zip"@,
{
    "https://github.com/Brainicism/bgutil-ytdlp-pot-provider/releases/download/1.2.2/bgutil-ytdlp-pot-provider.zip"
}

} // verus!
