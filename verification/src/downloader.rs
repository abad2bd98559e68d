//! The downloader value and its format policy: the pure mapping from a
//! (format, quality) pair to the concrete selector strings and bitrate codes
//! handed to the extraction tool, and validation of source URLs.
use vstd::prelude::*;
use vstd::string::StringExecFns;
use crate::text::contains_seq;
use crate::text::contains_str;
use crate::text::ends_with_seq;
use crate::text::str_eq;

verus! {

/// Quality tiers map to a video height ceiling in pixels; unknown tiers
/// default to 1080.
pub open spec fn height_for_quality(q: Seq<char>) -> u32 {
    if q == "best"@ {
        2160u32
    } else if q == "high"@ {
        1080u32
    } else if q == "medium"@ {
        720u32
    } else if q == "low"@ {
        480u32
    } else if q == "worst"@ {
        360u32
    } else {
        1080u32
    }
}

/// Audio bitrate code per quality tier; `0` asks the tool for its native
/// best, unknown tiers default to 192K.
pub open spec fn audio_quality_spec(q: Seq<char>) -> Seq<char> {
    if q == "best"@ {
        "0"@
    } else if q == "high"@ {
        "192K"@
    } else if q == "medium"@ {
        "128K"@
    } else if q == "low"@ {
        "96K"@
    } else if q == "worst"@ {
        "64K"@
    } else {
        "192K"@
    }
}

/// The lossless `wav` output always requests the tool's maximum quality,
/// whatever the quality tier says.
pub open spec fn wav_audio_quality_spec(q: Seq<char>) -> Seq<char> {
    "0"@
}

/// Tiered mp4 selector: prefer combined streams at or below the height
/// ceiling, matching the container when the tier is `best`, with a final
/// universal catch-all.
pub open spec fn mp4_selector_spec(q: Seq<char>) -> Seq<char> {
    if q == "best"@ {
        "bestvideo[height<=2160][ext=mp4]+bestaudio[ext=m4a]/bestvideo[height<=2160]+bestaudio/best[height<=2160]/best"@
    } else if q == "medium"@ {
        "bestvideo[height<=720]+bestaudio/best[height<=720]/bestvideo[height<=720]/best"@
    } else if q == "low"@ {
        "bestvideo[height<=480]+bestaudio/best[height<=480]/bestvideo[height<=480]/best"@
    } else if q == "worst"@ {
        "bestvideo[height<=360]+bestaudio/best[height<=360]/bestvideo[height<=360]/best"@
    } else {
        "bestvideo[height<=1080]+bestaudio/best[height<=1080]/bestvideo[height<=1080]/best"@
    }
}

/// Tiered webm selector, analogous to the mp4 one.
pub open spec fn webm_selector_spec(q: Seq<char>) -> Seq<char> {
    if q == "best"@ {
        "bestvideo[height<=2160][ext=webm]+bestaudio[ext=webm]/bestvideo[height<=2160]+bestaudio/best[height<=2160]/best"@
    } else if q == "medium"@ {
        "bestvideo[height<=720]+bestaudio/best[height<=720]/bestvideo[height<=720]/best"@
    } else if q == "low"@ {
        "bestvideo[height<=480]+bestaudio/best[height<=480]/bestvideo[height<=480]/best"@
    } else if q == "worst"@ {
        "bestvideo[height<=360]+bestaudio/best[height<=360]/bestvideo[height<=360]/best"@
    } else {
        "bestvideo[height<=1080]+bestaudio/best[height<=1080]/bestvideo[height<=1080]/best"@
    }
}

/// The maximally permissive selector used by the fallback attempt.
pub open spec fn fallback_selector_spec() -> Seq<char> {
    "best/worst"@
}

/// A URL is accepted when it points at a watch page, a short link, a
/// playlist or a shorts page of the supported video site.
pub open spec fn valid_url_spec(url: Seq<char>) -> bool {
    contains_seq(url, "youtube.com/watch"@) || contains_seq(url, "youtu.be/"@)
        || contains_seq(url, "youtube.com/playlist"@) || contains_seq(
        url,
        "youtube.com/shorts/"@,
    )
}

/// Orchestrates downloads into one output directory.
pub struct YouTubeDownloader {
    pub output_dir: String,
}

impl YouTubeDownloader {
    /// Creates a downloader writing into the given directory. Checking that
    /// the two external tools are installed is the caller's concern, done
    /// before construction.
    pub fn new(output_dir: String) -> (d: YouTubeDownloader)
        ensures
            d.output_dir@ == output_dir@,
    {
        YouTubeDownloader { output_dir }
    }

    /// Audio bitrate code for the requested quality tier.
    pub fn get_audio_quality_param(&self, quality: &str) -> (r: String)
        ensures
            r@ == audio_quality_spec(quality@),
    {
        audio_quality_param(quality)
    }

    /// Height ceiling in pixels for the requested quality tier.
    pub fn get_video_height_param(&self, quality: &str) -> (r: u32)
        ensures
            r == height_for_quality(quality@),
    {
        if str_eq(quality, "best") {
            2160
        } else if str_eq(quality, "high") {
            1080
        } else if str_eq(quality, "medium") {
            720
        } else if str_eq(quality, "low") {
            480
        } else if str_eq(quality, "worst") {
            360
        } else {
            1080
        }
    }

    /// Selector expression for mp4 output.
    pub fn get_mp4_format_selector(&self, quality: &str) -> (r: String)
        ensures
            r@ == mp4_selector_spec(quality@),
    {
        mp4_format_selector(quality)
    }

    /// Selector expression for webm output.
    pub fn get_webm_format_selector(&self, quality: &str) -> (r: String)
        ensures
            r@ == webm_selector_spec(quality@),
    {
        webm_format_selector(quality)
    }

    /// Accepts exactly the URL shapes the extraction tool is pointed at.
    pub fn validate_url(&self, url: &str) -> (r: bool)
        ensures
            r == valid_url_spec(url@),
    {
        contains_str(url, "youtube.com/watch") || contains_str(url, "youtu.be/") || contains_str(
            url,
            "youtube.com/playlist",
        ) || contains_str(url, "youtube.com/shorts/")
    }
}

pub(crate) fn audio_quality_param(quality: &str) -> (r: String)
    ensures
        r@ == audio_quality_spec(quality@),
{
    if str_eq(quality, "best") {
        String::from_str("0")
    } else if str_eq(quality, "high") {
        String::from_str("192K")
    } else if str_eq(quality, "medium") {
        String::from_str("128K")
    } else if str_eq(quality, "low") {
        String::from_str("96K")
    } else if str_eq(quality, "worst") {
        String::from_str("64K")
    } else {
        String::from_str("192K")
    }
}

pub(crate) fn mp4_format_selector(quality: &str) -> (r: String)
    ensures
        r@ == mp4_selector_spec(quality@),
{
    if str_eq(quality, "best") {
        String::from_str(
            "bestvideo[height<=2160][ext=mp4]+bestaudio[ext=m4a]/bestvideo[height<=2160]+bestaudio/best[height<=2160]/best",
        )
    } else if str_eq(quality, "medium") {
        String::from_str(
            "bestvideo[height<=720]+bestaudio/best[height<=720]/bestvideo[height<=720]/best",
        )
    } else if str_eq(quality, "low") {
        String::from_str(
            "bestvideo[height<=480]+bestaudio/best[height<=480]/bestvideo[height<=480]/best",
        )
    } else if str_eq(quality, "worst") {
        String::from_str(
            "bestvideo[height<=360]+bestaudio/best[height<=360]/bestvideo[height<=360]/best",
        )
    } else {
        String::from_str(
            "bestvideo[height<=1080]+bestaudio/best[height<=1080]/bestvideo[height<=1080]/best",
        )
    }
}

pub(crate) fn webm_format_selector(quality: &str) -> (r: String)
    ensures
        r@ == webm_selector_spec(quality@),
{
    if str_eq(quality, "best") {
        String::from_str(
            "bestvideo[height<=2160][ext=webm]+bestaudio[ext=webm]/bestvideo[height<=2160]+bestaudio/best[height<=2160]/best",
        )
    } else if str_eq(quality, "medium") {
        String::from_str(
            "bestvideo[height<=720]+bestaudio/best[height<=720]/bestvideo[height<=720]/best",
        )
    } else if str_eq(quality, "low") {
        String::from_str(
            "bestvideo[height<=480]+bestaudio/best[height<=480]/bestvideo[height<=480]/best",
        )
    } else if str_eq(quality, "worst") {
        String::from_str(
            "bestvideo[height<=360]+bestaudio/best[height<=360]/bestvideo[height<=360]/best",
        )
    } else {
        String::from_str(
            "bestvideo[height<=1080]+bestaudio/best[height<=1080]/bestvideo[height<=1080]/best",
        )
    }
}

/// The output containers the policy supports.
pub fn get_supported_formats() -> (r: Vec<String>)
    ensures
        r@.len() == 4,
        r@[0]@ == "mp4"@,
        r@[1]@ == "mp3"@,
        r@[2]@ == "wav"@,
        r@[3]@ == "webm"@,
{
    let mut r: Vec<String> = Vec::new();
    r.push(String::from_str("mp4"));
    r.push(String::from_str("mp3"));
    r.push(String::from_str("wav"));
    r.push(String::from_str("webm"));
    r
}

/// The quality tiers the policy understands.
pub fn get_supported_qualities() -> (r: Vec<String>)
    ensures
        r@.len() == 5,
        r@[0]@ == "best"@,
        r@[1]@ == "high"@,
        r@[2]@ == "medium"@,
        r@[3]@ == "low"@,
        r@[4]@ == "worst"@,
{
    let mut r: Vec<String> = Vec::new();
    r.push(String::from_str("best"));
    r.push(String::from_str("high"));
    r.push(String::from_str("medium"));
    r.push(String::from_str("low"));
    r.push(String::from_str("worst"));
    r
}

/// Every video selector the policy can produce is non-empty and ends in a
/// universal catch-all (`/best` on the tuned attempt, `/worst` on the
/// fallback), and every audio bitrate code is non-empty — so the external
/// tool itself never runs out of alternatives for a reachable URL.
pub proof fn lemma_selectors_end_in_catch_all(q: Seq<char>)
    ensures
        mp4_selector_spec(q).len() > 0,
        ends_with_seq(mp4_selector_spec(q), "/best"@),
        webm_selector_spec(q).len() > 0,
        ends_with_seq(webm_selector_spec(q), "/best"@),
        audio_quality_spec(q).len() > 0,
        wav_audio_quality_spec(q).len() > 0,
        fallback_selector_spec().len() > 0,
        ends_with_seq(fallback_selector_spec(), "/worst"@),
{
    reveal_strlit("/best");
    reveal_strlit("/worst");
    reveal_strlit("best/worst");
    reveal_strlit("0");
    reveal_strlit("192K");
    reveal_strlit("128K");
    reveal_strlit("96K");
    reveal_strlit("64K");
    reveal_strlit(
        "bestvideo[height<=2160][ext=mp4]+bestaudio[ext=m4a]/bestvideo[height<=2160]+bestaudio/best[height<=2160]/best",
    );
    reveal_strlit(
        "bestvideo[height<=2160][ext=webm]+bestaudio[ext=webm]/bestvideo[height<=2160]+bestaudio/best[height<=2160]/best",
    );
    reveal_strlit(
        "bestvideo[height<=1080]+bestaudio/best[height<=1080]/bestvideo[height<=1080]/best",
    );
    reveal_strlit(
        "bestvideo[height<=720]+bestaudio/best[height<=720]/bestvideo[height<=720]/best",
    );
    reveal_strlit(
        "bestvideo[height<=480]+bestaudio/best[height<=480]/bestvideo[height<=480]/best",
    );
    reveal_strlit(
        "bestvideo[height<=360]+bestaudio/best[height<=360]/bestvideo[height<=360]/best",
    );
    let m = mp4_selector_spec(q);
    let w = webm_selector_spec(q);
    let f = fallback_selector_spec();
    assert(m.subrange(m.len() - 5, m.len() as int) =~= "/best"@);
    assert(w.subrange(w.len() - 5, w.len() as int) =~= "/best"@);
    assert(f.subrange(f.len() - 6, f.len() as int) =~= "/worst"@);
}

/// The `best` tier asks for the maximum: the highest supported height
/// ceiling and the tool-native best audio.
pub proof fn lemma_best_is_max_height(q: Seq<char>)
    ensures
        height_for_quality("best"@) == 2160,
        height_for_quality(q) <= 2160,
        audio_quality_spec("best"@) == "0"@,
{
}

/// The `wav` bitrate code ignores the quality tier entirely: it is the
/// tool-native maximum for every input.
pub proof fn lemma_wav_ignores_quality(q1: Seq<char>, q2: Seq<char>)
    ensures
        wav_audio_quality_spec(q1) == wav_audio_quality_spec(q2),
        wav_audio_quality_spec(q1) == "0"@,
{
}

} // verus!
