//! Assembly of the exact argument lists handed to the extraction tool: the
//! metadata fetch, the tuned primary download, the diagnostic format
//! listing, and the relaxed fallback download.
use vstd::prelude::*;
use vstd::string::StringExecFns;
use crate::downloader::audio_quality_param;
use crate::downloader::audio_quality_spec;
use crate::downloader::fallback_selector_spec;
use crate::downloader::mp4_format_selector;
use crate::downloader::mp4_selector_spec;
use crate::downloader::wav_audio_quality_spec;
use crate::downloader::webm_format_selector;
use crate::downloader::webm_selector_spec;
use crate::errors::DownloadError;
use crate::locator::Platform;
use crate::text::str_eq;

verus! {

/// The view of an argument list: each argument as its character sequence.
pub open spec fn args_view(v: Seq<String>) -> Seq<Seq<char>> {
    v.map_values(|s: String| s@)
}

/// A format the policy supports.
pub open spec fn supported_format(f: Seq<char>) -> bool {
    f == "mp3"@ || f == "wav"@ || f == "mp4"@ || f == "webm"@
}

/// The output template: directory, stem, and the tool's extension hole.
pub open spec fn output_template_spec(dir: Seq<char>, stem: Seq<char>) -> Seq<char> {
    dir + "/"@ + stem + ".%(ext)s"@
}

/// Builds the output template for the tool's `-o` argument.
pub fn output_template(dir: &str, stem: &str) -> (r: String)
    ensures
        r@ == output_template_spec(dir@, stem@),
{
    let r = String::from_str(dir).concat("/").concat(stem).concat(".%(ext)s");
    proof {
        assert(r@ =~= output_template_spec(dir@, stem@));
    }
    r
}

/// The browser user agent sent on the tuned attempt.
pub open spec fn primary_user_agent_spec() -> Seq<char> {
    "Mozilla/5.0 (Windows NT 10.0; Win64; x64) AppleWebKit/537.36 (KHTML, like Gecko) Chrome/91.0.4472.124 Safari/537.36"@
}

/// The generic user agent sent on the fallback attempt.
pub open spec fn fallback_user_agent_spec() -> Seq<char> {
    "Mozilla/5.0 (compatible; yt-dlp)"@
}

/// Arguments of the metadata-only fetch.
pub open spec fn info_args_spec(cache: Seq<char>, url: Seq<char>) -> Seq<Seq<char>> {
    seq!["--dump-json"@, "--no-playlist"@, "--cache-dir"@, cache, url]
}

/// Builds the metadata-fetch argument list.
pub fn build_info_args(cache_dir: &str, url: &str) -> (r: Vec<String>)
    ensures
        args_view(r@) == info_args_spec(cache_dir@, url@),
{
    let mut r: Vec<String> = Vec::new();
    r.push(String::from_str("--dump-json"));
    r.push(String::from_str("--no-playlist"));
    r.push(String::from_str("--cache-dir"));
    r.push(String::from_str(cache_dir));
    r.push(String::from_str(url));
    proof {
        assert(args_view(r@) =~= info_args_spec(cache_dir@, url@));
    }
    r
}

/// Arguments of the diagnostic format listing run between the failed tuned
/// attempt and the fallback.
pub open spec fn list_formats_args_spec(url: Seq<char>) -> Seq<Seq<char>> {
    seq!["--list-formats"@, "--no-playlist"@, url]
}

/// Builds the format-listing argument list.
pub fn build_list_formats_args(url: &str) -> (r: Vec<String>)
    ensures
        args_view(r@) == list_formats_args_spec(url@),
{
    let mut r: Vec<String> = Vec::new();
    r.push(String::from_str("--list-formats"));
    r.push(String::from_str("--no-playlist"));
    r.push(String::from_str(url));
    proof {
        assert(args_view(r@) =~= list_formats_args_spec(url@));
    }
    r
}

/// The tuned attempt's common arguments: cache directory, playlist
/// suppression, browser user agent, referer, and retry counts.
pub open spec fn primary_common_spec(cache: Seq<char>) -> Seq<Seq<char>> {
    seq![
        "--cache-dir"@,
        cache,
        "--no-playlist"@,
        "--user-agent"@,
        primary_user_agent_spec(),
        "--referer"@,
        "https://www.youtube.com/"@,
        "--extractor-retries"@,
        "3"@,
        "--fragment-retries"@,
        "3"@,
    ]
}

/// Trailing arguments of an audio extraction.
pub open spec fn audio_tail_spec(
    fmt: Seq<char>,
    bitrate: Seq<char>,
    template: Seq<char>,
    url: Seq<char>,
) -> Seq<Seq<char>> {
    seq!["-x"@, "--audio-format"@, fmt, "--audio-quality"@, bitrate, "-o"@, template, url]
}

/// The full tuned argument list per format.
pub open spec fn primary_args_spec(
    format: Seq<char>,
    quality: Seq<char>,
    cache: Seq<char>,
    template: Seq<char>,
    url: Seq<char>,
) -> Seq<Seq<char>>
    recommends
        supported_format(format),
{
    let common = primary_common_spec(cache);
    if format == "mp3"@ {
        common + audio_tail_spec("mp3"@, audio_quality_spec(quality), template, url)
    } else if format == "wav"@ {
        common + audio_tail_spec("wav"@, wav_audio_quality_spec(quality), template, url)
    } else if format == "mp4"@ {
        common + seq![
            "-f"@,
            mp4_selector_spec(quality),
            "--merge-output-format"@,
            "mp4"@,
            "--extractor-args"@,
            "youtube:player_client=android,web"@,
            "--no-check-formats"@,
            "--prefer-free-formats"@,
            "-o"@,
            template,
            url,
        ]
    } else {
        common + seq![
            "-f"@,
            webm_selector_spec(quality),
            "--merge-output-format"@,
            "webm"@,
            "--extractor-args"@,
            "youtube:player_client=android,web"@,
            "--no-check-formats"@,
            "-o"@,
            template,
            url,
        ]
    }
}

fn push_primary_common(r: &mut Vec<String>, cache_dir: &str)
    requires
        old(r)@.len() == 0,
    ensures
        args_view(final(r)@) == primary_common_spec(cache_dir@),
{
    r.push(String::from_str("--cache-dir"));
    r.push(String::from_str(cache_dir));
    r.push(String::from_str("--no-playlist"));
    r.push(String::from_str("--user-agent"));
    r.push(
        String::from_str(
            "Mozilla/5.0 (Windows NT 10.0; Win64; x64) AppleWebKit/537.36 (KHTML, like Gecko) Chrome/91.0.4472.124 Safari/537.36",
        ),
    );
    r.push(String::from_str("--referer"));
    r.push(String::from_str("https://www.youtube.com/"));
    r.push(String::from_str("--extractor-retries"));
    r.push(String::from_str("3"));
    r.push(String::from_str("--fragment-retries"));
    r.push(String::from_str("3"));
    proof {
        assert(args_view(r@) =~= primary_common_spec(cache_dir@));
    }
}

/// Builds the tuned argument list; rejects formats the policy does not
/// support.
pub fn build_primary_args(
    format: &str,
    quality: &str,
    cache_dir: &str,
    template: &str,
    url: &str,
) -> (r: Result<Vec<String>, DownloadError>)
    ensures
        r is Ok <==> supported_format(format@),
        r matches Ok(v) ==> args_view(v@) == primary_args_spec(
            format@,
            quality@,
            cache_dir@,
            template@,
            url@,
        ),
        r matches Err(e) ==> e is UnsupportedFormat,
{
    if str_eq(format, "mp3") {
        let mut r: Vec<String> = Vec::new();
        push_primary_common(&mut r, cache_dir);
        r.push(String::from_str("-x"));
        r.push(String::from_str("--audio-format"));
        r.push(String::from_str("mp3"));
        r.push(String::from_str("--audio-quality"));
        r.push(audio_quality_param(quality));
        r.push(String::from_str("-o"));
        r.push(String::from_str(template));
        r.push(String::from_str(url));
        proof {
            assert(args_view(r@) =~= primary_args_spec(
                format@,
                quality@,
                cache_dir@,
                template@,
                url@,
            ));
        }
        Ok(r)
    } else if str_eq(format, "wav") {
        let mut r: Vec<String> = Vec::new();
        push_primary_common(&mut r, cache_dir);
        r.push(String::from_str("-x"));
        r.push(String::from_str("--audio-format"));
        r.push(String::from_str("wav"));
        r.push(String::from_str("--audio-quality"));
        r.push(String::from_str("0"));
        r.push(String::from_str("-o"));
        r.push(String::from_str(template));
        r.push(String::from_str(url));
        proof {
            assert(args_view(r@) =~= primary_args_spec(
                format@,
                quality@,
                cache_dir@,
                template@,
                url@,
            ));
        }
        Ok(r)
    } else if str_eq(format, "mp4") {
        let mut r: Vec<String> = Vec::new();
        push_primary_common(&mut r, cache_dir);
        r.push(String::from_str("-f"));
        r.push(mp4_format_selector(quality));
        r.push(String::from_str("--merge-output-format"));
        r.push(String::from_str("mp4"));
        r.push(String::from_str("--extractor-args"));
        r.push(String::from_str("youtube:player_client=android,web"));
        r.push(String::from_str("--no-check-formats"));
        r.push(String::from_str("--prefer-free-formats"));
        r.push(String::from_str("-o"));
        r.push(String::from_str(template));
        r.push(String::from_str(url));
        proof {
            assert(args_view(r@) =~= primary_args_spec(
                format@,
                quality@,
                cache_dir@,
                template@,
                url@,
            ));
        }
        Ok(r)
    } else if str_eq(format, "webm") {
        let mut r: Vec<String> = Vec::new();
        push_primary_common(&mut r, cache_dir);
        r.push(String::from_str("-f"));
        r.push(webm_format_selector(quality));
        r.push(String::from_str("--merge-output-format"));
        r.push(String::from_str("webm"));
        r.push(String::from_str("--extractor-args"));
        r.push(String::from_str("youtube:player_client=android,web"));
        r.push(String::from_str("--no-check-formats"));
        r.push(String::from_str("-o"));
        r.push(String::from_str(template));
        r.push(String::from_str(url));
        proof {
            assert(args_view(r@) =~= primary_args_spec(
                format@,
                quality@,
                cache_dir@,
                template@,
                url@,
            ));
        }
        Ok(r)
    } else {
        Err(DownloadError::UnsupportedFormat)
    }
}

/// The relaxed fallback's common arguments: cache directory, playlist
/// suppression, and the generic user agent.
pub open spec fn fallback_common_spec(cache: Seq<char>) -> Seq<Seq<char>> {
    seq!["--cache-dir"@, cache, "--no-playlist"@, "--user-agent"@, fallback_user_agent_spec()]
}

/// The full fallback argument list per format: fixed audio bitrates, or the
/// maximally permissive selector with a transcode into the requested
/// container.
pub open spec fn fallback_args_spec(
    format: Seq<char>,
    cache: Seq<char>,
    template: Seq<char>,
    url: Seq<char>,
) -> Seq<Seq<char>>
    recommends
        supported_format(format),
{
    let common = fallback_common_spec(cache);
    if format == "mp3"@ {
        common + audio_tail_spec("mp3"@, "192K"@, template, url)
    } else if format == "wav"@ {
        common + audio_tail_spec("wav"@, "0"@, template, url)
    } else if format == "mp4"@ {
        common + seq!["-f"@, fallback_selector_spec(), "--recode-video"@, "mp4"@, "-o"@, template, url]
    } else {
        common + seq!["-f"@, fallback_selector_spec(), "--recode-video"@, "webm"@, "-o"@, template, url]
    }
}

fn push_fallback_common(r: &mut Vec<String>, cache_dir: &str)
    requires
        old(r)@.len() == 0,
    ensures
        args_view(final(r)@) == fallback_common_spec(cache_dir@),
{
    r.push(String::from_str("--cache-dir"));
    r.push(String::from_str(cache_dir));
    r.push(String::from_str("--no-playlist"));
    r.push(String::from_str("--user-agent"));
    r.push(String::from_str("Mozilla/5.0 (compatible; yt-dlp)"));
    proof {
        assert(args_view(r@) =~= fallback_common_spec(cache_dir@));
    }
}

/// Builds the relaxed fallback argument list; rejects formats the policy
/// does not support.
pub fn build_fallback_args(format: &str, cache_dir: &str, template: &str, url: &str) -> (r: Result<
    Vec<String>,
    DownloadError,
>)
    ensures
        r is Ok <==> supported_format(format@),
        r matches Ok(v) ==> args_view(v@) == fallback_args_spec(format@, cache_dir@, template@, url@),
        r matches Err(e) ==> e is UnsupportedFormat,
{
    if str_eq(format, "mp3") {
        let mut r: Vec<String> = Vec::new();
        push_fallback_common(&mut r, cache_dir);
        r.push(String::from_str("-x"));
        r.push(String::from_str("--audio-format"));
        r.push(String::from_str("mp3"));
        r.push(String::from_str("--audio-quality"));
        r.push(String::from_str("192K"));
        r.push(String::from_str("-o"));
        r.push(String::from_str(template));
        r.push(String::from_str(url));
        proof {
            assert(args_view(r@) =~= fallback_args_spec(format@, cache_dir@, template@, url@));
        }
        Ok(r)
    } else if str_eq(format, "wav") {
        let mut r: Vec<String> = Vec::new();
        push_fallback_common(&mut r, cache_dir);
        r.push(String::from_str("-x"));
        r.push(String::from_str("--audio-format"));
        r.push(String::from_str("wav"));
        r.push(String::from_str("--audio-quality"));
        r.push(String::from_str("0"));
        r.push(String::from_str("-o"));
        r.push(String::from_str(template));
        r.push(String::from_str(url));
        proof {
            assert(args_view(r@) =~= fallback_args_spec(format@, cache_dir@, template@, url@));
        }
        Ok(r)
    } else if str_eq(format, "mp4") {
        let mut r: Vec<String> = Vec::new();
        push_fallback_common(&mut r, cache_dir);
        r.push(String::from_str("-f"));
        r.push(String::from_str("best/worst"));
        r.push(String::from_str("--recode-video"));
        r.push(String::from_str("mp4"));
        r.push(String::from_str("-o"));
        r.push(String::from_str(template));
        r.push(String::from_str(url));
        proof {
            assert(args_view(r@) =~= fallback_args_spec(format@, cache_dir@, template@, url@));
        }
        Ok(r)
    } else if str_eq(format, "webm") {
        let mut r: Vec<String> = Vec::new();
        push_fallback_common(&mut r, cache_dir);
        r.push(String::from_str("-f"));
        r.push(String::from_str("best/worst"));
        r.push(String::from_str("--recode-video"));
        r.push(String::from_str("webm"));
        r.push(String::from_str("-o"));
        r.push(String::from_str(template));
        r.push(String::from_str(url));
        proof {
            assert(args_view(r@) =~= fallback_args_spec(format@, cache_dir@, template@, url@));
        }
        Ok(r)
    } else {
        Err(DownloadError::UnsupportedFormat)
    }
}

/// Whether an invocation runs with the widened PATH: only needed where a
/// minimal GUI-launched environment may hide the package-manager
/// directories.
pub open spec fn extend_path_spec(platform: Platform) -> bool {
    platform is MacOs
}

/// Decides whether the PATH is widened for a tool run on this platform.
pub fn should_extend_path(platform: Platform) -> (r: bool)
    ensures
        r == extend_path_spec(platform),
{
    match platform {
        Platform::MacOs => true,
        _ => false,
    }
}

} // verus!
