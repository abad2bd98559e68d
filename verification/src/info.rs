//! The video descriptor and the parsing of the extraction tool's
//! structured-metadata output. The JSON reading itself is serde_json's;
//! the defaulting of missing fields and the deduplication of the available
//! container extensions are verified here.
use vstd::prelude::*;
use vstd::string::StringExecFns;
use crate::text::str_eq;

verus! {

/// Metadata of one video, as far as the orchestration cares.
#[derive(Clone, Debug)]
pub struct VideoInfo {
    pub id: String,
    pub title: String,
    pub url: String,
    pub duration: Option<u64>,
    pub thumbnail: Option<String>,
    pub uploader: Option<String>,
    pub upload_date: Option<String>,
    pub view_count: Option<u64>,
    pub available_formats: Vec<String>,
}

#[verifier::external_type_specification]
#[verifier::external_body]
pub struct ExValue(serde_json::Value);

/// Whether serde_json parses the text as one JSON document: a function of
/// the text alone.
pub uninterp spec fn json_parses(s: Seq<char>) -> bool;

/// Relies on `serde_json::from_str::<Value>`: parses one JSON document,
/// deciding on the text alone; an unparsable document gives `None`.
#[verifier::external_body]
fn parse_json(s: &str) -> (r: Option<serde_json::Value>)
    ensures
        r is Some <==> json_parses(s@),
{
    serde_json::from_str(s).ok()
}

/// Relies on `serde_json::Value::get`: the value under the key, if the
/// value is an object that holds it.
#[verifier::external_body]
fn json_get<'a>(v: &'a serde_json::Value, key: &str) -> (r: Option<&'a serde_json::Value>) {
    v.get(key)
}

/// Relies on `serde_json::Value::as_str`: the string content, if the value
/// is a string.
#[verifier::external_body]
fn value_as_string(v: &serde_json::Value) -> (r: Option<String>) {
    v.as_str().map(|s| s.to_string())
}

/// Relies on `serde_json::Value::as_u64`: the integer content, if the value
/// is an unsigned integer.
#[verifier::external_body]
fn value_as_u64(v: &serde_json::Value) -> (r: Option<u64>) {
    v.as_u64()
}

/// Relies on `serde_json::Value::as_array`: a copy of the elements, if the
/// value is an array.
#[verifier::external_body]
fn value_as_array(v: &serde_json::Value) -> (r: Option<Vec<serde_json::Value>>) {
    v.as_array().map(|a| a.to_vec())
}

fn json_get_string(v: &serde_json::Value, key: &str) -> Option<String> {
    match json_get(v, key) {
        Some(x) => value_as_string(x),
        None => None,
    }
}

fn json_get_u64(v: &serde_json::Value, key: &str) -> Option<u64> {
    match json_get(v, key) {
        Some(x) => value_as_u64(x),
        None => None,
    }
}

/// Some element equals the given character sequence.
pub open spec fn strings_contain(s: Seq<String>, x: Seq<char>) -> bool {
    exists|i: int| 0 <= i < s.len() && #[trigger] s[i]@ == x
}

/// Drops duplicate strings, keeping first occurrences: the result has no
/// two equal elements and exactly the elements of the input.
pub fn dedup_strings(v: Vec<String>) -> (r: Vec<String>)
    ensures
        forall|i: int, j: int| 0 <= i < j < r@.len() ==> #[trigger] r@[i]@ != #[trigger] r@[j]@,
        forall|i: int| 0 <= i < r@.len() ==> strings_contain(v@, #[trigger] r@[i]@),
        forall|i: int| #![trigger v@[i]] 0 <= i < v@.len() ==> strings_contain(r@, v@[i]@),
{
    let mut r: Vec<String> = Vec::new();
    let mut i: usize = 0;
    while i < v.len()
        invariant
            i <= v@.len(),
            forall|a: int, b: int| 0 <= a < b < r@.len() ==> #[trigger] r@[a]@ != #[trigger] r@[b]@,
            forall|a: int| 0 <= a < r@.len() ==> strings_contain(v@, #[trigger] r@[a]@),
            forall|a: int| #![trigger v@[a]] 0 <= a < i ==> strings_contain(r@, v@[a]@),
        decreases v@.len() - i,
    {
        let mut k: usize = 0;
        let mut found = false;
        while k < r.len()
            invariant
                i < v@.len(),
                k <= r@.len(),
                found ==> k < r@.len() && r@[k as int]@ == v@[i as int]@,
                !found ==> forall|l: int| 0 <= l < k ==> #[trigger] r@[l]@ != v@[i as int]@,
            ensures
                found ==> k < r@.len() && r@[k as int]@ == v@[i as int]@,
                !found ==> forall|l: int| 0 <= l < r@.len() ==> #[trigger] r@[l]@ != v@[i as int]@,
            decreases r@.len() - k,
        {
            if str_eq(r[k].as_str(), v[i].as_str()) {
                found = true;
                break;
            }
            k = k + 1;
        }
        let ghost r0 = r@;
        if !found {
            r.push(v[i].clone());
        }
        i = i + 1;
        proof {
            if !found {
                assert(forall|a: int| 0 <= a < r0.len() ==> r@[a] == r0[a]);
                assert(r@[r@.len() - 1]@ == v@[i - 1]@);
                assert forall|a: int| 0 <= a < r@.len() implies strings_contain(
                    v@,
                    #[trigger] r@[a]@,
                ) by {
                    if a < r0.len() {
                        assert(strings_contain(v@, r0[a]@));
                    } else {
                        assert(v@[i - 1]@ == r@[a]@);
                    }
                }
            }
            assert forall|a: int| #![trigger v@[a]] 0 <= a < i implies strings_contain(
                r@,
                v@[a]@,
            ) by {
                if a < i - 1 {
                    let w = choose|w: int| 0 <= w < r0.len() && #[trigger] r0[w]@ == v@[a]@;
                    assert(r@[w]@ == v@[a]@);
                } else {
                    if found {
                        assert(r@[k as int]@ == v@[a]@);
                    } else {
                        assert(r@[r@.len() - 1]@ == v@[a]@);
                    }
                }
            }
        }
    }
    r
}

/// Builds the descriptor from the parsed optional fields, defaulting a
/// missing identifier to `unknown` and a missing title to `Unknown Title`;
/// the URL is the one the caller asked about, and the available container
/// extensions are deduplicated.
pub fn video_info_from_fields(
    id: Option<String>,
    title: Option<String>,
    url: &str,
    duration: Option<u64>,
    thumbnail: Option<String>,
    uploader: Option<String>,
    upload_date: Option<String>,
    view_count: Option<u64>,
    formats: Vec<String>,
) -> (r: VideoInfo)
    ensures
        r.id@ == (match id {
            Some(s) => s@,
            None => "unknown"@,
        }),
        r.title@ == (match title {
            Some(s) => s@,
            None => "Unknown Title"@,
        }),
        r.url@ == url@,
        r.duration == duration,
        r.thumbnail == thumbnail,
        r.uploader == uploader,
        r.upload_date == upload_date,
        r.view_count == view_count,
        forall|i: int, j: int|
            0 <= i < j < r.available_formats@.len() ==> #[trigger] r.available_formats@[i]@
                != #[trigger] r.available_formats@[j]@,
        forall|i: int|
            0 <= i < r.available_formats@.len() ==> strings_contain(
                formats@,
                #[trigger] r.available_formats@[i]@,
            ),
        forall|i: int|
            #![trigger formats@[i]]
            0 <= i < formats@.len() ==> strings_contain(r.available_formats@, formats@[i]@),
{
    VideoInfo {
        id: match id {
            Some(s) => s,
            None => String::from_str("unknown"),
        },
        title: match title {
            Some(s) => s,
            None => String::from_str("Unknown Title"),
        },
        url: String::from_str(url),
        duration,
        thumbnail,
        uploader,
        upload_date,
        view_count,
        available_formats: dedup_strings(formats),
    }
}

/// Parses the tool's metadata output into a descriptor. It fails exactly on
/// an unparsable document; missing fields inside a parsed document fall back
/// to their defaults (stated at `video_info_from_fields`) rather than
/// failing.
pub fn parse_video_info(json_text: &str, url: &str) -> (r: Option<VideoInfo>)
    ensures
        r is Some <==> json_parses(json_text@),
        r matches Some(info) ==> info.url@ == url@ && (forall|i: int, j: int|
            0 <= i < j < info.available_formats@.len() ==> #[trigger] info.available_formats@[i]@
                != #[trigger] info.available_formats@[j]@),
{
    let data = match parse_json(json_text) {
        Some(v) => v,
        None => {
            return None;
        },
    };
    let mut exts: Vec<String> = Vec::new();
    match json_get(&data, "formats") {
        Some(fv) => {
            match value_as_array(fv) {
                Some(arr) => {
                    let mut i: usize = 0;
                    while i < arr.len()
                        decreases arr@.len() - i,
                    {
                        match json_get_string(&arr[i], "ext") {
                            Some(e) => exts.push(e),
                            None => (),
                        }
                        i = i + 1;
                    }
                },
                None => (),
            }
        },
        None => (),
    }
    let info = video_info_from_fields(
        json_get_string(&data, "id"),
        json_get_string(&data, "title"),
        url,
        json_get_u64(&data, "duration"),
        json_get_string(&data, "thumbnail"),
        json_get_string(&data, "uploader"),
        json_get_string(&data, "upload_date"),
        json_get_u64(&data, "view_count"),
        exts,
    );
    Some(info)
}

} // verus!
