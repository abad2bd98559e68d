//! Resolution of the two external tools across three tiers: embedded-bundle
//! paths next to the running executable, the system lookup, and a fixed list
//! of conventional install locations. The filesystem reads happen at the
//! caller; the ordered candidate lists and the tier decision are here.
use vstd::prelude::*;
use vstd::string::StringExecFns;
use crate::errors::DownloadError;
use crate::text::join_slash;

verus! {

/// The platform the application runs on, as far as tool resolution cares.
#[derive(Clone, Copy, PartialEq, Eq, Structural, Debug)]
pub enum Platform {
    Windows,
    MacOs,
    Linux,
}

/// The platform/architecture identifier used to pick the matching embedded
/// binary variant.
pub open spec fn target_triple_spec(platform: Platform, aarch64: bool) -> Seq<char> {
    match platform {
        Platform::MacOs => if aarch64 {
            "aarch64-apple-darwin"@
        } else {
            "x86_64-apple-darwin"@
        },
        Platform::Windows => "x86_64-pc-windows-msvc"@,
        Platform::Linux => "x86_64-unknown-linux-gnu"@,
    }
}

pub fn target_triple(platform: Platform, aarch64: bool) -> (r: String)
    ensures
        r@ == target_triple_spec(platform, aarch64),
{
    match platform {
        Platform::MacOs => if aarch64 {
            String::from_str("aarch64-apple-darwin")
        } else {
            String::from_str("x86_64-apple-darwin")
        },
        Platform::Windows => String::from_str("x86_64-pc-windows-msvc"),
        Platform::Linux => String::from_str("x86_64-unknown-linux-gnu"),
    }
}

/// Name of the tool's file: with `.exe` appended on Windows.
pub open spec fn binary_filename_spec(name: Seq<char>, platform: Platform) -> Seq<char> {
    if platform is Windows {
        name + ".exe"@
    } else {
        name
    }
}

pub fn binary_filename(name: &str, platform: Platform) -> (r: String)
    ensures
        r@ == binary_filename_spec(name@, platform),
{
    match platform {
        Platform::Windows => String::from_str(name).concat(".exe"),
        _ => String::from_str(name),
    }
}

/// Name of the architecture-specific variant: `name-triple`, with `.exe`
/// appended on Windows.
pub open spec fn triple_filename_spec(name: Seq<char>, platform: Platform, aarch64: bool) -> Seq<
    char,
> {
    binary_filename_spec(name + "-"@ + target_triple_spec(platform, aarch64), platform)
}

pub fn triple_filename(name: &str, platform: Platform, aarch64: bool) -> (r: String)
    ensures
        r@ == triple_filename_spec(name@, platform, aarch64),
{
    let triple = target_triple(platform, aarch64);
    let base = String::from_str(name).concat("-").concat(triple.as_str());
    proof {
        assert(base@ =~= name@ + "-"@ + target_triple_spec(platform, aarch64));
    }
    binary_filename(base.as_str(), platform)
}

/// One embedded-bundle candidate: the application directory, a relative
/// bundle subdirectory, and the file name.
pub open spec fn bundle_candidate_spec(app_dir: Seq<char>, sub: Seq<char>, file: Seq<char>) -> Seq<
    char,
> {
    app_dir + "/"@ + sub + "/"@ + file
}

/// The twelve embedded-bundle candidates for one tool, in search order:
/// the six architecture-suffixed names first, then the six bare names (with
/// the application directory itself moved ahead of `binaries` among the
/// bare ones). The suffixed variants shadow the bare ones at every tier.
pub open spec fn embedded_candidates_spec(
    app_dir: Seq<char>,
    name: Seq<char>,
    platform: Platform,
    aarch64: bool,
) -> Seq<Seq<char>> {
    let tf = triple_filename_spec(name, platform, aarch64);
    let bf = binary_filename_spec(name, platform);
    seq![
        bundle_candidate_spec(app_dir, "../Resources/binaries"@, tf),
        bundle_candidate_spec(app_dir, "../Resources"@, tf),
        bundle_candidate_spec(app_dir, "binaries"@, tf),
        app_dir + "/"@ + tf,
        bundle_candidate_spec(app_dir, "libs"@, tf),
        bundle_candidate_spec(app_dir, "resources"@, tf),
        bundle_candidate_spec(app_dir, "../Resources/binaries"@, bf),
        bundle_candidate_spec(app_dir, "../Resources"@, bf),
        app_dir + "/"@ + bf,
        bundle_candidate_spec(app_dir, "binaries"@, bf),
        bundle_candidate_spec(app_dir, "libs"@, bf),
        bundle_candidate_spec(app_dir, "resources"@, bf),
    ]
}

fn bundle_candidate(app_dir: &str, sub: &str, file: &str) -> (r: String)
    ensures
        r@ == bundle_candidate_spec(app_dir@, sub@, file@),
{
    let d = join_slash(app_dir, sub);
    let r = join_slash(d.as_str(), file);
    proof {
        assert(r@ =~= bundle_candidate_spec(app_dir@, sub@, file@));
    }
    r
}

/// Builds the ordered embedded-bundle candidate list for one tool.
pub fn embedded_candidates(app_dir: &str, name: &str, platform: Platform, aarch64: bool) -> (r: Vec<
    String,
>)
    ensures
        r@.len() == 12,
        forall|i: int|
            0 <= i < 12 ==> r@[i]@ == embedded_candidates_spec(app_dir@, name@, platform, aarch64)[i],
{
    let tf = triple_filename(name, platform, aarch64);
    let bf = binary_filename(name, platform);
    let mut r: Vec<String> = Vec::new();
    r.push(bundle_candidate(app_dir, "../Resources/binaries", tf.as_str()));
    r.push(bundle_candidate(app_dir, "../Resources", tf.as_str()));
    r.push(bundle_candidate(app_dir, "binaries", tf.as_str()));
    r.push(join_slash(app_dir, tf.as_str()));
    r.push(bundle_candidate(app_dir, "libs", tf.as_str()));
    r.push(bundle_candidate(app_dir, "resources", tf.as_str()));
    r.push(bundle_candidate(app_dir, "../Resources/binaries", bf.as_str()));
    r.push(bundle_candidate(app_dir, "../Resources", bf.as_str()));
    r.push(join_slash(app_dir, bf.as_str()));
    r.push(bundle_candidate(app_dir, "binaries", bf.as_str()));
    r.push(bundle_candidate(app_dir, "libs", bf.as_str()));
    r.push(bundle_candidate(app_dir, "resources", bf.as_str()));
    r
}

/// The conventional install locations tried as the last tier, in order.
pub open spec fn common_paths_spec(
    name: Seq<char>,
    platform: Platform,
    username: Seq<char>,
) -> Seq<Seq<char>> {
    let bf = binary_filename_spec(name, platform);
    match platform {
        Platform::Windows => seq![
            "C:\\Program Files\\"@ + name + "\\"@ + bf,
            "C:\\Program Files (x86)\\"@ + name + "\\"@ + bf,
            "C:\\"@ + name + "\\"@ + bf,
            ".\\libs\\"@ + bf,
            ".\\binaries\\"@ + bf,
            "C:\\ProgramData\\chocolatey\\bin\\"@ + bf,
            "C:\\Users\\"@ + username + "\\scoop\\apps\\"@ + name + "\\current\\"@ + bf,
        ],
        Platform::MacOs => seq![
            "/usr/local/bin/"@ + bf,
            "/opt/homebrew/bin/"@ + bf,
            "/usr/bin/"@ + bf,
            "/opt/local/bin/"@ + bf,
            "./libs/"@ + bf,
            "./binaries/"@ + bf,
        ],
        Platform::Linux => seq![
            "/usr/local/bin/"@ + bf,
            "/usr/bin/"@ + bf,
            "/bin/"@ + bf,
            "/snap/bin/"@ + bf,
            "./libs/"@ + bf,
            "./binaries/"@ + bf,
        ],
    }
}

fn prefixed(prefix: &str, file: &str) -> (r: String)
    ensures
        r@ == prefix@ + file@,
{
    String::from_str(prefix).concat(file)
}

/// Builds the conventional install locations for one tool. `username` is the
/// account name used in the per-user package-manager path on Windows.
pub fn common_paths(name: &str, platform: Platform, username: &str) -> (r: Vec<String>)
    ensures
        r@.len() == common_paths_spec(name@, platform, username@).len(),
        forall|i: int|
            0 <= i < r@.len() ==> r@[i]@ == common_paths_spec(name@, platform, username@)[i],
{
    let bf = binary_filename(name, platform);
    let mut r: Vec<String> = Vec::new();
    match platform {
        Platform::Windows => {
            let p0 = String::from_str("C:\\Program Files\\").concat(name).concat(
                "\\",
            ).concat(bf.as_str());
            proof {
                assert(p0@ =~= common_paths_spec(name@, platform, username@)[0]);
            }
            r.push(p0);
            let p1 = String::from_str("C:\\Program Files (x86)\\").concat(name).concat(
                "\\",
            ).concat(bf.as_str());
            proof {
                assert(p1@ =~= common_paths_spec(name@, platform, username@)[1]);
            }
            r.push(p1);
            let p2 = String::from_str("C:\\").concat(name).concat("\\").concat(bf.as_str());
            proof {
                assert(p2@ =~= common_paths_spec(name@, platform, username@)[2]);
            }
            r.push(p2);
            r.push(prefixed(".\\libs\\", bf.as_str()));
            r.push(prefixed(".\\binaries\\", bf.as_str()));
            r.push(prefixed("C:\\ProgramData\\chocolatey\\bin\\", bf.as_str()));
            let p6 = String::from_str("C:\\Users\\").concat(username).concat(
                "\\scoop\\apps\\",
            ).concat(name).concat("\\current\\").concat(bf.as_str());
            proof {
                assert(p6@ =~= common_paths_spec(name@, platform, username@)[6]);
            }
            r.push(p6);
        },
        Platform::MacOs => {
            r.push(prefixed("/usr/local/bin/", bf.as_str()));
            r.push(prefixed("/opt/homebrew/bin/", bf.as_str()));
            r.push(prefixed("/usr/bin/", bf.as_str()));
            r.push(prefixed("/opt/local/bin/", bf.as_str()));
            r.push(prefixed("./libs/", bf.as_str()));
            r.push(prefixed("./binaries/", bf.as_str()));
        },
        Platform::Linux => {
            r.push(prefixed("/usr/local/bin/", bf.as_str()));
            r.push(prefixed("/usr/bin/", bf.as_str()));
            r.push(prefixed("/bin/", bf.as_str()));
            r.push(prefixed("/snap/bin/", bf.as_str()));
            r.push(prefixed("./libs/", bf.as_str()));
            r.push(prefixed("./binaries/", bf.as_str()));
        },
    }
    r
}

/// Index of the first existing candidate.
pub fn first_existing(exists: &Vec<bool>) -> (r: Option<usize>)
    ensures
        match r {
            Some(i) => i < exists@.len() && exists@[i as int] && (forall|j: int|
                0 <= j < i ==> !exists@[j]),
            None => forall|j: int| 0 <= j < exists@.len() ==> !exists@[j],
        },
{
    let mut i: usize = 0;
    while i < exists.len()
        invariant
            i <= exists@.len(),
            forall|j: int| 0 <= j < i ==> !exists@[j],
        decreases exists@.len() - i,
    {
        if exists[i] {
            return Some(i);
        }
        i = i + 1;
    }
    None
}

/// Picks the tool path by tier: the first existing embedded-bundle
/// candidate wins outright; otherwise a successful system lookup; otherwise
/// the first existing conventional location; otherwise the tool is missing.
/// `embedded_exists[i]` and `common_exists[i]` say whether the candidate
/// with the same index exists on disk; `system_path` is the path the
/// system's resolution utility printed, already checked to exist.
pub fn select_tool_path(
    embedded: &Vec<String>,
    embedded_exists: &Vec<bool>,
    system_path: &Option<String>,
    common: &Vec<String>,
    common_exists: &Vec<bool>,
) -> (r: Result<String, DownloadError>)
    requires
        embedded@.len() == embedded_exists@.len(),
        common@.len() == common_exists@.len(),
    ensures
        forall|i: int|
            0 <= i < embedded_exists@.len() && embedded_exists@[i] && (forall|j: int|
                0 <= j < i ==> !embedded_exists@[j]) ==> r is Ok && r->Ok_0@ == embedded@[i]@,
        ((forall|j: int| 0 <= j < embedded_exists@.len() ==> !embedded_exists@[j]) && system_path
            is Some) ==> r is Ok && r->Ok_0@ == system_path->0@,
        ((forall|j: int| 0 <= j < embedded_exists@.len() ==> !embedded_exists@[j]) && system_path
            is None) ==> forall|i: int|
            0 <= i < common_exists@.len() && common_exists@[i] && (forall|j: int|
                0 <= j < i ==> !common_exists@[j]) ==> r is Ok && r->Ok_0@ == common@[i]@,
        ((forall|j: int| 0 <= j < embedded_exists@.len() ==> !embedded_exists@[j]) && system_path
            is None && (forall|j: int| 0 <= j < common_exists@.len() ==> !common_exists@[j])) ==> r
            matches Err(DownloadError::BinaryNotFound),
{
    match first_existing(embedded_exists) {
        Some(i) => Ok(embedded[i].clone()),
        None => {
            match system_path {
                Some(p) => Ok(p.clone()),
                None => {
                    match first_existing(common_exists) {
                        Some(i) => Ok(common[i].clone()),
                        None => Err(DownloadError::BinaryNotFound),
                    }
                },
            }
        },
    }
}

} // verus!
