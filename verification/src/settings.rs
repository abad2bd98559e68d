//! Application settings and the default download location. Reading the home
//! directory and the settings store is the caller's concern; the defaulting
//! rules live here.
use vstd::prelude::*;
use vstd::string::StringExecFns;

verus! {

/// The persisted user settings.
#[derive(Clone, Debug)]
pub struct AppSettings {
    pub download_path: String,
    pub default_format: String,
    pub default_quality: String,
}

impl AppSettings {
    /// The settings used when none are stored: the Downloads directory under
    /// the user's home (under the filesystem root when there is none), mp4
    /// at high quality.
    pub fn defaults_for_home(home: Option<&str>) -> (r: AppSettings)
        ensures
            r.download_path@ == (match home {
                Some(h) => h@ + "/Downloads"@,
                None => "/Downloads"@,
            }),
            r.default_format@ == "mp4"@,
            r.default_quality@ == "high"@,
    {
        let download_path = match home {
            Some(h) => String::from_str(h).concat("/Downloads"),
            None => String::from_str("/Downloads"),
        };
        AppSettings {
            download_path,
            default_format: String::from_str("mp4"),
            default_quality: String::from_str("high"),
        }
    }
}

/// The Downloads directory under the user's home; without a home directory
/// there is no default and the caller gets the error text to display.
pub fn default_download_path(home: Option<&str>) -> (r: Result<String, String>)
    ensures
        match home {
            Some(h) => r matches Ok(p) && p@ == h@ + "/Downloads"@,
            None => r matches Err(e) && e@ == "Failed to get home directory"@,
        },
{
    match home {
        Some(h) => Ok(String::from_str(h).concat("/Downloads")),
        None => Err(String::from_str("Failed to get home directory")),
    }
}

} // verus!
