//! The request-shaped settings value the boundary layer hands to the core:
//! destination directory, audio format, playlist flag. Persistence of this
//! value is the boundary layer's business; the core only fixes its default
//! and where its file lives.

use vstd::prelude::*;

verus! {

/// User-chosen download options.
#[derive(Debug, Clone)]
pub struct Settings {
    pub save_path: String,
    pub audio_format: String,
    pub playlist_mode: bool,
}

/// The default destination, from the environment's two directory lookups:
/// the download directory when there is one, else the home directory's
/// `Downloads`, else `.`.
pub fn default_save_path(download: Option<String>, home: Option<String>) -> (r: String)
    ensures
        download matches Some(d) ==> r == d,
        download is None ==> (home matches Some(h) ==> r@ == crate::paths::spec_join(
            h@,
            "Downloads"@,
        )),
        download is None && home is None ==> r@ == "."@,
{
    match download {
        Option::Some(d) => d,
        Option::None => match home {
            Option::Some(h) => crate::paths::join_path(h.as_str(), "Downloads"),
            Option::None => String::from_str("."),
        },
    }
}

impl Default for Settings {
    /// The out-of-the-box settings: the user's download directory (the home
    /// directory's `Downloads`, or `.`, when the environment defines no
    /// download directory), the `"best"` no-conversion format, playlists
    /// off.
    fn default() -> (s: Settings)
        ensures
            s.audio_format@ == "best"@,
            !s.playlist_mode,
    {
        let save_path = default_save_path(
            crate::paths::download_dir_path(),
            crate::paths::home_dir_path(),
        );
        Settings { save_path, audio_format: String::from_str("best"), playlist_mode: false }
    }
}

impl Settings {
    /// Where the settings file lives, inside the application's data
    /// directory.
    pub fn path() -> (r: String)
        ensures
            crate::strings::has_suffix(r@, "/SoundClip/settings.json"@),
    {
        let base = crate::paths::app_data_dir();
        let r = crate::paths::join_path(base.as_str(), "settings.json");
        proof {
            reveal_strlit("/SoundClip");
            reveal_strlit("/SoundClip/settings.json");
            reveal_strlit("settings.json");
            crate::paths::lemma_suffix_append(base@, "/SoundClip"@, seq!['/'] + "settings.json"@);
            assert("/SoundClip"@ + (seq!['/'] + "settings.json"@) =~= "/SoundClip/settings.json"@);
            assert(base@ + (seq!['/'] + "settings.json"@) =~= r@);
        }
        r
    }

    /// The request the supervisor runs for a given URL under these settings.
    pub fn request(&self, url: String) -> (r: crate::supervisor::DownloadRequest)
        ensures
            r.url == url,
            r.audio_format == self.audio_format,
            r.playlist == self.playlist_mode,
            r.save_path == self.save_path,
    {
        crate::supervisor::DownloadRequest {
            url,
            audio_format: self.audio_format.clone(),
            playlist: self.playlist_mode,
            save_path: self.save_path.clone(),
        }
    }
}

} // verus!
