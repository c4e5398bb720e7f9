//! The application-owned filesystem layout: a private data directory with a
//! `bin/` subdirectory holding the external tool executables. Paths are
//! modelled as plain strings joined with `/`; only the lookup of the
//! platform's data directories and the existence probe are trusted.

use vstd::prelude::*;

use crate::strings::has_suffix;

verus! {

/// `base`, a separator, and `name`.
pub open spec fn spec_join(base: Seq<char>, name: Seq<char>) -> Seq<char> {
    base + seq!['/'] + name
}

/// Joins a directory and an entry name with the path separator.
pub fn join_path(base: &str, name: &str) -> (r: String)
    ensures
        r@ == spec_join(base@, name@),
{
    let mut s = String::from_str(base);
    s.append("/");
    s.append(name);
    proof {
        reveal_strlit("/");
        assert(s@ =~= spec_join(base@, name@));
    }
    s
}

/// A suffix survives appending the same tail on both sides.
pub proof fn lemma_suffix_append(s: Seq<char>, p: Seq<char>, q: Seq<char>)
    requires
        has_suffix(s, p),
    ensures
        has_suffix(s + q, p + q),
{
    assert((s + q).subrange((s + q).len() - (p + q).len(), (s + q).len() as int) =~= p + q);
}

/// Relies on `dirs::data_local_dir`: the platform's local-data directory,
/// if the environment defines one. The result depends on the environment,
/// so nothing is assumed of it.
#[verifier::external_body]
fn data_local_dir_path() -> (r: Option<String>)
{
    dirs::data_local_dir().map(|p| p.to_string_lossy().to_string())
}

/// Relies on `dirs::download_dir`: the user's download directory, if the
/// environment defines one. Nothing is assumed of the result.
#[verifier::external_body]
pub fn download_dir_path() -> (r: Option<String>)
{
    dirs::download_dir().map(|p| p.to_string_lossy().to_string())
}

/// Relies on `dirs::home_dir`: the user's home directory, if the
/// environment defines one. Nothing is assumed of the result.
#[verifier::external_body]
pub fn home_dir_path() -> (r: Option<String>)
{
    dirs::home_dir().map(|p| p.to_string_lossy().to_string())
}

/// Relies on `std::path::Path::is_file`: whether a regular file exists at
/// the path right now. The result depends on the disk, so nothing is
/// assumed of it.
#[verifier::external_body]
pub fn path_is_file(p: &str) -> (r: bool)
{
    std::path::Path::new(p).is_file()
}

/// The application's private data directory: the platform's local-data
/// directory (or `.` when the environment defines none) extended with the
/// application's own folder.
pub fn app_data_dir() -> (r: String)
    ensures
        has_suffix(r@, "/SoundClip"@),
{
    let base = match data_local_dir_path() {
        Option::Some(d) => d,
        Option::None => String::from_str("."),
    };
    let r = join_path(base.as_str(), "SoundClip");
    proof {
        reveal_strlit("/SoundClip");
        reveal_strlit("SoundClip");
        assert(seq!['/'] + "SoundClip"@ =~= "/SoundClip"@);
        assert(r@.subrange(r@.len() - 10, r@.len() as int) =~= "/SoundClip"@);
    }
    r
}

/// The directory holding the tool executables.
pub fn bin_dir() -> (r: String)
    ensures
        has_suffix(r@, "/SoundClip/bin"@),
{
    let base = app_data_dir();
    let r = join_path(base.as_str(), "bin");
    proof {
        reveal_strlit("/SoundClip");
        reveal_strlit("/SoundClip/bin");
        reveal_strlit("bin");
        lemma_suffix_append(base@, "/SoundClip"@, seq!['/'] + "bin"@);
        assert("/SoundClip"@ + (seq!['/'] + "bin"@) =~= "/SoundClip/bin"@);
        assert(base@ + (seq!['/'] + "bin"@) =~= r@);
    }
    r
}

/// Full path of the downloader binary.
pub fn ytdlp_path() -> (r: String)
    ensures
        has_suffix(r@, "/SoundClip/bin/yt-dlp.exe"@),
{
    let base = bin_dir();
    let r = join_path(base.as_str(), "yt-dlp.exe");
    proof {
        reveal_strlit("/SoundClip/bin");
        reveal_strlit("/SoundClip/bin/yt-dlp.exe");
        reveal_strlit("yt-dlp.exe");
        lemma_suffix_append(base@, "/SoundClip/bin"@, seq!['/'] + "yt-dlp.exe"@);
        assert("/SoundClip/bin"@ + (seq!['/'] + "yt-dlp.exe"@) =~= "/SoundClip/bin/yt-dlp.exe"@);
        assert(base@ + (seq!['/'] + "yt-dlp.exe"@) =~= r@);
    }
    r
}

/// Full path of the bundled codec tool.
pub fn ffmpeg_path() -> (r: String)
    ensures
        has_suffix(r@, "/SoundClip/bin/ffmpeg.exe"@),
{
    let base = bin_dir();
    let r = join_path(base.as_str(), "ffmpeg.exe");
    proof {
        reveal_strlit("/SoundClip/bin");
        reveal_strlit("/SoundClip/bin/ffmpeg.exe");
        reveal_strlit("ffmpeg.exe");
        lemma_suffix_append(base@, "/SoundClip/bin"@, seq!['/'] + "ffmpeg.exe"@);
        assert("/SoundClip/bin"@ + (seq!['/'] + "ffmpeg.exe"@) =~= "/SoundClip/bin/ffmpeg.exe"@);
        assert(base@ + (seq!['/'] + "ffmpeg.exe"@) =~= r@);
    }
    r
}

/// Whether the downloader binary exists at its expected location. Probes
/// the disk, so nothing can be stated of the result.
pub fn is_ytdlp_installed() -> bool {
    let p = ytdlp_path();
    path_is_file(p.as_str())
}

} // verus!
