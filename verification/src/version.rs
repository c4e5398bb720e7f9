//! Version reconciliation: compare a locally probed version string against
//! the latest remote release, select the release asset to download, and
//! parse the version strings the local tools report.

use vstd::prelude::*;

use crate::errors::UpdateError;
use crate::strings::{has_prefix, is_space, skip_spaces, space_char, spec_trimmed, str_equal,
    str_matches_at, trimmed};

verus! {

/// True when the installed tool should be replaced: either nothing is
/// installed locally, or the local tag differs textually from the latest tag.
pub open spec fn spec_update_available(local: Option<Seq<char>>, latest: Seq<char>) -> bool {
    match local {
        Option::None => true,
        Option::Some(v) => v != latest,
    }
}

/// Result of comparing the locally installed tool version with the latest
/// release: `update_available` is true when the local version is absent or
/// textually different from the latest tag (no semantic-version ordering).
#[derive(Debug, Clone)]
pub struct VersionInfo {
    pub local: Option<String>,
    pub latest: Option<String>,
    pub download_url: Option<String>,
    pub update_available: bool,
}

/// Tool and codec presence, as probed by the boundary layer.
#[derive(Debug, Clone, Copy, PartialEq, Eq, Structural)]
pub struct DepsStatus {
    pub ytdlp: bool,
    pub ffmpeg: bool,
}

/// Codec tool presence and reported version.
#[derive(Debug, Clone)]
pub struct FfmpegInfo {
    pub installed: bool,
    pub version: Option<String>,
}

/// One asset of a remote release: a file name and its download URL.
#[derive(Debug, Clone)]
pub struct ReleaseAsset {
    pub name: String,
    pub url: String,
}

/// Pure comparison of an optional local version against the latest tag.
pub fn compare(local: Option<String>, latest: String, download_url: String) -> (r: VersionInfo)
    ensures
        r.local == local,
        r.latest == Some(latest),
        r.download_url == Some(download_url),
        r.update_available == spec_update_available(
            match local {
                Option::None => Option::<Seq<char>>::None,
                Option::Some(v) => Option::Some(v@),
            },
            latest@,
        ),
{
    let update_available = match &local {
        Option::Some(v) => !v.eq(&latest),
        Option::None => true,
    };
    VersionInfo { local, latest: Some(latest), download_url: Some(download_url), update_available }
}

/// The download URL of the first asset named `want`, scanning from index `i`.
pub open spec fn spec_asset_url_from(assets: Seq<ReleaseAsset>, want: Seq<char>, i: int) -> Option<
    Seq<char>,
>
    decreases assets.len() - i when 0 <= i <= assets.len()
{
    if i >= assets.len() {
        None
    } else if assets[i].name@ == want {
        Some(assets[i].url@)
    } else {
        spec_asset_url_from(assets, want, i + 1)
    }
}

/// The download URL of the first asset named `want`, if any.
pub open spec fn spec_asset_url(assets: Seq<ReleaseAsset>, want: Seq<char>) -> Option<Seq<char>> {
    spec_asset_url_from(assets, want, 0)
}

/// Selects the expected binary among a release's assets by exact name match:
/// the release tag together with that asset's download URL, or
/// `AssetNotFound` when no asset carries the expected name.
pub fn resolve_release(tag: String, assets: &Vec<ReleaseAsset>) -> (r: Result<
    (String, String),
    UpdateError,
>)
    ensures
        match r {
            Ok(p) => p.0 == tag && spec_asset_url(assets@, "yt-dlp.exe"@) == Some(p.1@),
            Err(e) => e is AssetNotFound && spec_asset_url(assets@, "yt-dlp.exe"@) is None,
        },
{
    let n = assets.len();
    let mut i: usize = 0;
    while i < n
        invariant
            i <= n,
            n == assets@.len(),
            spec_asset_url(assets@, "yt-dlp.exe"@) == spec_asset_url_from(
                assets@,
                "yt-dlp.exe"@,
                i as int,
            ),
        decreases n - i,
    {
        if str_equal(assets[i].name.as_str(), "yt-dlp.exe") {
            return Ok((tag, assets[i].url.clone()));
        }
        i = i + 1;
    }
    Err(UpdateError::AssetNotFound)
}

/// Combines the prerequisite probe and the raw output of the version query:
/// `NotInstalled` when the tool binary is absent, the probe's own failure
/// otherwise, else the probed text with surrounding whitespace removed.
pub fn local_version_result(installed: bool, probe: Result<String, String>) -> (r: Result<
    String,
    UpdateError,
>)
    ensures
        match r {
            Ok(v) => installed && (probe matches Ok(out) && v@ == spec_trimmed(out@)),
            Err(e) => match e {
                UpdateError::NotInstalled => !installed,
                UpdateError::ProbeError(m) => installed && probe == Err::<String, String>(m),
                _ => false,
            },
        },
{
    if !installed {
        return Err(UpdateError::NotInstalled);
    }
    match probe {
        Ok(out) => Ok(trimmed(out.as_str())),
        Err(m) => Err(UpdateError::ProbeError(m)),
    }
}

/// Codec info from an optional probed version and the fallback presence
/// probe: installed when a version was probed or the probe found the tool.
pub fn ffmpeg_info(version: Option<String>, available: bool) -> (r: FfmpegInfo)
    ensures
        r.installed == (version is Some || available),
        r.version == version,
{
    let installed = match &version {
        Option::Some(_) => true,
        Option::None => available,
    };
    FfmpegInfo { installed, version }
}

/// Index of the first line break at or after `i` (`s.len()` if none).
pub open spec fn line_break(s: Seq<char>, i: int) -> int
    decreases s.len() - i when 0 <= i <= s.len()
{
    if i < s.len() && s[i] != '\n' {
        line_break(s, i + 1)
    } else {
        i
    }
}

/// Index of the first whitespace character at or after `i` (`s.len()` if
/// none): the end of the token starting at `i`.
pub open spec fn token_end(s: Seq<char>, i: int) -> int
    decreases s.len() - i when 0 <= i <= s.len()
{
    if i < s.len() && !is_space(s[i]) {
        token_end(s, i + 1)
    } else {
        i
    }
}

/// The first line of `s`: everything before the first line break, with a
/// carriage return dropped when it closes a `\r\n` line ending.
pub open spec fn spec_first_line(s: Seq<char>) -> Seq<char> {
    let e = line_break(s, 0);
    if e < s.len() && e > 0 && s[e - 1] == '\r' {
        s.subrange(0, e - 1)
    } else {
        s.subrange(0, e)
    }
}

/// The version token of the codec tool's banner: on the first line, after
/// the literal `ffmpeg version `, the first whitespace-delimited token.
/// `None` when the output is empty, the first line does not carry the
/// prefix, or nothing but whitespace follows it.
pub open spec fn spec_ffmpeg_version(s: Seq<char>) -> Option<Seq<char>> {
    if s.len() == 0 {
        None
    } else {
        let line = spec_first_line(s);
        if !has_prefix(line, "ffmpeg version "@) {
            None
        } else {
            let rest = line.subrange("ffmpeg version "@.len() as int, line.len() as int);
            let a = skip_spaces(rest, 0);
            if a == rest.len() {
                None
            } else {
                Some(rest.subrange(a, token_end(rest, a)))
            }
        }
    }
}

/// Extracts the version token from the codec tool's `-version` banner.
pub fn parse_ffmpeg_version(raw: &str) -> (r: Option<String>)
    ensures
        match r {
            Some(v) => spec_ffmpeg_version(raw@) == Some(v@),
            None => spec_ffmpeg_version(raw@) is None,
        },
{
    let len = raw.unicode_len();
    if len == 0 {
        return None;
    }
    let mut e: usize = 0;
    while e < len && raw.get_char(e) != '\n'
        invariant
            e <= len,
            len == raw@.len(),
            line_break(raw@, 0) == line_break(raw@, e as int),
        decreases len - e,
    {
        e = e + 1;
    }
    proof {
        assert(line_break(raw@, e as int) == e);
    }
    let cut = if e < len && e > 0 && raw.get_char(e - 1) == '\r' {
        e - 1
    } else {
        e
    };
    let line = raw.substring_char(0, cut);
    let prefix = "ffmpeg version ";
    if !str_matches_at(line, 0, prefix) {
        return None;
    }
    let plen = prefix.unicode_len();
    let llen = line.unicode_len();
    let rest = line.substring_char(plen, llen);
    let rlen = rest.unicode_len();
    let mut a: usize = 0;
    while a < rlen && space_char(rest.get_char(a))
        invariant
            a <= rlen,
            rlen == rest@.len(),
            skip_spaces(rest@, 0) == skip_spaces(rest@, a as int),
        decreases rlen - a,
    {
        a = a + 1;
    }
    proof {
        assert(skip_spaces(rest@, a as int) == a);
    }
    if a == rlen {
        return None;
    }
    let mut b: usize = a;
    while b < rlen && !space_char(rest.get_char(b))
        invariant
            a <= b <= rlen,
            rlen == rest@.len(),
            token_end(rest@, a as int) == token_end(rest@, b as int),
        decreases rlen - b,
    {
        b = b + 1;
    }
    proof {
        assert(token_end(rest@, b as int) == b);
    }
    Some(String::from_str(rest.substring_char(a, b)))
}

/// An HTTP status code reporting success, as the transport reports it:
/// the 2xx range.
pub fn status_is_success(code: u16) -> (r: bool)
    ensures
        r == (200 <= code < 300),
{
    200 <= code && code < 300
}

/// The fallback self-update's verdict from the tool's exit status: success
/// for a clean exit, else the exit code (-1 when none was reported) in the
/// failure message.
pub fn self_update_result(success: bool, code: Option<i32>) -> (r: Result<(), String>)
    ensures
        match r {
            Ok(u) => success,
            Err(m) => !success && m@ == "yt-dlp -U exited with code "@
                + crate::strings::spec_int_string(
                match code {
                    Option::Some(c) => c as int,
                    Option::None => -1,
                },
            ),
        },
{
    if success {
        Ok(())
    } else {
        let c = match code {
            Option::Some(c) => c,
            Option::None => -1,
        };
        let mut s = String::from_str("yt-dlp -U exited with code ");
        let digits = crate::strings::i32_string(c);
        s.append(digits.as_str());
        Err(s)
    }
}

/// Codec presence from the two probes: the bundled copy in the bin
/// directory, or the tool reachable on the search path.
pub fn ffmpeg_presence(bundled: bool, on_path: bool) -> (r: bool)
    ensures
        r == (bundled || on_path),
{
    bundled || on_path
}

/// One step of the runtime probe loop: accept the candidate exactly when
/// its probe succeeded, so the first available runtime in priority order is
/// the one chosen.
pub fn accept_runtime(candidate: String, available: bool) -> (r: Option<String>)
    ensures
        available ==> r == Some(candidate),
        !available ==> r is None,
{
    if available {
        Some(candidate)
    } else {
        None
    }
}

/// The runtimes probed for the tool's script extractor, in priority order.
pub fn js_runtime_candidates() -> (r: Vec<String>)
    ensures
        r@.len() == 3,
        r@[0]@ == "node"@,
        r@[1]@ == "deno"@,
        r@[2]@ == "bun"@,
{
    let mut v: Vec<String> = Vec::new();
    v.push(String::from_str("node"));
    v.push(String::from_str("deno"));
    v.push(String::from_str("bun"));
    v
}

} // verus!
