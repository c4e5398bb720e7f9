use soundclip_core::errors::UpdateError;
use soundclip_core::version::{
    compare, ffmpeg_info, js_runtime_candidates, local_version_result, parse_ffmpeg_version,
    resolve_release, self_update_result, status_is_success, ReleaseAsset,
};

#[test]
fn update_available_when_nothing_installed() {
    let r = compare(None, String::from("2024.1.1"), String::from("u"));
    assert!(r.update_available);
    assert_eq!(r.local, None);
    assert_eq!(r.latest, Some(String::from("2024.1.1")));
    assert_eq!(r.download_url, Some(String::from("u")));
}

#[test]
fn no_update_when_tags_equal() {
    let r = compare(Some(String::from("2024.1.1")), String::from("2024.1.1"), String::from("u"));
    assert!(!r.update_available);
}

#[test]
fn update_available_when_tags_differ() {
    let r = compare(Some(String::from("2023.1.1")), String::from("2024.1.1"), String::from("u"));
    assert!(r.update_available);
}

#[test]
fn release_asset_found_by_exact_name() {
    let assets = vec![
        ReleaseAsset { name: String::from("yt-dlp"), url: String::from("u1") },
        ReleaseAsset { name: String::from("yt-dlp.exe"), url: String::from("u2") },
        ReleaseAsset { name: String::from("yt-dlp.exe.sig"), url: String::from("u3") },
    ];
    let r = resolve_release(String::from("2024.1.1"), &assets);
    assert_eq!(r.unwrap(), (String::from("2024.1.1"), String::from("u2")));
}

#[test]
fn release_asset_missing() {
    let assets = vec![ReleaseAsset { name: String::from("yt-dlp"), url: String::from("u1") }];
    let r = resolve_release(String::from("t"), &assets);
    assert!(matches!(r, Err(UpdateError::AssetNotFound)));
}

#[test]
fn local_version_is_trimmed() {
    let r = local_version_result(true, Ok(String::from("  2024.1.1\r\n")));
    assert_eq!(r.unwrap(), String::from("2024.1.1"));
}

#[test]
fn local_version_not_installed() {
    let r = local_version_result(false, Ok(String::from("x")));
    assert!(matches!(r, Err(UpdateError::NotInstalled)));
}

#[test]
fn local_version_probe_failure() {
    let r = local_version_result(true, Err(String::from("spawn failed")));
    match r {
        Err(UpdateError::ProbeError(m)) => assert_eq!(m, String::from("spawn failed")),
        _ => panic!("expected a probe error"),
    }
}

#[test]
fn ffmpeg_info_combines_probes() {
    let a = ffmpeg_info(Some(String::from("7.1")), false);
    assert!(a.installed);
    assert_eq!(a.version, Some(String::from("7.1")));
    let b = ffmpeg_info(None, true);
    assert!(b.installed);
    assert_eq!(b.version, None);
    let c = ffmpeg_info(None, false);
    assert!(!c.installed);
}

#[test]
fn ffmpeg_banner_version_token() {
    let banner = "ffmpeg version N-118004-g1234567-20250101 Copyright (c) 2000-2025\nbuilt with gcc";
    assert_eq!(parse_ffmpeg_version(banner), Some(String::from("N-118004-g1234567-20250101")));
}

#[test]
fn ffmpeg_banner_with_crlf() {
    let banner = "ffmpeg version 7.1\r\nbuilt with gcc";
    assert_eq!(parse_ffmpeg_version(banner), Some(String::from("7.1")));
}

#[test]
fn ffmpeg_banner_rejections() {
    assert_eq!(parse_ffmpeg_version(""), None);
    assert_eq!(parse_ffmpeg_version("not ffmpeg output"), None);
    assert_eq!(parse_ffmpeg_version("ffmpeg version "), None);
    assert_eq!(parse_ffmpeg_version("ffmpeg version   \nnext"), None);
}

#[test]
fn self_update_verdicts() {
    assert!(self_update_result(true, Some(0)).is_ok());
    assert_eq!(
        self_update_result(false, Some(3)),
        Err(String::from("yt-dlp -U exited with code 3"))
    );
    assert_eq!(
        self_update_result(false, None),
        Err(String::from("yt-dlp -U exited with code -1"))
    );
}

#[test]
fn js_runtimes_in_priority_order() {
    let v = js_runtime_candidates();
    assert_eq!(v, vec![String::from("node"), String::from("deno"), String::from("bun")]);
}

#[test]
fn http_success_range() {
    assert!(status_is_success(200));
    assert!(status_is_success(204));
    assert!(status_is_success(299));
    assert!(!status_is_success(199));
    assert!(!status_is_success(300));
    assert!(!status_is_success(404));
}

#[test]
fn update_error_messages() {
    assert_eq!(UpdateError::NotInstalled.message(), String::from("yt-dlp not installed"));
    assert_eq!(
        UpdateError::NetworkError(String::from("timeout")).message(),
        String::from("Network error: timeout")
    );
    assert_eq!(
        UpdateError::DecodeError(String::from("bad json")).message(),
        String::from("Parse error: bad json")
    );
    assert_eq!(
        UpdateError::AssetNotFound.message(),
        String::from("yt-dlp.exe asset not found in release")
    );
}
