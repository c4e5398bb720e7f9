use soundclip_core::errors::InstallError;
use soundclip_core::installer::{
    extract_members, install_plan, member_matches, verify_installed, FsAction,
};

fn build_zip(entries: &[(&str, &[u8])]) -> Vec<u8> {
    let mut w = zip::ZipWriter::new(std::io::Cursor::new(Vec::new()));
    let options = zip::write::SimpleFileOptions::default();
    for (name, data) in entries {
        w.start_file(*name, options).unwrap();
        std::io::Write::write_all(&mut w, data).unwrap();
    }
    w.finish().unwrap().into_inner()
}

fn targets(names: &[&str]) -> Vec<String> {
    names.iter().map(|n| String::from(*n)).collect()
}

#[test]
fn member_matching_convention() {
    assert!(member_matches("ffmpeg-master-latest-win64-gpl/bin/ffmpeg.exe", "ffmpeg.exe"));
    assert!(member_matches("ffmpeg.exe", "ffmpeg.exe"));
    assert!(!member_matches("r/bin/ffprobe.exe", "ffmpeg.exe"));
    assert!(!member_matches("r/doc/ffmpeg.exe.txt", "ffmpeg.exe"));
    assert!(!member_matches("notffmpeg.exe", "ffmpeg.exe"));
}

#[test]
fn extraction_returns_matching_contents() {
    let data = build_zip(&[
        ("r/bin/ffmpeg.exe", b"one"),
        ("r/bin/ffprobe.exe", b"two"),
        ("r/doc/readme.txt", b"skip me"),
    ]);
    let (pairs, missing) =
        extract_members(&data, &targets(&["ffmpeg.exe", "ffprobe.exe"])).unwrap();
    assert_eq!(pairs.len(), 2);
    assert_eq!(pairs[0].0, String::from("ffmpeg.exe"));
    assert_eq!(pairs[0].1, b"one".to_vec());
    assert_eq!(pairs[1].0, String::from("ffprobe.exe"));
    assert_eq!(pairs[1].1, b"two".to_vec());
    assert!(missing.is_empty());
}

#[test]
fn partial_archive_extracts_covered_members_and_names_the_missing() {
    let data = build_zip(&[("prefix/bin/tool.bin", b"AAA")]);
    let (pairs, missing) = extract_members(&data, &targets(&["tool.bin", "tool.probe"])).unwrap();
    // The covered member is still extracted...
    assert_eq!(pairs, vec![(String::from("tool.bin"), b"AAA".to_vec())]);
    // ...and the uncovered one is named.
    assert_eq!(missing, vec![String::from("tool.probe")]);
    // On a clean destination the verify step then fails, naming it.
    let r = verify_installed(&targets(&["tool.bin", "tool.probe"]), &vec![true, false]);
    match r {
        Err(InstallError::IncompleteArchive(absent)) => {
            assert_eq!(absent, vec![String::from("tool.probe")]);
        },
        _ => panic!("expected an incomplete archive"),
    }
}

#[test]
fn verify_accepts_members_present_for_any_reason() {
    // A pre-existing binary at the destination satisfies the verify step
    // even when the archive did not provide it.
    let r = verify_installed(&targets(&["tool.bin", "tool.probe"]), &vec![true, true]);
    assert!(r.is_ok());
}

#[test]
fn unreadable_bytes_are_an_archive_error() {
    let data = vec![0u8, 1, 2, 3, 4, 5];
    let r = extract_members(&data, &targets(&["tool.bin"]));
    assert!(matches!(r, Err(InstallError::ArchiveError(_))));
}

#[test]
fn bare_name_entry_is_extracted() {
    let data = build_zip(&[("tool.bin", b"bare")]);
    let (pairs, missing) = extract_members(&data, &targets(&["tool.bin"])).unwrap();
    assert_eq!(pairs, vec![(String::from("tool.bin"), b"bare".to_vec())]);
    assert!(missing.is_empty());
}

fn apply(disk: &mut std::collections::HashMap<String, Vec<u8>>, action: &FsAction) {
    match action {
        FsAction::WriteFile(p, d) => {
            disk.insert(p.clone(), d.clone());
        },
        FsAction::RemoveFile(p) => {
            disk.remove(p);
        },
        FsAction::RenameFile(from, to) => {
            if let Some(d) = disk.remove(from) {
                disk.insert(to.clone(), d);
            }
        },
    }
}

#[test]
fn interrupted_replacement_never_leaves_a_truncated_binary() {
    let old = b"OLDBINARY".to_vec();
    let new = b"NEWBINARY".to_vec();
    let dest = String::from("bin/tool.exe");
    let tmp = String::from("bin/tool.exe.tmp");
    let plan = install_plan("bin", "tool.exe", new.clone());
    for crash_after in 0..=plan.len() {
        let mut disk = std::collections::HashMap::new();
        disk.insert(dest.clone(), old.clone());
        for action in &plan[..crash_after] {
            apply(&mut disk, action);
        }
        // A crash during the staging write leaves a partial file only at the
        // temporary path.
        let mut interrupted = disk.clone();
        interrupted.insert(tmp.clone(), b"NEW".to_vec());
        for state in [&disk, &interrupted] {
            match state.get(&dest) {
                Some(content) => assert!(content == &old || content == &new),
                None => {},
            }
        }
    }
}

#[test]
fn replacement_plan_stages_then_removes_then_renames() {
    let plan = install_plan("C:/data/bin", "yt-dlp.exe", b"NEWBYTES".to_vec());
    assert_eq!(plan.len(), 3);
    match &plan[0] {
        FsAction::WriteFile(p, d) => {
            assert_eq!(p, "C:/data/bin/yt-dlp.exe.tmp");
            assert_eq!(d, &b"NEWBYTES".to_vec());
        },
        _ => panic!("expected the staging write first"),
    }
    match &plan[1] {
        FsAction::RemoveFile(p) => assert_eq!(p, "C:/data/bin/yt-dlp.exe"),
        _ => panic!("expected the removal second"),
    }
    match &plan[2] {
        FsAction::RenameFile(from, to) => {
            assert_eq!(from, "C:/data/bin/yt-dlp.exe.tmp");
            assert_eq!(to, "C:/data/bin/yt-dlp.exe");
        },
        _ => panic!("expected the rename last"),
    }
}
