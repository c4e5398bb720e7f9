//! Binary installation: selecting the requested members of a downloaded
//! archive, and the crash-safe replacement sequence (write a sibling temp
//! file, remove the old binary, rename into place) that the boundary layer
//! performs on disk.

use vstd::prelude::*;

use crate::errors::InstallError;
use crate::strings::has_suffix;

verus! {

/// What the archive reader yields for given archive bytes: the entries, in
/// archive order, each a stored name with its decompressed contents; or
/// nothing when the bytes are not a readable archive. A pure function of
/// the bytes.
pub uninterp spec fn zip_parse(bytes: Seq<u8>) -> Option<Seq<(Seq<char>, Seq<u8>)>>;

/// The entries an open archive reader will yield.
pub uninterp spec fn archive_entries(a: zip::ZipArchive<std::io::Cursor<Vec<u8>>>) -> Seq<
    (Seq<char>, Seq<u8>),
>;

/// The bytes an open archive reader was opened over.
pub uninterp spec fn archive_bytes(a: zip::ZipArchive<std::io::Cursor<Vec<u8>>>) -> Seq<u8>;

/// Whether reading the stored name of entry `i` of the given archive bytes
/// succeeds: a pure function of the bytes and the index.
pub uninterp spec fn zip_entry_name_ok(bytes: Seq<u8>, i: int) -> bool;

/// Whether decompressing the contents of entry `i` of the given archive
/// bytes succeeds: a pure function of the bytes and the index.
pub uninterp spec fn zip_entry_data_ok(bytes: Seq<u8>, i: int) -> bool;

#[verifier::external_type_specification]
#[verifier::external_body]
#[verifier::reject_recursive_types(R)]
pub struct ExZipArchive<R>(zip::ZipArchive<R>);

#[verifier::external_type_specification]
#[verifier::external_body]
#[verifier::reject_recursive_types(T)]
pub struct ExCursor<T>(std::io::Cursor<T>);

/// Relies on `zip::ZipArchive::new`, reading the central directory of an
/// in-memory archive: deterministic in the bytes, succeeding exactly when
/// they form a readable archive, and yielding its entries.
#[verifier::external_body]
fn zip_open(data: &Vec<u8>) -> (r: Result<zip::ZipArchive<std::io::Cursor<Vec<u8>>>, String>)
    ensures
        (r is Ok) == (zip_parse(data@) is Some),
        r matches Ok(a) ==> Some(archive_entries(a)) == zip_parse(data@) && archive_bytes(a)
            == data@,
{
    zip::ZipArchive::new(std::io::Cursor::new(data.clone())).map_err(|e| e.to_string())
}

/// Relies on `zip::ZipArchive::len`: the number of entries.
#[verifier::external_body]
fn zip_len(a: &zip::ZipArchive<std::io::Cursor<Vec<u8>>>) -> (r: usize)
    ensures
        r == archive_entries(*a).len(),
{
    a.len()
}

/// Relies on `zip::ZipArchive::by_index` and `ZipFile::name`: the stored
/// name of one entry. Reading an in-memory archive succeeds or fails (for
/// instance on an entry whose local header is broken) as a function of the
/// bytes and the index alone; it never disturbs the archive.
#[verifier::external_body]
fn zip_entry_name(a: &mut zip::ZipArchive<std::io::Cursor<Vec<u8>>>, i: usize) -> (r: Result<
    String,
    String,
>)
    requires
        i < archive_entries(*old(a)).len(),
    ensures
        archive_entries(*final(a)) == archive_entries(*old(a)),
        archive_bytes(*final(a)) == archive_bytes(*old(a)),
        (r is Ok) == zip_entry_name_ok(archive_bytes(*old(a)), i as int),
        r matches Ok(name) ==> name@ == archive_entries(*old(a))[i as int].0,
{
    match a.by_index(i) {
        Ok(f) => Ok(f.name().to_string()),
        Err(e) => Err(e.to_string()),
    }
}

/// Relies on `zip::ZipArchive::by_index` and the entry's `Read` impl: the
/// decompressed contents of one entry. On an in-memory archive,
/// decompression succeeds or fails (checksum included) as a function of the
/// bytes and the index alone; it never disturbs the archive.
#[verifier::external_body]
fn zip_entry_data(a: &mut zip::ZipArchive<std::io::Cursor<Vec<u8>>>, i: usize) -> (r: Result<
    Vec<u8>,
    String,
>)
    requires
        i < archive_entries(*old(a)).len(),
    ensures
        archive_entries(*final(a)) == archive_entries(*old(a)),
        archive_bytes(*final(a)) == archive_bytes(*old(a)),
        (r is Ok) == zip_entry_data_ok(archive_bytes(*old(a)), i as int),
        r matches Ok(d) ==> d@ == archive_entries(*old(a))[i as int].1,
{
    match a.by_index(i) {
        Ok(mut f) => {
            let mut buf: Vec<u8> = Vec::new();
            match std::io::Read::read_to_end(&mut f, &mut buf) {
                Ok(_) => Ok(buf),
                Err(e) => Err(e.to_string()),
            }
        },
        Err(e) => Err(e.to_string()),
    }
}

/// An archive entry provides the requested member when its stored name ends
/// with the nested `/bin/<member>` convention or equals the bare member
/// name.
pub open spec fn spec_member_matches(name: Seq<char>, target: Seq<char>) -> bool {
    has_suffix(name, "/bin/"@ + target) || name == target
}

/// Exec mirror of [`spec_member_matches`].
pub fn member_matches(name: &str, target: &str) -> (r: bool)
    ensures
        r == spec_member_matches(name@, target@),
{
    let mut pat = String::from_str("/bin/");
    pat.append(target);
    let by_convention = crate::strings::str_ends_with(name, pat.as_str());
    by_convention || crate::strings::str_equal(name, target)
}

/// The names of the entries, in archive order.
pub open spec fn entry_names(entries: Seq<(Seq<char>, Seq<u8>)>) -> Seq<Seq<char>> {
    Seq::new(entries.len(), |i: int| entries[i].0)
}

/// Some entry provides the member `t`.
pub open spec fn spec_covered(names: Seq<Seq<char>>, t: Seq<char>) -> bool {
    exists|k: int| 0 <= k < names.len() && spec_member_matches(names[k], t)
}

/// The `(member, contents)` pairs the first `j` requested members draw from
/// one entry.
pub open spec fn spec_pairs_upto(
    entry: (Seq<char>, Seq<u8>),
    targets: Seq<Seq<char>>,
    j: int,
) -> Seq<(Seq<char>, Seq<u8>)>
    decreases j,
{
    if j <= 0 {
        Seq::empty()
    } else {
        spec_pairs_upto(entry, targets, j - 1) + if spec_member_matches(
            entry.0,
            targets[j - 1],
        ) {
            seq![(targets[j - 1], entry.1)]
        } else {
            Seq::empty()
        }
    }
}

/// The `(member, contents)` pairs drawn from the first `i` entries, in
/// entry-major order.
pub open spec fn spec_extracted_upto(
    entries: Seq<(Seq<char>, Seq<u8>)>,
    targets: Seq<Seq<char>>,
    i: int,
) -> Seq<(Seq<char>, Seq<u8>)>
    decreases i,
{
    if i <= 0 {
        Seq::empty()
    } else {
        spec_extracted_upto(entries, targets, i - 1) + spec_pairs_upto(
            entries[i - 1],
            targets,
            targets.len() as int,
        )
    }
}

/// Every `(member, contents)` pair the archive provides for the requested
/// members.
pub open spec fn spec_extracted(
    entries: Seq<(Seq<char>, Seq<u8>)>,
    targets: Seq<Seq<char>>,
) -> Seq<(Seq<char>, Seq<u8>)> {
    spec_extracted_upto(entries, targets, entries.len() as int)
}

/// The first `j` requested members that no entry provides, in request order.
pub open spec fn spec_missing_upto(names: Seq<Seq<char>>, targets: Seq<Seq<char>>, j: int) -> Seq<
    Seq<char>,
>
    decreases j,
{
    if j <= 0 {
        Seq::empty()
    } else {
        spec_missing_upto(names, targets, j - 1) + if spec_covered(names, targets[j - 1]) {
            Seq::empty()
        } else {
            seq![targets[j - 1]]
        }
    }
}

/// The requested members that no entry provides, in request order.
pub open spec fn spec_missing(names: Seq<Seq<char>>, targets: Seq<Seq<char>>) -> Seq<Seq<char>> {
    spec_missing_upto(names, targets, targets.len() as int)
}

/// The entry provides some requested member.
pub open spec fn spec_entry_wanted(name: Seq<char>, targets: Seq<Seq<char>>) -> bool {
    exists|j: int| 0 <= j < targets.len() && spec_member_matches(name, targets[j])
}

/// Every entry's name reads, and every entry that provides a requested
/// member decompresses: on such an archive, member selection owes an answer.
pub open spec fn spec_archive_readable(
    bytes: Seq<u8>,
    entries: Seq<(Seq<char>, Seq<u8>)>,
    targets: Seq<Seq<char>>,
) -> bool {
    (forall|i: int| 0 <= i < entries.len() ==> #[trigger] zip_entry_name_ok(bytes, i)) && (forall|
        i: int,
    |
        0 <= i < entries.len() && spec_entry_wanted(entries[i].0, targets)
            ==> #[trigger] zip_entry_data_ok(bytes, i))
}

/// A vector's deep view lists each element's view.
proof fn lemma_string_vec_view(v: Vec<String>)
    ensures
        v.deep_view().len() == v@.len(),
        forall|m: int| 0 <= m < v@.len() ==> v.deep_view()[m] == v@[m]@,
{
}

/// A vector of pairs' deep view lists each component's view.
proof fn lemma_pair_vec_view(v: Vec<(String, Vec<u8>)>)
    ensures
        v.deep_view().len() == v@.len(),
        forall|m: int| 0 <= m < v@.len() ==> v.deep_view()[m] == (v@[m].0@, v@[m].1@),
{
    assert forall|m: int| 0 <= m < v@.len() implies v.deep_view()[m] == (
        v@[m].0@,
        v@[m].1@,
    ) by {
        assert(v@[m].1.deep_view() =~= v@[m].1@);
    }
}

/// Whether any of the given entry names provides the member.
fn any_entry_matches(names: &Vec<String>, target: &str) -> (r: bool)
    ensures
        r == spec_covered(names.deep_view(), target@),
{
    let n = names.len();
    let mut k: usize = 0;
    while k < n
        invariant
            k <= n,
            n == names@.len(),
            forall|m: int| 0 <= m < k ==> !spec_member_matches(names.deep_view()[m], target@),
        decreases n - k,
    {
        proof {
            lemma_string_vec_view(*names);
        }
        if member_matches(names[k].as_str(), target) {
            proof {
                assert(0 <= k < names.deep_view().len() && spec_member_matches(
                    names.deep_view()[k as int],
                    target@,
                ));
            }
            return true;
        }
        k = k + 1;
    }
    proof {
        lemma_string_vec_view(*names);
    }
    false
}

/// Selects the requested members of a downloaded archive: for each entry
/// providing a requested member, in archive order, the member's name with
/// that entry's contents — alongside the requested members no entry
/// provides, so the caller can extract what is covered and then report what
/// is not. Fails with `ArchiveError` exactly when the bytes are not a
/// readable archive, an entry's name cannot be read, or a selected entry
/// cannot be decompressed; on a readable archive the answer is owed.
/// Entries matching no requested member are skipped.
pub fn extract_members(data: &Vec<u8>, targets: &Vec<String>) -> (r: Result<
    (Vec<(String, Vec<u8>)>, Vec<String>),
    InstallError,
>)
    ensures
        zip_parse(data@) is None ==> (r matches Err(e) && e is ArchiveError),
        (zip_parse(data@) matches Some(entries) && spec_archive_readable(
            data@,
            entries,
            targets.deep_view(),
        )) ==> r is Ok,
        match r {
            Ok(out) => (zip_parse(data@) matches Some(entries) && out.0.deep_view()
                == spec_extracted(entries, targets.deep_view()) && out.1.deep_view()
                == spec_missing(entry_names(entries), targets.deep_view())),
            Err(e) => e is ArchiveError,
        },
{
    let mut archive = match zip_open(data) {
        Ok(a) => a,
        Err(m) => {
            return Err(InstallError::ArchiveError(m));
        },
    };
    let ghost entries = archive_entries(archive);
    let ghost tviews = targets.deep_view();
    proof {
        lemma_string_vec_view(*targets);
    }
    let n = zip_len(&archive);
    let mut names: Vec<String> = Vec::new();
    let mut i: usize = 0;
    while i < n
        invariant
            i <= n,
            n == entries.len(),
            archive_entries(archive) == entries,
            archive_bytes(archive) == data@,
            zip_parse(data@) == Some(entries),
            names@.len() == i,
            forall|m: int| 0 <= m < i ==> names@[m]@ == entries[m].0,
        decreases n - i,
    {
        match zip_entry_name(&mut archive, i) {
            Ok(name) => {
                names.push(name);
            },
            Err(m) => {
                proof {
                    assert(!zip_entry_name_ok(data@, i as int));
                    assert(!spec_archive_readable(data@, entries, targets.deep_view()));
                }
                return Err(InstallError::ArchiveError(m));
            },
        }
        i = i + 1;
    }
    proof {
        lemma_string_vec_view(names);
        assert(names.deep_view() =~= entry_names(entries));
    }
    let tcount = targets.len();
    let mut pairs: Vec<(String, Vec<u8>)> = Vec::new();
    let mut i: usize = 0;
    while i < n
        invariant
            i <= n,
            n == entries.len(),
            tcount == targets@.len(),
            tviews == targets.deep_view(),
            forall|m: int| 0 <= m < tcount ==> tviews[m] == targets@[m]@,
            archive_entries(archive) == entries,
            archive_bytes(archive) == data@,
            zip_parse(data@) == Some(entries),
            names.deep_view() == entry_names(entries),
            names@.len() == n,
            forall|m: int| 0 <= m < n ==> names@[m]@ == entries[m].0,
            pairs.deep_view() == spec_extracted_upto(entries, tviews, i as int),
        decreases n - i,
    {
        let mut j: usize = 0;
        while j < tcount
            invariant
                i < n,
                j <= tcount,
                n == entries.len(),
                tcount == targets@.len(),
                tviews == targets.deep_view(),
                forall|m: int| 0 <= m < tcount ==> tviews[m] == targets@[m]@,
                archive_entries(archive) == entries,
                archive_bytes(archive) == data@,
                zip_parse(data@) == Some(entries),
                names.deep_view() == entry_names(entries),
                names@.len() == n,
                forall|m: int| 0 <= m < n ==> names@[m]@ == entries[m].0,
                pairs.deep_view() == spec_extracted_upto(entries, tviews, i as int)
                    + spec_pairs_upto(entries[i as int], tviews, j as int),
            decreases tcount - j,
        {
            let ghost prev = pairs.deep_view();
            if member_matches(names[i].as_str(), targets[j].as_str()) {
                let contents = match zip_entry_data(&mut archive, i) {
                    Ok(d) => d,
                    Err(m) => {
                        proof {
                            assert(0 <= j < tviews.len() && spec_member_matches(
                                entries[i as int].0,
                                tviews[j as int],
                            ));
                            assert(spec_entry_wanted(entries[i as int].0, tviews));
                            assert(!zip_entry_data_ok(data@, i as int));
                            assert(!spec_archive_readable(data@, entries, tviews));
                        }
                        return Err(InstallError::ArchiveError(m));
                    },
                };
                let ghost cview = contents@;
                pairs.push((targets[j].clone(), contents));
                proof {
                    lemma_pair_vec_view(pairs);
                    assert(pairs.deep_view() =~= prev + seq![(tviews[j as int], cview)]);
                    assert(pairs.deep_view() =~= spec_extracted_upto(entries, tviews, i as int)
                        + spec_pairs_upto(entries[i as int], tviews, j + 1));
                }
            } else {
                proof {
                    assert(spec_pairs_upto(entries[i as int], tviews, j + 1) =~= spec_pairs_upto(
                        entries[i as int],
                        tviews,
                        j as int,
                    ));
                    assert(pairs.deep_view() =~= spec_extracted_upto(entries, tviews, i as int)
                        + spec_pairs_upto(entries[i as int], tviews, j + 1));
                }
            }
            j = j + 1;
        }
        i = i + 1;
    }
    proof {
        assert(pairs.deep_view() == spec_extracted(entries, tviews));
    }
    let mut missing: Vec<String> = Vec::new();
    let mut j: usize = 0;
    while j < tcount
        invariant
            j <= tcount,
            tcount == targets@.len(),
            tviews == targets.deep_view(),
            forall|m: int| 0 <= m < tcount ==> tviews[m] == targets@[m]@,
            names.deep_view() == entry_names(entries),
            missing.deep_view() == spec_missing_upto(entry_names(entries), tviews, j as int),
        decreases tcount - j,
    {
        let ghost prev = missing.deep_view();
        if !any_entry_matches(&names, targets[j].as_str()) {
            missing.push(targets[j].clone());
            proof {
                lemma_string_vec_view(missing);
                assert(missing.deep_view() =~= prev + seq![tviews[j as int]]);
                assert(missing.deep_view() =~= spec_missing_upto(
                    entry_names(entries),
                    tviews,
                    j + 1,
                ));
            }
        } else {
            proof {
                assert(missing.deep_view() =~= spec_missing_upto(
                    entry_names(entries),
                    tviews,
                    j + 1,
                ));
            }
        }
        j = j + 1;
    }
    Ok((pairs, missing))
}

/// The first `j` requested members whose presence probe came back false, in
/// request order.
pub open spec fn spec_absent_upto(targets: Seq<Seq<char>>, present: Seq<bool>, j: int) -> Seq<
    Seq<char>,
>
    decreases j,
{
    if j <= 0 {
        Seq::empty()
    } else {
        spec_absent_upto(targets, present, j - 1) + if present[j - 1] {
            Seq::empty()
        } else {
            seq![targets[j - 1]]
        }
    }
}

/// The requested members whose presence probe came back false.
pub open spec fn spec_absent(targets: Seq<Seq<char>>, present: Seq<bool>) -> Seq<Seq<char>> {
    spec_absent_upto(targets, present, targets.len() as int)
}

/// The verify step after extraction: given the caller's presence probe of
/// each requested member at its canonical destination, succeeds exactly when
/// every member is now there (a pre-existing file satisfies it), and fails
/// with `IncompleteArchive` naming the absent ones otherwise.
pub fn verify_installed(targets: &Vec<String>, present: &Vec<bool>) -> (r: Result<
    (),
    InstallError,
>)
    requires
        targets@.len() == present@.len(),
    ensures
        match r {
            Ok(u) => forall|j: int| 0 <= j < present@.len() ==> present@[j],
            Err(e) => (e matches InstallError::IncompleteArchive(m) && m.deep_view() == spec_absent(
                targets.deep_view(),
                present@,
            )) && exists|j: int| 0 <= j < present@.len() && !present@[j],
        },
{
    let tcount = targets.len();
    let mut absent: Vec<String> = Vec::new();
    let mut j: usize = 0;
    while j < tcount
        invariant
            j <= tcount,
            tcount == targets@.len(),
            tcount == present@.len(),
            absent.deep_view() == spec_absent_upto(targets.deep_view(), present@, j as int),
            absent@.len() == 0 <==> (forall|m: int| 0 <= m < j ==> present@[m]),
        decreases tcount - j,
    {
        let ghost prev = absent.deep_view();
        if !present[j] {
            absent.push(targets[j].clone());
            proof {
                lemma_string_vec_view(absent);
                lemma_string_vec_view(*targets);
                assert(absent.deep_view() =~= prev + seq![targets.deep_view()[j as int]]);
                assert(absent.deep_view() =~= spec_absent_upto(
                    targets.deep_view(),
                    present@,
                    j + 1,
                ));
            }
        } else {
            proof {
                assert(absent.deep_view() =~= spec_absent_upto(
                    targets.deep_view(),
                    present@,
                    j + 1,
                ));
            }
        }
        j = j + 1;
    }
    if absent.len() > 0 {
        return Err(InstallError::IncompleteArchive(absent));
    }
    Ok(())
}

/// One step of the replacement sequence the boundary layer performs on
/// disk. `RemoveFile` removes the file if it is present; `RenameFile` moves
/// a file over its destination.
#[derive(Debug, Clone)]
pub enum FsAction {
    WriteFile(String, Vec<u8>),
    RemoveFile(String),
    RenameFile(String, String),
}

/// The canonical destination of an installed binary.
pub open spec fn spec_dest(dir: Seq<char>, name: Seq<char>) -> Seq<char> {
    crate::paths::spec_join(dir, name)
}

/// The sibling temporary path the new bytes are staged at.
pub open spec fn spec_tmp(dir: Seq<char>, name: Seq<char>) -> Seq<char> {
    crate::paths::spec_join(dir, name) + ".tmp"@
}

/// A disk, modelled as the contents at each existing path.
pub open spec fn apply_action(d: Map<Seq<char>, Seq<u8>>, a: FsAction) -> Map<Seq<char>, Seq<u8>> {
    match a {
        FsAction::WriteFile(p, data) => d.insert(p@, data@),
        FsAction::RemoveFile(p) => d.remove(p@),
        FsAction::RenameFile(from, to) => if d.contains_key(from@) {
            d.remove(from@).insert(to@, d[from@])
        } else {
            d
        },
    }
}

/// The disk after the first `n` actions have completed.
pub open spec fn apply_prefix(
    d: Map<Seq<char>, Seq<u8>>,
    actions: Seq<FsAction>,
    n: int,
) -> Map<Seq<char>, Seq<u8>>
    decreases n,
{
    if n <= 0 {
        d
    } else {
        apply_action(apply_prefix(d, actions, n - 1), actions[n - 1])
    }
}

/// The atomic replacement sequence for one binary: stage the new bytes at
/// the sibling temporary path, remove any old binary, rename the staged
/// file into place.
pub fn install_plan(dir: &str, name: &str, data: Vec<u8>) -> (r: Vec<FsAction>)
    ensures
        r@.len() == 3,
        (r@[0] matches FsAction::WriteFile(p, d) && p@ == spec_tmp(dir@, name@) && d@ == data@),
        (r@[1] matches FsAction::RemoveFile(p) && p@ == spec_dest(dir@, name@)),
        (r@[2] matches FsAction::RenameFile(f, t) && f@ == spec_tmp(dir@, name@) && t@ == spec_dest(
            dir@,
            name@,
        )),
        spec_tmp(dir@, name@) != spec_dest(dir@, name@),
{
    let dest = crate::paths::join_path(dir, name);
    let mut tmp = dest.clone();
    tmp.append(".tmp");
    proof {
        reveal_strlit(".tmp");
        assert(tmp@.len() == dest@.len() + 4);
    }
    let mut r: Vec<FsAction> = Vec::new();
    r.push(FsAction::WriteFile(tmp.clone(), data));
    r.push(FsAction::RemoveFile(dest.clone()));
    r.push(FsAction::RenameFile(tmp, dest));
    r
}

/// The replacement sequence is atomic under interruption: stopped after any
/// number of completed actions — even with the staged temporary file only
/// partially written — the canonical destination either still holds exactly
/// what it held before, or is absent, or holds the complete new bytes;
/// never a truncated file.
pub proof fn lemma_install_plan_atomic(
    d0: Map<Seq<char>, Seq<u8>>,
    plan: Seq<FsAction>,
    tmp: Seq<char>,
    dest: Seq<char>,
    data: Seq<u8>,
    n: int,
    partial: Seq<u8>,
)
    requires
        tmp != dest,
        plan.len() == 3,
        (plan[0] matches FsAction::WriteFile(p, d) && p@ == tmp && d@ == data),
        (plan[1] matches FsAction::RemoveFile(p) && p@ == dest),
        (plan[2] matches FsAction::RenameFile(f, t) && f@ == tmp && t@ == dest),
        0 <= n <= 3,
    ensures
        ({
            let dn = apply_prefix(d0, plan, n);
            dn.contains_key(dest) ==> ((d0.contains_key(dest) && dn[dest] == d0[dest]) || dn[dest]
                == data)
        }),
        ({
            let dc = apply_prefix(d0, plan, n).insert(tmp, partial);
            dc.contains_key(dest) ==> ((d0.contains_key(dest) && dc[dest] == d0[dest]) || dc[dest]
                == data)
        }),
{
    let d1 = apply_prefix(d0, plan, 1);
    let d2 = apply_prefix(d0, plan, 2);
    let d3 = apply_prefix(d0, plan, 3);
    assert(apply_prefix(d0, plan, 0) == d0);
    assert(d1 == apply_action(d0, plan[0]));
    assert(d2 == apply_action(d1, plan[1]));
    assert(d3 == apply_action(d2, plan[2]));
    assert(d1 == d0.insert(tmp, data));
    assert(d2 == d1.remove(dest));
    assert(d2.contains_key(tmp) && d2[tmp] == data);
    assert(d3 == d2.remove(tmp).insert(dest, data));
}

} // verus!
