//! Picking the Node executable and its licence out of a Node distribution
//! archive held in memory: a zip on Windows, a gzipped tarball elsewhere.
//! The archive formats are read by the `zip`, `flate2` and `tar` crates;
//! which members are taken, what they are called in the driver directory,
//! and when the archive is rejected are decided here.

use vstd::prelude::*;
use crate::driver_urls::{node_archive_exe_path, node_archive_is_zip, node_archive_license_path, node_exe_path_spec, node_license_path_spec};
use crate::text::{is_prefix, owned, push_str, str_eq};

verus! {

/// How many members `zip::ZipArchive::new` finds in the bytes `archive`;
/// `None` when it rejects them.
pub uninterp spec fn zip_entry_count(archive: Seq<u8>) -> Option<nat>;

/// The name of member `index` of the zip archive `archive`
/// (`ZipArchive::by_index` then `ZipFile::name`); `None` when the archive
/// or the member cannot be read.
pub uninterp spec fn zip_entry_name(archive: Seq<u8>, index: nat) -> Option<Seq<char>>;

/// The decompressed contents of member `index` of the zip archive `archive`
/// (`ZipArchive::by_index` then `read_to_end`); `None` when reading fails.
pub uninterp spec fn zip_entry_data(archive: Seq<u8>, index: nat) -> Option<Seq<u8>>;

/// The members of the gzipped tarball `archive`, in archive order, as
/// `flate2::read::GzDecoder` and `tar::Archive::entries` read them: each
/// member's path (lossily as UTF-8) and contents. `None` when decompressing
/// or reading any entry, its path or its contents fails.
pub uninterp spec fn tgz_members(archive: Seq<u8>) -> Option<Seq<(Seq<char>, Seq<u8>)>>;

/// `zip::ZipArchive::new` and `len`: the number of members, or the zip
/// crate's error text.
#[verifier::external_body]
fn read_zip_entry_count(archive: &[u8]) -> (r: Result<usize, String>)
    ensures
        r is Ok <==> zip_entry_count(archive@) is Some,
        r matches Ok(n) ==> zip_entry_count(archive@) == Some(n as nat),
{
    match zip::ZipArchive::new(std::io::Cursor::new(archive)) {
        Ok(z) => Ok(z.len()),
        Err(e) => Err(e.to_string()),
    }
}

/// `zip::ZipArchive::by_index` and `ZipFile::name`: the name of member
/// `index`, or the zip crate's error text.
#[verifier::external_body]
fn read_zip_entry_name(archive: &[u8], index: usize) -> (r: Result<String, String>)
    ensures
        r is Ok <==> zip_entry_name(archive@, index as nat) is Some,
        r matches Ok(n) ==> zip_entry_name(archive@, index as nat) == Some(n@),
{
    match zip::ZipArchive::new(std::io::Cursor::new(archive)) {
        Ok(mut z) => match z.by_index(index) {
            Ok(f) => Ok(f.name().to_string()),
            Err(e) => Err(e.to_string()),
        },
        Err(e) => Err(e.to_string()),
    }
}

/// `zip::ZipArchive::by_index` and `read_to_end`: the contents of member
/// `index`, or the error text.
#[verifier::external_body]
fn read_zip_entry_data(archive: &[u8], index: usize) -> (r: Result<Vec<u8>, String>)
    ensures
        r is Ok <==> zip_entry_data(archive@, index as nat) is Some,
        r matches Ok(d) ==> zip_entry_data(archive@, index as nat) == Some(d@),
{
    let mut z = match zip::ZipArchive::new(std::io::Cursor::new(archive)) {
        Ok(z) => z,
        Err(e) => return Err(e.to_string()),
    };
    let mut data = Vec::new();
    let read = match z.by_index(index) {
        Ok(mut f) => std::io::Read::read_to_end(&mut f, &mut data).map_err(|e| e.to_string()),
        Err(e) => Err(e.to_string()),
    };
    read.map(|_| data)
}

/// `flate2::read::GzDecoder` and `tar::Archive::entries`: every member's
/// path and contents, in archive order, or the error text.
#[verifier::external_body]
fn read_tgz_members(archive: &[u8]) -> (r: Result<Vec<(String, Vec<u8>)>, String>)
    ensures
        r is Ok <==> tgz_members(archive@) is Some,
        r matches Ok(v) ==> tgz_members(archive@) == Some(
            v@.map_values(|m: (String, Vec<u8>)| (m.0@, m.1@)),
        ),
{
    let mut tar = tar::Archive::new(flate2::read::GzDecoder::new(archive));
    let mut members = Vec::new();
    for entry in tar.entries().map_err(|e| e.to_string())? {
        let mut entry = entry.map_err(|e| e.to_string())?;
        let name = entry.path().map_err(|e| e.to_string())?.to_string_lossy().into_owned();
        let mut data = Vec::new();
        std::io::Read::read_to_end(&mut entry, &mut data).map_err(|e| e.to_string())?;
        members.push((name, data));
    }
    Ok(members)
}

/// The file a member of the Node archive becomes in the driver directory:
/// the executable is `exe_out`, the licence `LICENSE`; other members are
/// not taken.
pub open spec fn node_file_name(name: Seq<char>, exe: Seq<char>, license: Seq<char>, exe_out: Seq<char>) -> Option<Seq<char>> {
    if name == exe {
        Some(exe_out)
    } else if name == license {
        Some("LICENSE"@)
    } else {
        None
    }
}

/// The files taken from the first `n` members of a zip Node archive, in
/// archive order; `None` when a member's name, or a taken member's
/// contents, cannot be read.
pub open spec fn zip_node_files(archive: Seq<u8>, exe: Seq<char>, license: Seq<char>, n: nat) -> Option<Seq<(Seq<char>, Seq<u8>)>>
    decreases n,
{
    if n == 0 {
        Some(Seq::empty())
    } else {
        match zip_node_files(archive, exe, license, (n - 1) as nat) {
            None => None,
            Some(prev) => match zip_entry_name(archive, (n - 1) as nat) {
                None => None,
                Some(name) => match node_file_name(name, exe, license, "node.exe"@) {
                    None => Some(prev),
                    Some(out) => match zip_entry_data(archive, (n - 1) as nat) {
                        None => None,
                        Some(d) => Some(prev.push((out, d))),
                    },
                },
            },
        }
    }
}

/// The files taken from the members of a tarball, in archive order.
pub open spec fn tgz_node_files(members: Seq<(Seq<char>, Seq<u8>)>, exe: Seq<char>, license: Seq<char>) -> Seq<(Seq<char>, Seq<u8>)>
    decreases members.len(),
{
    if members.len() == 0 {
        Seq::empty()
    } else {
        let prev = tgz_node_files(members.drop_last(), exe, license);
        match node_file_name(members.last().0, exe, license, "node"@) {
            None => prev,
            Some(out) => prev.push((out, members.last().1)),
        }
    }
}

/// The files taken from the Node archive for `version` and `triple`, read
/// as a zip for Windows triples and as a gzipped tarball otherwise; `None`
/// when the archive cannot be read.
pub open spec fn node_files(archive: Seq<u8>, version: Seq<char>, triple: Seq<char>) -> Option<Seq<(Seq<char>, Seq<u8>)>> {
    let exe = node_exe_path_spec(version, triple);
    let license = node_license_path_spec(version, triple);
    if is_prefix("win-"@, triple) {
        match zip_entry_count(archive) {
            None => None,
            Some(n) => zip_node_files(archive, exe, license, n),
        }
    } else {
        match tgz_members(archive) {
            None => None,
            Some(ms) => Some(tgz_node_files(ms, exe, license)),
        }
    }
}

/// Whether the files taken include the executable.
pub open spec fn has_executable(files: Seq<(Seq<char>, Seq<u8>)>) -> bool {
    exists|i: int| 0 <= i < files.len() && files[i].0 != "LICENSE"@
}

/// The view of a list of named files.
pub open spec fn files_view(files: Seq<(String, Vec<u8>)>) -> Seq<(Seq<char>, Seq<u8>)> {
    files.map_values(|f: (String, Vec<u8>)| (f.0@, f.1@))
}

/// Once a zip member cannot be read, no longer prefix can be read either.
proof fn lemma_zip_failure_persists(archive: Seq<u8>, exe: Seq<char>, license: Seq<char>, i: nat, n: nat)
    requires
        i <= n,
        zip_node_files(archive, exe, license, i) is None,
    ensures
        zip_node_files(archive, exe, license, n) is None,
    decreases n - i,
{
    if i < n {
        lemma_zip_failure_persists(archive, exe, license, i, (n - 1) as nat);
    }
}

/// The executable's and the licence's paths in the archive differ.
proof fn lemma_member_paths_differ(version: Seq<char>, triple: Seq<char>)
    ensures
        node_exe_path_spec(version, triple) != node_license_path_spec(version, triple),
{
    reveal_strlit("node-v");
    reveal_strlit("-");
    reveal_strlit("/node.exe");
    reveal_strlit("/bin/node");
    reveal_strlit("/LICENSE");
    assert(node_exe_path_spec(version, triple).len() != node_license_path_spec(version, triple).len());
}

/// Reads the Node executable and its licence out of the Node distribution
/// archive for `node_version` and `triple`, held in memory as `archive`.
/// The result lists, in archive order, the members whose path is the
/// executable's or the licence's, named `node.exe` (zip) or `node`
/// (tarball) and `LICENSE`, with their contents. It fails when the archive
/// cannot be read (a zip that does not open as one is reported as
/// `Node archive is not a valid zip: ...`, a member whose name cannot be
/// read as `zip read failed: ...`) and when it holds no executable.
pub fn node_binary_files(archive: &[u8], node_version: &str, triple: &str) -> (r: Result<Vec<(String, Vec<u8>)>, String>)
    ensures
        r is Ok <==> (node_files(archive@, node_version@, triple@) is Some && has_executable(
            node_files(archive@, node_version@, triple@)->0,
        )),
        r matches Ok(files) ==> files_view(files@) == node_files(archive@, node_version@, triple@)->0,
        node_files(archive@, node_version@, triple@) is Some && !has_executable(
            node_files(archive@, node_version@, triple@)->0,
        ) ==> (r matches Err(m) && m@ == "Node archive did not contain "@ + node_exe_path_spec(
            node_version@,
            triple@,
        )),
        is_prefix("win-"@, triple@) && zip_entry_count(archive@) is None ==> (r matches Err(m)
            && is_prefix("Node archive is not a valid zip: "@, m@)),
{
    let exe = node_archive_exe_path(node_version, triple);
    let license = node_archive_license_path(node_version, triple);
    let ghost exe_s = exe@;
    let ghost lic_s = license@;
    proof {
        lemma_member_paths_differ(node_version@, triple@);
        reveal_strlit("LICENSE");
        reveal_strlit("node.exe");
        reveal_strlit("node");
    }
    let mut files: Vec<(String, Vec<u8>)> = Vec::new();
    if node_archive_is_zip(triple) {
        let count = match read_zip_entry_count(archive) {
            Ok(c) => c,
            Err(e) => {
                let mut m = owned("Node archive is not a valid zip: ");
                proof {
                    reveal_strlit("Node archive is not a valid zip: ");
                }
                let ghost head = m@;
                push_str(&mut m, e.as_str());
                assert(m@.subrange(0, head.len() as int) =~= head);
                return Err(m);
            },
        };
        let mut i: usize = 0;
        while i < count
            invariant
                i <= count,
                zip_entry_count(archive@) == Some(count as nat),
                exe@ == exe_s,
                license@ == lic_s,
                exe_s == node_exe_path_spec(node_version@, triple@),
                lic_s == node_license_path_spec(node_version@, triple@),
                exe_s != lic_s,
                is_prefix("win-"@, triple@),
                zip_node_files(archive@, exe_s, lic_s, i as nat) == Some(files_view(files@)),
            decreases count - i,
        {
            let name = match read_zip_entry_name(archive, i) {
                Ok(n) => n,
                Err(e) => {
                    proof {
                        assert(zip_node_files(archive@, exe_s, lic_s, (i + 1) as nat) is None);
                        lemma_zip_failure_persists(archive@, exe_s, lic_s, (i + 1) as nat, count as nat);
                    }
                    let mut m = owned("zip read failed: ");
                    push_str(&mut m, e.as_str());
                    return Err(m);
                },
            };
            let is_exe = str_eq(name.as_str(), exe.as_str());
            let is_license = str_eq(name.as_str(), license.as_str());
            if is_exe || is_license {
                let data = match read_zip_entry_data(archive, i) {
                    Ok(d) => d,
                    Err(e) => {
                        proof {
                            assert(zip_node_files(archive@, exe_s, lic_s, (i + 1) as nat) is None);
                            lemma_zip_failure_persists(archive@, exe_s, lic_s, (i + 1) as nat, count as nat);
                        }
                        return Err(e);
                    },
                };
                let out = if is_exe {
                    owned("node.exe")
                } else {
                    owned("LICENSE")
                };
                let ghost before = files@;
                files.push((out, data));
                assert(files_view(files@) =~= files_view(before).push((out@, data@)));
            }
            i = i + 1;
        }
    } else {
        let members = match read_tgz_members(archive) {
            Ok(ms) => ms,
            Err(e) => {
                return Err(e);
            },
        };
        let ghost ms = members@.map_values(|m: (String, Vec<u8>)| (m.0@, m.1@));
        let n = members.len();
        assert(forall|j: int| 0 <= j < n ==> (#[trigger] members@[j]).0@ == ms[j].0 && members@[j].1@ == ms[j].1);
        let mut rest = members;
        let mut i: usize = 0;
        assert(ms.subrange(0, 0) =~= Seq::<(Seq<char>, Seq<u8>)>::empty());
        while i < n
            invariant
                i <= n,
                n == ms.len(),
                rest@.len() == n - i,
                forall|j: int| 0 <= j < n - i ==> (#[trigger] rest@[j]).0@ == ms[i + j].0 && rest@[j].1@
                    == ms[i + j].1,
                exe@ == exe_s,
                license@ == lic_s,
                exe_s != lic_s,
                tgz_node_files(ms.subrange(0, i as int), exe_s, lic_s) == files_view(files@),
            decreases n - i,
        {
            let ghost rest0 = rest@;
            assert(rest0[0].0@ == ms[i as int].0 && rest0[0].1@ == ms[i as int].1);
            let (name, data) = rest.remove(0);
            assert(name@ == ms[i as int].0 && data@ == ms[i as int].1);
            assert forall|j: int| 0 <= j < n - (i + 1) implies (#[trigger] rest@[j]).0@ == ms[i + 1
                + j].0 && rest@[j].1@ == ms[i + 1 + j].1 by {
                assert(rest@[j] == rest0[j + 1]);
                assert(rest0[j + 1].0@ == ms[i + (j + 1)].0);
            }
            let ghost sub = ms.subrange(0, i + 1);
            assert(sub.drop_last() =~= ms.subrange(0, i as int));
            assert(sub.last() == ms[i as int]);
            let is_exe = str_eq(name.as_str(), exe.as_str());
            let is_license = str_eq(name.as_str(), license.as_str());
            if is_exe || is_license {
                let out = if is_exe {
                    owned("node")
                } else {
                    owned("LICENSE")
                };
                let ghost before = files@;
                files.push((out, data));
                assert(files_view(files@) =~= files_view(before).push((out@, data@)));
            }
            i = i + 1;
        }
        assert(ms.subrange(0, n as int) =~= ms);
    }
    let mut found = false;
    let mut k: usize = 0;
    while k < files.len()
        invariant
            k <= files@.len(),
            found == exists|j: int| 0 <= j < k && files_view(files@)[j].0 != "LICENSE"@,
        decreases files@.len() - k,
    {
        let is_license = str_eq(files[k].0.as_str(), "LICENSE");
        proof {
            assert(files_view(files@)[k as int].0 == files@[k as int].0@);
        }
        if !is_license {
            found = true;
        }
        k = k + 1;
    }
    if found {
        Ok(files)
    } else {
        let mut m = owned("Node archive did not contain ");
        push_str(&mut m, exe.as_str());
        Err(m)
    }
}

} // verus!
