use playwright_rs::node_archive::node_binary_files;
use std::io::Write;

fn tgz(members: &[(&str, &[u8])]) -> Vec<u8> {
    let gz = flate2::write::GzEncoder::new(Vec::new(), flate2::Compression::default());
    let mut builder = tar::Builder::new(gz);
    for (name, data) in members {
        let mut header = tar::Header::new_gnu();
        header.set_size(data.len() as u64);
        header.set_mode(0o644);
        header.set_cksum();
        builder.append_data(&mut header, name, *data).unwrap();
    }
    builder.into_inner().unwrap().finish().unwrap()
}

fn zip_of(members: &[(&str, &[u8])]) -> Vec<u8> {
    let mut w = zip::ZipWriter::new(std::io::Cursor::new(Vec::new()));
    for (name, data) in members {
        w.start_file(*name, zip::write::SimpleFileOptions::default()).unwrap();
        w.write_all(data).unwrap();
    }
    w.finish().unwrap().into_inner()
}

#[test]
fn tarball_gives_node_and_license_in_archive_order() {
    let archive = tgz(&[
        ("node-v24.17.0-linux-x64/LICENSE", b"license text"),
        ("node-v24.17.0-linux-x64/include/node.h", b"header"),
        ("node-v24.17.0-linux-x64/bin/node", b"\x7fELF"),
    ]);
    let files = node_binary_files(&archive, "24.17.0", "linux-x64").unwrap();
    assert_eq!(
        files,
        vec![
            ("LICENSE".to_string(), b"license text".to_vec()),
            ("node".to_string(), b"\x7fELF".to_vec()),
        ]
    );
}

#[test]
fn zip_gives_node_exe() {
    let archive = zip_of(&[
        ("node-v24.17.0-win-x64/node.exe", b"MZ"),
        ("node-v24.17.0-win-x64/npm.cmd", b"@echo"),
    ]);
    let files = node_binary_files(&archive, "24.17.0", "win-x64").unwrap();
    assert_eq!(files, vec![("node.exe".to_string(), b"MZ".to_vec())]);
}

#[test]
fn archive_without_executable_is_rejected() {
    let archive = tgz(&[("node-v24.17.0-linux-x64/LICENSE", b"l")]);
    assert_eq!(
        node_binary_files(&archive, "24.17.0", "linux-x64").unwrap_err(),
        "Node archive did not contain node-v24.17.0-linux-x64/bin/node"
    );
    // The Windows executable path does not count in a tarball.
    let archive = tgz(&[("node-v24.17.0-linux-x64/node.exe", b"MZ")]);
    assert!(node_binary_files(&archive, "24.17.0", "linux-x64").is_err());
}

#[test]
fn bytes_that_are_not_a_zip_are_rejected() {
    let err = node_binary_files(b"not a zip", "24.17.0", "win-arm64").unwrap_err();
    assert!(err.starts_with("Node archive is not a valid zip: "), "{}", err);
    assert!(node_binary_files(b"not gzip", "24.17.0", "darwin-arm64").is_err());
}
