use std::io::{Read, Write};
use std::time::{SystemTime, UNIX_EPOCH};

use boxstrap::error::PipelineError;
use boxstrap::extract::extract;

fn fresh_destination(label: &str) -> String {
    let nanos = SystemTime::now()
        .duration_since(UNIX_EPOCH)
        .unwrap()
        .as_nanos();
    format!("/tmp/boxstrap_{}_{}", label, nanos)
}

fn gzip(bytes: &[u8]) -> Vec<u8> {
    let mut encoder = flate2::write::GzEncoder::new(Vec::new(), flate2::Compression::default());
    encoder.write_all(bytes).unwrap();
    encoder.finish().unwrap()
}

/// Builds an in-memory gzip-compressed tar archive holding the given files,
/// each as (path, mode, contents).
fn build_layer(files: &[(&str, u32, &[u8])]) -> Vec<u8> {
    let mut builder = tar::Builder::new(Vec::new());
    for (path, mode, contents) in files {
        let mut header = tar::Header::new_gnu();
        header.set_size(contents.len() as u64);
        header.set_mode(*mode);
        header.set_cksum();
        builder.append_data(&mut header, *path, *contents).unwrap();
    }
    let tar_bytes = builder.into_inner().unwrap();
    gzip(&tar_bytes)
}

/// Reads the tree under `root` back as (path, mode, contents) triples, by
/// re-packing it with tar and walking the fresh archive in memory.
fn read_tree(root: &str) -> Vec<(String, u32, Vec<u8>)> {
    let mut builder = tar::Builder::new(Vec::new());
    builder.append_dir_all(".", root).unwrap();
    let repacked = builder.into_inner().unwrap();
    let mut archive = tar::Archive::new(&repacked[..]);
    let mut seen = Vec::new();
    for entry in archive.entries().unwrap() {
        let mut entry = entry.unwrap();
        if !entry.header().entry_type().is_file() {
            continue;
        }
        let path = entry
            .path()
            .unwrap()
            .to_string_lossy()
            .trim_start_matches("./")
            .to_string();
        let mode = entry.header().mode().unwrap() & 0o777;
        let mut contents = Vec::new();
        entry.read_to_end(&mut contents).unwrap();
        seen.push((path, mode, contents));
    }
    seen.sort();
    seen
}

#[test]
fn round_trip_preserves_paths_contents_and_modes() {
    let files: &[(&str, u32, &[u8])] = &[
        ("bin/tool", 0o755, b"#!/bin/sh\necho hi\n"),
        ("etc/conf", 0o644, b"key=value\n"),
        ("deep/nested/dir/data", 0o600, b"\x00\x01\x02\xff"),
    ];
    let blob = build_layer(files);
    let dest = fresh_destination("round_trip");
    extract(&blob, &dest).unwrap();
    let seen = read_tree(&dest);
    let mut expected: Vec<(String, u32, Vec<u8>)> = files
        .iter()
        .map(|(p, m, c)| (p.to_string(), *m, c.to_vec()))
        .collect();
    expected.sort();
    assert_eq!(seen, expected);
}

#[test]
fn empty_archive_extracts_cleanly() {
    let blob = build_layer(&[]);
    let dest = fresh_destination("empty");
    extract(&blob, &dest).unwrap();
    assert_eq!(read_tree(&dest), Vec::new());
}

#[test]
fn non_gzip_stream_fails_with_extraction_error() {
    let blob = vec![1u8, 2, 3, 4, 5];
    let dest = fresh_destination("non_gzip");
    let r = extract(&blob, &dest);
    assert!(matches!(r, Err(PipelineError::Extraction(_))));
}

#[test]
fn truncated_stream_fails_with_extraction_error() {
    let whole = build_layer(&[("bin/tool", 0o755, b"payload payload payload")]);
    let truncated = whole[..whole.len() / 2].to_vec();
    let dest = fresh_destination("truncated");
    let r = extract(&truncated, &dest);
    assert!(matches!(r, Err(PipelineError::Extraction(_))));
}
