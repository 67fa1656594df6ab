use std::io::Write;

use capnp::message::ReaderSegments;
use fpga_netlist::archive::{
    decompress_netlist, has_gzip_header, open_netlist, read_netlist_message, NetlistError,
};

fn gzip(bytes: &[u8]) -> Vec<u8> {
    let mut e = flate2::write::GzEncoder::new(Vec::new(), flate2::Compression::default());
    e.write_all(bytes).unwrap();
    e.finish().unwrap()
}

fn message_words(values: &[u32]) -> Vec<u8> {
    let mut message = capnp::message::Builder::new_default();
    {
        let mut list: capnp::primitive_list::Builder<u32> =
            message.initn_root(values.len() as u32);
        for (i, v) in values.iter().enumerate() {
            list.set(i as u32, *v);
        }
    }
    capnp::serialize::write_message_to_words(&message)
}

fn built_segments(values: &[u32]) -> Vec<Vec<u8>> {
    let mut message = capnp::message::Builder::new_default();
    {
        let mut list: capnp::primitive_list::Builder<u32> =
            message.initn_root(values.len() as u32);
        for (i, v) in values.iter().enumerate() {
            list.set(i as u32, *v);
        }
    }
    message.get_segments_for_output().iter().map(|s| s.to_vec()).collect()
}

fn held_segments(segments: &capnp::serialize::OwnedSegments) -> Vec<Vec<u8>> {
    (0..segments.len() as u32).map(|i| segments.get_segment(i).unwrap().to_vec()).collect()
}

fn root_values(segments: capnp::serialize::OwnedSegments) -> Vec<u32> {
    let reader = capnp::message::Reader::new(segments, capnp::message::ReaderOptions::new());
    let list: capnp::primitive_list::Reader<u32> = reader.get_root().unwrap();
    list.iter().collect()
}

#[test]
fn decompress_gives_original_bytes() {
    let original = b"physical netlist bytes".to_vec();
    let compressed = gzip(&original);
    assert_ne!(compressed, original);
    assert_eq!(decompress_netlist(&compressed), Ok(original));
}

#[test]
fn decompress_empty_stream() {
    assert_eq!(decompress_netlist(&gzip(b"")), Ok(Vec::new()));
}

#[test]
fn decompress_rejects_missing_header() {
    assert_eq!(decompress_netlist(b"not a gzip stream"), Err(NetlistError::InvalidGzipHeader));
}

#[test]
fn decompress_rejects_empty_input() {
    assert_eq!(decompress_netlist(b""), Err(NetlistError::InvalidGzipHeader));
}

#[test]
fn decompress_reports_truncated_body() {
    let compressed = gzip(b"a body that will be cut short after its header");
    assert_eq!(decompress_netlist(&compressed[..12]), Err(NetlistError::UnzipFailed));
}

#[test]
fn decompress_reports_bad_checksum() {
    let mut compressed = gzip(b"checked content");
    let n = compressed.len();
    compressed[n - 8] ^= 0xff;
    assert_eq!(decompress_netlist(&compressed), Err(NetlistError::UnzipFailed));
}

#[test]
fn read_message_gives_its_segments() {
    let bytes = message_words(&[3, 1, 4]);
    let message = read_netlist_message(&bytes).ok().unwrap();
    assert_eq!(root_values(message.segments), vec![3, 1, 4]);
}

#[test]
fn read_message_rejects_empty_input() {
    assert!(matches!(read_netlist_message(b""), Err(NetlistError::MessageDecodeFailed)));
}

#[test]
fn read_message_rejects_truncated_message() {
    let bytes = message_words(&[3, 1, 4]);
    assert!(matches!(
        read_netlist_message(&bytes[..bytes.len() - 8]),
        Err(NetlistError::MessageDecodeFailed)
    ));
}

#[test]
fn open_reads_compressed_message() {
    let compressed = gzip(&message_words(&[2, 7]));
    let message = open_netlist(&compressed).ok().unwrap();
    assert_eq!(root_values(message.segments), vec![2, 7]);
}

#[test]
fn open_reports_missing_header_first() {
    assert!(matches!(open_netlist(&message_words(&[1])), Err(NetlistError::InvalidGzipHeader)));
}

#[test]
fn open_reports_undecodable_message() {
    let compressed = gzip(b"");
    assert!(matches!(open_netlist(&compressed), Err(NetlistError::MessageDecodeFailed)));
}

#[test]
fn read_message_holds_the_framed_segments() {
    let bytes = message_words(&[9, 8, 7, 6]);
    let message = read_netlist_message(&bytes).ok().unwrap();
    assert_eq!(held_segments(&message.segments), built_segments(&[9, 8, 7, 6]));
}

#[test]
fn read_message_ignores_bytes_after_the_message() {
    let mut bytes = message_words(&[5]);
    bytes.extend_from_slice(&message_words(&[6, 6]));
    let message = read_netlist_message(&bytes).ok().unwrap();
    assert_eq!(root_values(message.segments), vec![5]);
}

#[test]
fn open_equals_reading_the_decompressed_bytes() {
    let plain = message_words(&[1, 2, 3]);
    let opened = open_netlist(&gzip(&plain)).ok().unwrap();
    let read = read_netlist_message(&plain).ok().unwrap();
    assert_eq!(held_segments(&opened.segments), held_segments(&read.segments));
}

#[test]
fn header_check() {
    assert!(has_gzip_header(&gzip(b"x")));
    assert!(!has_gzip_header(b"x"));
    assert!(!has_gzip_header(b""));
}
