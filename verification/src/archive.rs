//! From the bytes of a netlist file to a Cap'n Proto message.
//!
//! A physical netlist file is a gzip stream whose content is a Cap'n Proto
//! message in the standard stream framing. Decompression is done by `flate2`
//! and the message framing is read by `capnp`; what this module decides is
//! which of those steps failed and how that is reported.

use crate::framing::{frame, frameable, lemma_read_framed_segments, stream_segments};
use crate::gzip_format::{
    gzip_header_end, header_fields_fit, lemma_stored_member_content, member_header,
    stored_member, stored_member_content,
};
use std::io::Read;
use vstd::prelude::*;

verus! {

#[verifier::external_type_specification]
#[verifier::external_body]
pub struct ExGzHeader(flate2::GzHeader);

#[verifier::external_type_specification]
#[verifier::external_body]
pub struct ExIoError(std::io::Error);

#[verifier::external_type_specification]
#[verifier::external_body]
pub struct ExCapnpError(capnp::Error);

#[verifier::external_type_specification]
#[verifier::external_body]
pub struct ExOwnedSegments(capnp::serialize::OwnedSegments);


/// Whether `flate2` parses a gzip member header at the start of `data`: the
/// header format of RFC 1952 with every optional field, as
/// `flate2::gz::GzHeaderParser` checks it (see `gzip_header_end`).
pub open spec fn gzip_header_parses(data: Seq<u8>) -> bool {
    gzip_header_end(data) is Some
}

/// What `flate2` decompresses the first gzip member of `data` to, or `None`
/// where it reports an error. Where the member stores its content in stored
/// DEFLATE blocks, `gz_read_to_end` states the result
/// (`stored_member_content`); for compressed blocks it is this name.
pub uninterp spec fn gunzip(data: Seq<u8>) -> Option<Seq<u8>>;

/// The segments of the message that `capnp` reads in stream framing (segment
/// table, then segments) from the start of `data`, each as its bytes, or
/// `None` where it reports an error: `capnp::serialize::read_message`
/// (serialize.rs, `read_segment_table` and `read_segments`) with no
/// traversal limit accepts exactly the framing that `stream_segments` states.
pub open spec fn capnp_message(data: Seq<u8>) -> Option<Seq<Seq<u8>>> {
    stream_segments(data)
}

/// The segments that a `capnp::serialize::OwnedSegments` holds, in order,
/// each as its bytes (what `ReaderSegments::get_segment` hands out for
/// indices below `ReaderSegments::len`).
pub uninterp spec fn segments_of(segments: capnp::serialize::OwnedSegments) -> Seq<Seq<u8>>;

/// Calls `flate2::read::GzDecoder::new` on `data`, which parses the gzip
/// header at once, and hands back `GzDecoder::header`: present exactly where
/// the header parsed, which `gzip_header_parses` states (for a slice the
/// parser never waits for more input). The fields of the header (name,
/// comment, time) that it hands back are not described.
#[verifier::external_body]
fn gz_header(data: &[u8]) -> (header: Option<flate2::GzHeader>)
    ensures
        header is Some == gzip_header_parses(data@),
{
    flate2::read::GzDecoder::new(data).header().cloned()
}

/// Reads a `flate2::read::GzDecoder` over `data` to its end
/// (`Read::read_to_end`): the decompressed bytes of the first gzip member, or
/// the error it reports. The contract ties both to the name `gunzip`, and
/// states the result for a member made of stored blocks: their bytes, in
/// full, once the trailer's CRC-32 and length match them (flate2 reads one
/// member, inflates it, and checks its trailer in `bufread::GzDecoder::read`).
#[verifier::external_body]
fn gz_read_to_end(data: &[u8]) -> (result: Result<Vec<u8>, std::io::Error>)
    ensures
        result is Ok == gunzip(data@) is Some,
        result matches Ok(bytes) ==> bytes@ == gunzip(data@).unwrap(),
        result is Ok || stored_member_content(data@) is None,
        result matches Ok(bytes) ==> (stored_member_content(data@) matches Some(content)
            ==> bytes@ == content),
{
    let mut bytes: Vec<u8> = Vec::new();
    match flate2::read::GzDecoder::new(data).read_to_end(&mut bytes) {
        Ok(_) => Ok(bytes),
        Err(e) => Err(e),
    }
}

/// Calls `capnp::serialize::read_message` on `data` with reader options whose
/// traversal limit is removed, and hands back the segments of the message it
/// read (`Reader::into_segments`). Success, and the segments read, are those
/// of the name `capnp_message`: `read_message` copies each segment from the
/// bytes that follow the segment table. Without a traversal limit `capnp` allocates the words that the segment table
/// declares before it reads them; what happens when the machine cannot
/// supply that memory is not stated.
#[verifier::external_body]
fn capnp_read_message(data: &[u8]) -> (result: Result<capnp::serialize::OwnedSegments, capnp::Error>)
    ensures
        result is Ok == capnp_message(data@) is Some,
        result matches Ok(segments) ==> segments_of(segments) == capnp_message(data@).unwrap(),
{
    let mut options = capnp::message::ReaderOptions::new();
    options.traversal_limit_in_words(None);
    match capnp::serialize::read_message(data, options) {
        Ok(message) => Ok(message.into_segments()),
        Err(e) => Err(e),
    }
}

/// Why a netlist file could not be opened.
#[derive(Clone, Copy, Debug, PartialEq, Eq)]
pub enum NetlistError {
    /// The data does not start with a gzip header.
    InvalidGzipHeader,
    /// The gzip stream could not be decompressed.
    UnzipFailed,
    /// The decompressed data is not a framed Cap'n Proto message.
    MessageDecodeFailed,
}

/// A netlist message read from its bytes, not yet interpreted: its segments,
/// which `capnp::message::Reader::new` turns back into a message reader.
/// `segments_of(self.segments)` is what they hold.
pub struct NetlistMessage {
    pub segments: capnp::serialize::OwnedSegments,
}

/// What decompressing `data` gives: a missing header is reported before the
/// decompression is tried.
pub open spec fn decompressed(data: Seq<u8>) -> Result<Seq<u8>, NetlistError> {
    if !gzip_header_parses(data) {
        Err(NetlistError::InvalidGzipHeader)
    } else {
        match gunzip(data) {
            Some(bytes) => Ok(bytes),
            None => Err(NetlistError::UnzipFailed),
        }
    }
}

/// Whether `data` starts with a gzip header.
pub fn has_gzip_header(data: &[u8]) -> (present: bool)
    ensures
        present == gzip_header_parses(data@),
{
    gz_header(data).is_some()
}

/// Decompresses a gzip-compressed netlist file.
pub fn decompress_netlist(data: &[u8]) -> (result: Result<Vec<u8>, NetlistError>)
    ensures
        result is Ok == decompressed(data@) is Ok,
        stored_member_content(data@) matches Some(content) ==> result matches Ok(bytes)
            && bytes@ == content,
        result matches Ok(bytes) ==> decompressed(data@) == Ok::<Seq<u8>, NetlistError>(bytes@),
        result matches Err(e) ==> decompressed(data@) == Err::<Seq<u8>, NetlistError>(e),
{
    if !has_gzip_header(data) {
        return Err(NetlistError::InvalidGzipHeader);
    }
    match gz_read_to_end(data) {
        Ok(bytes) => Ok(bytes),
        Err(_) => Err(NetlistError::UnzipFailed),
    }
}

/// Reads the framed Cap'n Proto message that uncompressed netlist bytes hold.
pub fn read_netlist_message(data: &[u8]) -> (result: Result<NetlistMessage, NetlistError>)
    ensures
        result is Ok == capnp_message(data@) is Some,
        result matches Ok(message) ==> segments_of(message.segments) == capnp_message(
            data@,
        ).unwrap(),
        result matches Err(e) ==> e == NetlistError::MessageDecodeFailed,
{
    match capnp_read_message(data) {
        Ok(segments) => Ok(NetlistMessage { segments }),
        Err(_) => Err(NetlistError::MessageDecodeFailed),
    }
}

/// Opens a netlist file from its bytes: decompresses them, then reads the
/// message that they hold.
pub fn open_netlist(data: &[u8]) -> (result: Result<NetlistMessage, NetlistError>)
    ensures
        match decompressed(data@) {
            Err(e) => result matches Err(f) && f == e,
            Ok(bytes) => {
                &&& result is Ok == capnp_message(bytes) is Some
                &&& result matches Ok(message) ==> segments_of(message.segments) == capnp_message(
                    bytes,
                ).unwrap()
                &&& result matches Err(f) ==> f == NetlistError::MessageDecodeFailed
            },
        },
        stored_member_content(data@) matches Some(content) ==> {
            &&& result is Ok == capnp_message(content) is Some
            &&& result matches Ok(message) ==> segments_of(message.segments) == capnp_message(
                content,
            ).unwrap()
        },
{
    let bytes = decompress_netlist(data)?;
    read_netlist_message(bytes.as_slice())
}

/// Opening a netlist file that stores the stream framing of `segments`
/// (behind any gzip header the format allows, with any bytes after the
/// message and after the member) reads exactly those segments, whatever
/// their number and size: the content is the framed message, and reading it
/// gives the segments.
pub proof fn lemma_open_framed_netlist(
    mtime: u32,
    xfl: u8,
    os: u8,
    extra: Option<Seq<u8>>,
    name: Option<Seq<u8>>,
    comment: Option<Seq<u8>>,
    header_crc: bool,
    segments: Seq<Seq<u8>>,
    after_message: Seq<u8>,
    after_member: Seq<u8>,
)
    requires
        header_fields_fit(extra, name, comment),
        frameable(segments),
    ensures
        ({
            let content = frame(segments) + after_message;
            let file = stored_member(
                member_header(mtime, xfl, os, extra, name, comment, header_crc),
                content,
            ) + after_member;
            &&& gzip_header_parses(file)
            &&& stored_member_content(file) == Some(content)
            &&& capnp_message(content) == Some(segments)
        }),
{
    let content = frame(segments) + after_message;
    lemma_stored_member_content(
        mtime,
        xfl,
        os,
        extra,
        name,
        comment,
        header_crc,
        content,
        after_member,
    );
    lemma_read_framed_segments(segments, after_message);
}

} // verus!
