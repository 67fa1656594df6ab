//! The gzip member format (RFC 1952): a header with optional fields, a
//! DEFLATE stream (RFC 1951), then the CRC-32 and the length of the content.
//!
//! What `flate2` accepts as a header is stated in full. Of DEFLATE only the
//! stored (uncompressed) blocks are stated: a member whose stream consists of
//! them decompresses to their bytes.

use crate::wire::{le16, le32, lemma_le16, lemma_le32, u16_le, u32_le};
use vstd::prelude::*;

verus! {

/// One step of the bitwise CRC-32 (reflected polynomial `0xEDB88320`).
pub open spec fn crc32_shift(c: u32) -> u32 {
    if c & 1u32 == 1u32 {
        (c >> 1u32) ^ 0xEDB8_8320u32
    } else {
        c >> 1u32
    }
}

/// The CRC-32 register after taking in byte `b`.
pub open spec fn crc32_byte(c: u32, b: u8) -> u32 {
    crc32_shift(
        crc32_shift(
            crc32_shift(
                crc32_shift(
                    crc32_shift(crc32_shift(crc32_shift(crc32_shift(c ^ (b as u32))))),
                ),
            ),
        ),
    )
}

/// The CRC-32 register after taking in `data`, starting from all ones.
pub open spec fn crc32_register(data: Seq<u8>) -> u32
    decreases data.len(),
{
    if data.len() == 0 {
        0xFFFF_FFFFu32
    } else {
        crc32_byte(crc32_register(data.drop_last()), data.last())
    }
}

/// The CRC-32 (ISO-HDLC, as gzip uses it) of `data`.
pub open spec fn crc32(data: Seq<u8>) -> u32 {
    crc32_register(data) ^ 0xFFFF_FFFFu32
}

/// Where the zero-terminated header field that starts at `start` ends (just
/// after its zero byte), reading from `at`: `None` where the data ends first,
/// or where the field holds more than 65535 bytes before its zero byte.
pub open spec fn zstring_end(data: Seq<u8>, start: int, at: int) -> Option<int>
    decreases data.len() - at,
{
    if at < start || at < 0 || at >= data.len() {
        None
    } else if data[at] == 0 {
        Some(at + 1)
    } else if at - start >= 65535 {
        None
    } else {
        zstring_end(data, start, at + 1)
    }
}

/// Where the optional extra field ends (just after the fixed part when the
/// header has none).
pub open spec fn extra_end(data: Seq<u8>, flags: u8) -> Option<int> {
    if flags & 4u8 != 0 {
        if data.len() < 12 {
            None
        } else if 12 + u16_le(data, 10) <= data.len() {
            Some((12 + u16_le(data, 10)) as int)
        } else {
            None
        }
    } else {
        Some(10)
    }
}

/// Where an optional zero-terminated field that may start at `p` ends.
pub open spec fn zstring_field_end(data: Seq<u8>, present: bool, p: Option<int>) -> Option<int> {
    match p {
        None => None,
        Some(p) => if present {
            zstring_end(data, p, p)
        } else {
            Some(p)
        },
    }
}

/// Where the gzip member header at the start of `data` ends, or `None` where
/// there is none: the magic bytes `1f 8b`, method 8, no reserved flag, six
/// more fixed bytes, then the extra field, file name, comment and header CRC
/// that the flags announce, each complete (the CRC being the low 16 bits of
/// the CRC-32 of the header before it).
pub open spec fn gzip_header_end(data: Seq<u8>) -> Option<int> {
    if data.len() < 10 || data[0] != 0x1fu8 || data[1] != 0x8bu8 || data[2] != 8u8 || data[3]
        & 0xe0u8 != 0 {
        None
    } else {
        let flags = data[3];
        let p = zstring_field_end(
            data,
            flags & 16u8 != 0,
            zstring_field_end(data, flags & 8u8 != 0, extra_end(data, flags)),
        );
        match p {
            None => None,
            Some(p) => if flags & 2u8 != 0 {
                if p + 2 <= data.len() && u16_le(data, p) == (crc32(data.take(p)) as nat) % 65536 {
                    Some(p + 2)
                } else {
                    None
                }
            } else {
                Some(p)
            },
        }
    }
}

/// The content of the stored DEFLATE blocks that start at `at`, up to and
/// including the final one, and where they end. Each block is a header byte
/// (0 for a block, 1 for the final block), its length `LEN` and `NLEN`
/// (`LEN`'s complement), then `LEN` bytes.
pub open spec fn stored_blocks(data: Seq<u8>, at: int) -> Option<(Seq<u8>, int)>
    decreases data.len() - at,
{
    if at < 0 || at + 5 > data.len() {
        None
    } else {
        let kind = data[at];
        let len = u16_le(data, at + 1);
        if !(kind == 0u8 || kind == 1u8) || len + u16_le(data, at + 3) != 65535 || at + 5 + len
            > data.len() {
            None
        } else {
            let chunk = data.subrange(at + 5, at + 5 + len);
            if kind == 1u8 {
                Some((chunk, at + 5 + len))
            } else {
                match stored_blocks(data, at + 5 + len) {
                    Some((more, end)) => Some((chunk + more, end)),
                    None => None,
                }
            }
        }
    }
}

/// The content of a gzip member at the start of `data` whose DEFLATE stream
/// is made of stored blocks and whose trailer (CRC-32 of the content, then
/// its length modulo 2^32) matches that content; `None` for anything else.
pub open spec fn stored_member_content(data: Seq<u8>) -> Option<Seq<u8>> {
    match gzip_header_end(data) {
        None => None,
        Some(h) => match stored_blocks(data, h) {
            None => None,
            Some((content, end)) => if end + 8 <= data.len() && u32_le(data, end) == crc32(
                content,
            ) as nat && u32_le(data, end + 4) == content.len() % 0x1_0000_0000 {
                Some(content)
            } else {
                None
            },
        },
    }
}

/// The flag byte of a header with the given optional fields.
pub open spec fn flag_byte(extra: bool, name: bool, comment: bool, header_crc: bool) -> u8 {
    ((if header_crc {
        2u8
    } else {
        0u8
    }) | (if extra {
        4u8
    } else {
        0u8
    })) | ((if name {
        8u8
    } else {
        0u8
    }) | (if comment {
        16u8
    } else {
        0u8
    }))
}

/// An optional extra field: its length, then its bytes.
pub open spec fn extra_field(extra: Option<Seq<u8>>) -> Seq<u8> {
    match extra {
        Some(e) => le16(e.len()) + e,
        None => seq![],
    }
}

/// An optional zero-terminated field.
pub open spec fn zstring_field(field: Option<Seq<u8>>) -> Seq<u8> {
    match field {
        Some(s) => s + seq![0u8],
        None => seq![],
    }
}

/// A gzip member header up to (not including) the header CRC.
pub open spec fn header_fields(
    mtime: u32,
    xfl: u8,
    os: u8,
    extra: Option<Seq<u8>>,
    name: Option<Seq<u8>>,
    comment: Option<Seq<u8>>,
    header_crc: bool,
) -> Seq<u8> {
    seq![0x1fu8, 0x8bu8, 8u8, flag_byte(extra is Some, name is Some, comment is Some, header_crc)]
        + le32(mtime as nat) + seq![xfl, os] + extra_field(extra) + zstring_field(name)
        + zstring_field(comment)
}

/// A gzip member header with the given fields, and its CRC where asked for.
pub open spec fn member_header(
    mtime: u32,
    xfl: u8,
    os: u8,
    extra: Option<Seq<u8>>,
    name: Option<Seq<u8>>,
    comment: Option<Seq<u8>>,
    header_crc: bool,
) -> Seq<u8> {
    let h = header_fields(mtime, xfl, os, extra, name, comment, header_crc);
    if header_crc {
        h + le16((crc32(h) as nat) % 65536)
    } else {
        h
    }
}

/// A zero-terminated field can hold `s`: no zero byte, at most 65535 bytes.
pub open spec fn fits_zstring(field: Option<Seq<u8>>) -> bool {
    match field {
        Some(s) => s.len() <= 65535 && forall|i: int| 0 <= i < s.len() ==> #[trigger] s[i] != 0u8,
        None => true,
    }
}

/// Header fields that the format can carry.
pub open spec fn header_fields_fit(
    extra: Option<Seq<u8>>,
    name: Option<Seq<u8>>,
    comment: Option<Seq<u8>>,
) -> bool {
    &&& (extra matches Some(e) ==> e.len() < 65536)
    &&& fits_zstring(name)
    &&& fits_zstring(comment)
}

/// `content` in stored DEFLATE blocks of at most 65535 bytes, the last one
/// final.
pub open spec fn stored_blocks_of(content: Seq<u8>) -> Seq<u8>
    decreases content.len(),
{
    if content.len() <= 65535 {
        seq![1u8] + le16(content.len()) + le16((65535 - content.len()) as nat) + content
    } else {
        seq![0u8, 0xffu8, 0xffu8, 0u8, 0u8] + content.take(65535) + stored_blocks_of(
            content.skip(65535),
        )
    }
}

/// A gzip member with header `header` that stores `content` uncompressed.
pub open spec fn stored_member(header: Seq<u8>, content: Seq<u8>) -> Seq<u8> {
    header + stored_blocks_of(content) + le32(crc32(content) as nat) + le32(
        content.len() % 0x1_0000_0000,
    )
}

proof fn lemma_flag_byte(extra: bool, name: bool, comment: bool, header_crc: bool)
    ensures
        flag_byte(extra, name, comment, header_crc) & 0xe0u8 == 0,
        (flag_byte(extra, name, comment, header_crc) & 2u8 != 0) == header_crc,
        (flag_byte(extra, name, comment, header_crc) & 4u8 != 0) == extra,
        (flag_byte(extra, name, comment, header_crc) & 8u8 != 0) == name,
        (flag_byte(extra, name, comment, header_crc) & 16u8 != 0) == comment,
{
    let h: u8 = if header_crc {
        2u8
    } else {
        0u8
    };
    let e: u8 = if extra {
        4u8
    } else {
        0u8
    };
    let n: u8 = if name {
        8u8
    } else {
        0u8
    };
    let c: u8 = if comment {
        16u8
    } else {
        0u8
    };
    assert(((h | e) | (n | c)) & 0xe0u8 == 0 && (((h | e) | (n | c)) & 2u8 != 0) == (h == 2u8) && ((
    (h | e) | (n | c)) & 4u8 != 0) == (e == 4u8) && (((h | e) | (n | c)) & 8u8 != 0) == (n == 8u8)
        && (((h | e) | (n | c)) & 16u8 != 0) == (c == 16u8)) by (bit_vector)
        requires
            h == 0u8 || h == 2u8,
            e == 0u8 || e == 4u8,
            n == 0u8 || n == 8u8,
            c == 0u8 || c == 16u8,
    ;
}

proof fn lemma_zstring_from(data: Seq<u8>, start: int, s: Seq<u8>, k: int)
    requires
        0 <= start,
        0 <= k <= s.len(),
        s.len() <= 65535,
        start + s.len() + 1 <= data.len(),
        forall|i: int| 0 <= i < s.len() ==> #[trigger] s[i] != 0u8,
        forall|i: int| 0 <= i < s.len() ==> data[start + i] == #[trigger] s[i],
        data[start + s.len()] == 0u8,
    ensures
        zstring_end(data, start, start + k) == Some(start + s.len() + 1),
    decreases s.len() - k,
{
    if k < s.len() {
        assert(data[start + k] == s[k]);
        lemma_zstring_from(data, start, s, k + 1);
    }
}

proof fn lemma_zstring_field(data: Seq<u8>, p: int, field: Option<Seq<u8>>)
    requires
        0 <= p,
        fits_zstring(field),
        p + zstring_field(field).len() <= data.len(),
        data.subrange(p, p + zstring_field(field).len()) == zstring_field(field),
    ensures
        zstring_field_end(data, field is Some, Some(p)) == Some(p + zstring_field(field).len()),
{
    if let Some(s) = field {
        assert forall|i: int| 0 <= i < s.len() implies data[p + i] == #[trigger] s[i] by {
            assert(data.subrange(p, p + s.len() + 1)[i] == zstring_field(field)[i]);
        }
        assert(data.subrange(p, p + s.len() + 1)[s.len() as int] == zstring_field(field)[s.len() as int]);
        lemma_zstring_from(data, p, s, 0);
    }
}

/// Every header that the format allows, with whatever optional fields (extra
/// field, file name, comment, header CRC), is read as a header, to its last
/// byte, whatever follows it.
#[verifier::rlimit(40)]
pub proof fn lemma_member_header_parses(
    mtime: u32,
    xfl: u8,
    os: u8,
    extra: Option<Seq<u8>>,
    name: Option<Seq<u8>>,
    comment: Option<Seq<u8>>,
    header_crc: bool,
    rest: Seq<u8>,
)
    requires
        header_fields_fit(extra, name, comment),
    ensures
        gzip_header_end(member_header(mtime, xfl, os, extra, name, comment, header_crc) + rest)
            == Some(member_header(mtime, xfl, os, extra, name, comment, header_crc).len() as int),
{
    let hf = header_fields(mtime, xfl, os, extra, name, comment, header_crc);
    let header = member_header(mtime, xfl, os, extra, name, comment, header_crc);
    let data = header + rest;
    let flags = flag_byte(extra is Some, name is Some, comment is Some, header_crc);
    lemma_flag_byte(extra is Some, name is Some, comment is Some, header_crc);
    lemma_le32(mtime as nat);
    let fixed = seq![0x1fu8, 0x8bu8, 8u8, flags] + le32(mtime as nat) + seq![xfl, os];
    let ex = extra_field(extra);
    let nm = zstring_field(name);
    let cm = zstring_field(comment);
    assert(hf == fixed + ex + nm + cm);
    assert(fixed.len() == 10);
    let crc_part: Seq<u8> = if header_crc {
        le16((crc32(hf) as nat) % 65536)
    } else {
        seq![]
    };
    assert(header == hf + crc_part);
    assert(data =~= fixed + ex + nm + cm + crc_part + rest);
    assert(data[0] == 0x1fu8 && data[1] == 0x8bu8 && data[2] == 8u8 && data[3] == flags);
    // The extra field.
    let p1 = 10 + ex.len();
    assert(extra_end(data, flags) == Some(p1 as int)) by {
        if let Some(e) = extra {
            lemma_le16(e.len());
            assert(u16_le(data, 10) == u16_le(le16(e.len()), 0));
        }
    }
    // The file name.
    let p2 = p1 + nm.len();
    assert(data.subrange(p1 as int, p2 as int) =~= nm);
    lemma_zstring_field(data, p1 as int, name);
    // The comment.
    let p3 = p2 + cm.len();
    assert(data.subrange(p2 as int, p3 as int) =~= cm);
    lemma_zstring_field(data, p2 as int, comment);
    assert(p3 == hf.len());
    // The header CRC.
    if header_crc {
        lemma_le16((crc32(hf) as nat) % 65536);
        assert(data.take(p3 as int) =~= hf);
        assert(u16_le(data, p3 as int) == u16_le(crc_part, 0));
    }
}

proof fn lemma_stored_blocks(prefix: Seq<u8>, content: Seq<u8>, tail: Seq<u8>)
    ensures
        stored_blocks(prefix + stored_blocks_of(content) + tail, prefix.len() as int) == Some(
            (content, (prefix.len() + stored_blocks_of(content).len()) as int),
        ),
    decreases content.len(),
{
    let data = prefix + stored_blocks_of(content) + tail;
    let at = prefix.len() as int;
    if content.len() <= 65535 {
        let len = content.len();
        lemma_le16(len);
        lemma_le16((65535 - len) as nat);
        let block = seq![1u8] + le16(len) + le16((65535 - len) as nat) + content;
        assert(data =~= prefix + block + tail);
        assert(u16_le(data, at + 1) == u16_le(le16(len), 0));
        assert(u16_le(data, at + 3) == u16_le(le16((65535 - len) as nat), 0));
        assert(data.subrange(at + 5, at + 5 + len) =~= content);
    } else {
        let first = content.take(65535);
        let more = content.skip(65535);
        let head = seq![0u8, 0xffu8, 0xffu8, 0u8, 0u8] + first;
        assert(data =~= (prefix + head) + stored_blocks_of(more) + tail);
        lemma_stored_blocks(prefix + head, more, tail);
        assert(u16_le(data, at + 1) == 65535);
        assert(u16_le(data, at + 3) == 0);
        assert(data.subrange(at + 5, at + 5 + 65535) =~= first);
        assert(first + more =~= content);
    }
}

/// Decompressing a member that stores `content` (behind any header the format
/// allows, followed by any bytes) gives exactly `content`, whatever its
/// length.
#[verifier::rlimit(40)]
pub proof fn lemma_stored_member_content(
    mtime: u32,
    xfl: u8,
    os: u8,
    extra: Option<Seq<u8>>,
    name: Option<Seq<u8>>,
    comment: Option<Seq<u8>>,
    header_crc: bool,
    content: Seq<u8>,
    rest: Seq<u8>,
)
    requires
        header_fields_fit(extra, name, comment),
    ensures
        stored_member_content(
            stored_member(member_header(mtime, xfl, os, extra, name, comment, header_crc), content)
                + rest,
        ) == Some(content),
{
    let header = member_header(mtime, xfl, os, extra, name, comment, header_crc);
    let blocks = stored_blocks_of(content);
    let trailer = le32(crc32(content) as nat) + le32(content.len() % 0x1_0000_0000);
    let data = stored_member(header, content) + rest;
    assert(data =~= header + (blocks + trailer + rest));
    lemma_member_header_parses(mtime, xfl, os, extra, name, comment, header_crc, blocks + trailer + rest);
    assert(data =~= header + blocks + (trailer + rest));
    lemma_stored_blocks(header, content, trailer + rest);
    let end = (header.len() + blocks.len()) as int;
    lemma_le32(crc32(content) as nat);
    lemma_le32(content.len() % 0x1_0000_0000);
    assert(u32_le(data, end) == u32_le(le32(crc32(content) as nat), 0));
    assert(u32_le(data, end + 4) == u32_le(le32(content.len() % 0x1_0000_0000), 0));
}

} // verus!
