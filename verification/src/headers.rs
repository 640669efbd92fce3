//! Decoding of one compressed header field: the length-prefixed, optionally
//! Huffman-coded string literal, the five field encodings told apart by the
//! top bits of the first byte, and the dispatch among them.

use vstd::prelude::*;

use crate::dyntable::DynTableView;
use crate::dyntable::HTTP2DynTable;
use crate::dyntable::spec_add_entry;
use crate::dyntable::spec_apply_size_update;
use crate::huffman::http2_decode_huffman;
use crate::huffman::spec_huff_decode;
use crate::statictable::http2_frame_header_static;
use crate::statictable::spec_static_block;
use crate::types::HTTP2FrameHeaderBlock;
use crate::types::HTTP2HeaderDecodeStatus;
use crate::types::HTTP2ParseError;
use crate::types::HeaderBlockView;
use crate::varint::VarIntStep;
use crate::varint::http2_parse_var_uint;
use crate::varint::spec_var_uint;

verus! {

/// The outcome of decoding one string literal.
pub enum StringStep {
    Incomplete,
    Fail,
    Done { consumed: int, data: Seq<u8> },
}

/// The outcome of decoding one header field: on success, the bytes
/// consumed, the field produced, and the dynamic table state after the
/// field's mutation, if any.
pub enum FieldStep {
    Incomplete,
    Fail,
    Field { consumed: int, block: HeaderBlockView, tab: DynTableView },
}

/// Decoding a string literal: a Huffman flag bit, a 7-bit-prefixed length,
/// then that many raw bytes, decoded through the canonical code table when
/// the flag is set.
pub open spec fn spec_parse_string(s: Seq<u8>) -> StringStep {
    if s.len() == 0 {
        StringStep::Incomplete
    } else {
        let huff = s[0] / 128;
        let pref = s[0] % 128;
        match spec_var_uint(s.skip(1), pref as u64, 0x7f) {
            VarIntStep::Incomplete => StringStep::Incomplete,
            VarIntStep::Done { consumed, value } => {
                if value == 0 && pref == 0x7f {
                    StringStep::Fail
                } else if s.len() - (1 + consumed) < value {
                    StringStep::Incomplete
                } else {
                    let data = s.subrange(1 + consumed, 1 + consumed + value);
                    StringStep::Done {
                        consumed: 1 + consumed + value,
                        data: if huff == 0 {
                            data
                        } else {
                            spec_huff_decode(data, 0)
                        },
                    }
                }
            },
        }
    }
}

/// Decodes one string literal, returning the bytes consumed and the decoded
/// (owned) bytes. A saturated length prefix whose continuation overflows is
/// a fatal error; a length that exceeds the available bytes is incomplete.
pub fn http2_parse_headers_block_string(input: &[u8]) -> (r: Result<
    (usize, Vec<u8>),
    HTTP2ParseError,
>)
    ensures
        match spec_parse_string(input@) {
            StringStep::Incomplete => r == Err::<(usize, Vec<u8>), HTTP2ParseError>(
                HTTP2ParseError::Incomplete,
            ),
            StringStep::Fail => r == Err::<(usize, Vec<u8>), HTTP2ParseError>(
                HTTP2ParseError::Error,
            ),
            StringStep::Done { consumed, data } => {
                &&& r matches Ok((c, v))
                &&& c == consumed
                &&& v@ == data
            },
        },
        r matches Ok((c, _)) ==> 1 <= c <= input@.len(),
{
    if input.len() == 0 {
        return Err(HTTP2ParseError::Incomplete);
    }
    let b0 = input[0];
    let huff = b0 / 128;
    let pref = b0 % 128;
    let rest = &input[1..input.len()];
    proof {
        assert(rest@ =~= input@.skip(1));
    }
    match http2_parse_var_uint(rest, pref as u64, 0x7f) {
        Err(e) => Err(e),
        Ok((c, l)) => {
            if l == 0 && pref == 0x7f {
                return Err(HTTP2ParseError::Error);
            }
            let used = 1 + c;
            let avail = input.len() - used;
            if (avail as u64) < l {
                return Err(HTTP2ParseError::Incomplete);
            }
            let lus = l as usize;
            let data = &input[used..used + lus];
            proof {
                assert(data@ =~= input@.subrange(used as int, used as int + l));
            }
            if huff == 0 {
                Ok((used + lus, vstd::slice::slice_to_vec(data)))
            } else {
                Ok((used + lus, http2_decode_huffman(data)))
            }
        },
    }
}

/// The shared tail of the three literal encodings: a name, either written
/// as a string literal (index 0) or resolved through the tables, then a
/// value string. An index that resolves nowhere degrades the field to a
/// `NotIndexed` status with an empty name. The table is never mutated here.
pub open spec fn spec_literal_common(s: Seq<u8>, index: u64, d: DynTableView) -> FieldStep {
    if index == 0 {
        match spec_parse_string(s) {
            StringStep::Incomplete => FieldStep::Incomplete,
            StringStep::Fail => FieldStep::Fail,
            StringStep::Done { consumed: c1, data: name } => match spec_parse_string(s.skip(c1)) {
                StringStep::Incomplete => FieldStep::Incomplete,
                StringStep::Fail => FieldStep::Fail,
                StringStep::Done { consumed: c2, data: value } => FieldStep::Field {
                    consumed: c1 + c2,
                    block: HeaderBlockView {
                        name,
                        value,
                        error: HTTP2HeaderDecodeStatus::HTTP2HeaderDecodeSuccess,
                        sizeupdate: 0u64,
                    },
                    tab: d,
                },
            },
        }
    } else {
        let sb = spec_static_block(index as int, d);
        let resolved = sb.error == HTTP2HeaderDecodeStatus::HTTP2HeaderDecodeSuccess;
        match spec_parse_string(s) {
            StringStep::Incomplete => FieldStep::Incomplete,
            StringStep::Fail => FieldStep::Fail,
            StringStep::Done { consumed: c2, data: value } => FieldStep::Field {
                consumed: c2,
                block: HeaderBlockView {
                    name: if resolved {
                        sb.name
                    } else {
                        Seq::empty()
                    },
                    value,
                    error: if resolved {
                        HTTP2HeaderDecodeStatus::HTTP2HeaderDecodeSuccess
                    } else {
                        HTTP2HeaderDecodeStatus::HTTP2HeaderDecodeNotIndexed
                    },
                    sizeupdate: 0u64,
                },
                tab: d,
            },
        }
    }
}

/// Decodes the name and value of a literal field, `index` being the
/// already-decoded name index (0: the name is a string literal).
pub fn http2_parse_headers_block_literal_common(
    input: &[u8],
    index: u64,
    dyn_headers: &HTTP2DynTable,
) -> (r: Result<(usize, HTTP2FrameHeaderBlock), HTTP2ParseError>)
    ensures
        match spec_literal_common(input@, index, dyn_headers@) {
            FieldStep::Incomplete => r == Err::<(usize, HTTP2FrameHeaderBlock), HTTP2ParseError>(
                HTTP2ParseError::Incomplete,
            ),
            FieldStep::Fail => r == Err::<(usize, HTTP2FrameHeaderBlock), HTTP2ParseError>(
                HTTP2ParseError::Error,
            ),
            FieldStep::Field { consumed, block, tab } => {
                &&& r matches Ok((c, b))
                &&& c == consumed
                &&& b@ == block
            },
        },
        r matches Ok((c, _)) ==> 1 <= c <= input@.len(),
{
    if index == 0 {
        let (c1, name) = match http2_parse_headers_block_string(input) {
            Err(e) => {
                return Err(e);
            },
            Ok(x) => x,
        };
        let rest = &input[c1..input.len()];
        proof {
            assert(rest@ =~= input@.skip(c1 as int));
        }
        let (c2, value) = match http2_parse_headers_block_string(rest) {
            Err(e) => {
                return Err(e);
            },
            Ok(x) => x,
        };
        Ok(
            (
                c1 + c2,
                HTTP2FrameHeaderBlock {
                    name,
                    value,
                    error: HTTP2HeaderDecodeStatus::HTTP2HeaderDecodeSuccess,
                    sizeupdate: 0,
                },
            ),
        )
    } else {
        let sb = http2_frame_header_static(index, dyn_headers);
        let (name, error) = match sb {
            Some(x) => {
                if x.error == HTTP2HeaderDecodeStatus::HTTP2HeaderDecodeSuccess {
                    (x.name, HTTP2HeaderDecodeStatus::HTTP2HeaderDecodeSuccess)
                } else {
                    (Vec::new(), HTTP2HeaderDecodeStatus::HTTP2HeaderDecodeNotIndexed)
                }
            },
            None => (Vec::new(), HTTP2HeaderDecodeStatus::HTTP2HeaderDecodeNotIndexed),
        };
        let (c2, value) = match http2_parse_headers_block_string(input) {
            Err(e) => {
                return Err(e);
            },
            Ok(x) => x,
        };
        Ok((c2, HTTP2FrameHeaderBlock { name, value, error, sizeupdate: 0 }))
    }
}

/// An Indexed Header Field: a saturated-prefix index over 7 bits, resolved
/// through the tables; the table itself is never mutated.
pub open spec fn spec_field_indexed(s: Seq<u8>, d: DynTableView) -> FieldStep {
    if s.len() == 0 || s[0] < 0x80 {
        FieldStep::Fail
    } else {
        let pref = s[0] % 128;
        match spec_var_uint(s.skip(1), pref as u64, 0x7f) {
            VarIntStep::Incomplete => FieldStep::Incomplete,
            VarIntStep::Done { consumed, value } => {
                if value == 0 && pref == 0x7f {
                    FieldStep::Fail
                } else {
                    FieldStep::Field {
                        consumed: 1 + consumed,
                        block: spec_static_block(value as int, d),
                        tab: d,
                    }
                }
            },
        }
    }
}

/// Decodes an Indexed Header Field (first byte `1xxxxxxx`).
pub fn http2_parse_headers_block_indexed(input: &[u8], dyn_headers: &HTTP2DynTable) -> (r: Result<
    (usize, HTTP2FrameHeaderBlock),
    HTTP2ParseError,
>)
    requires
        input@.len() >= 1,
    ensures
        match spec_field_indexed(input@, dyn_headers@) {
            FieldStep::Incomplete => r == Err::<(usize, HTTP2FrameHeaderBlock), HTTP2ParseError>(
                HTTP2ParseError::Incomplete,
            ),
            FieldStep::Fail => r == Err::<(usize, HTTP2FrameHeaderBlock), HTTP2ParseError>(
                HTTP2ParseError::Error,
            ),
            FieldStep::Field { consumed, block, tab } => {
                &&& r matches Ok((c, b))
                &&& c == consumed
                &&& b@ == block
            },
        },
        r matches Ok((c, _)) ==> 1 <= c <= input@.len(),
{
    let b0 = input[0];
    if b0 < 0x80 {
        return Err(HTTP2ParseError::Error);
    }
    let pref = b0 % 128;
    let rest = &input[1..input.len()];
    proof {
        assert(rest@ =~= input@.skip(1));
    }
    let (c, indexreal) = match http2_parse_var_uint(rest, pref as u64, 0x7f) {
        Err(e) => {
            return Err(e);
        },
        Ok(x) => x,
    };
    if indexreal == 0 && pref == 0x7f {
        return Err(HTTP2ParseError::Error);
    }
    match http2_frame_header_static(indexreal, dyn_headers) {
        Some(h) => Ok((1 + c, h)),
        None => Err(HTTP2ParseError::Error),
    }
}

/// A Literal Header Field with Incremental Indexing: a 6-bit-prefixed name
/// index, the literal's name and value, and, on success, insertion of the
/// pair into the dynamic table with oldest-first eviction.
pub open spec fn spec_field_incindex(s: Seq<u8>, d: DynTableView) -> FieldStep {
    if s.len() == 0 || !(0x40 <= s[0] && s[0] < 0x80) {
        FieldStep::Fail
    } else {
        let pref = s[0] % 64;
        match spec_var_uint(s.skip(1), pref as u64, 0x3f) {
            VarIntStep::Incomplete => FieldStep::Incomplete,
            VarIntStep::Done { consumed, value } => {
                if value == 0 && pref == 0x3f {
                    FieldStep::Fail
                } else {
                    match spec_literal_common(s.skip(1 + consumed), value, d) {
                        FieldStep::Incomplete => FieldStep::Incomplete,
                        FieldStep::Fail => FieldStep::Fail,
                        FieldStep::Field { consumed: c2, block, tab: _ } => FieldStep::Field {
                            consumed: 1 + consumed + c2,
                            block,
                            tab: if block.error
                                == HTTP2HeaderDecodeStatus::HTTP2HeaderDecodeSuccess {
                                spec_add_entry(d, block.name, block.value)
                            } else {
                                d
                            },
                        },
                    }
                }
            },
        }
    }
}

/// Decodes a Literal Header Field with Incremental Indexing (first byte
/// `01xxxxxx`), inserting the decoded pair into the dynamic table when the
/// field decoded cleanly.
pub fn http2_parse_headers_block_literal_incindex(
    input: &[u8],
    dyn_headers: &mut HTTP2DynTable,
) -> (r: Result<(usize, HTTP2FrameHeaderBlock), HTTP2ParseError>)
    requires
        input@.len() >= 1,
        old(dyn_headers)@.wf(),
    ensures
        final(dyn_headers)@.wf(),
        match spec_field_incindex(input@, old(dyn_headers)@) {
            FieldStep::Incomplete => {
                &&& r == Err::<(usize, HTTP2FrameHeaderBlock), HTTP2ParseError>(
                    HTTP2ParseError::Incomplete,
                )
                &&& final(dyn_headers)@ =~= old(dyn_headers)@
            },
            FieldStep::Fail => {
                &&& r == Err::<(usize, HTTP2FrameHeaderBlock), HTTP2ParseError>(
                    HTTP2ParseError::Error,
                )
                &&& final(dyn_headers)@ =~= old(dyn_headers)@
            },
            FieldStep::Field { consumed, block, tab } => {
                &&& r matches Ok((c, b))
                &&& c == consumed
                &&& b@ == block
                &&& final(dyn_headers)@ =~= tab
            },
        },
        r matches Ok((c, _)) ==> 1 <= c <= input@.len(),
{
    let b0 = input[0];
    if !(0x40 <= b0 && b0 < 0x80) {
        return Err(HTTP2ParseError::Error);
    }
    let pref = b0 % 64;
    let rest = &input[1..input.len()];
    proof {
        assert(rest@ =~= input@.skip(1));
    }
    let (c, indexreal) = match http2_parse_var_uint(rest, pref as u64, 0x3f) {
        Err(e) => {
            return Err(e);
        },
        Ok(x) => x,
    };
    if indexreal == 0 && pref == 0x3f {
        return Err(HTTP2ParseError::Error);
    }
    let rest2 = &input[1 + c..input.len()];
    proof {
        assert(rest2@ =~= input@.skip(1 + c as int));
    }
    let (c2, head) = match http2_parse_headers_block_literal_common(
        rest2,
        indexreal,
        dyn_headers,
    ) {
        Err(e) => {
            return Err(e);
        },
        Ok(x) => x,
    };
    if head.error == HTTP2HeaderDecodeStatus::HTTP2HeaderDecodeSuccess {
        dyn_headers.add_entry(&head.name, &head.value);
    }
    Ok((1 + c + c2, head))
}

/// A Literal Header Field without Indexing: 4-bit name-index prefix, no
/// table mutation.
pub open spec fn spec_field_noindex(s: Seq<u8>, d: DynTableView) -> FieldStep {
    if s.len() == 0 || !(s[0] < 0x10) {
        FieldStep::Fail
    } else {
        let pref = s[0] % 16;
        match spec_var_uint(s.skip(1), pref as u64, 0xf) {
            VarIntStep::Incomplete => FieldStep::Incomplete,
            VarIntStep::Done { consumed, value } => {
                if value == 0 && pref == 0xf {
                    FieldStep::Fail
                } else {
                    match spec_literal_common(s.skip(1 + consumed), value, d) {
                        FieldStep::Incomplete => FieldStep::Incomplete,
                        FieldStep::Fail => FieldStep::Fail,
                        FieldStep::Field { consumed: c2, block, tab: _ } => FieldStep::Field {
                            consumed: 1 + consumed + c2,
                            block,
                            tab: d,
                        },
                    }
                }
            },
        }
    }
}

/// Decodes a Literal Header Field without Indexing (first byte `0000xxxx`).
pub fn http2_parse_headers_block_literal_noindex(
    input: &[u8],
    dyn_headers: &HTTP2DynTable,
) -> (r: Result<(usize, HTTP2FrameHeaderBlock), HTTP2ParseError>)
    requires
        input@.len() >= 1,
    ensures
        match spec_field_noindex(input@, dyn_headers@) {
            FieldStep::Incomplete => r == Err::<(usize, HTTP2FrameHeaderBlock), HTTP2ParseError>(
                HTTP2ParseError::Incomplete,
            ),
            FieldStep::Fail => r == Err::<(usize, HTTP2FrameHeaderBlock), HTTP2ParseError>(
                HTTP2ParseError::Error,
            ),
            FieldStep::Field { consumed, block, tab } => {
                &&& r matches Ok((c, b))
                &&& c == consumed
                &&& b@ == block
            },
        },
        r matches Ok((c, _)) ==> 1 <= c <= input@.len(),
{
    let b0 = input[0];
    if !(b0 < 0x10) {
        return Err(HTTP2ParseError::Error);
    }
    let pref = b0 % 16;
    let rest = &input[1..input.len()];
    proof {
        assert(rest@ =~= input@.skip(1));
    }
    let (c, indexreal) = match http2_parse_var_uint(rest, pref as u64, 0xf) {
        Err(e) => {
            return Err(e);
        },
        Ok(x) => x,
    };
    if indexreal == 0 && pref == 0xf {
        return Err(HTTP2ParseError::Error);
    }
    let rest2 = &input[1 + c..input.len()];
    proof {
        assert(rest2@ =~= input@.skip(1 + c as int));
    }
    match http2_parse_headers_block_literal_common(rest2, indexreal, dyn_headers) {
        Err(e) => Err(e),
        Ok((c2, head)) => Ok((1 + c + c2, head)),
    }
}

/// A Literal Header Field Never Indexed: 4-bit name-index prefix, no table
/// mutation.
pub open spec fn spec_field_neverindex(s: Seq<u8>, d: DynTableView) -> FieldStep {
    if s.len() == 0 || !(0x10 <= s[0] && s[0] < 0x20) {
        FieldStep::Fail
    } else {
        let pref = s[0] % 16;
        match spec_var_uint(s.skip(1), pref as u64, 0xf) {
            VarIntStep::Incomplete => FieldStep::Incomplete,
            VarIntStep::Done { consumed, value } => {
                if value == 0 && pref == 0xf {
                    FieldStep::Fail
                } else {
                    match spec_literal_common(s.skip(1 + consumed), value, d) {
                        FieldStep::Incomplete => FieldStep::Incomplete,
                        FieldStep::Fail => FieldStep::Fail,
                        FieldStep::Field { consumed: c2, block, tab: _ } => FieldStep::Field {
                            consumed: 1 + consumed + c2,
                            block,
                            tab: d,
                        },
                    }
                }
            },
        }
    }
}

/// Decodes a Literal Header Field Never Indexed (first byte `0001xxxx`).
pub fn http2_parse_headers_block_literal_neverindex(
    input: &[u8],
    dyn_headers: &HTTP2DynTable,
) -> (r: Result<(usize, HTTP2FrameHeaderBlock), HTTP2ParseError>)
    requires
        input@.len() >= 1,
    ensures
        match spec_field_neverindex(input@, dyn_headers@) {
            FieldStep::Incomplete => r == Err::<(usize, HTTP2FrameHeaderBlock), HTTP2ParseError>(
                HTTP2ParseError::Incomplete,
            ),
            FieldStep::Fail => r == Err::<(usize, HTTP2FrameHeaderBlock), HTTP2ParseError>(
                HTTP2ParseError::Error,
            ),
            FieldStep::Field { consumed, block, tab } => {
                &&& r matches Ok((c, b))
                &&& c == consumed
                &&& b@ == block
            },
        },
        r matches Ok((c, _)) ==> 1 <= c <= input@.len(),
{
    let b0 = input[0];
    if !(0x10 <= b0 && b0 < 0x20) {
        return Err(HTTP2ParseError::Error);
    }
    let pref = b0 % 16;
    let rest = &input[1..input.len()];
    proof {
        assert(rest@ =~= input@.skip(1));
    }
    let (c, indexreal) = match http2_parse_var_uint(rest, pref as u64, 0xf) {
        Err(e) => {
            return Err(e);
        },
        Ok(x) => x,
    };
    if indexreal == 0 && pref == 0xf {
        return Err(HTTP2ParseError::Error);
    }
    let rest2 = &input[1 + c..input.len()];
    proof {
        assert(rest2@ =~= input@.skip(1 + c as int));
    }
    match http2_parse_headers_block_literal_common(rest2, indexreal, dyn_headers) {
        Err(e) => Err(e),
        Ok((c2, head)) => Ok((1 + c + c2, head)),
    }
}

/// A Dynamic Table Size Update: a 5-bit-prefixed size. An overflowing size
/// degrades to an `IntegerOverflow` pseudo-field without mutation; a size
/// below the current bound evicts immediately. Assigning the bound itself is
/// the owning connection layer's responsibility.
pub open spec fn spec_field_size_update(s: Seq<u8>, d: DynTableView) -> FieldStep {
    if s.len() == 0 || !(0x20 <= s[0] && s[0] < 0x40) {
        FieldStep::Fail
    } else {
        let pref = s[0] % 32;
        match spec_var_uint(s.skip(1), pref as u64, 0x1f) {
            VarIntStep::Incomplete => FieldStep::Incomplete,
            VarIntStep::Done { consumed, value } => {
                if value == 0 && pref == 0x1f {
                    FieldStep::Field {
                        consumed: 1 + consumed,
                        block: HeaderBlockView {
                            name: Seq::empty(),
                            value: Seq::empty(),
                            error: HTTP2HeaderDecodeStatus::HTTP2HeaderDecodeIntegerOverflow,
                            sizeupdate: 0u64,
                        },
                        tab: d,
                    }
                } else {
                    FieldStep::Field {
                        consumed: 1 + consumed,
                        block: HeaderBlockView {
                            name: Seq::empty(),
                            value: Seq::empty(),
                            error: HTTP2HeaderDecodeStatus::HTTP2HeaderDecodeSizeUpdate,
                            sizeupdate: value,
                        },
                        tab: spec_apply_size_update(d, value),
                    }
                }
            },
        }
    }
}

/// Decodes a Dynamic Table Size Update (first byte `001xxxxx`), evicting
/// immediately when the requested size is below the current bound.
pub fn http2_parse_headers_block_dynamic_size(
    input: &[u8],
    dyn_headers: &mut HTTP2DynTable,
) -> (r: Result<(usize, HTTP2FrameHeaderBlock), HTTP2ParseError>)
    requires
        input@.len() >= 1,
        old(dyn_headers)@.wf(),
    ensures
        final(dyn_headers)@.wf(),
        match spec_field_size_update(input@, old(dyn_headers)@) {
            FieldStep::Incomplete => {
                &&& r == Err::<(usize, HTTP2FrameHeaderBlock), HTTP2ParseError>(
                    HTTP2ParseError::Incomplete,
                )
                &&& final(dyn_headers)@ =~= old(dyn_headers)@
            },
            FieldStep::Fail => {
                &&& r == Err::<(usize, HTTP2FrameHeaderBlock), HTTP2ParseError>(
                    HTTP2ParseError::Error,
                )
                &&& final(dyn_headers)@ =~= old(dyn_headers)@
            },
            FieldStep::Field { consumed, block, tab } => {
                &&& r matches Ok((c, b))
                &&& c == consumed
                &&& b@ == block
                &&& final(dyn_headers)@ =~= tab
            },
        },
        r matches Ok((c, _)) ==> 1 <= c <= input@.len(),
{
    let b0 = input[0];
    if !(0x20 <= b0 && b0 < 0x40) {
        return Err(HTTP2ParseError::Error);
    }
    let pref = b0 % 32;
    let rest = &input[1..input.len()];
    proof {
        assert(rest@ =~= input@.skip(1));
    }
    let (c, maxsize2) = match http2_parse_var_uint(rest, pref as u64, 0x1f) {
        Err(e) => {
            return Err(e);
        },
        Ok(x) => x,
    };
    if maxsize2 == 0 && pref == 0x1f {
        return Ok(
            (
                1 + c,
                HTTP2FrameHeaderBlock {
                    name: Vec::new(),
                    value: Vec::new(),
                    error: HTTP2HeaderDecodeStatus::HTTP2HeaderDecodeIntegerOverflow,
                    sizeupdate: 0,
                },
            ),
        );
    }
    dyn_headers.apply_size_update(maxsize2);
    Ok(
        (
            1 + c,
            HTTP2FrameHeaderBlock {
                name: Vec::new(),
                value: Vec::new(),
                error: HTTP2HeaderDecodeStatus::HTTP2HeaderDecodeSizeUpdate,
                sizeupdate: maxsize2,
            },
        ),
    )
}

/// Decoding one header field, told apart by the top bits of its first
/// byte.
#[verifier::opaque]
pub open spec fn spec_field(s: Seq<u8>, d: DynTableView) -> FieldStep {
    if s.len() == 0 {
        FieldStep::Fail
    } else if s[0] >= 0x80 {
        spec_field_indexed(s, d)
    } else if s[0] >= 0x40 {
        spec_field_incindex(s, d)
    } else if s[0] >= 0x20 {
        spec_field_size_update(s, d)
    } else if s[0] >= 0x10 {
        spec_field_neverindex(s, d)
    } else {
        spec_field_noindex(s, d)
    }
}

/// Decodes one header field, dispatching on the top bits of the first byte.
/// The caller guarantees at least one byte of input.
pub fn http2_parse_headers_block(input: &[u8], dyn_headers: &mut HTTP2DynTable) -> (r: Result<
    (usize, HTTP2FrameHeaderBlock),
    HTTP2ParseError,
>)
    requires
        input@.len() >= 1,
        old(dyn_headers)@.wf(),
    ensures
        final(dyn_headers)@.wf(),
        match spec_field(input@, old(dyn_headers)@) {
            FieldStep::Incomplete => {
                &&& r == Err::<(usize, HTTP2FrameHeaderBlock), HTTP2ParseError>(
                    HTTP2ParseError::Incomplete,
                )
                &&& final(dyn_headers)@ =~= old(dyn_headers)@
            },
            FieldStep::Fail => {
                &&& r == Err::<(usize, HTTP2FrameHeaderBlock), HTTP2ParseError>(
                    HTTP2ParseError::Error,
                )
                &&& final(dyn_headers)@ =~= old(dyn_headers)@
            },
            FieldStep::Field { consumed, block, tab } => {
                &&& r matches Ok((c, b))
                &&& c == consumed
                &&& b@ == block
                &&& final(dyn_headers)@ =~= tab
            },
        },
        r matches Ok((c, _)) ==> 1 <= c <= input@.len(),
{
    proof {
        reveal(spec_field);
    }
    let b0 = input[0];
    if b0 >= 0x80 {
        http2_parse_headers_block_indexed(input, dyn_headers)
    } else if b0 >= 0x40 {
        http2_parse_headers_block_literal_incindex(input, dyn_headers)
    } else if b0 >= 0x20 {
        http2_parse_headers_block_dynamic_size(input, dyn_headers)
    } else if b0 >= 0x10 {
        http2_parse_headers_block_literal_neverindex(input, dyn_headers)
    } else {
        http2_parse_headers_block_literal_noindex(input, dyn_headers)
    }
}

} // verus!
