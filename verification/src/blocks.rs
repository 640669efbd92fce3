//! Decoding a whole frame payload's worth of header fields, and the three
//! header-bearing frame bodies that share that loop: HEADERS, PUSH_PROMISE
//! and CONTINUATION.

use vstd::prelude::*;

use crate::dyntable::DynTableView;
use crate::dyntable::HTTP2DynTable;
use crate::frames::http2_parse_headers_priority;
use crate::frames::spec_be32;
use crate::headers::FieldStep;
use crate::headers::http2_parse_headers_block;
use crate::headers::spec_field;
use crate::types::HTTP2FrameContinuation;
use crate::types::HTTP2FrameHeaderBlock;
use crate::types::HTTP2FrameHeaders;
use crate::types::HTTP2FrameHeadersPriority;
use crate::types::HTTP2FramePushPromise;
use crate::types::HTTP2ParseError;
use crate::types::HeaderBlockView;

verus! {

/// The outcome of decoding a header-field sequence. The dynamic table
/// state is carried in every outcome: mutations applied by fields decoded
/// before a failure are kept, not rolled back.
pub enum BlocksStep {
    Incomplete { tab: DynTableView },
    Fail { tab: DynTableView },
    Done { blocks: Seq<HeaderBlockView>, tab: DynTableView },
}

/// Decoding header fields off the front of `s` until no bytes remain. A
/// field decode that would consume nothing is a fatal error: the guard
/// against a non-terminating decode loop.
pub open spec fn spec_block_seq(s: Seq<u8>, d: DynTableView) -> BlocksStep
    decreases s.len(),
{
    if s.len() == 0 {
        BlocksStep::Done { blocks: Seq::empty(), tab: d }
    } else {
        match spec_field(s, d) {
            FieldStep::Incomplete => BlocksStep::Incomplete { tab: d },
            FieldStep::Fail => BlocksStep::Fail { tab: d },
            FieldStep::Field { consumed, block, tab } => {
                if consumed < 1 || consumed > s.len() {
                    BlocksStep::Fail { tab }
                } else {
                    match spec_block_seq(s.skip(consumed), tab) {
                        BlocksStep::Incomplete { tab: t2 } => BlocksStep::Incomplete { tab: t2 },
                        BlocksStep::Fail { tab: t2 } => BlocksStep::Fail { tab: t2 },
                        BlocksStep::Done { blocks, tab: t2 } => BlocksStep::Done {
                            blocks: seq![block] + blocks,
                            tab: t2,
                        },
                    }
                }
            },
        }
    }
}

/// Decodes header fields until the input is exhausted, appending each to a
/// list. A field decode that consumes no bytes surfaces a fatal error
/// instead of looping.
fn parse_blocks(input: &[u8], dyn_headers: &mut HTTP2DynTable) -> (r: Result<
    Vec<HTTP2FrameHeaderBlock>,
    HTTP2ParseError,
>)
    requires
        old(dyn_headers)@.wf(),
    ensures
        final(dyn_headers)@.wf(),
        match spec_block_seq(input@, old(dyn_headers)@) {
            BlocksStep::Incomplete { tab } => {
                &&& r == Err::<Vec<HTTP2FrameHeaderBlock>, HTTP2ParseError>(
                    HTTP2ParseError::Incomplete,
                )
                &&& final(dyn_headers)@ == tab
            },
            BlocksStep::Fail { tab } => {
                &&& r == Err::<Vec<HTTP2FrameHeaderBlock>, HTTP2ParseError>(HTTP2ParseError::Error)
                &&& final(dyn_headers)@ == tab
            },
            BlocksStep::Done { blocks, tab } => {
                &&& r matches Ok(v)
                &&& v.deep_view() == blocks
                &&& final(dyn_headers)@ == tab
            },
        },
{
    let ghost s0 = input@;
    let ghost d0 = dyn_headers@;
    let mut blocks: Vec<HTTP2FrameHeaderBlock> = Vec::new();
    let mut pos: usize = 0;
    proof {
        assert(s0.skip(0) =~= s0);
        assert(blocks.deep_view() =~= Seq::<HeaderBlockView>::empty());
    }
    while pos < input.len()
        invariant
            s0 == input@,
            d0 == old(dyn_headers)@,
            0 <= pos <= s0.len(),
            dyn_headers@.wf(),
            match spec_block_seq(s0.skip(pos as int), dyn_headers@) {
                BlocksStep::Incomplete { tab } => spec_block_seq(s0, d0)
                    == (BlocksStep::Incomplete { tab }),
                BlocksStep::Fail { tab } => spec_block_seq(s0, d0) == (BlocksStep::Fail { tab }),
                BlocksStep::Done { blocks: bs, tab } => spec_block_seq(s0, d0)
                    == (BlocksStep::Done { blocks: blocks.deep_view() + bs, tab }),
            },
        decreases s0.len() - pos,
    {
        let rem = &input[pos..input.len()];
        proof {
            assert(rem@ =~= s0.skip(pos as int));
        }
        let ghost oldpos = pos as int;
        let ghost oldtab = dyn_headers@;
        let ghost oldblocks = blocks.deep_view();
        match http2_parse_headers_block(rem, dyn_headers) {
            Err(e) => {
                return Err(e);
            },
            Ok((c, b)) => {
                if c == 0 {
                    return Err(HTTP2ParseError::Error);
                }
                blocks.push(b);
                pos = pos + c;
                proof {
                    assert(s0.skip(oldpos).skip(c as int) =~= s0.skip(pos as int));
                    assert(blocks.deep_view() =~= oldblocks.push(b@));
                    match spec_block_seq(s0.skip(pos as int), dyn_headers@) {
                        BlocksStep::Incomplete { tab } => {},
                        BlocksStep::Fail { tab } => {},
                        BlocksStep::Done { blocks: bs, tab } => {
                            assert(oldblocks + (seq![b@] + bs) =~= oldblocks.push(b@) + bs);
                        },
                    }
                }
            },
        }
    }
    proof {
        assert(s0.skip(pos as int).len() == 0);
        assert(blocks.deep_view() + Seq::<HeaderBlockView>::empty() =~= blocks.deep_view());
    }
    Ok(blocks)
}

/// The outcome of decoding a HEADERS frame body.
pub enum HeadersStep {
    Incomplete { tab: DynTableView },
    Fail { tab: DynTableView },
    Done {
        padlength: Option<u8>,
        priority: Option<HTTP2FrameHeadersPriority>,
        blocks: Seq<HeaderBlockView>,
        tab: DynTableView,
    },
}

/// Decoding a HEADERS body: a pad length byte when the PADDED flag is set,
/// the priority sub-structure when the PRIORITY flag is set, then header
/// fields over all remaining bytes (padding bytes declared by the pad
/// length are not excluded from that range).
pub open spec fn spec_frame_headers(s: Seq<u8>, flags: u8, d: DynTableView) -> HeadersStep {
    let padded = flags & 0x8 != 0;
    if padded && s.len() < 1 {
        HeadersStep::Incomplete { tab: d }
    } else {
        let padlength: Option<u8> = if padded {
            Some(s[0])
        } else {
            None
        };
        let s1 = if padded {
            s.skip(1)
        } else {
            s
        };
        let prio = flags & 0x20 != 0;
        if prio && s1.len() < 5 {
            HeadersStep::Incomplete { tab: d }
        } else {
            let priority: Option<HTTP2FrameHeadersPriority> = if prio {
                Some(
                    HTTP2FrameHeadersPriority {
                        exclusive: s1[0] / 128,
                        dependency: (spec_be32(s1, 0) % 0x80000000) as u32,
                        weight: s1[4],
                    },
                )
            } else {
                None
            };
            let s2 = if prio {
                s1.skip(5)
            } else {
                s1
            };
            match spec_block_seq(s2, d) {
                BlocksStep::Incomplete { tab } => HeadersStep::Incomplete { tab },
                BlocksStep::Fail { tab } => HeadersStep::Fail { tab },
                BlocksStep::Done { blocks, tab } => HeadersStep::Done {
                    padlength,
                    priority,
                    blocks,
                    tab,
                },
            }
        }
    }
}

/// Decodes a HEADERS frame body: optional pad length, optional priority
/// sub-structure, then the header-field sequence over every remaining byte.
/// On success the whole payload is consumed.
pub fn http2_parse_frame_headers(input: &[u8], flags: u8, dyn_headers: &mut HTTP2DynTable) -> (r:
    Result<(usize, HTTP2FrameHeaders), HTTP2ParseError>)
    requires
        old(dyn_headers)@.wf(),
    ensures
        final(dyn_headers)@.wf(),
        match spec_frame_headers(input@, flags, old(dyn_headers)@) {
            HeadersStep::Incomplete { tab } => {
                &&& r == Err::<(usize, HTTP2FrameHeaders), HTTP2ParseError>(
                    HTTP2ParseError::Incomplete,
                )
                &&& final(dyn_headers)@ == tab
            },
            HeadersStep::Fail { tab } => {
                &&& r == Err::<(usize, HTTP2FrameHeaders), HTTP2ParseError>(HTTP2ParseError::Error)
                &&& final(dyn_headers)@ == tab
            },
            HeadersStep::Done { padlength, priority, blocks, tab } => {
                &&& r matches Ok((c, f))
                &&& c == input@.len()
                &&& f.padlength == padlength
                &&& f.priority == priority
                &&& f.blocks.deep_view() == blocks
                &&& final(dyn_headers)@ == tab
            },
        },
{
    let mut pos: usize = 0;
    let padlength: Option<u8> = if flags & 0x8 != 0 {
        if input.len() < 1 {
            return Err(HTTP2ParseError::Incomplete);
        }
        pos = 1;
        Some(input[0])
    } else {
        None
    };
    let ghost s1 = if flags & 0x8 != 0 {
        input@.skip(1)
    } else {
        input@
    };
    let priority: Option<HTTP2FrameHeadersPriority> = if flags & 0x20 != 0 {
        let sub = &input[pos..input.len()];
        proof {
            assert(sub@ =~= s1);
        }
        match http2_parse_headers_priority(sub) {
            Err(e) => {
                return Err(e);
            },
            Ok((c, p)) => {
                pos = pos + c;
                Some(p)
            },
        }
    } else {
        None
    };
    let rem = &input[pos..input.len()];
    proof {
        assert(rem@ =~= (if flags & 0x20 != 0 {
            s1.skip(5)
        } else {
            s1
        }));
    }
    match parse_blocks(rem, dyn_headers) {
        Err(e) => Err(e),
        Ok(blocks) => Ok((input.len(), HTTP2FrameHeaders { padlength, priority, blocks })),
    }
}

/// The outcome of decoding a PUSH_PROMISE frame body.
pub enum PushPromiseStep {
    Incomplete { tab: DynTableView },
    Fail { tab: DynTableView },
    Done {
        padlength: Option<u8>,
        reserved: u8,
        stream_id: u32,
        blocks: Seq<HeaderBlockView>,
        tab: DynTableView,
    },
}

/// Decoding a PUSH_PROMISE body: a pad length byte when the PADDED flag is
/// set, one reserved bit and the 31-bit promised stream identifier, then
/// header fields over all remaining bytes.
pub open spec fn spec_frame_push_promise(s: Seq<u8>, flags: u8, d: DynTableView) -> PushPromiseStep {
    let padded = flags & 0x8 != 0;
    if padded && s.len() < 1 {
        PushPromiseStep::Incomplete { tab: d }
    } else {
        let padlength: Option<u8> = if padded {
            Some(s[0])
        } else {
            None
        };
        let s1 = if padded {
            s.skip(1)
        } else {
            s
        };
        if s1.len() < 4 {
            PushPromiseStep::Incomplete { tab: d }
        } else {
            match spec_block_seq(s1.skip(4), d) {
                BlocksStep::Incomplete { tab } => PushPromiseStep::Incomplete { tab },
                BlocksStep::Fail { tab } => PushPromiseStep::Fail { tab },
                BlocksStep::Done { blocks, tab } => PushPromiseStep::Done {
                    padlength,
                    reserved: s1[0] / 128,
                    stream_id: (spec_be32(s1, 0) % 0x80000000) as u32,
                    blocks,
                    tab,
                },
            }
        }
    }
}

/// Decodes a PUSH_PROMISE frame body: optional pad length, reserved bit and
/// promised stream identifier, then the header-field sequence over every
/// remaining byte.
pub fn http2_parse_frame_push_promise(
    input: &[u8],
    flags: u8,
    dyn_headers: &mut HTTP2DynTable,
) -> (r: Result<(usize, HTTP2FramePushPromise), HTTP2ParseError>)
    requires
        old(dyn_headers)@.wf(),
    ensures
        final(dyn_headers)@.wf(),
        match spec_frame_push_promise(input@, flags, old(dyn_headers)@) {
            PushPromiseStep::Incomplete { tab } => {
                &&& r == Err::<(usize, HTTP2FramePushPromise), HTTP2ParseError>(
                    HTTP2ParseError::Incomplete,
                )
                &&& final(dyn_headers)@ == tab
            },
            PushPromiseStep::Fail { tab } => {
                &&& r == Err::<(usize, HTTP2FramePushPromise), HTTP2ParseError>(
                    HTTP2ParseError::Error,
                )
                &&& final(dyn_headers)@ == tab
            },
            PushPromiseStep::Done { padlength, reserved, stream_id, blocks, tab } => {
                &&& r matches Ok((c, f))
                &&& c == input@.len()
                &&& f.padlength == padlength
                &&& f.reserved == reserved
                &&& f.stream_id == stream_id
                &&& f.blocks.deep_view() == blocks
                &&& final(dyn_headers)@ == tab
            },
        },
{
    let mut pos: usize = 0;
    let padlength: Option<u8> = if flags & 0x8 != 0 {
        if input.len() < 1 {
            return Err(HTTP2ParseError::Incomplete);
        }
        pos = 1;
        Some(input[0])
    } else {
        None
    };
    let ghost s1 = if flags & 0x8 != 0 {
        input@.skip(1)
    } else {
        input@
    };
    if input.len() - pos < 4 {
        return Err(HTTP2ParseError::Incomplete);
    }
    let reserved = input[pos] / 128;
    let stream_id = ((input[pos] as u32) * 0x1000000 + (input[pos + 1] as u32) * 0x10000 + (input[
        pos + 2] as u32) * 0x100 + (input[pos + 3] as u32)) % 0x80000000;
    proof {
        assert(s1[0] == input@[pos as int]);
        assert(s1[1] == input@[pos as int + 1]);
        assert(s1[2] == input@[pos as int + 2]);
        assert(s1[3] == input@[pos as int + 3]);
    }
    let rem = &input[pos + 4..input.len()];
    proof {
        assert(rem@ =~= s1.skip(4));
    }
    match parse_blocks(rem, dyn_headers) {
        Err(e) => Err(e),
        Ok(blocks) => Ok(
            (
                input.len(),
                HTTP2FramePushPromise { padlength, reserved, stream_id, blocks },
            ),
        ),
    }
}

/// Decodes a CONTINUATION frame body: the header-field sequence over the
/// entire payload.
pub fn http2_parse_frame_continuation(input: &[u8], dyn_headers: &mut HTTP2DynTable) -> (r: Result<
    (usize, HTTP2FrameContinuation),
    HTTP2ParseError,
>)
    requires
        old(dyn_headers)@.wf(),
    ensures
        final(dyn_headers)@.wf(),
        match spec_block_seq(input@, old(dyn_headers)@) {
            BlocksStep::Incomplete { tab } => {
                &&& r == Err::<(usize, HTTP2FrameContinuation), HTTP2ParseError>(
                    HTTP2ParseError::Incomplete,
                )
                &&& final(dyn_headers)@ == tab
            },
            BlocksStep::Fail { tab } => {
                &&& r == Err::<(usize, HTTP2FrameContinuation), HTTP2ParseError>(
                    HTTP2ParseError::Error,
                )
                &&& final(dyn_headers)@ == tab
            },
            BlocksStep::Done { blocks, tab } => {
                &&& r matches Ok((c, f))
                &&& c == input@.len()
                &&& f.blocks.deep_view() == blocks
                &&& final(dyn_headers)@ == tab
            },
        },
{
    match parse_blocks(input, dyn_headers) {
        Err(e) => Err(e),
        Ok(blocks) => Ok((input.len(), HTTP2FrameContinuation { blocks })),
    }
}

} // verus!
