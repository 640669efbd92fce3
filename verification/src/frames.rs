//! The 9-byte frame envelope and the fixed-shape frame bodies: RST_STREAM,
//! GOAWAY, PRIORITY, WINDOW_UPDATE, the HEADERS priority sub-structure, and
//! the SETTINGS list.

use vstd::prelude::*;

use crate::types::HTTP2FrameGoAway;
use crate::types::HTTP2FrameHeader;
use crate::types::HTTP2FrameHeadersPriority;
use crate::types::HTTP2FramePriority;
use crate::types::HTTP2FrameRstStream;
use crate::types::HTTP2FrameSettings;
use crate::types::HTTP2FrameWindowUpdate;
use crate::types::HTTP2ParseError;
use crate::types::HTTP2SettingsId;

verus! {

/// The big-endian 16-bit value at byte offset `off`.
pub open spec fn spec_be16(s: Seq<u8>, off: int) -> int {
    s[off] * 0x100 + s[off + 1]
}

/// The big-endian 32-bit value at byte offset `off`.
pub open spec fn spec_be32(s: Seq<u8>, off: int) -> int {
    s[off] * 0x1000000 + s[off + 1] * 0x10000 + s[off + 2] * 0x100 + s[off + 3]
}

fn read_be16(input: &[u8], off: usize) -> (r: u16)
    requires
        off + 2 <= input@.len(),
    ensures
        r == spec_be16(input@, off as int),
{
    (input[off] as u16) * 0x100 + (input[off + 1] as u16)
}

fn read_be32(input: &[u8], off: usize) -> (r: u32)
    requires
        off + 4 <= input@.len(),
    ensures
        r == spec_be32(input@, off as int),
{
    (input[off] as u32) * 0x1000000 + (input[off + 1] as u32) * 0x10000 + (input[off + 2] as u32)
        * 0x100 + (input[off + 3] as u32)
}

/// Decodes the 9-byte frame envelope: 24-bit big-endian length, type code,
/// flags, then one reserved bit and a 31-bit big-endian stream identifier.
/// Fewer than 9 bytes is incomplete; nothing is consumed then.
pub fn http2_parse_frame_header(input: &[u8]) -> (r: Result<
    (usize, HTTP2FrameHeader),
    HTTP2ParseError,
>)
    ensures
        input@.len() < 9 ==> r == Err::<(usize, HTTP2FrameHeader), HTTP2ParseError>(
            HTTP2ParseError::Incomplete,
        ),
        input@.len() >= 9 ==> {
            &&& r matches Ok((c, h))
            &&& c == 9
            &&& h.length == input@[0] * 0x10000 + input@[1] * 0x100 + input@[2]
            &&& h.ftype == input@[3]
            &&& h.flags == input@[4]
            &&& h.reserved == input@[5] / 128
            &&& h.stream_id == spec_be32(input@, 5) % 0x80000000
        },
{
    if input.len() < 9 {
        return Err(HTTP2ParseError::Incomplete);
    }
    let length: u32 = (input[0] as u32) * 0x10000 + (input[1] as u32) * 0x100 + (input[2] as u32);
    let ftype = input[3];
    let flags = input[4];
    let reserved = input[5] / 128;
    let stream_id = read_be32(input, 5) % 0x80000000;
    Ok((9, HTTP2FrameHeader { length, ftype, flags, reserved, stream_id }))
}

/// Decodes a GOAWAY body: the 32-bit error code alone (further
/// protocol-defined diagnostic fields are deliberately not modeled).
pub fn http2_parse_frame_goaway(input: &[u8]) -> (r: Result<
    (usize, HTTP2FrameGoAway),
    HTTP2ParseError,
>)
    ensures
        input@.len() < 4 ==> r == Err::<(usize, HTTP2FrameGoAway), HTTP2ParseError>(
            HTTP2ParseError::Incomplete,
        ),
        input@.len() >= 4 ==> {
            &&& r matches Ok((c, g))
            &&& c == 4
            &&& g.errorcode == spec_be32(input@, 0)
        },
{
    if input.len() < 4 {
        return Err(HTTP2ParseError::Incomplete);
    }
    Ok((4, HTTP2FrameGoAway { errorcode: read_be32(input, 0) }))
}

/// Decodes an RST_STREAM body: the 32-bit error code.
pub fn http2_parse_frame_rststream(input: &[u8]) -> (r: Result<
    (usize, HTTP2FrameRstStream),
    HTTP2ParseError,
>)
    ensures
        input@.len() < 4 ==> r == Err::<(usize, HTTP2FrameRstStream), HTTP2ParseError>(
            HTTP2ParseError::Incomplete,
        ),
        input@.len() >= 4 ==> {
            &&& r matches Ok((c, g))
            &&& c == 4
            &&& g.errorcode == spec_be32(input@, 0)
        },
{
    if input.len() < 4 {
        return Err(HTTP2ParseError::Incomplete);
    }
    Ok((4, HTTP2FrameRstStream { errorcode: read_be32(input, 0) }))
}

/// Decodes a PRIORITY body: exclusive bit, 31-bit stream dependency, and
/// 8-bit weight.
pub fn http2_parse_frame_priority(input: &[u8]) -> (r: Result<
    (usize, HTTP2FramePriority),
    HTTP2ParseError,
>)
    ensures
        input@.len() < 5 ==> r == Err::<(usize, HTTP2FramePriority), HTTP2ParseError>(
            HTTP2ParseError::Incomplete,
        ),
        input@.len() >= 5 ==> {
            &&& r matches Ok((c, p))
            &&& c == 5
            &&& p.exclusive == input@[0] / 128
            &&& p.dependency == spec_be32(input@, 0) % 0x80000000
            &&& p.weight == input@[4]
        },
{
    if input.len() < 5 {
        return Err(HTTP2ParseError::Incomplete);
    }
    let exclusive = input[0] / 128;
    let dependency = read_be32(input, 0) % 0x80000000;
    Ok((5, HTTP2FramePriority { exclusive, dependency, weight: input[4] }))
}

/// Decodes the priority sub-structure that a HEADERS frame carries when its
/// PRIORITY flag is set: the same shape as a PRIORITY body.
pub fn http2_parse_headers_priority(input: &[u8]) -> (r: Result<
    (usize, HTTP2FrameHeadersPriority),
    HTTP2ParseError,
>)
    ensures
        input@.len() < 5 ==> r == Err::<(usize, HTTP2FrameHeadersPriority), HTTP2ParseError>(
            HTTP2ParseError::Incomplete,
        ),
        input@.len() >= 5 ==> {
            &&& r matches Ok((c, p))
            &&& c == 5
            &&& p.exclusive == input@[0] / 128
            &&& p.dependency == spec_be32(input@, 0) % 0x80000000
            &&& p.weight == input@[4]
        },
{
    if input.len() < 5 {
        return Err(HTTP2ParseError::Incomplete);
    }
    let exclusive = input[0] / 128;
    let dependency = read_be32(input, 0) % 0x80000000;
    Ok((5, HTTP2FrameHeadersPriority { exclusive, dependency, weight: input[4] }))
}

/// Decodes a WINDOW_UPDATE body: reserved bit and 31-bit increment.
pub fn http2_parse_frame_windowupdate(input: &[u8]) -> (r: Result<
    (usize, HTTP2FrameWindowUpdate),
    HTTP2ParseError,
>)
    ensures
        input@.len() < 4 ==> r == Err::<(usize, HTTP2FrameWindowUpdate), HTTP2ParseError>(
            HTTP2ParseError::Incomplete,
        ),
        input@.len() >= 4 ==> {
            &&& r matches Ok((c, w))
            &&& c == 4
            &&& w.reserved == input@[0] / 128
            &&& w.sizeinc == spec_be32(input@, 0) % 0x80000000
        },
{
    if input.len() < 4 {
        return Err(HTTP2ParseError::Incomplete);
    }
    let reserved = input[0] / 128;
    let sizeinc = read_be32(input, 0) % 0x80000000;
    Ok((4, HTTP2FrameWindowUpdate { reserved, sizeinc }))
}

/// The SETTINGS pairs that decode from `s`: consecutive (16-bit id, 32-bit
/// value) pairs, stopping at the first pair whose id is unrecognized or at
/// fewer than 6 remaining bytes. Stopping is not an error: only the decoded
/// prefix is returned.
pub open spec fn spec_settings(s: Seq<u8>) -> Seq<HTTP2FrameSettings>
    decreases s.len(),
{
    if s.len() < 6 {
        Seq::empty()
    } else {
        match HTTP2SettingsId::spec_from_code(spec_be16(s, 0) as u16) {
            Option::None => Seq::empty(),
            Option::Some(id) => seq![
                HTTP2FrameSettings { id, value: spec_be32(s, 2) as u32 },
            ] + spec_settings(s.skip(6)),
        }
    }
}

/// The bytes those pairs occupy: six per decoded pair.
pub open spec fn spec_settings_consumed(s: Seq<u8>) -> int
    decreases s.len(),
{
    if s.len() < 6 {
        0
    } else {
        match HTTP2SettingsId::spec_from_code(spec_be16(s, 0) as u16) {
            Option::None => 0,
            Option::Some(id) => 6 + spec_settings_consumed(s.skip(6)),
        }
    }
}

/// Decodes a SETTINGS body: the longest prefix of well-formed, recognized
/// (id, value) pairs. An unrecognized id midway stops the list there,
/// returning only the pairs before it; this decoder never fails.
pub fn http2_parse_frame_settings(input: &[u8]) -> (r: Result<
    (usize, Vec<HTTP2FrameSettings>),
    HTTP2ParseError,
>)
    ensures
        ({
            &&& r matches Ok((c, v))
            &&& c == spec_settings_consumed(input@)
            &&& v@ == spec_settings(input@)
        }),
{
    let ghost s0 = input@;
    let mut out: Vec<HTTP2FrameSettings> = Vec::new();
    let mut pos: usize = 0;
    let mut done = false;
    proof {
        assert(s0.skip(0) =~= s0);
    }
    while !done
        invariant
            s0 == input@,
            0 <= pos <= s0.len(),
            spec_settings(s0) == out@ + spec_settings(s0.skip(pos as int)),
            spec_settings_consumed(s0) == pos + spec_settings_consumed(s0.skip(pos as int)),
            done ==> spec_settings(s0.skip(pos as int)) =~= Seq::<HTTP2FrameSettings>::empty()
                && spec_settings_consumed(s0.skip(pos as int)) == 0,
        decreases s0.len() - pos + (if done {
            0int
        } else {
            1int
        }),
    {
        if input.len() - pos < 6 {
            done = true;
        } else {
            let idcode = read_be16(input, pos);
            proof {
                assert(s0.skip(pos as int)[0] == s0[pos as int]);
                assert(s0.skip(pos as int)[1] == s0[pos as int + 1]);
                assert(spec_be16(s0.skip(pos as int), 0) == spec_be16(s0, pos as int));
            }
            match HTTP2SettingsId::from_code(idcode) {
                Option::None => {
                    done = true;
                },
                Option::Some(id) => {
                    let value = read_be32(input, pos + 2);
                    proof {
                        assert(spec_be32(s0.skip(pos as int), 2) == spec_be32(s0, pos as int + 2));
                        assert(s0.skip(pos as int).skip(6) =~= s0.skip(pos as int + 6));
                        let rest = spec_settings(s0.skip(pos as int + 6));
                        assert(out@ + (seq![HTTP2FrameSettings { id, value }] + rest) =~= out@.push(
                            HTTP2FrameSettings { id, value },
                        ) + rest);
                    }
                    out.push(HTTP2FrameSettings { id, value });
                    pos = pos + 6;
                },
            }
        }
    }
    proof {
        assert(out@ + Seq::<HTTP2FrameSettings>::empty() =~= out@);
    }
    Ok((pos, out))
}

} // verus!
