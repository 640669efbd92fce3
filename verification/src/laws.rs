//! Properties of the decoders that relate several definitions, stated and
//! proved once: how indexed fields resolve against the static table, and
//! how the block and settings sequence decoders cut their input short.
//! The eviction laws of the dynamic table stand beside its definition.

use vstd::prelude::*;

use crate::blocks::BlocksStep;
use crate::blocks::spec_block_seq;
use crate::dyntable::DynTableView;
use crate::frames::spec_be16;
use crate::frames::spec_settings;
use crate::frames::spec_settings_consumed;
use crate::headers::FieldStep;
use crate::headers::StringStep;
use crate::headers::spec_field;
use crate::headers::spec_literal_common;
use crate::headers::spec_parse_string;
use crate::statictable::spec_static_name;
use crate::statictable::spec_static_value;
use crate::types::HTTP2FrameSettings;
use crate::types::HTTP2HeaderDecodeStatus;
use crate::types::HTTP2SettingsId;
use crate::types::HeaderBlockView;
use crate::varint::VarIntStep;
use crate::varint::spec_var_uint;

verus! {

/// For every index 1 through 61, a one-byte Indexed Header Field decodes
/// to exactly the protocol's fixed static-table name and value, with
/// Success status, consuming the byte and leaving the dynamic table as it
/// was — whatever the table holds.
pub proof fn lemma_indexed_field_static(n: u64, d: DynTableView)
    requires
        1 <= n <= 61,
    ensures
        spec_field(seq![(0x80 + n) as u8], d) == (FieldStep::Field {
            consumed: 1,
            block: HeaderBlockView {
                name: spec_static_name(n as int),
                value: spec_static_value(n as int),
                error: HTTP2HeaderDecodeStatus::HTTP2HeaderDecodeSuccess,
                sizeupdate: 0u64,
            },
            tab: d,
        }),
{
    reveal(spec_field);
    let s = seq![(0x80 + n) as u8];
    assert(s[0] == 0x80 + n);
    assert(s[0] % 128 == n);
    assert(spec_var_uint(s.skip(1), n, 0x7f) == (VarIntStep::Done { consumed: 0, value: n }));
}

/// Index 0 is invalid: the one-byte field that names it decodes to a field
/// with Index0 status, empty name and value, and no table mutation.
pub proof fn lemma_indexed_field_index0(d: DynTableView)
    ensures
        spec_field(seq![0x80u8], d) == (FieldStep::Field {
            consumed: 1,
            block: HeaderBlockView {
                name: Seq::empty(),
                value: Seq::empty(),
                error: HTTP2HeaderDecodeStatus::HTTP2HeaderDecodeIndex0,
                sizeupdate: 0u64,
            },
            tab: d,
        }),
{
    reveal(spec_field);
    let s = seq![0x80u8];
    assert(s[0] == 0x80);
    assert(s[0] % 128 == 0);
    assert(spec_var_uint(s.skip(1), 0, 0x7f) == (VarIntStep::Done { consumed: 0, value: 0u64 }));
}

/// A finished string-literal decode consumed at least its first byte and
/// at most the whole input.
pub proof fn lemma_string_consumed(s: Seq<u8>)
    ensures
        spec_parse_string(s) matches StringStep::Done { consumed, .. } ==> 1 <= consumed
            <= s.len(),
{
    if s.len() > 0 {
        crate::varint::lemma_var_uint_consumed(s.skip(1), (s[0] % 128) as u64, 0x7f);
    }
}

/// A literal field's name and value together consume at least one byte and
/// at most the whole input.
pub proof fn lemma_literal_common_consumed(s: Seq<u8>, index: u64, d: DynTableView)
    ensures
        spec_literal_common(s, index, d) matches FieldStep::Field { consumed, .. } ==> 1
            <= consumed <= s.len(),
{
    lemma_string_consumed(s);
    if index == 0 {
        match spec_parse_string(s) {
            StringStep::Done { consumed: c1, .. } => {
                lemma_string_consumed(s.skip(c1));
            },
            _ => {},
        }
    }
}

/// Every header field encoding that decodes consumes at least one byte and
/// at most the whole input: no sub-decoder can hand its input back
/// unchanged, so block decoding always makes progress.
pub proof fn lemma_field_progress(s: Seq<u8>, d: DynTableView)
    ensures
        spec_field(s, d) matches FieldStep::Field { consumed, .. } ==> 1 <= consumed <= s.len(),
{
    reveal(spec_field);
    if s.len() > 0 {
        crate::varint::lemma_var_uint_consumed(s.skip(1), (s[0] % 128) as u64, 0x7f);
        crate::varint::lemma_var_uint_consumed(s.skip(1), (s[0] % 64) as u64, 0x3f);
        crate::varint::lemma_var_uint_consumed(s.skip(1), (s[0] % 32) as u64, 0x1f);
        crate::varint::lemma_var_uint_consumed(s.skip(1), (s[0] % 16) as u64, 0xf);
        if 0x40 <= s[0] && s[0] < 0x80 {
            match spec_var_uint(s.skip(1), (s[0] % 64) as u64, 0x3f) {
                VarIntStep::Done { consumed: c, value: v } => {
                    lemma_literal_common_consumed(s.skip(1 + c), v, d);
                },
                _ => {},
            }
        }
        if s[0] < 0x20 {
            match spec_var_uint(s.skip(1), (s[0] % 16) as u64, 0xf) {
                VarIntStep::Done { consumed: c, value: v } => {
                    lemma_literal_common_consumed(s.skip(1 + c), v, d);
                },
                _ => {},
            }
        }
    }
}

/// A sub-decoder that hands its input back unchanged — a field decode that
/// consumes nothing — makes the whole block sequence fail at once instead
/// of looping.
pub proof fn lemma_block_seq_zero_progress(
    s: Seq<u8>,
    d: DynTableView,
    b: HeaderBlockView,
    t: DynTableView,
)
    requires
        s.len() > 0,
        spec_field(s, d) == (FieldStep::Field { consumed: 0, block: b, tab: t }),
    ensures
        spec_block_seq(s, d) == (BlocksStep::Fail { tab: t }),
{
}

/// A settings body whose next pair carries an unrecognized id yields no
/// further pairs: everything from that pair on is dropped, and no error is
/// raised.
pub proof fn lemma_settings_stop(s: Seq<u8>)
    requires
        s.len() >= 6,
        HTTP2SettingsId::spec_from_code(spec_be16(s, 0) as u16) is None,
    ensures
        spec_settings(s) =~= Seq::<HTTP2FrameSettings>::empty(),
        spec_settings_consumed(s) == 0,
{
}

} // verus!
