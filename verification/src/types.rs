//! The typed values that the decoders produce: frame kinds, error codes,
//! per-field decode statuses, and the frame structures themselves.

use vstd::prelude::*;

verus! {

/// How a decode attempt can fail.
///
/// `Incomplete` means too few bytes were available to decide the next
/// structural element; nothing was consumed and no state was changed, so the
/// caller may retry with a longer buffer. `Error` is a structural violation
/// that is fatal to the current frame.
#[derive(Clone, Copy, PartialEq, Eq, Structural, Debug)]
pub enum HTTP2ParseError {
    Incomplete,
    Error,
}

/// The ten frame type codes of the protocol, in code order 0 through 9.
#[derive(Clone, Copy, PartialEq, Eq, Structural, Debug)]
pub enum HTTP2FrameType {
    DATA,
    HEADERS,
    PRIORITY,
    RSTSTREAM,
    SETTINGS,
    PUSHPROMISE,
    PING,
    GOAWAY,
    WINDOWUPDATE,
    CONTINUATION,
}

impl HTTP2FrameType {
    /// The wire code of this frame type.
    pub open spec fn spec_code(self) -> u8 {
        match self {
            HTTP2FrameType::DATA => 0,
            HTTP2FrameType::HEADERS => 1,
            HTTP2FrameType::PRIORITY => 2,
            HTTP2FrameType::RSTSTREAM => 3,
            HTTP2FrameType::SETTINGS => 4,
            HTTP2FrameType::PUSHPROMISE => 5,
            HTTP2FrameType::PING => 6,
            HTTP2FrameType::GOAWAY => 7,
            HTTP2FrameType::WINDOWUPDATE => 8,
            HTTP2FrameType::CONTINUATION => 9,
        }
    }

    pub fn code(self) -> (r: u8)
        ensures
            r == self.spec_code(),
    {
        match self {
            HTTP2FrameType::DATA => 0,
            HTTP2FrameType::HEADERS => 1,
            HTTP2FrameType::PRIORITY => 2,
            HTTP2FrameType::RSTSTREAM => 3,
            HTTP2FrameType::SETTINGS => 4,
            HTTP2FrameType::PUSHPROMISE => 5,
            HTTP2FrameType::PING => 6,
            HTTP2FrameType::GOAWAY => 7,
            HTTP2FrameType::WINDOWUPDATE => 8,
            HTTP2FrameType::CONTINUATION => 9,
        }
    }
}

/// The 9-byte frame envelope: 24-bit length, type code, flags bitmask, and a
/// reserved bit followed by a 31-bit stream identifier.
#[derive(PartialEq, Eq, Structural, Debug)]
pub struct HTTP2FrameHeader {
    pub length: u32,
    pub ftype: u8,
    pub flags: u8,
    pub reserved: u8,
    pub stream_id: u32,
}

/// The protocol's error codes 0 through 13.
#[derive(Clone, Copy, PartialEq, Eq, Structural, Debug)]
pub enum HTTP2ErrorCode {
    NOERROR,
    PROTOCOLERROR,
    INTERNALERROR,
    FLOWCONTROLERROR,
    SETTINGSTIMEOUT,
    STREAMCLOSED,
    FRAMESIZEERROR,
    REFUSEDSTREAM,
    CANCEL,
    COMPRESSIONERROR,
    CONNECTERROR,
    ENHANCEYOURCALM,
    INADEQUATESECURITY,
    HTTP11REQUIRED,
}

impl HTTP2ErrorCode {
    /// The wire code of this error code.
    pub open spec fn spec_code(self) -> u32 {
        match self {
            HTTP2ErrorCode::NOERROR => 0,
            HTTP2ErrorCode::PROTOCOLERROR => 1,
            HTTP2ErrorCode::INTERNALERROR => 2,
            HTTP2ErrorCode::FLOWCONTROLERROR => 3,
            HTTP2ErrorCode::SETTINGSTIMEOUT => 4,
            HTTP2ErrorCode::STREAMCLOSED => 5,
            HTTP2ErrorCode::FRAMESIZEERROR => 6,
            HTTP2ErrorCode::REFUSEDSTREAM => 7,
            HTTP2ErrorCode::CANCEL => 8,
            HTTP2ErrorCode::COMPRESSIONERROR => 9,
            HTTP2ErrorCode::CONNECTERROR => 10,
            HTTP2ErrorCode::ENHANCEYOURCALM => 11,
            HTTP2ErrorCode::INADEQUATESECURITY => 12,
            HTTP2ErrorCode::HTTP11REQUIRED => 13,
        }
    }

    pub fn code(self) -> (r: u32)
        ensures
            r == self.spec_code(),
    {
        match self {
            HTTP2ErrorCode::NOERROR => 0,
            HTTP2ErrorCode::PROTOCOLERROR => 1,
            HTTP2ErrorCode::INTERNALERROR => 2,
            HTTP2ErrorCode::FLOWCONTROLERROR => 3,
            HTTP2ErrorCode::SETTINGSTIMEOUT => 4,
            HTTP2ErrorCode::STREAMCLOSED => 5,
            HTTP2ErrorCode::FRAMESIZEERROR => 6,
            HTTP2ErrorCode::REFUSEDSTREAM => 7,
            HTTP2ErrorCode::CANCEL => 8,
            HTTP2ErrorCode::COMPRESSIONERROR => 9,
            HTTP2ErrorCode::CONNECTERROR => 10,
            HTTP2ErrorCode::ENHANCEYOURCALM => 11,
            HTTP2ErrorCode::INADEQUATESECURITY => 12,
            HTTP2ErrorCode::HTTP11REQUIRED => 13,
        }
    }
}

/// GOAWAY body: only the 32-bit error code is decoded.
#[derive(Clone, Copy, Debug)]
pub struct HTTP2FrameGoAway {
    pub errorcode: u32,
}

/// RST_STREAM body: the 32-bit error code.
#[derive(Clone, Copy, Debug)]
pub struct HTTP2FrameRstStream {
    pub errorcode: u32,
}

/// PRIORITY body: exclusive bit, 31-bit stream dependency, 8-bit weight.
#[derive(Clone, Copy, Debug)]
pub struct HTTP2FramePriority {
    pub exclusive: u8,
    pub dependency: u32,
    pub weight: u8,
}

/// WINDOW_UPDATE body: reserved bit and 31-bit window size increment.
#[derive(Clone, Copy, Debug)]
pub struct HTTP2FrameWindowUpdate {
    pub reserved: u8,
    pub sizeinc: u32,
}

/// The priority sub-structure that a HEADERS frame carries when its
/// PRIORITY flag is set.
#[derive(Clone, Copy, Debug)]
pub struct HTTP2FrameHeadersPriority {
    pub exclusive: u8,
    pub dependency: u32,
    pub weight: u8,
}

/// Per-field decode status. `HTTP2HeaderDecodeSuccess` and
/// `HTTP2HeaderDecodeSizeUpdate` describe well-formed fields; the remaining
/// statuses flag anomalies on an otherwise carried field so that decoding of
/// the rest of the block can continue.
#[derive(Clone, Copy, PartialEq, Eq, Structural, Debug)]
pub enum HTTP2HeaderDecodeStatus {
    HTTP2HeaderDecodeSuccess,
    HTTP2HeaderDecodeSizeUpdate,
    HTTP2HeaderDecodeError,
    HTTP2HeaderDecodeNotIndexed,
    HTTP2HeaderDecodeIntegerOverflow,
    HTTP2HeaderDecodeIndex0,
}

/// One decoded header field: owned name and value bytes, the decode status,
/// and the requested size when the status is a size update.
#[derive(Clone, Debug)]
pub struct HTTP2FrameHeaderBlock {
    pub name: Vec<u8>,
    pub value: Vec<u8>,
    pub error: HTTP2HeaderDecodeStatus,
    pub sizeupdate: u64,
}

/// The mathematical value of a decoded header field: the byte sequences of
/// its name and value together with its status.
#[verifier::ext_equal]
pub struct HeaderBlockView {
    pub name: Seq<u8>,
    pub value: Seq<u8>,
    pub error: HTTP2HeaderDecodeStatus,
    pub sizeupdate: u64,
}

impl View for HTTP2FrameHeaderBlock {
    type V = HeaderBlockView;

    open spec fn view(&self) -> HeaderBlockView {
        HeaderBlockView {
            name: self.name@,
            value: self.value@,
            error: self.error,
            sizeupdate: self.sizeupdate,
        }
    }
}

impl DeepView for HTTP2FrameHeaderBlock {
    type V = HeaderBlockView;

    open spec fn deep_view(&self) -> HeaderBlockView {
        self.view()
    }
}

/// HEADERS body: optional pad length, optional priority sub-structure, and
/// the decoded header field list.
#[derive(Clone, Debug)]
pub struct HTTP2FrameHeaders {
    pub padlength: Option<u8>,
    pub priority: Option<HTTP2FrameHeadersPriority>,
    pub blocks: Vec<HTTP2FrameHeaderBlock>,
}

/// PUSH_PROMISE body: optional pad length, reserved bit, promised stream
/// identifier, and the decoded header field list.
#[derive(Clone, Debug)]
pub struct HTTP2FramePushPromise {
    pub padlength: Option<u8>,
    pub reserved: u8,
    pub stream_id: u32,
    pub blocks: Vec<HTTP2FrameHeaderBlock>,
}

/// CONTINUATION body: the decoded header field list alone.
#[derive(Clone, Debug)]
pub struct HTTP2FrameContinuation {
    pub blocks: Vec<HTTP2FrameHeaderBlock>,
}

/// The six recognized SETTINGS identifiers, wire codes 1 through 6.
#[derive(Clone, Copy, PartialEq, Eq, Structural, Debug)]
pub enum HTTP2SettingsId {
    SETTINGSHEADERTABLESIZE,
    SETTINGSENABLEPUSH,
    SETTINGSMAXCONCURRENTSTREAMS,
    SETTINGSINITIALWINDOWSIZE,
    SETTINGSMAXFRAMESIZE,
    SETTINGSMAXHEADERLISTSIZE,
}

impl HTTP2SettingsId {
    /// The identifier that a 16-bit wire value names, if it is recognized.
    pub open spec fn spec_from_code(v: u16) -> Option<HTTP2SettingsId> {
        if v == 1 {
            Some(HTTP2SettingsId::SETTINGSHEADERTABLESIZE)
        } else if v == 2 {
            Some(HTTP2SettingsId::SETTINGSENABLEPUSH)
        } else if v == 3 {
            Some(HTTP2SettingsId::SETTINGSMAXCONCURRENTSTREAMS)
        } else if v == 4 {
            Some(HTTP2SettingsId::SETTINGSINITIALWINDOWSIZE)
        } else if v == 5 {
            Some(HTTP2SettingsId::SETTINGSMAXFRAMESIZE)
        } else if v == 6 {
            Some(HTTP2SettingsId::SETTINGSMAXHEADERLISTSIZE)
        } else {
            None
        }
    }

    pub fn from_code(v: u16) -> (r: Option<HTTP2SettingsId>)
        ensures
            r == HTTP2SettingsId::spec_from_code(v),
    {
        if v == 1 {
            Some(HTTP2SettingsId::SETTINGSHEADERTABLESIZE)
        } else if v == 2 {
            Some(HTTP2SettingsId::SETTINGSENABLEPUSH)
        } else if v == 3 {
            Some(HTTP2SettingsId::SETTINGSMAXCONCURRENTSTREAMS)
        } else if v == 4 {
            Some(HTTP2SettingsId::SETTINGSINITIALWINDOWSIZE)
        } else if v == 5 {
            Some(HTTP2SettingsId::SETTINGSMAXFRAMESIZE)
        } else if v == 6 {
            Some(HTTP2SettingsId::SETTINGSMAXHEADERLISTSIZE)
        } else {
            None
        }
    }

    /// The 16-bit wire code of this identifier.
    pub open spec fn spec_code(self) -> u16 {
        match self {
            HTTP2SettingsId::SETTINGSHEADERTABLESIZE => 1,
            HTTP2SettingsId::SETTINGSENABLEPUSH => 2,
            HTTP2SettingsId::SETTINGSMAXCONCURRENTSTREAMS => 3,
            HTTP2SettingsId::SETTINGSINITIALWINDOWSIZE => 4,
            HTTP2SettingsId::SETTINGSMAXFRAMESIZE => 5,
            HTTP2SettingsId::SETTINGSMAXHEADERLISTSIZE => 6,
        }
    }
}

/// One decoded SETTINGS pair.
#[derive(Clone, Copy, PartialEq, Eq, Structural, Debug)]
pub struct HTTP2FrameSettings {
    pub id: HTTP2SettingsId,
    pub value: u32,
}

/// An owned copy of a byte vector.
pub fn copy_bytes(v: &Vec<u8>) -> (r: Vec<u8>)
    ensures
        r@ == v@,
{
    vstd::slice::slice_to_vec(v.as_slice())
}

/// End-of-stream flag bit.
pub const HTTP2_FLAG_HEADER_EOS: u8 = 0x1;

/// End-of-headers flag bit.
pub const HTTP2_FLAG_HEADER_END_HEADERS: u8 = 0x4;

/// Padding-present flag bit.
pub const HTTP2_FLAG_HEADER_PADDED: u8 = 0x8;

/// Priority-present flag bit.
pub const HTTP2_FLAG_HEADER_PRIORITY: u8 = 0x20;

/// Number of entries in the immutable static header table.
pub const HTTP2_STATIC_HEADERS_NUMBER: usize = 61;

/// Protocol-wide ceiling on the dynamic table size, above which tracking of
/// table contents degrades.
pub const HTTP2_MAX_TABLESIZE: u32 = 65536;

} // verus!
