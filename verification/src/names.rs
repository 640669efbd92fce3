//! The textual names of frame types, error codes and SETTINGS identifiers,
//! matched ASCII-case-insensitively as the detection rule language writes
//! them.

use vstd::prelude::*;
use vstd::string::StringSliceAdditionalSpecFns;

use crate::types::HTTP2ErrorCode;
use crate::types::HTTP2FrameType;
use crate::types::HTTP2SettingsId;

verus! {

/// ASCII uppercase of one byte: lowercase letters are folded, everything
/// else is kept.
pub open spec fn spec_ascii_upper(b: u8) -> u8 {
    if 97 <= b <= 122 {
        (b - 32) as u8
    } else {
        b
    }
}

/// ASCII uppercase of a byte sequence.
pub open spec fn spec_upper_bytes(s: Seq<u8>) -> Seq<u8> {
    s.map_values(|b: u8| spec_ascii_upper(b))
}

fn ascii_upper(b: u8) -> (r: u8)
    ensures
        r == spec_ascii_upper(b),
{
    if 97 <= b && b <= 122 {
        b - 32
    } else {
        b
    }
}

/// Whether `a`, folded to ASCII uppercase, equals `t` byte for byte.
fn eq_ignore_ascii_case(a: &[u8], t: &[u8]) -> (r: bool)
    ensures
        r == (spec_upper_bytes(a@) == t@),
{
    if a.len() != t.len() {
        proof {
            assert(spec_upper_bytes(a@).len() == a@.len());
        }
        return false;
    }
    let mut i: usize = 0;
    while i < a.len()
        invariant
            0 <= i <= a@.len(),
            a@.len() == t@.len(),
            forall|j: int| 0 <= j < i ==> spec_upper_bytes(a@)[j] == t@[j],
        decreases a@.len() - i,
    {
        if ascii_upper(a[i]) != t[i] {
            proof {
                assert(spec_upper_bytes(a@)[i as int] != t@[i as int]);
            }
            return false;
        }
        i = i + 1;
    }
    proof {
        assert(spec_upper_bytes(a@) =~= t@);
    }
    true
}

impl HTTP2FrameType {
    /// The frame type that a textual name denotes, compared
    /// case-insensitively.
    pub open spec fn spec_from_name(b: Seq<u8>) -> Option<HTTP2FrameType> {
        let u = spec_upper_bytes(b);
        if u == "DATA".spec_bytes() {
            Some(HTTP2FrameType::DATA)
        } else if u == "HEADERS".spec_bytes() {
            Some(HTTP2FrameType::HEADERS)
        } else if u == "PRIORITY".spec_bytes() {
            Some(HTTP2FrameType::PRIORITY)
        } else if u == "RSTSTREAM".spec_bytes() {
            Some(HTTP2FrameType::RSTSTREAM)
        } else if u == "SETTINGS".spec_bytes() {
            Some(HTTP2FrameType::SETTINGS)
        } else if u == "PUSHPROMISE".spec_bytes() {
            Some(HTTP2FrameType::PUSHPROMISE)
        } else if u == "PING".spec_bytes() {
            Some(HTTP2FrameType::PING)
        } else if u == "GOAWAY".spec_bytes() {
            Some(HTTP2FrameType::GOAWAY)
        } else if u == "WINDOWUPDATE".spec_bytes() {
            Some(HTTP2FrameType::WINDOWUPDATE)
        } else if u == "CONTINUATION".spec_bytes() {
            Some(HTTP2FrameType::CONTINUATION)
        } else {
            None
        }
    }

    /// Parses a frame type name, case-insensitively.
    pub fn from_str(s: &str) -> (r: Option<HTTP2FrameType>)
        ensures
            r == HTTP2FrameType::spec_from_name(s.spec_bytes()),
    {
        let b = s.as_bytes();
        if eq_ignore_ascii_case(b, "DATA".as_bytes()) {
            Some(HTTP2FrameType::DATA)
        } else if eq_ignore_ascii_case(b, "HEADERS".as_bytes()) {
            Some(HTTP2FrameType::HEADERS)
        } else if eq_ignore_ascii_case(b, "PRIORITY".as_bytes()) {
            Some(HTTP2FrameType::PRIORITY)
        } else if eq_ignore_ascii_case(b, "RSTSTREAM".as_bytes()) {
            Some(HTTP2FrameType::RSTSTREAM)
        } else if eq_ignore_ascii_case(b, "SETTINGS".as_bytes()) {
            Some(HTTP2FrameType::SETTINGS)
        } else if eq_ignore_ascii_case(b, "PUSHPROMISE".as_bytes()) {
            Some(HTTP2FrameType::PUSHPROMISE)
        } else if eq_ignore_ascii_case(b, "PING".as_bytes()) {
            Some(HTTP2FrameType::PING)
        } else if eq_ignore_ascii_case(b, "GOAWAY".as_bytes()) {
            Some(HTTP2FrameType::GOAWAY)
        } else if eq_ignore_ascii_case(b, "WINDOWUPDATE".as_bytes()) {
            Some(HTTP2FrameType::WINDOWUPDATE)
        } else if eq_ignore_ascii_case(b, "CONTINUATION".as_bytes()) {
            Some(HTTP2FrameType::CONTINUATION)
        } else {
            None
        }
    }
}

impl HTTP2ErrorCode {
    /// The error code that a textual name denotes, compared
    /// case-insensitively. (`INTERNAL_ERROR` has no textual form here.)
    pub open spec fn spec_from_name(b: Seq<u8>) -> Option<HTTP2ErrorCode> {
        let u = spec_upper_bytes(b);
        if u == "NO_ERROR".spec_bytes() {
            Some(HTTP2ErrorCode::NOERROR)
        } else if u == "PROTOCOL_ERROR".spec_bytes() {
            Some(HTTP2ErrorCode::PROTOCOLERROR)
        } else if u == "FLOW_CONTROL_ERROR".spec_bytes() {
            Some(HTTP2ErrorCode::FLOWCONTROLERROR)
        } else if u == "SETTINGS_TIMEOUT".spec_bytes() {
            Some(HTTP2ErrorCode::SETTINGSTIMEOUT)
        } else if u == "STREAM_CLOSED".spec_bytes() {
            Some(HTTP2ErrorCode::STREAMCLOSED)
        } else if u == "FRAME_SIZE_ERROR".spec_bytes() {
            Some(HTTP2ErrorCode::FRAMESIZEERROR)
        } else if u == "REFUSED_STREAM".spec_bytes() {
            Some(HTTP2ErrorCode::REFUSEDSTREAM)
        } else if u == "CANCEL".spec_bytes() {
            Some(HTTP2ErrorCode::CANCEL)
        } else if u == "COMPRESSION_ERROR".spec_bytes() {
            Some(HTTP2ErrorCode::COMPRESSIONERROR)
        } else if u == "CONNECT_ERROR".spec_bytes() {
            Some(HTTP2ErrorCode::CONNECTERROR)
        } else if u == "ENHANCE_YOUR_CALM".spec_bytes() {
            Some(HTTP2ErrorCode::ENHANCEYOURCALM)
        } else if u == "INADEQUATE_SECURITY".spec_bytes() {
            Some(HTTP2ErrorCode::INADEQUATESECURITY)
        } else if u == "HTTP_1_1_REQUIRED".spec_bytes() {
            Some(HTTP2ErrorCode::HTTP11REQUIRED)
        } else {
            None
        }
    }

    /// Parses an error code name, case-insensitively.
    pub fn from_str(s: &str) -> (r: Option<HTTP2ErrorCode>)
        ensures
            r == HTTP2ErrorCode::spec_from_name(s.spec_bytes()),
    {
        let b = s.as_bytes();
        if eq_ignore_ascii_case(b, "NO_ERROR".as_bytes()) {
            Some(HTTP2ErrorCode::NOERROR)
        } else if eq_ignore_ascii_case(b, "PROTOCOL_ERROR".as_bytes()) {
            Some(HTTP2ErrorCode::PROTOCOLERROR)
        } else if eq_ignore_ascii_case(b, "FLOW_CONTROL_ERROR".as_bytes()) {
            Some(HTTP2ErrorCode::FLOWCONTROLERROR)
        } else if eq_ignore_ascii_case(b, "SETTINGS_TIMEOUT".as_bytes()) {
            Some(HTTP2ErrorCode::SETTINGSTIMEOUT)
        } else if eq_ignore_ascii_case(b, "STREAM_CLOSED".as_bytes()) {
            Some(HTTP2ErrorCode::STREAMCLOSED)
        } else if eq_ignore_ascii_case(b, "FRAME_SIZE_ERROR".as_bytes()) {
            Some(HTTP2ErrorCode::FRAMESIZEERROR)
        } else if eq_ignore_ascii_case(b, "REFUSED_STREAM".as_bytes()) {
            Some(HTTP2ErrorCode::REFUSEDSTREAM)
        } else if eq_ignore_ascii_case(b, "CANCEL".as_bytes()) {
            Some(HTTP2ErrorCode::CANCEL)
        } else if eq_ignore_ascii_case(b, "COMPRESSION_ERROR".as_bytes()) {
            Some(HTTP2ErrorCode::COMPRESSIONERROR)
        } else if eq_ignore_ascii_case(b, "CONNECT_ERROR".as_bytes()) {
            Some(HTTP2ErrorCode::CONNECTERROR)
        } else if eq_ignore_ascii_case(b, "ENHANCE_YOUR_CALM".as_bytes()) {
            Some(HTTP2ErrorCode::ENHANCEYOURCALM)
        } else if eq_ignore_ascii_case(b, "INADEQUATE_SECURITY".as_bytes()) {
            Some(HTTP2ErrorCode::INADEQUATESECURITY)
        } else if eq_ignore_ascii_case(b, "HTTP_1_1_REQUIRED".as_bytes()) {
            Some(HTTP2ErrorCode::HTTP11REQUIRED)
        } else {
            None
        }
    }
}

impl HTTP2SettingsId {
    /// The SETTINGS identifier that a textual name denotes, compared
    /// case-insensitively.
    pub open spec fn spec_from_name(b: Seq<u8>) -> Option<HTTP2SettingsId> {
        let u = spec_upper_bytes(b);
        if u == "SETTINGS_HEADER_TABLE_SIZE".spec_bytes() {
            Some(HTTP2SettingsId::SETTINGSHEADERTABLESIZE)
        } else if u == "SETTINGS_ENABLE_PUSH".spec_bytes() {
            Some(HTTP2SettingsId::SETTINGSENABLEPUSH)
        } else if u == "SETTINGS_MAX_CONCURRENT_STREAMS".spec_bytes() {
            Some(HTTP2SettingsId::SETTINGSMAXCONCURRENTSTREAMS)
        } else if u == "SETTINGS_INITIAL_WINDOW_SIZE".spec_bytes() {
            Some(HTTP2SettingsId::SETTINGSINITIALWINDOWSIZE)
        } else if u == "SETTINGS_MAX_FRAME_SIZE".spec_bytes() {
            Some(HTTP2SettingsId::SETTINGSMAXFRAMESIZE)
        } else if u == "SETTINGS_MAX_HEADER_LIST_SIZE".spec_bytes() {
            Some(HTTP2SettingsId::SETTINGSMAXHEADERLISTSIZE)
        } else {
            None
        }
    }

    /// Parses a SETTINGS identifier name given as bytes, case-insensitively.
    pub fn from_name_bytes(b: &[u8]) -> (r: Option<HTTP2SettingsId>)
        ensures
            r == HTTP2SettingsId::spec_from_name(b@),
    {
        if eq_ignore_ascii_case(b, "SETTINGS_HEADER_TABLE_SIZE".as_bytes()) {
            Some(HTTP2SettingsId::SETTINGSHEADERTABLESIZE)
        } else if eq_ignore_ascii_case(b, "SETTINGS_ENABLE_PUSH".as_bytes()) {
            Some(HTTP2SettingsId::SETTINGSENABLEPUSH)
        } else if eq_ignore_ascii_case(b, "SETTINGS_MAX_CONCURRENT_STREAMS".as_bytes()) {
            Some(HTTP2SettingsId::SETTINGSMAXCONCURRENTSTREAMS)
        } else if eq_ignore_ascii_case(b, "SETTINGS_INITIAL_WINDOW_SIZE".as_bytes()) {
            Some(HTTP2SettingsId::SETTINGSINITIALWINDOWSIZE)
        } else if eq_ignore_ascii_case(b, "SETTINGS_MAX_FRAME_SIZE".as_bytes()) {
            Some(HTTP2SettingsId::SETTINGSMAXFRAMESIZE)
        } else if eq_ignore_ascii_case(b, "SETTINGS_MAX_HEADER_LIST_SIZE".as_bytes()) {
            Some(HTTP2SettingsId::SETTINGSMAXHEADERLISTSIZE)
        } else {
            None
        }
    }

    /// Parses a SETTINGS identifier name, case-insensitively.
    pub fn from_str(s: &str) -> (r: Option<HTTP2SettingsId>)
        ensures
            r == HTTP2SettingsId::spec_from_name(s.spec_bytes()),
    {
        HTTP2SettingsId::from_name_bytes(s.as_bytes())
    }
}

} // verus!
