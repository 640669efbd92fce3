//! Scenario tests for the decoders' stated properties: the static table,
//! index 0, eviction, prefix integers, settings truncation, and the
//! header-bearing frame bodies.

use http2_parser::HTTP2DynTable;
use http2_parser::HTTP2ErrorCode;
use http2_parser::HTTP2FrameType;
use http2_parser::HTTP2HeaderDecodeStatus;
use http2_parser::HTTP2ParseError;
use http2_parser::HTTP2SettingsId;
use http2_parser::http2_decode_huffman;
use http2_parser::http2_frame_header_static;
use http2_parser::http2_parse_frame_continuation;
use http2_parser::http2_parse_frame_goaway;
use http2_parser::http2_parse_frame_headers;
use http2_parser::http2_parse_frame_priority;
use http2_parser::http2_parse_frame_push_promise;
use http2_parser::http2_parse_frame_rststream;
use http2_parser::http2_parse_frame_settings;
use http2_parser::http2_parse_frame_windowupdate;
use http2_parser::http2_parse_headers_block;
use http2_parser::http2_parse_headers_block_string;
use http2_parser::http2_parse_settingsctx;
use http2_parser::http2_parse_var_uint;
use http2_parser::detect_parse_u64;
use http2_parser::DetectUintMode;

#[test]
fn test_static_table_all_indices() {
    let expected: [(&str, &str); 61] = [
        (":authority", ""),
        (":method", "GET"),
        (":method", "POST"),
        (":path", "/"),
        (":path", "/index.html"),
        (":scheme", "http"),
        (":scheme", "https"),
        (":status", "200"),
        (":status", "204"),
        (":status", "206"),
        (":status", "304"),
        (":status", "400"),
        (":status", "404"),
        (":status", "500"),
        ("accept-charset", ""),
        ("accept-encoding", "gzip, deflate"),
        ("accept-language", ""),
        ("accept-ranges", ""),
        ("accept", ""),
        ("access-control-allow-origin", ""),
        ("age", ""),
        ("allow", ""),
        ("authorization", ""),
        ("cache-control", ""),
        ("content-disposition", ""),
        ("content-encoding", ""),
        ("content-language", ""),
        ("content-length", ""),
        ("content-location", ""),
        ("content-range", ""),
        ("content-type", ""),
        ("cookie", ""),
        ("date", ""),
        ("etag", ""),
        ("expect", ""),
        ("expires", ""),
        ("from", ""),
        ("host", ""),
        ("if-match", ""),
        ("if-modified-since", ""),
        ("if-none-match", ""),
        ("if-range", ""),
        ("if-unmodified-since", ""),
        ("last-modified", ""),
        ("link", ""),
        ("location", ""),
        ("max-forwards", ""),
        ("proxy-authenticate", ""),
        ("proxy-authorization", ""),
        ("range", ""),
        ("referer", ""),
        ("refresh", ""),
        ("retry-after", ""),
        ("server", ""),
        ("set-cookie", ""),
        ("strict-transport-security", ""),
        ("transfer-encoding", ""),
        ("user-agent", ""),
        ("vary", ""),
        ("via", ""),
        ("www-authenticate", ""),
    ];
    let dynh = HTTP2DynTable::new();
    for n in 1..=61u64 {
        let b = http2_frame_header_static(n, &dynh).unwrap();
        let (nm, vl) = expected[(n - 1) as usize];
        assert_eq!(b.name, nm.as_bytes().to_vec());
        assert_eq!(b.value, vl.as_bytes().to_vec());
        assert_eq!(b.error, HTTP2HeaderDecodeStatus::HTTP2HeaderDecodeSuccess);
    }
    // decoding the one-byte indexed field gives the same pairs
    let mut dynh2 = HTTP2DynTable::new();
    for n in 1..=61u8 {
        let buf = [0x80 | n];
        let (consumed, hd) = http2_parse_headers_block(&buf, &mut dynh2).unwrap();
        let (nm, vl) = expected[(n - 1) as usize];
        assert_eq!(consumed, 1);
        assert_eq!(hd.name, nm.as_bytes().to_vec());
        assert_eq!(hd.value, vl.as_bytes().to_vec());
        assert_eq!(hd.error, HTTP2HeaderDecodeStatus::HTTP2HeaderDecodeSuccess);
        assert_eq!(dynh2.table.len(), 0);
    }
}

#[test]
fn test_index_zero_and_unresolved_index() {
    let mut dynh = HTTP2DynTable::new();
    let (consumed, hd) = http2_parse_headers_block(&[0x80], &mut dynh).unwrap();
    assert_eq!(consumed, 1);
    assert_eq!(hd.error, HTTP2HeaderDecodeStatus::HTTP2HeaderDecodeIndex0);
    assert!(hd.name.is_empty());
    assert!(hd.value.is_empty());
    assert_eq!(dynh.table.len(), 0);
    assert_eq!(dynh.current_size, 0);
    // index 62 with an empty dynamic table resolves nowhere: a flagged
    // field, not an error
    let (consumed2, hd2) = http2_parse_headers_block(&[0xbe], &mut dynh).unwrap();
    assert_eq!(consumed2, 1);
    assert_eq!(hd2.error, HTTP2HeaderDecodeStatus::HTTP2HeaderDecodeNotIndexed);
    assert!(hd2.name.is_empty());
}

#[test]
fn test_dyntable_eviction_oldest_first() {
    let mut dynh = HTTP2DynTable::new();
    dynh.max_size = 100;
    // each entry costs 32 + 4 + 4 = 40
    dynh.add_entry(&"aaaa".as_bytes().to_vec(), &"bbbb".as_bytes().to_vec());
    assert_eq!(dynh.current_size, 40);
    assert_eq!(dynh.table.len(), 1);
    dynh.add_entry(&"cccc".as_bytes().to_vec(), &"dddd".as_bytes().to_vec());
    assert_eq!(dynh.current_size, 80);
    assert_eq!(dynh.table.len(), 2);
    // 120 exceeds 100: the oldest entry is evicted, exactly once
    dynh.add_entry(&"eeee".as_bytes().to_vec(), &"ffff".as_bytes().to_vec());
    assert_eq!(dynh.current_size, 80);
    assert_eq!(dynh.table.len(), 2);
    assert_eq!(dynh.table[0].name, "cccc".as_bytes().to_vec());
    assert_eq!(dynh.table[1].name, "eeee".as_bytes().to_vec());
}

#[test]
fn test_var_uint_forms() {
    // a prefix below its maximum is the value itself, no bytes consumed
    let r = http2_parse_var_uint(&[0xff], 10, 127).unwrap();
    assert_eq!(r, (0, 10));
    // the classic saturated-prefix example: 31 + 26 + 10*128 = 1337
    let r2 = http2_parse_var_uint(&[0x9a, 0x0a], 31, 31).unwrap();
    assert_eq!(r2, (2, 1337));
    // more than 9 continuation bytes: the overflow sentinel, bytes consumed
    let buf: Vec<u8> = vec![0x80, 0x80, 0x80, 0x80, 0x80, 0x80, 0x80, 0x80, 0x80, 0x80, 0x01];
    let r3 = http2_parse_var_uint(&buf, 127, 127).unwrap();
    assert_eq!(r3, (11, 0));
    // a final term that overflows 64 bits: the sentinel again
    let buf2: Vec<u8> = vec![0xff, 0xff, 0xff, 0xff, 0xff, 0xff, 0xff, 0xff, 0xff, 0x01];
    let r4 = http2_parse_var_uint(&buf2, 127, 127).unwrap();
    assert_eq!(r4, (10, 0));
    // all bytes are continuation bytes: incomplete
    let r5 = http2_parse_var_uint(&[0x80, 0x80], 127, 127);
    assert_eq!(r5, Err(HTTP2ParseError::Incomplete));
}

#[test]
fn test_settings_truncates_at_unknown_id() {
    let buf: &[u8] = &[
        0x00, 0x02, 0x00, 0x00, 0x00, 0x01, // ENABLE_PUSH = 1
        0x00, 0x09, 0x00, 0x00, 0x00, 0x02, // unrecognized id 9
        0x00, 0x03, 0x00, 0x00, 0x00, 0x04, // trailing pair, dropped
    ];
    let (consumed, v) = http2_parse_frame_settings(buf).unwrap();
    assert_eq!(consumed, 6);
    assert_eq!(v.len(), 1);
    assert_eq!(v[0].id, HTTP2SettingsId::SETTINGSENABLEPUSH);
    assert_eq!(v[0].value, 1);
    // a well-formed list decodes whole
    let buf2: &[u8] = &[
        0x00, 0x01, 0x00, 0x00, 0x10, 0x00, 0x00, 0x04, 0x00, 0x00, 0xff, 0xff,
    ];
    let (consumed2, v2) = http2_parse_frame_settings(buf2).unwrap();
    assert_eq!(consumed2, 12);
    assert_eq!(v2.len(), 2);
    assert_eq!(v2[0].id, HTTP2SettingsId::SETTINGSHEADERTABLESIZE);
    assert_eq!(v2[0].value, 0x1000);
    assert_eq!(v2[1].id, HTTP2SettingsId::SETTINGSINITIALWINDOWSIZE);
    assert_eq!(v2[1].value, 0xffff);
}

#[test]
fn test_headers_frame_consumes_everything() {
    let mut dynh = HTTP2DynTable::new();
    let buf: &[u8] = &[0x82, 0x87];
    let (consumed, frame) = http2_parse_frame_headers(buf, 0, &mut dynh).unwrap();
    assert_eq!(consumed, buf.len());
    assert_eq!(frame.blocks.len(), 2);
    assert_eq!(frame.blocks[0].name, ":method".as_bytes().to_vec());
    assert_eq!(frame.blocks[1].value, "https".as_bytes().to_vec());
    assert!(frame.padlength.is_none());
    assert!(frame.priority.is_none());
}

#[test]
fn test_headers_frame_padded_and_priority() {
    let mut dynh = HTTP2DynTable::new();
    // PADDED (0x8) | PRIORITY (0x20)
    let buf: &[u8] = &[0x00, 0x80, 0x00, 0x00, 0x03, 0x0a, 0x82];
    let (consumed, frame) = http2_parse_frame_headers(buf, 0x28, &mut dynh).unwrap();
    assert_eq!(consumed, buf.len());
    assert_eq!(frame.padlength, Some(0));
    let p = frame.priority.unwrap();
    assert_eq!(p.exclusive, 1);
    assert_eq!(p.dependency, 3);
    assert_eq!(p.weight, 10);
    assert_eq!(frame.blocks.len(), 1);
    assert_eq!(frame.blocks[0].value, "GET".as_bytes().to_vec());
}

#[test]
fn test_headers_frame_fatal_on_integer_overflow_index() {
    let mut dynh = HTTP2DynTable::new();
    // an indexed field whose saturated index overflows 64 bits is fatal to
    // the frame
    let buf: Vec<u8> = vec![
        0xff, 0x80, 0x80, 0x80, 0x80, 0x80, 0x80, 0x80, 0x80, 0x80, 0x80, 0x01,
    ];
    let r = http2_parse_frame_headers(&buf, 0, &mut dynh);
    assert_eq!(r.err(), Some(HTTP2ParseError::Error));
}

#[test]
fn test_headers_frame_incomplete_field() {
    let mut dynh = HTTP2DynTable::new();
    // a literal field cut off before its value string
    let buf: &[u8] = &[0x82, 0x41];
    let r = http2_parse_frame_headers(buf, 0, &mut dynh);
    assert_eq!(r.err(), Some(HTTP2ParseError::Incomplete));
}

#[test]
fn test_push_promise_and_continuation() {
    let mut dynh = HTTP2DynTable::new();
    let buf: &[u8] = &[0x00, 0x00, 0x00, 0x05, 0x82];
    let (consumed, pp) = http2_parse_frame_push_promise(buf, 0, &mut dynh).unwrap();
    assert_eq!(consumed, buf.len());
    assert_eq!(pp.reserved, 0);
    assert_eq!(pp.stream_id, 5);
    assert!(pp.padlength.is_none());
    assert_eq!(pp.blocks.len(), 1);
    assert_eq!(pp.blocks[0].name, ":method".as_bytes().to_vec());
    let (consumed2, cont) = http2_parse_frame_continuation(&[0x84], &mut dynh).unwrap();
    assert_eq!(consumed2, 1);
    assert_eq!(cont.blocks.len(), 1);
    assert_eq!(cont.blocks[0].name, ":path".as_bytes().to_vec());
}

#[test]
fn test_dynamic_size_update() {
    let mut dynh = HTTP2DynTable::new();
    dynh.max_size = 100;
    dynh.add_entry(&"aaaa".as_bytes().to_vec(), &"bbbb".as_bytes().to_vec());
    dynh.add_entry(&"cccc".as_bytes().to_vec(), &"dddd".as_bytes().to_vec());
    assert_eq!(dynh.current_size, 80);
    // an update to 50 (31 + 19) evicts the oldest entry at once
    let (consumed, hd) = http2_parse_headers_block(&[0x3f, 0x13], &mut dynh).unwrap();
    assert_eq!(consumed, 2);
    assert_eq!(hd.error, HTTP2HeaderDecodeStatus::HTTP2HeaderDecodeSizeUpdate);
    assert_eq!(hd.sizeupdate, 50);
    assert_eq!(dynh.table.len(), 1);
    assert_eq!(dynh.current_size, 40);
    assert_eq!(dynh.table[0].name, "cccc".as_bytes().to_vec());
    // an overflowing update degrades to a flagged field, with no mutation
    let buf: Vec<u8> = vec![
        0x3f, 0x80, 0x80, 0x80, 0x80, 0x80, 0x80, 0x80, 0x80, 0x80, 0x80, 0x01,
    ];
    let (consumed2, hd2) = http2_parse_headers_block(&buf, &mut dynh).unwrap();
    assert_eq!(consumed2, buf.len());
    assert_eq!(
        hd2.error,
        HTTP2HeaderDecodeStatus::HTTP2HeaderDecodeIntegerOverflow
    );
    assert_eq!(dynh.table.len(), 1);
    assert_eq!(dynh.current_size, 40);
}

#[test]
fn test_string_literal_errors() {
    // length prefix not finished
    let r = http2_parse_headers_block_string(&[0x7f]);
    assert_eq!(r.err(), Some(HTTP2ParseError::Incomplete));
    // declared length longer than the buffer
    let r2 = http2_parse_headers_block_string(&[0x05, 0x01]);
    assert_eq!(r2.err(), Some(HTTP2ParseError::Incomplete));
    // an overflowing length is fatal
    let buf: Vec<u8> = vec![
        0x7f, 0x80, 0x80, 0x80, 0x80, 0x80, 0x80, 0x80, 0x80, 0x80, 0x80, 0x01,
    ];
    let r3 = http2_parse_headers_block_string(&buf);
    assert_eq!(r3.err(), Some(HTTP2ParseError::Error));
}

#[test]
fn test_huffman_decode_rare_code() {
    // 0xffffea, 24 bits: the horizontal tab
    let out = http2_decode_huffman(&[0xff, 0xff, 0xea]);
    assert_eq!(out, vec![0x09]);
    // all-ones padding shorter than a byte decodes to nothing
    let out2 = http2_decode_huffman(&[]);
    assert!(out2.is_empty());
}

#[test]
fn test_simple_frames() {
    let (c, g) = http2_parse_frame_goaway(&[0x00, 0x00, 0x00, 0x05, 0x09, 0x09]).unwrap();
    assert_eq!(c, 4);
    assert_eq!(g.errorcode, 5);
    assert_eq!(
        http2_parse_frame_goaway(&[0x00, 0x00, 0x00]).err(),
        Some(HTTP2ParseError::Incomplete)
    );
    let (_, rst) = http2_parse_frame_rststream(&[0x00, 0x00, 0x00, 0x08]).unwrap();
    assert_eq!(rst.errorcode, HTTP2ErrorCode::CANCEL.code());
    let (c2, p) = http2_parse_frame_priority(&[0x80, 0x00, 0x00, 0x03, 0x07]).unwrap();
    assert_eq!(c2, 5);
    assert_eq!(p.exclusive, 1);
    assert_eq!(p.dependency, 3);
    assert_eq!(p.weight, 7);
    let (_, w) = http2_parse_frame_windowupdate(&[0x80, 0x00, 0x00, 0x10]).unwrap();
    assert_eq!(w.reserved, 1);
    assert_eq!(w.sizeinc, 16);
}

#[test]
fn test_names_case_insensitive() {
    assert_eq!(
        HTTP2SettingsId::from_str("settings_max_frame_size"),
        Some(HTTP2SettingsId::SETTINGSMAXFRAMESIZE)
    );
    assert_eq!(
        HTTP2FrameType::from_str("GoAway"),
        Some(HTTP2FrameType::GOAWAY)
    );
    assert_eq!(HTTP2FrameType::from_str("nonsense"), None);
    assert_eq!(
        HTTP2ErrorCode::from_str("enhance_your_calm"),
        Some(HTTP2ErrorCode::ENHANCEYOURCALM)
    );
    // the textual form of the internal error is deliberately not accepted
    assert_eq!(HTTP2ErrorCode::from_str("INTERNAL_ERROR"), None);
}

#[test]
fn test_settingsctx_errors() {
    assert_eq!(
        http2_parse_settingsctx("").err(),
        Some(HTTP2ParseError::Incomplete)
    );
    assert_eq!(
        http2_parse_settingsctx("   ").err(),
        Some(HTTP2ParseError::Incomplete)
    );
    assert_eq!(
        http2_parse_settingsctx("SETTINGS_NO_SUCH_THING 4").err(),
        Some(HTTP2ParseError::Error)
    );
}

#[test]
fn test_detect_parse_u64_forms() {
    let (c, d) = detect_parse_u64("  42").unwrap();
    assert_eq!(c, 4);
    assert_eq!(d.value, 42);
    assert_eq!(d.mode, DetectUintMode::DetectUintModeEqual);
    let (c2, d2) = detect_parse_u64("1000-2000").unwrap();
    assert_eq!(c2, 9);
    assert_eq!(d2.value, 1000);
    assert_eq!(d2.valrange, 2000);
    assert_eq!(d2.mode, DetectUintMode::DetectUintModeRange);
    let (_, d3) = detect_parse_u64("<54").unwrap();
    assert_eq!(d3.mode, DetectUintMode::DetectUintModeLt);
    let (_, d4) = detect_parse_u64("> 76").unwrap();
    assert_eq!(d4.mode, DetectUintMode::DetectUintModeGt);
    // a number past the 64-bit range matches no form
    assert!(detect_parse_u64("99999999999999999999999").is_none());
    assert!(detect_parse_u64("no digits").is_none());
}
