//! The decoder exercised on whole header blocks, the settings condition
//! language, string literals, and the frame envelope.

use http2_parser::HTTP2DynTable;
use http2_parser::HTTP2FrameType;
use http2_parser::HTTP2HeaderDecodeStatus;
use http2_parser::HTTP2ParseError;
use http2_parser::HTTP2SettingsId;
use http2_parser::DetectUintMode;
use http2_parser::http2_parse_frame_header;
use http2_parser::http2_parse_headers_block;
use http2_parser::http2_parse_headers_block_string;
use http2_parser::http2_parse_settingsctx;

#[test]
fn test_http2_parse_header() {
    let buf0: &[u8] = &[0x82];
    let mut dynh = HTTP2DynTable::new();
    let r0 = http2_parse_headers_block(buf0, &mut dynh);
    match r0 {
        Ok((consumed, hd)) => {
            // Check the first message.
            assert_eq!(hd.name, ":method".as_bytes().to_vec());
            assert_eq!(hd.value, "GET".as_bytes().to_vec());
            // And we should have no bytes left.
            assert_eq!(buf0.len() - consumed, 0);
        }
        Err(HTTP2ParseError::Incomplete) => {
            panic!("Result should not have been incomplete.");
        }
        Err(err) => {
            panic!("Result should not be an error: {:?}.", err);
        }
    }
    let buf1: &[u8] = &[0x53, 0x03, 0x2A, 0x2F, 0x2A];
    let r1 = http2_parse_headers_block(buf1, &mut dynh);
    match r1 {
        Ok((consumed, hd)) => {
            // Check the first message.
            assert_eq!(hd.name, "accept".as_bytes().to_vec());
            assert_eq!(hd.value, "*/*".as_bytes().to_vec());
            // And we should have no bytes left.
            assert_eq!(buf1.len() - consumed, 0);
            assert_eq!(dynh.table.len(), 1);
        }
        Err(HTTP2ParseError::Incomplete) => {
            panic!("Result should not have been incomplete.");
        }
        Err(err) => {
            panic!("Result should not be an error: {:?}.", err);
        }
    }
    let buf: &[u8] = &[
        0x41, 0x8a, 0xa0, 0xe4, 0x1d, 0x13, 0x9d, 0x09, 0xb8, 0xc8, 0x00, 0x0f,
    ];
    let result = http2_parse_headers_block(buf, &mut dynh);
    match result {
        Ok((consumed, hd)) => {
            // Check the first message.
            assert_eq!(hd.name, ":authority".as_bytes().to_vec());
            assert_eq!(hd.value, "localhost:3000".as_bytes().to_vec());
            // And we should have no bytes left.
            assert_eq!(buf.len() - consumed, 0);
            assert_eq!(dynh.table.len(), 2);
        }
        Err(HTTP2ParseError::Incomplete) => {
            panic!("Result should not have been incomplete.");
        }
        Err(err) => {
            panic!("Result should not be an error: {:?}.", err);
        }
    }
    let buf3: &[u8] = &[0xbe];
    let r3 = http2_parse_headers_block(buf3, &mut dynh);
    match r3 {
        Ok((consumed, hd)) => {
            // same as before
            assert_eq!(hd.name, ":authority".as_bytes().to_vec());
            assert_eq!(hd.value, "localhost:3000".as_bytes().to_vec());
            // And we should have no bytes left.
            assert_eq!(buf3.len() - consumed, 0);
            assert_eq!(dynh.table.len(), 2);
        }
        Err(HTTP2ParseError::Incomplete) => {
            panic!("Result should not have been incomplete.");
        }
        Err(err) => {
            panic!("Result should not be an error: {:?}.", err);
        }
    }
    let buf4: &[u8] = &[0x80];
    let r4 = http2_parse_headers_block(buf4, &mut dynh);
    match r4 {
        Ok((consumed, hd)) => {
            assert_eq!(hd.error, HTTP2HeaderDecodeStatus::HTTP2HeaderDecodeIndex0);
            assert_eq!(buf4.len() - consumed, 0);
            assert_eq!(dynh.table.len(), 2);
        }
        Err(HTTP2ParseError::Incomplete) => {
            panic!("Result should not have been incomplete.");
        }
        Err(err) => {
            panic!("Result should not be an error: {:?}.", err);
        }
    }
    let buf2: &[u8] = &[
        0x04, 0x94, 0x62, 0x43, 0x91, 0x8a, 0x47, 0x55, 0xa3, 0xa1, 0x89, 0xd3, 0x4d, 0x0c,
        0x1a, 0xa9, 0x0b, 0xe5, 0x79, 0xd3, 0x4d, 0x1f,
    ];
    let r2 = http2_parse_headers_block(buf2, &mut dynh);
    match r2 {
        Ok((consumed, hd)) => {
            // Check the first message.
            assert_eq!(hd.name, ":path".as_bytes().to_vec());
            assert_eq!(hd.value, "/doc/manual/html/index.html".as_bytes().to_vec());
            // And we should have no bytes left.
            assert_eq!(buf2.len() - consumed, 0);
            assert_eq!(dynh.table.len(), 2);
        }
        Err(HTTP2ParseError::Incomplete) => {
            panic!("Result should not have been incomplete.");
        }
        Err(err) => {
            panic!("Result should not be an error: {:?}.", err);
        }
    }
}

/// Simple test of some valid data.
#[test]
fn test_http2_parse_settingsctx() {
    let s = "SETTINGS_ENABLE_PUSH";
    let r = http2_parse_settingsctx(s);
    match r {
        Ok((consumed, ctx)) => {
            assert_eq!(ctx.id, HTTP2SettingsId::SETTINGSENABLEPUSH);
            match ctx.value {
                Some(_) => {
                    panic!("Unexpected value");
                }
                None => {}
            }
            assert_eq!(s.len() - consumed, 0);
        }
        Err(e) => {
            panic!("Result should not be an error {:?}.", e);
        }
    }

    //spaces in the end
    let s1 = "SETTINGS_ENABLE_PUSH ";
    let r1 = http2_parse_settingsctx(s1);
    match r1 {
        Ok((consumed, ctx)) => {
            assert_eq!(ctx.id, HTTP2SettingsId::SETTINGSENABLEPUSH);
            match ctx.value {
                Some(_) => {
                    panic!("Unexpected value");
                }
                None => {}
            }
            assert_eq!(s1.len() - consumed, 1);
        }
        Err(e) => {
            panic!("Result should not be an error {:?}.", e);
        }
    }

    let s2 = "SETTINGS_MAX_CONCURRENT_STREAMS  42";
    let r2 = http2_parse_settingsctx(s2);
    match r2 {
        Ok((consumed, ctx)) => {
            assert_eq!(ctx.id, HTTP2SettingsId::SETTINGSMAXCONCURRENTSTREAMS);
            match ctx.value {
                Some(ctxval) => {
                    assert_eq!(ctxval.value, 42);
                }
                None => {
                    panic!("No value");
                }
            }
            assert_eq!(s2.len() - consumed, 0);
        }
        Err(e) => {
            panic!("Result should not be an error {:?}.", e);
        }
    }

    let s3 = "SETTINGS_MAX_CONCURRENT_STREAMS 42-68";
    let r3 = http2_parse_settingsctx(s3);
    match r3 {
        Ok((consumed, ctx)) => {
            assert_eq!(ctx.id, HTTP2SettingsId::SETTINGSMAXCONCURRENTSTREAMS);
            match ctx.value {
                Some(ctxval) => {
                    assert_eq!(ctxval.value, 42);
                    assert_eq!(ctxval.mode, DetectUintMode::DetectUintModeRange);
                    assert_eq!(ctxval.valrange, 68);
                }
                None => {
                    panic!("No value");
                }
            }
            assert_eq!(s3.len() - consumed, 0);
        }
        Err(e) => {
            panic!("Result should not be an error {:?}.", e);
        }
    }

    let s4 = "SETTINGS_MAX_CONCURRENT_STREAMS<54";
    let r4 = http2_parse_settingsctx(s4);
    match r4 {
        Ok((consumed, ctx)) => {
            assert_eq!(ctx.id, HTTP2SettingsId::SETTINGSMAXCONCURRENTSTREAMS);
            match ctx.value {
                Some(ctxval) => {
                    assert_eq!(ctxval.value, 54);
                    assert_eq!(ctxval.mode, DetectUintMode::DetectUintModeLt);
                }
                None => {
                    panic!("No value");
                }
            }
            assert_eq!(s4.len() - consumed, 0);
        }
        Err(e) => {
            panic!("Result should not be an error {:?}.", e);
        }
    }

    let s5 = "SETTINGS_MAX_CONCURRENT_STREAMS > 76";
    let r5 = http2_parse_settingsctx(s5);
    match r5 {
        Ok((consumed, ctx)) => {
            assert_eq!(ctx.id, HTTP2SettingsId::SETTINGSMAXCONCURRENTSTREAMS);
            match ctx.value {
                Some(ctxval) => {
                    assert_eq!(ctxval.value, 76);
                    assert_eq!(ctxval.mode, DetectUintMode::DetectUintModeGt);
                }
                None => {
                    panic!("No value");
                }
            }
            assert_eq!(s5.len() - consumed, 0);
        }
        Err(e) => {
            panic!("Result should not be an error {:?}.", e);
        }
    }
}

#[test]
fn test_http2_parse_headers_block_string() {
    let buf: &[u8] = &[0x01, 0xFF];
    let r = http2_parse_headers_block_string(buf);
    match r {
        Ok((consumed, _)) => {
            assert_eq!(buf.len() - consumed, 0);
        }
        Err(HTTP2ParseError::Error) => {
            panic!("Result should not be an error.");
        }
        _ => {
            panic!("Result should have been ok");
        }
    }
    let buf2: &[u8] = &[0x83, 0xFF, 0xFF, 0xEA];
    let r2 = http2_parse_headers_block_string(buf2);
    match r2 {
        Ok((consumed, _)) => {
            assert_eq!(buf2.len() - consumed, 0);
        }
        _ => {
            panic!("Result should have been ok");
        }
    }
}

#[test]
fn test_http2_parse_frame_header() {
    let buf: &[u8] = &[
        0x00, 0x00, 0x06, 0x04, 0x00, 0x00, 0x00, 0x00, 0x00, 0x00, 0x03, 0x00, 0x00, 0x00,
        0x64,
    ];
    let result = http2_parse_frame_header(buf);
    match result {
        Ok((consumed, frame)) => {
            // Check the first message.
            assert_eq!(frame.length, 6);
            assert_eq!(frame.ftype, HTTP2FrameType::SETTINGS.code());
            assert_eq!(frame.flags, 0);
            assert_eq!(frame.reserved, 0);
            assert_eq!(frame.stream_id, 0);

            // And we should have 6 bytes left.
            assert_eq!(buf.len() - consumed, 6);
        }
        Err(HTTP2ParseError::Incomplete) => {
            panic!("Result should not have been incomplete.");
        }
        Err(err) => {
            panic!("Result should not be an error: {:?}.", err);
        }
    }
}
