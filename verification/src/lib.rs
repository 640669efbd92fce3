//! Decoder for the HTTP/2 wire format: the 9-byte frame envelope, the
//! per-frame-type body decoders, and the stateful HPACK header-compression
//! decoder (prefix integers, static and dynamic tables, Huffman-coded string
//! literals), together with the small textual sub-language used to write
//! numeric conditions on SETTINGS values.
//!
//! Every byte handed to these decoders is treated as adversarial: all table
//! and index accesses are bounds-checked, all size arithmetic is proved free
//! of overflow or uses saturating operations, and no decode path panics.

pub mod blocks;
pub mod detect;
pub mod dyntable;
pub mod frames;
pub mod headers;
pub mod huffman;
pub mod laws;
pub mod names;
pub mod statictable;
pub mod types;
pub mod varint;

pub use blocks::http2_parse_frame_continuation;
pub use blocks::http2_parse_frame_headers;
pub use blocks::http2_parse_frame_push_promise;
pub use detect::DetectHTTP2settingsSigCtx;
pub use detect::DetectU32Data;
pub use detect::DetectU64Data;
pub use detect::DetectUintMode;
pub use detect::detect_parse_u64;
pub use detect::http2_parse_settingsctx;
pub use dyntable::HTTP2DynTable;
pub use dyntable::HTTP2TableOverflow;
pub use frames::http2_parse_frame_goaway;
pub use frames::http2_parse_frame_header;
pub use frames::http2_parse_frame_priority;
pub use frames::http2_parse_frame_rststream;
pub use frames::http2_parse_frame_settings;
pub use frames::http2_parse_frame_windowupdate;
pub use frames::http2_parse_headers_priority;
pub use headers::http2_parse_headers_block;
pub use headers::http2_parse_headers_block_dynamic_size;
pub use headers::http2_parse_headers_block_indexed;
pub use headers::http2_parse_headers_block_literal_common;
pub use headers::http2_parse_headers_block_literal_incindex;
pub use headers::http2_parse_headers_block_literal_neverindex;
pub use headers::http2_parse_headers_block_literal_noindex;
pub use headers::http2_parse_headers_block_string;
pub use huffman::http2_decode_huffman;
pub use statictable::http2_frame_header_static;
pub use types::HTTP2ErrorCode;
pub use types::HTTP2FrameContinuation;
pub use types::HTTP2FrameGoAway;
pub use types::HTTP2FrameHeader;
pub use types::HTTP2FrameHeaderBlock;
pub use types::HTTP2FrameHeaders;
pub use types::HTTP2FrameHeadersPriority;
pub use types::HTTP2FramePriority;
pub use types::HTTP2FramePushPromise;
pub use types::HTTP2FrameRstStream;
pub use types::HTTP2FrameSettings;
pub use types::HTTP2FrameType;
pub use types::HTTP2FrameWindowUpdate;
pub use types::HTTP2HeaderDecodeStatus;
pub use types::HTTP2ParseError;
pub use types::HTTP2SettingsId;
pub use types::HTTP2_FLAG_HEADER_END_HEADERS;
pub use types::HTTP2_FLAG_HEADER_EOS;
pub use types::HTTP2_FLAG_HEADER_PADDED;
pub use types::HTTP2_MAX_TABLESIZE;
pub use types::HTTP2_STATIC_HEADERS_NUMBER;
pub use varint::http2_parse_var_uint;
