//! The protocol's immutable static header table: 61 fixed (name, value)
//! pairs, 1-indexed, and the shared lookup that resolves an index against
//! the static table or, above it, the dynamic table.

use vstd::prelude::*;
use vstd::string::StringSliceAdditionalSpecFns;

use crate::dyntable::DynTableView;
use crate::dyntable::HTTP2DynTable;
use crate::types::HTTP2FrameHeaderBlock;
use crate::types::HTTP2HeaderDecodeStatus;
use crate::types::HeaderBlockView;
use crate::types::copy_bytes;

verus! {

/// The fixed name of static-table entry `n` (1 through 61).
#[verifier::opaque]
pub open spec fn spec_static_name(n: int) -> Seq<u8> {
    if n == 1 {
        ":authority".spec_bytes()
    } else if n == 2 {
        ":method".spec_bytes()
    } else if n == 3 {
        ":method".spec_bytes()
    } else if n == 4 {
        ":path".spec_bytes()
    } else if n == 5 {
        ":path".spec_bytes()
    } else if n == 6 {
        ":scheme".spec_bytes()
    } else if n == 7 {
        ":scheme".spec_bytes()
    } else if n == 8 {
        ":status".spec_bytes()
    } else if n == 9 {
        ":status".spec_bytes()
    } else if n == 10 {
        ":status".spec_bytes()
    } else if n == 11 {
        ":status".spec_bytes()
    } else if n == 12 {
        ":status".spec_bytes()
    } else if n == 13 {
        ":status".spec_bytes()
    } else if n == 14 {
        ":status".spec_bytes()
    } else if n == 15 {
        "accept-charset".spec_bytes()
    } else if n == 16 {
        "accept-encoding".spec_bytes()
    } else if n == 17 {
        "accept-language".spec_bytes()
    } else if n == 18 {
        "accept-ranges".spec_bytes()
    } else if n == 19 {
        "accept".spec_bytes()
    } else if n == 20 {
        "access-control-allow-origin".spec_bytes()
    } else if n == 21 {
        "age".spec_bytes()
    } else if n == 22 {
        "allow".spec_bytes()
    } else if n == 23 {
        "authorization".spec_bytes()
    } else if n == 24 {
        "cache-control".spec_bytes()
    } else if n == 25 {
        "content-disposition".spec_bytes()
    } else if n == 26 {
        "content-encoding".spec_bytes()
    } else if n == 27 {
        "content-language".spec_bytes()
    } else if n == 28 {
        "content-length".spec_bytes()
    } else if n == 29 {
        "content-location".spec_bytes()
    } else if n == 30 {
        "content-range".spec_bytes()
    } else if n == 31 {
        "content-type".spec_bytes()
    } else if n == 32 {
        "cookie".spec_bytes()
    } else if n == 33 {
        "date".spec_bytes()
    } else if n == 34 {
        "etag".spec_bytes()
    } else if n == 35 {
        "expect".spec_bytes()
    } else if n == 36 {
        "expires".spec_bytes()
    } else if n == 37 {
        "from".spec_bytes()
    } else if n == 38 {
        "host".spec_bytes()
    } else if n == 39 {
        "if-match".spec_bytes()
    } else if n == 40 {
        "if-modified-since".spec_bytes()
    } else if n == 41 {
        "if-none-match".spec_bytes()
    } else if n == 42 {
        "if-range".spec_bytes()
    } else if n == 43 {
        "if-unmodified-since".spec_bytes()
    } else if n == 44 {
        "last-modified".spec_bytes()
    } else if n == 45 {
        "link".spec_bytes()
    } else if n == 46 {
        "location".spec_bytes()
    } else if n == 47 {
        "max-forwards".spec_bytes()
    } else if n == 48 {
        "proxy-authenticate".spec_bytes()
    } else if n == 49 {
        "proxy-authorization".spec_bytes()
    } else if n == 50 {
        "range".spec_bytes()
    } else if n == 51 {
        "referer".spec_bytes()
    } else if n == 52 {
        "refresh".spec_bytes()
    } else if n == 53 {
        "retry-after".spec_bytes()
    } else if n == 54 {
        "server".spec_bytes()
    } else if n == 55 {
        "set-cookie".spec_bytes()
    } else if n == 56 {
        "strict-transport-security".spec_bytes()
    } else if n == 57 {
        "transfer-encoding".spec_bytes()
    } else if n == 58 {
        "user-agent".spec_bytes()
    } else if n == 59 {
        "vary".spec_bytes()
    } else if n == 60 {
        "via".spec_bytes()
    } else if n == 61 {
        "www-authenticate".spec_bytes()
    } else {
        Seq::empty()
    }
}

/// The fixed value of static-table entry `n`: a handful of entries carry a
/// fixed value, the rest carry the empty value.
#[verifier::opaque]
pub open spec fn spec_static_value(n: int) -> Seq<u8> {
    if n == 2 {
        "GET".spec_bytes()
    } else if n == 3 {
        "POST".spec_bytes()
    } else if n == 4 {
        "/".spec_bytes()
    } else if n == 5 {
        "/index.html".spec_bytes()
    } else if n == 6 {
        "http".spec_bytes()
    } else if n == 7 {
        "https".spec_bytes()
    } else if n == 8 {
        "200".spec_bytes()
    } else if n == 9 {
        "204".spec_bytes()
    } else if n == 10 {
        "206".spec_bytes()
    } else if n == 11 {
        "304".spec_bytes()
    } else if n == 12 {
        "400".spec_bytes()
    } else if n == 13 {
        "404".spec_bytes()
    } else if n == 14 {
        "500".spec_bytes()
    } else if n == 16 {
        "gzip, deflate".spec_bytes()
    } else {
        "".spec_bytes()
    }
}

/// Resolving index `n`: 0 is invalid (status `Index0`); 1 through 61 name
/// the static table; larger indices count back from the newest dynamic
/// entry, and one past the dynamic table's range degrades to a flagged
/// `NotIndexed` field instead of a failure.
pub open spec fn spec_static_block(n: int, d: DynTableView) -> HeaderBlockView {
    if 1 <= n <= 61 {
        HeaderBlockView {
            name: spec_static_name(n),
            value: spec_static_value(n),
            error: HTTP2HeaderDecodeStatus::HTTP2HeaderDecodeSuccess,
            sizeupdate: 0u64,
        }
    } else if n == 0 {
        HeaderBlockView {
            name: Seq::empty(),
            value: Seq::empty(),
            error: HTTP2HeaderDecodeStatus::HTTP2HeaderDecodeIndex0,
            sizeupdate: 0u64,
        }
    } else if d.entries.len() + 61 < n {
        HeaderBlockView {
            name: Seq::empty(),
            value: Seq::empty(),
            error: HTTP2HeaderDecodeStatus::HTTP2HeaderDecodeNotIndexed,
            sizeupdate: 0u64,
        }
    } else {
        let e = d.entries[d.entries.len() - (n - 61)];
        HeaderBlockView {
            name: e.name,
            value: e.value,
            error: HTTP2HeaderDecodeStatus::HTTP2HeaderDecodeSuccess,
            sizeupdate: 0u64,
        }
    }
}

/// Resolves header index `n` against the static table and, above it, the
/// dynamic table. Always produces a field: invalid indices degrade to
/// `Index0` or `NotIndexed` statuses with empty name and value, and never
/// mutate the table.
pub fn http2_frame_header_static(n: u64, dyn_headers: &HTTP2DynTable) -> (r: Option<
    HTTP2FrameHeaderBlock,
>)
    ensures
        r matches Some(b) && b@ == spec_static_block(n as int, dyn_headers@),
{
    proof {
        reveal(spec_static_name);
        reveal(spec_static_value);
    }
    if 1 <= n && n <= 61 {
        let (nm, vl): (&str, &str) = match n {
            1 => (":authority", ""),
            2 => (":method", "GET"),
            3 => (":method", "POST"),
            4 => (":path", "/"),
            5 => (":path", "/index.html"),
            6 => (":scheme", "http"),
            7 => (":scheme", "https"),
            8 => (":status", "200"),
            9 => (":status", "204"),
            10 => (":status", "206"),
            11 => (":status", "304"),
            12 => (":status", "400"),
            13 => (":status", "404"),
            14 => (":status", "500"),
            15 => ("accept-charset", ""),
            16 => ("accept-encoding", "gzip, deflate"),
            17 => ("accept-language", ""),
            18 => ("accept-ranges", ""),
            19 => ("accept", ""),
            20 => ("access-control-allow-origin", ""),
            21 => ("age", ""),
            22 => ("allow", ""),
            23 => ("authorization", ""),
            24 => ("cache-control", ""),
            25 => ("content-disposition", ""),
            26 => ("content-encoding", ""),
            27 => ("content-language", ""),
            28 => ("content-length", ""),
            29 => ("content-location", ""),
            30 => ("content-range", ""),
            31 => ("content-type", ""),
            32 => ("cookie", ""),
            33 => ("date", ""),
            34 => ("etag", ""),
            35 => ("expect", ""),
            36 => ("expires", ""),
            37 => ("from", ""),
            38 => ("host", ""),
            39 => ("if-match", ""),
            40 => ("if-modified-since", ""),
            41 => ("if-none-match", ""),
            42 => ("if-range", ""),
            43 => ("if-unmodified-since", ""),
            44 => ("last-modified", ""),
            45 => ("link", ""),
            46 => ("location", ""),
            47 => ("max-forwards", ""),
            48 => ("proxy-authenticate", ""),
            49 => ("proxy-authorization", ""),
            50 => ("range", ""),
            51 => ("referer", ""),
            52 => ("refresh", ""),
            53 => ("retry-after", ""),
            54 => ("server", ""),
            55 => ("set-cookie", ""),
            56 => ("strict-transport-security", ""),
            57 => ("transfer-encoding", ""),
            58 => ("user-agent", ""),
            59 => ("vary", ""),
            60 => ("via", ""),
            61 => ("www-authenticate", ""),
            _ => ("", ""),
        };
        let name = vstd::slice::slice_to_vec(nm.as_bytes());
        let value = vstd::slice::slice_to_vec(vl.as_bytes());
        Some(
            HTTP2FrameHeaderBlock {
                name,
                value,
                error: HTTP2HeaderDecodeStatus::HTTP2HeaderDecodeSuccess,
                sizeupdate: 0,
            },
        )
    } else if n == 0 {
        Some(
            HTTP2FrameHeaderBlock {
                name: Vec::new(),
                value: Vec::new(),
                error: HTTP2HeaderDecodeStatus::HTTP2HeaderDecodeIndex0,
                sizeupdate: 0,
            },
        )
    } else if n - 61 > dyn_headers.table.len() as u64 {
        Some(
            HTTP2FrameHeaderBlock {
                name: Vec::new(),
                value: Vec::new(),
                error: HTTP2HeaderDecodeStatus::HTTP2HeaderDecodeNotIndexed,
                sizeupdate: 0,
            },
        )
    } else {
        let indyn: usize = dyn_headers.table.len() - ((n - 61) as usize);
        let headcopy = HTTP2FrameHeaderBlock {
            name: copy_bytes(&dyn_headers.table[indyn].name),
            value: copy_bytes(&dyn_headers.table[indyn].value),
            error: HTTP2HeaderDecodeStatus::HTTP2HeaderDecodeSuccess,
            sizeupdate: 0,
        };
        Some(headcopy)
    }
}

} // verus!
