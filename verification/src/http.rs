use vstd::prelude::*;
use vstd::string::*;
use vstd::utf8::*;

verus! {

/// How many bytes of a response body a debug log line shows.
pub const BODY_LOG_LIMIT: usize = 1024;

/// The largest character boundary of `bytes` at or below `i`.
pub open spec fn boundary_at_or_below(bytes: Seq<u8>, i: int) -> int
    decreases i,
{
    if i <= 0 {
        0
    } else if is_char_boundary(bytes, i) {
        i
    } else {
        boundary_at_or_below(bytes, i - 1)
    }
}

pub open spec fn spec_truncate_for_log(s: Seq<char>, byte_limit: int) -> Seq<char> {
    let bytes = encode_utf8(s);
    if bytes.len() <= byte_limit {
        s
    } else {
        decode_utf8(bytes.subrange(0, boundary_at_or_below(bytes, byte_limit))) + "…[truncated]"@
    }
}

/// `s` when its UTF-8 encoding fits in `byte_limit` bytes; otherwise its
/// longest prefix of whole characters within the limit, marked as cut.
pub fn truncate_for_log(s: &str, byte_limit: usize) -> (r: String)
    ensures
        r@ == spec_truncate_for_log(s@, byte_limit as int),
{
    proof {
        encode_utf8_valid_utf8(s@);
    }
    let raw = s.as_bytes();
    if raw.len() <= byte_limit {
        let r = s.to_string();
        assert(r@ == s@);
        return r;
    }
    let ghost bytes = s.spec_bytes();
    let mut cut = byte_limit;
    assert(boundary_at_or_below(bytes, byte_limit as int) == boundary_at_or_below(bytes, cut as int));
    while cut > 0 && !s.is_char_boundary(cut)
        invariant
            bytes == s.spec_bytes(),
            valid_utf8(bytes),
            cut <= byte_limit < bytes.len(),
            boundary_at_or_below(bytes, byte_limit as int) == boundary_at_or_below(bytes, cut as int),
        decreases cut,
    {
        cut -= 1;
    }
    proof {
        is_char_boundary_start_end_of_seq(bytes);
    }
    assert(is_char_boundary(bytes, cut as int));
    assert(boundary_at_or_below(bytes, cut as int) == cut);
    let (head, _tail) = s.split_at(cut);
    proof {
        encode_utf8_decode_utf8(head@);
    }
    let mut out = head.to_string();
    out.append("…[truncated]");
    out
}

} // verus!
