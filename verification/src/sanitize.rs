//! Sanitizing of externally-controlled identifiers.
use vstd::prelude::*;
use vstd::string::StringSliceAdditionalSpecFns;

verus! {

/// Longest sanitized identifier.
pub const MAX_STREAM_ID_LEN: usize = 128;

/// Whether a byte is kept: an ASCII letter or digit, `-` or `_`.
pub open spec fn is_kept(b: u8) -> bool {
    ||| 0x30 <= b <= 0x39
    ||| 0x41 <= b <= 0x5A
    ||| 0x61 <= b <= 0x7A
    ||| b == 0x2D
    ||| b == 0x5F
}

/// The character a byte becomes.
pub open spec fn kept_or_underscore(b: u8) -> char {
    if is_kept(b) {
        b as char
    } else {
        '_'
    }
}

/// An identifier, given by its bytes, made safe for paths and object keys: every
/// byte but letters, digits, `-` and `_` becomes `_`, the first 128 are kept, and
/// an empty one is named.
pub open spec fn sanitized(bytes_in: Seq<u8>) -> Seq<char> {
    if bytes_in.len() == 0 {
        "unnamed"@
    } else {
        Seq::new(
            if bytes_in.len() < 128 {
                bytes_in.len()
            } else {
                128
            },
            |i: int| kept_or_underscore(bytes_in[i]),
        )
    }
}

/// Sanitizes an externally-controlled stream identifier for use in filesystem
/// paths and object keys.
pub fn sanitize_stream_id(stream_id: &str) -> (r: String)
    ensures
        r@ == sanitized(stream_id.spec_bytes()),
{
    let raw: &[u8] = stream_id.as_bytes();
    let mut out: String = String::new();
    let n: usize = if raw.len() < MAX_STREAM_ID_LEN {
        raw.len()
    } else {
        MAX_STREAM_ID_LEN
    };
    let mut i: usize = 0;
    while i < n
        invariant
            i <= n <= raw@.len(),
            out@ == Seq::new(i as nat, |k: int| kept_or_underscore(raw@[k])),
        decreases n - i,
    {
        let b: u8 = raw[i];
        let keep = (0x30 <= b && b <= 0x39) || (0x41 <= b && b <= 0x5A) || (0x61 <= b && b <= 0x7A)
            || b == 0x2D || b == 0x5F;
        out.push(
            if keep {
                b as char
            } else {
                '_'
            },
        );
        i = i + 1;
        assert(out@ =~= Seq::new(i as nat, |k: int| kept_or_underscore(raw@[k])));
    }
    if n == 0 {
        out.push_str("unnamed");
        assert(out@ =~= "unnamed"@);
    }
    out
}

/// Whether a character is safe in a path segment.
pub open spec fn is_safe_char(c: char) -> bool {
    c as u32 <= 0x7F && is_kept(c as u8)
}

/// A sanitized identifier is a single safe path segment: one to 128 characters,
/// each a letter, a digit, `-` or `_`. So it holds no separator, no dot and no
/// white space.
pub proof fn law_sanitized_is_safe_segment(bytes_in: Seq<u8>)
    ensures
        1 <= sanitized(bytes_in).len() <= 128,
        forall|i: int|
            0 <= i < sanitized(bytes_in).len() ==> is_safe_char(#[trigger] sanitized(bytes_in)[i]),
        forall|i: int|
            0 <= i < sanitized(bytes_in).len() ==> #[trigger] sanitized(bytes_in)[i] != '/'
                && sanitized(bytes_in)[i] != '\\' && sanitized(bytes_in)[i] != '.'
                && sanitized(bytes_in)[i] != ' ',
{
    reveal_strlit("unnamed");
}

/// An identifier that is safe already comes out unchanged.
pub proof fn law_safe_ids_are_kept(bytes_in: Seq<u8>)
    requires
        1 <= bytes_in.len() <= 128,
        forall|i: int| 0 <= i < bytes_in.len() ==> is_kept(#[trigger] bytes_in[i]),
    ensures
        sanitized(bytes_in) == Seq::new(bytes_in.len(), |i: int| bytes_in[i] as char),
{
    assert(sanitized(bytes_in) =~= Seq::new(bytes_in.len(), |i: int| bytes_in[i] as char));
}

/// Sanitizing goes byte by byte: what comes out has a character for each of the first
/// 128 bytes, which is the byte itself where that is an ASCII letter, a digit, `-` or
/// `_`, and `_` otherwise. Of no byte at all it makes `unnamed`.
pub proof fn law_sanitized_byte_by_byte(bytes_in: Seq<u8>, i: int)
    requires
        0 <= i < bytes_in.len(),
        i < 128,
    ensures
        sanitized(bytes_in).len() == bytes_in.len() || bytes_in.len() > 128 && sanitized(
            bytes_in,
        ).len() == 128,
        ({
            let b = bytes_in[i] as char;
            let c = sanitized(bytes_in)[i];
            if 'a' <= b <= 'z' || 'A' <= b <= 'Z' || '0' <= b <= '9' || b == '-' || b == '_' {
                c == b
            } else {
                c == '_'
            }
        }),
        sanitized(Seq::empty()) == "unnamed"@,
{
}

} // verus!
