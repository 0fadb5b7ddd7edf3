//! Text helpers for console display: truncation and separators.
use vstd::prelude::*;
use vstd::string::StringSliceAdditionalSpecFns;
use vstd::utf8::is_char_boundary;
use vstd::utf8::encode_utf8;
use crate::text::{repeat_str, repeated};

verus! {

/// Where `truncate_text` cuts a text longer than `max_len` bytes, before the
/// ellipsis is added.
pub open spec fn cut_point(max_len: nat) -> nat {
    if max_len >= 3 {
        (max_len - 3) as nat
    } else {
        0
    }
}

/// The UTF-8 bytes of `truncate_text(text, max_len)`: the text itself when it
/// fits in `max_len` bytes, else its first `max_len - 3` bytes and `"..."`.
pub open spec fn truncated_bytes(text: Seq<u8>, max_len: nat) -> Seq<u8> {
    if text.len() <= max_len {
        text
    } else {
        text.subrange(0, cut_point(max_len) as int) + seq![46u8, 46u8, 46u8]
    }
}

/// UTF-8 encoding distributes over concatenation.
proof fn lemma_encode_utf8_concat(a: Seq<char>, b: Seq<char>)
    ensures
        encode_utf8(a + b) == encode_utf8(a) + encode_utf8(b),
    decreases a.len(),
{
    if a.len() > 0 {
        lemma_encode_utf8_concat(a.drop_first(), b);
        assert((a + b).drop_first() =~= a.drop_first() + b);
        assert((a + b)[0] == a[0]);
        assert(encode_utf8(a + b) =~= encode_utf8(a) + encode_utf8(b));
    } else {
        assert(a + b =~= b);
    }
}

/// Text truncation for progress labels.
pub struct ProgressBarFactory;

impl ProgressBarFactory {
    /// Truncate text to `max_len` bytes, marking the cut with an ellipsis. A
    /// cut must fall on a character boundary.
    pub fn truncate_text(text: &str, max_len: usize) -> (r: String)
        requires
            text.spec_bytes().len() <= usize::MAX,
            text.spec_bytes().len() > max_len ==> is_char_boundary(
                text.spec_bytes(),
                cut_point(max_len as nat) as int,
            ),
        ensures
            encode_utf8(r@) == truncated_bytes(text.spec_bytes(), max_len as nat),
    {
        if text.len() <= max_len {
            text.to_owned()
        } else {
            let cut: usize = if max_len >= 3 { max_len - 3 } else { 0 };
            let (head, _) = text.split_at(cut);
            let mut r = head.to_owned();
            r.append("...");
            proof {
                reveal_strlit("...");
                lemma_encode_utf8_concat(head@, "..."@);
                let dots = "..."@;
                vstd::utf8::is_ascii_chars_encode_utf8(dots);
                assert(encode_utf8(dots) =~= seq![46u8, 46u8, 46u8]);
                assert(encode_utf8(r@) =~= truncated_bytes(text.spec_bytes(), max_len as nat));
            }
            r
        }
    }
}

/// Utility functions for consistent display formatting.
pub struct DisplayUtils;

impl DisplayUtils {
    /// A region name, truncated for display.
    pub fn format_region_name(name: &str, max_len: usize) -> (r: String)
        requires
            name.spec_bytes().len() <= usize::MAX,
            name.spec_bytes().len() > max_len ==> is_char_boundary(
                name.spec_bytes(),
                cut_point(max_len as nat) as int,
            ),
        ensures
            encode_utf8(r@) == truncated_bytes(name.spec_bytes(), max_len as nat),
    {
        ProgressBarFactory::truncate_text(name, max_len)
    }

    /// A header separator of `length` `=` signs.
    pub fn create_separator(length: usize) -> (r: String)
        ensures
            r@ == repeated('=', length as nat),
    {
        proof {
            reveal_strlit("=");
        }
        repeat_str("=", length)
    }

    /// A sub-header separator of `length` `-` signs.
    pub fn create_sub_separator(length: usize) -> (r: String)
        ensures
            r@ == repeated('-', length as nat),
    {
        proof {
            reveal_strlit("-");
        }
        repeat_str("-", length)
    }
}

} // verus!
