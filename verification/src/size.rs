//! The "{width}x{height}" form in which a target cover size is configured.

use vstd::prelude::*;
use crate::numbers::{parse_u32, parse_u32_spec};
use crate::text::{find_first, find_spec, occurs_at};

verus! {

/// The pair encoded by a size argument: the text up to the first `x` and the
/// text after it, each parsed as an unsigned decimal number; `None` where
/// there is no `x` or either side does not parse.
pub open spec fn parse_size_spec(s: Seq<char>) -> Option<(int, int)> {
    match find_spec(s, "x"@) {
        Some(i) => match (parse_u32_spec(s.take(i)), parse_u32_spec(s.skip(i + 1))) {
            (Some(w), Some(h)) => Some((w, h)),
            _ => None,
        },
        None => None,
    }
}

/// Reads size arguments of the form "{width}x{height}".
#[derive(Clone, Copy)]
pub struct SizeParser;

impl SizeParser {
    /// Parses a size argument: the text is split at its first `x` and both
    /// sides are read as unsigned decimal numbers.
    pub fn parse(&self, value: &str) -> (r: Option<(u32, u32)>)
        ensures
            match r {
                Some(wh) => parse_size_spec(value@) == Some((wh.0 as int, wh.1 as int)),
                None => parse_size_spec(value@) is None,
            },
    {
        proof {
            reveal_strlit("x");
        }
        let len = value.unicode_len();
        match find_first(value, "x") {
            Some(i) => {
                proof {
                    assert(occurs_at(value@, "x"@, i as int));
                    assert(value@.subrange(0, i as int) =~= value@.take(i as int));
                    assert(value@.subrange(i + 1, len as int) =~= value@.skip(i + 1));
                }
                let left = value.substring_char(0, i);
                let right = value.substring_char(i + 1, len);
                match parse_u32(left) {
                    Some(w) => match parse_u32(right) {
                        Some(h) => Some((w, h)),
                        None => None,
                    },
                    None => None,
                }
            },
            None => None,
        }
    }
}

} // verus!
