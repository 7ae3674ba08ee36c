//! Splitting a fragment-shader file into its segments.  A file either is
//! plain GLSL from the first byte to the last, or it carries an embedded
//! configuration block fenced by a fixed delimiter: everything before the
//! first delimiter is ignored preamble, the block sits between the first and
//! the second delimiter, and the GLSL body follows the second delimiter (up
//! to a third delimiter, if one occurs).
//!
//! The delimiter is the literal line `+++` — as bytes, `+` `+` `+`
//! followed by a line feed — matched exactly.

use vstd::prelude::*;

verus! {

/// The byte `+` (0x2B).
pub const PLUS_BYTE: u8 = 43;

/// The byte of a line feed (0x0A).
pub const LINE_FEED_BYTE: u8 = 10;

/// The delimiter occurs at byte offset `i` of `s`.
pub open spec fn is_delim_at(s: Seq<u8>, i: int) -> bool {
    &&& 0 <= i
    &&& i + 4 <= s.len()
    &&& s[i] == PLUS_BYTE
    &&& s[i + 1] == PLUS_BYTE
    &&& s[i + 2] == PLUS_BYTE
    &&& s[i + 3] == LINE_FEED_BYTE
}

/// The first delimiter occurrence at offset `from` or later, if any.
pub open spec fn first_delim(s: Seq<u8>, from: int) -> Option<int>
    decreases s.len() - from,
{
    if from + 4 > s.len() {
        None
    } else if is_delim_at(s, from) {
        Some(from)
    } else {
        first_delim(s, from + 1)
    }
}

/// Finds the first delimiter occurrence at offset `from` or later.
pub fn find_delim(src: &Vec<u8>, from: usize) -> (r: Option<usize>)
    ensures
        match r {
            Some(i) => from <= i && i + 4 <= src@.len() && Some(i as int) == first_delim(
                src@,
                from as int,
            ),
            None => first_delim(src@, from as int) is None,
        },
{
    if src.len() < 4 || from > src.len() - 4 {
        return None;
    }
    let mut i: usize = from;
    while i <= src.len() - 4
        invariant
            src@.len() >= 4,
            from <= i <= src@.len() - 4 + 1,
            first_delim(src@, from as int) == first_delim(src@, i as int),
        decreases src@.len() - i,
    {
        if src[i] == PLUS_BYTE && src[i + 1] == PLUS_BYTE && src[i + 2] == PLUS_BYTE && src[i + 3] == LINE_FEED_BYTE {
            assert(is_delim_at(src@, i as int));
            return Some(i);
        }
        assert(!is_delim_at(src@, i as int));
        i = i + 1;
    }
    None
}

/// The bytes of `src` from offset `a` (inclusive) to `b` (exclusive).
pub fn copy_range(src: &Vec<u8>, a: usize, b: usize) -> (r: Vec<u8>)
    requires
        a <= b <= src@.len(),
    ensures
        r@ == src@.subrange(a as int, b as int),
{
    let mut r: Vec<u8> = Vec::new();
    let mut k: usize = a;
    while k < b
        invariant
            a <= k <= b <= src@.len(),
            r@ =~= src@.subrange(a as int, k as int),
        decreases b - k,
    {
        r.push(src[k]);
        k = k + 1;
    }
    assert(r@ =~= src@.subrange(a as int, b as int));
    r
}

/// How a source file splits around the delimiter.
#[derive(Debug, PartialEq, Eq)]
pub enum SourceSplit {
    /// No delimiter anywhere: the whole file is GLSL body.
    NoBlock,
    /// A delimiter was found, but no second delimiter closes the block, so
    /// no GLSL body segment exists.
    Malformed,
    /// A fenced configuration block and the GLSL body after it.
    Blocks { config: Vec<u8>, body: Vec<u8> },
}

/// The mathematical value of a [`SourceSplit`].
#[verifier::ext_equal]
pub enum SplitView {
    NoBlock,
    Malformed,
    Blocks { config: Seq<u8>, body: Seq<u8> },
}

impl View for SourceSplit {
    type V = SplitView;

    open spec fn view(&self) -> SplitView {
        match self {
            SourceSplit::NoBlock => SplitView::NoBlock,
            SourceSplit::Malformed => SplitView::Malformed,
            SourceSplit::Blocks { config, body } => SplitView::Blocks {
                config: config@,
                body: body@,
            },
        }
    }
}

/// Where the segments of `s` lie: the configuration block spans the bytes
/// between the first two delimiter occurrences, and the body spans the bytes
/// after the second occurrence, up to a third occurrence or the end.
pub open spec fn spec_split(s: Seq<u8>) -> SplitView {
    match first_delim(s, 0) {
        None => SplitView::NoBlock,
        Some(i) => match first_delim(s, i + 4) {
            None => SplitView::Malformed,
            Some(j) => {
                let body_end = match first_delim(s, j + 4) {
                    Some(k) => k,
                    None => s.len() as int,
                };
                SplitView::Blocks { config: s.subrange(i + 4, j), body: s.subrange(j + 4, body_end) }
            },
        },
    }
}

/// Splits a source file around the delimiter, as [`spec_split`] says.
pub fn split_source(src: &Vec<u8>) -> (r: SourceSplit)
    ensures
        r@ == spec_split(src@),
{
    let n = src.len();
    let first = match find_delim(src, 0) {
        None => {
            return SourceSplit::NoBlock;
        },
        Some(i) => i,
    };
    assert(first + 4 <= n);
    let second = match find_delim(src, first + 4) {
        None => {
            return SourceSplit::Malformed;
        },
        Some(j) => j,
    };
    let body_end = match find_delim(src, second + 4) {
        None => src.len(),
        Some(k) => k,
    };
    let config = copy_range(src, first + 4, second);
    let body = copy_range(src, second + 4, body_end);
    SourceSplit::Blocks { config, body }
}

} // verus!
