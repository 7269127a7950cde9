//! Ranges of lines and bytes, as Neovim takes them.

use vstd::prelude::*;

verus! {

/// One end of a range.
#[derive(Clone, Copy, Debug, PartialEq, Eq, Hash, Structural)]
pub enum Limit {
    /// The range has no end on this side.
    Unbounded,
    /// The range starts or ends with this index.
    Included(usize),
    /// This index is not part of the range: the range starts just behind
    /// it, or ends just before it.
    Excluded(usize),
}

/// The index at which a range that starts at `start` begins.
pub open spec fn first_index(start: Limit) -> i64 {
    match start {
        Limit::Unbounded => 0i64,
        Limit::Included(n) => n as i64,
        Limit::Excluded(n) => (n + 1) as usize as i64,
    }
}

/// The index before which a range that ends at `end` stops, where -1
/// stands for the end of what is there.
pub open spec fn end_index(end: Limit) -> i64 {
    match end {
        Limit::Unbounded => -1i64,
        Limit::Included(n) => (n + 1) as usize as i64,
        Limit::Excluded(n) => n as i64,
    }
}

/// Whether the index that follows the limit can be taken.
pub open spec fn has_successor(limit: Limit) -> bool {
    match limit {
        Limit::Unbounded => true,
        Limit::Included(n) => n < usize::MAX,
        Limit::Excluded(n) => n < usize::MAX,
    }
}

/// The two indices that Neovim is given for the range from `start` to
/// `end`: the first index of the range and the index behind its last.
///
/// An index greater than `i64::MAX` is handed over as the negative
/// number with the same bits.
pub fn range_to_limits(start: Limit, end: Limit) -> (limits: (i64, i64))
    requires
        start is Excluded ==> has_successor(start),
        end is Included ==> has_successor(end),
    ensures
        limits == (first_index(start), end_index(end)),
{
    let first = match start {
        Limit::Unbounded => 0,
        Limit::Included(n) => #[verifier::truncate]
        (n as i64),
        Limit::Excluded(n) => #[verifier::truncate]
        ((n + 1) as i64),
    };
    let behind = match end {
        Limit::Unbounded => -1,
        Limit::Included(n) => #[verifier::truncate]
        ((n + 1) as i64),
        Limit::Excluded(n) => #[verifier::truncate]
        (n as i64),
    };
    (first, behind)
}

} // verus!
