use vstd::prelude::*;

use crate::helpers::random_num_in_range;

verus! {

/// Unit type that carries the text-message operations of the dialogue.
pub struct MessageHandler;

/// Whether `(start, end)` selects the results to show out of `len` under
/// `limit`: all of them when they fit, else `limit` contiguous ones.
pub open spec fn valid_selection(len: int, limit: int, start: int, end: int) -> bool {
    if len <= limit {
        start == 0 && end == len
    } else {
        0 <= start && end == start + limit && end <= len
    }
}

impl MessageHandler {
    /// The slice `[start, end)` of `len` results to show for a chosen start
    /// offset: all results when they fit in `limit`, otherwise `limit` of them
    /// from `offset`, which must be a valid start.
    pub fn select_range(vec_len: usize, limit: usize, offset: usize) -> (r: (usize, usize))
        requires
            vec_len > limit ==> offset <= vec_len - limit,
        ensures
            vec_len <= limit ==> r == (0usize, vec_len),
            vec_len > limit ==> r == (offset, (offset + limit) as usize),
            valid_selection(vec_len as int, limit as int, r.0 as int, r.1 as int),
    {
        if vec_len > limit {
            (offset, offset + limit)
        } else {
            (0, vec_len)
        }
    }

    /// The slice of results to show: all when they fit in `settings_params`,
    /// otherwise that many contiguous ones from a start drawn uniformly among
    /// the valid ones.
    pub fn get_range(vec_len: usize, settings_params: usize) -> (r: (usize, usize))
        ensures
            vec_len <= settings_params ==> r == (0usize, vec_len),
            valid_selection(vec_len as int, settings_params as int, r.0 as int, r.1 as int),
    {
        if vec_len > settings_params && settings_params == 0 {
            Self::select_range(vec_len, settings_params, 0)
        } else if vec_len > settings_params {
            let start = random_num_in_range(0, vec_len - settings_params + 1);
            Self::select_range(vec_len, settings_params, start)
        } else {
            Self::select_range(vec_len, settings_params, 0)
        }
    }
}

} // verus!
