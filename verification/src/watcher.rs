//! Decisions of the filesystem watchers that refresh the model list and
//! the settings view. The host layer owns the watchers and the clock; the
//! debounce rule and the file filter are decided here.

use vstd::prelude::*;
use vstd::string::StrSliceExecFns;

verus! {

/// Debounce window for filesystem events, in milliseconds.
pub const DEBOUNCE_MS: u64 = 500;

/// Timestamp-based deduplication: an event is published only when at
/// least the debounce window has passed since the last published one.
pub fn should_emit(elapsed_ms: u64) -> (r: bool)
    ensures
        r <==> elapsed_ms >= DEBOUNCE_MS,
{
    elapsed_ms >= DEBOUNCE_MS
}

/// Only files with this suffix are recognition models; partial downloads
/// and anything else in the models directory are ignored.
pub open spec fn is_model_name(name: Seq<char>) -> bool {
    name.len() > 4 && name.skip(name.len() - 4) == ".bin"@
}

/// Whether a file name names a recognition model: a non-empty stem
/// followed by the model suffix.
pub fn is_model_file(name: &str) -> (r: bool)
    ensures
        r == is_model_name(name@),
{
    let n = name.unicode_len();
    if n > 4 && name.get_char(n - 4) == '.' && name.get_char(n - 3) == 'b' && name.get_char(n - 2)
        == 'i' && name.get_char(n - 1) == 'n' {
        proof {
            reveal_strlit(".bin");
            assert(name@.skip(n - 4) =~= ".bin"@);
        }
        true
    } else {
        proof {
            if n > 4 {
                reveal_strlit(".bin");
                let tail = name@.skip(n - 4);
                if tail == ".bin"@ {
                    assert(name@[n - 4] == tail[0]);
                    assert(name@[n - 3] == tail[1]);
                    assert(name@[n - 2] == tail[2]);
                    assert(name@[n - 1] == tail[3]);
                }
            }
        }
        false
    }
}

} // verus!
