//! Which template texts are handed to the engine: one that opens a partial
//! (`{{> name}}`, `{{#> name}}`, with or without `~` and spaces) is kept
//! back. The registry of one call holds no partials, and a partial defined
//! inline in the template that includes itself would never finish rendering.
use vstd::prelude::*;
use vstd::utf8::encode_utf8;

verus! {

pub const OPEN_BRACE: u8 = 123;

pub const GREATER_THAN: u8 = 62;

/// The bytes that may stand between `{{` and the `>` of a partial: blanks,
/// the whitespace-control `~` and the block `#`.
pub open spec fn between_brace_and_partial(b: u8) -> bool {
    b == 32 || b == 9 || b == 10 || b == 13 || b == 126 || b == 35
}

/// `{{` starts at `i`, `>` stands at `k`, and only bytes that may stand
/// between them come in between.
pub open spec fn partial_opens_at(s: Seq<u8>, i: int, k: int) -> bool {
    &&& 0 <= i
    &&& i + 2 <= k < s.len()
    &&& s[i] == OPEN_BRACE
    &&& s[i + 1] == OPEN_BRACE
    &&& s[k] == GREATER_THAN
    &&& forall|j: int| i + 2 <= j < k ==> between_brace_and_partial(#[trigger] s[j])
}

/// The bytes open a partial somewhere.
pub open spec fn opens_partial(s: Seq<u8>) -> bool {
    exists|i: int, k: int| partial_opens_at(s, i, k)
}

/// The template text, as UTF-8, opens a partial somewhere.
pub open spec fn calls_partial(t: Seq<char>) -> bool {
    opens_partial(encode_utf8(t))
}

fn is_between_brace_and_partial(b: u8) -> (r: bool)
    ensures
        r == between_brace_and_partial(b),
{
    b == 32 || b == 9 || b == 10 || b == 13 || b == 126 || b == 35
}

/// Whether the bytes open a partial somewhere.
pub fn scan_partial(s: &[u8]) -> (r: bool)
    ensures
        r == opens_partial(s@),
{
    let n = s.len();
    let mut i: usize = 0;
    while i < n && n - i > 2
        invariant
            n == s@.len(),
            i <= n,
            forall|i0: int, k: int| 0 <= i0 < i ==> !partial_opens_at(s@, i0, k),
        decreases n - i,
    {
        if s[i] == OPEN_BRACE && s[i + 1] == OPEN_BRACE {
            let mut k: usize = i + 2;
            while k < n && is_between_brace_and_partial(s[k])
                invariant
                    n == s@.len(),
                    i + 2 <= k <= n,
                    forall|j: int| i + 2 <= j < k ==> between_brace_and_partial(#[trigger] s@[j]),
                decreases n - k,
            {
                k = k + 1;
            }
            if k < n && s[k] == GREATER_THAN {
                assert(partial_opens_at(s@, i as int, k as int));
                return true;
            }
            assert forall|k2: int| !partial_opens_at(s@, i as int, k2) by {
                if partial_opens_at(s@, i as int, k2) {
                    if k2 < k {
                        assert(between_brace_and_partial(s@[k2]));
                    } else if k2 > k {
                        assert(between_brace_and_partial(s@[k as int]));
                    }
                }
            }
        }
        i = i + 1;
    }
    assert forall|i0: int, k: int| !partial_opens_at(s@, i0, k) by {
        if partial_opens_at(s@, i0, k) {
            assert(i0 < i);
        }
    }
    false
}

} // verus!
