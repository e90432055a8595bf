//! Decisions a trampoline makes before it calls into a user closure.
use vstd::prelude::*;

use crate::error::ChannelError;

verus! {

/// Number of octave bands in a sound-level event.
pub const OCTAVE_BANDS: usize = 10;

/// The closure a context designates: none for a null context.
pub open spec fn target_of(ctx: usize) -> Option<usize> {
    if ctx == 0 {
        None
    } else {
        Some(ctx)
    }
}

/// The closure address to call for a context handed in by the native
/// layer; a null context (`0`) calls nothing.
pub fn event_target(ctx: usize) -> (r: Option<usize>)
    ensures
        r == target_of(ctx),
{
    if ctx == 0 {
        None
    } else {
        Some(ctx)
    }
}

/// Rebuilds a payload of fixed length `expected` from what the native layer
/// supplied: the values are passed on unchanged, or the length mismatch is
/// reported.
pub fn fixed_payload<T: Copy>(raw: &[T], expected: usize) -> (r: Result<Vec<T>, ChannelError>)
    ensures
        raw@.len() == expected <==> r is Ok,
        r matches Ok(v) ==> v@ == raw@,
        raw@.len() != expected ==> r == Err::<Vec<T>, ChannelError>(
            ChannelError::PayloadShape { expected, found: raw@.len() as usize },
        ),
{
    let n = raw.len();
    if n != expected {
        return Err(ChannelError::PayloadShape { expected, found: n });
    }
    let mut out: Vec<T> = Vec::with_capacity(n);
    let mut i: usize = 0;
    while i < n
        invariant
            n == raw@.len(),
            i <= n,
            out@ == raw@.subrange(0, i as int),
        decreases n - i,
    {
        out.push(raw[i]);
        i = i + 1;
        proof {
            assert(out@ =~= raw@.subrange(0, i as int));
        }
    }
    proof {
        assert(out@ =~= raw@);
    }
    Ok(out)
}

} // verus!
