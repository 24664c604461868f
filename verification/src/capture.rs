//! The captured output of a command, which is kept from growing without bound.

use vstd::prelude::*;

use crate::text::copy_range;

verus! {

/// How large a capture may grow, in bytes.
#[derive(Clone, Copy, Debug, PartialEq, Eq, Structural)]
pub struct CaptureLimits {
    /// A capture longer than this is cut.
    pub max: usize,
    /// At most this much of its end is kept then.
    pub keep: usize,
}

impl CaptureLimits {
    /// Something is kept, and no more than a capture may hold.
    pub open spec fn wf(self) -> bool {
        0 < self.keep <= self.max
    }
}

/// Whether a line starts at `at`.
pub open spec fn line_starts(bytes: Seq<u8>, at: int) -> bool {
    at == 0 || bytes[at - 1] == '\n' as u8
}

/// The first start of a line from `from` on that has a byte behind it; `from` itself
/// where there is none.
pub open spec fn is_cut(bytes: Seq<u8>, from: int, at: int) -> bool {
    ||| from <= at < bytes.len() && line_starts(bytes, at) && forall|i: int|
        from <= i < at ==> !line_starts(bytes, i)
    ||| at == from && forall|i: int| from <= i < bytes.len() ==> !line_starts(bytes, i)
}

/// Whether `kept` is what is kept of a capture.
pub open spec fn is_capped(capture: Seq<u8>, kept: Seq<u8>, limits: CaptureLimits) -> bool {
    if capture.len() <= limits.max {
        kept == capture
    } else {
        exists|at: int| #[trigger]
            is_cut(capture, capture.len() - limits.keep, at) && kept == capture.skip(at)
    }
}

/// Cuts a capture that has grown too long down to its end, at the start of a line if
/// one starts there.
pub fn cap_capture(capture: &mut Vec<u8>, limits: CaptureLimits)
    requires
        limits.wf(),
    ensures
        is_capped(old(capture)@, final(capture)@, limits),
{
    let len: usize = capture.len();
    if len <= limits.max {
        return ;
    }
    let from: usize = len - limits.keep;
    let mut at: usize = from;
    while at < len && capture[at - 1] != '\n' as u8
        invariant
            capture@ == old(capture)@,
            len == capture@.len(),
            0 < from <= at <= len,
            forall|i: int| from <= i < at ==> !line_starts(capture@, i),
        decreases len - at,
    {
        at += 1;
    }
    let start: usize = if at < len {
        at
    } else {
        from
    };
    let kept: Vec<u8> = copy_range(capture.as_slice(), start, len);
    proof {
        assert(is_cut(capture@, from as int, start as int));
        assert(kept@ =~= capture@.skip(start as int));
    }
    *capture = kept;
}

/// What is kept is the end of the capture, and never nothing of something; a capture
/// that was too long is within the limit afterwards.
pub proof fn captures_keep_their_end(capture: Seq<u8>, kept: Seq<u8>, limits: CaptureLimits)
    requires
        limits.wf(),
        is_capped(capture, kept, limits),
    ensures
        kept.len() <= capture.len(),
        kept == capture.skip(capture.len() - kept.len()),
        capture.len() > 0 ==> kept.len() > 0,
        capture.len() > limits.max ==> kept.len() <= limits.keep,
{
    if capture.len() > limits.max {
        let at = choose|at: int| #[trigger]
            is_cut(capture, capture.len() - limits.keep, at) && kept == capture.skip(at);
        assert(kept == capture.skip(at));
    } else {
        assert(capture.skip(0) =~= capture);
    }
}

/// What is kept of a capture that was too long starts with a line, if a line starts
/// within the limit.
pub proof fn cut_captures_start_with_a_line(
    capture: Seq<u8>,
    kept: Seq<u8>,
    limits: CaptureLimits,
    line: int,
)
    requires
        limits.wf(),
        is_capped(capture, kept, limits),
        capture.len() > limits.max,
        capture.len() - limits.keep <= line < capture.len(),
        line_starts(capture, line),
    ensures
        line_starts(capture, capture.len() - kept.len()),
{
    let at = choose|at: int| #[trigger]
        is_cut(capture, capture.len() - limits.keep, at) && kept == capture.skip(at);
    assert(kept == capture.skip(at));
}

/// Of a capture that was too long no line that starts within the limit is lost, and as much
/// is kept as the limit allows where no line starts there; a shorter capture is kept whole. A
/// line starts at the front, and behind every line feed.
pub proof fn no_line_within_the_limit_is_lost(
    capture: Seq<u8>,
    kept: Seq<u8>,
    limits: CaptureLimits,
    line: int,
)
    requires
        limits.wf(),
        is_capped(capture, kept, limits),
        0 <= line < capture.len(),
    ensures
        line_starts(capture, line) <==> line == 0 || capture[line - 1] == 10,
        capture.len() <= limits.max ==> kept == capture,
        capture.len() > limits.max && capture.len() - limits.keep <= line && line_starts(
            capture,
            line,
        ) ==> capture.len() - kept.len() <= line,
        capture.len() > limits.max && (forall|i: int|
            capture.len() - limits.keep <= i < capture.len() ==> !line_starts(capture, i))
            ==> kept.len() == limits.keep,
{
    if capture.len() > limits.max {
        let at = choose|at: int| #[trigger]
            is_cut(capture, capture.len() - limits.keep, at) && kept == capture.skip(at);
        assert(kept == capture.skip(at));
    }
}

} // verus!
