//! The classifier itself.
use vstd::prelude::*;

use crate::diagnostic::Diagnostic;

verus! {

/// The largest start value that the check accepts: twice it still fits in an `i32`.
pub const MAX_START: i32 = 1073741823;

/// Start values above this one are doubled and returned at once.
pub const THRESHOLD: i32 = 100;

/// The last step of the counting phase: the count ends one past it.
pub const LOOP_BOUND: i32 = 5;

/// The counting step that records no observation.
pub const SKIPPED_STEP: i32 = 2;

/// Why a classification failed.
#[derive(Clone, Copy, Debug, PartialEq, Eq, Structural)]
pub enum ClassifyError {
    /// The start-value check rejected the input.
    InvalidStart { value: i32 },
    /// The final count fell outside the accepted counts.
    TooMany { count: i32 },
}

impl ClassifyError {
    /// The text that describes this error.
    pub fn message(&self) -> (r: &'static str)
        ensures
            r@ == self.message_spec(),
    {
        match self {
            ClassifyError::InvalidStart { .. } => "Invalid start value",
            ClassifyError::TooMany { .. } => "Too many",
        }
    }

    /// The characters of `message`.
    pub open spec fn message_spec(&self) -> Seq<char> {
        match self {
            ClassifyError::InvalidStart { .. } => "Invalid start value"@,
            ClassifyError::TooMany { .. } => "Too many"@,
        }
    }
}

/// A start value is valid when it is not negative and its double fits in an `i32`.
pub open spec fn start_valid(x: i32) -> bool {
    0 <= x <= MAX_START
}

/// Checks a start value: it is handed back unchanged when valid.
pub fn check_start(x: i32) -> (r: Result<i32, ClassifyError>)
    ensures
        r == (if start_valid(x) {
            Ok::<i32, ClassifyError>(x)
        } else {
            Err::<i32, ClassifyError>(ClassifyError::InvalidStart { value: x })
        }),
{
    if 0 <= x && x <= MAX_START {
        Ok(x)
    } else {
        Err(ClassifyError::InvalidStart { value: x })
    }
}

/// The observations of counting steps one to `c`: one `Looping` for each
/// step but the skipped one.
pub open spec fn steps_trace(c: int) -> Seq<Diagnostic>
    decreases c,
{
    if c <= 0 {
        Seq::empty()
    } else if c == SKIPPED_STEP {
        steps_trace(c - 1)
    } else {
        steps_trace(c - 1).push(Diagnostic::Looping)
    }
}

/// The counting phase records one `Looping` for each of its steps but the
/// skipped one, and nothing else.
pub proof fn lemma_counting_phase_trace()
    ensures
        steps_trace(LOOP_BOUND as int) == Seq::new(
            (LOOP_BOUND - 1) as nat,
            |i: int| Diagnostic::Looping,
        ),
{
    reveal_with_fuel(steps_trace, 6);
    assert(steps_trace(LOOP_BOUND as int) =~= Seq::new(
        (LOOP_BOUND - 1) as nat,
        |i: int| Diagnostic::Looping,
    ));
}

/// The count that the counting phase always ends on.
pub open spec fn final_count() -> int {
    LOOP_BOUND + 1
}

/// The result of classifying a final count: one and two are accepted and
/// returned, any other count is too many.
pub open spec fn count_result(count: i32) -> Result<i32, ClassifyError> {
    if count == 1 || count == 2 {
        Ok(count)
    } else {
        Err(ClassifyError::TooMany { count })
    }
}

/// The observation that classifying a final count records.
pub open spec fn count_trace(count: i32) -> Seq<Diagnostic> {
    if count == 1 {
        seq![Diagnostic::One]
    } else if count == 2 {
        seq![Diagnostic::Two]
    } else {
        Seq::empty()
    }
}

/// What classifying `x` returns.
pub open spec fn classify_spec(x: i32) -> Result<i32, ClassifyError> {
    if !start_valid(x) {
        Err(ClassifyError::InvalidStart { value: x })
    } else if x > THRESHOLD {
        Ok((2 * x) as i32)
    } else {
        count_result(final_count() as i32)
    }
}

/// The observations that classifying `x` records, in order.
pub open spec fn classify_trace(x: i32) -> Seq<Diagnostic> {
    if !start_valid(x) || x > THRESHOLD {
        Seq::empty()
    } else {
        seq![Diagnostic::LowStart] + steps_trace(LOOP_BOUND as int) + count_trace(
            final_count() as i32,
        )
    }
}

/// Runs the counting phase: counts up from zero until the count exceeds
/// `LOOP_BOUND`, recording `Looping` for each step but `SKIPPED_STEP`.
pub fn count_up(trace: &mut Vec<Diagnostic>) -> (count: i32)
    ensures
        count == final_count(),
        final(trace)@ == old(trace)@ + steps_trace(LOOP_BOUND as int),
{
    let ghost before = trace@;
    let mut count: i32 = 0;
    loop
        invariant_except_break
            0 <= count <= LOOP_BOUND,
            trace@ == before + steps_trace(count as int),
        ensures
            count == final_count(),
            trace@ == before + steps_trace(LOOP_BOUND as int),
        decreases LOOP_BOUND - count,
    {
        count += 1;
        if count > LOOP_BOUND {
            break;
        }
        if count == SKIPPED_STEP {
            continue;
        }
        trace.push(Diagnostic::Looping);
    }
    count
}

/// Classifies a final count, recording `One` or `Two` for the accepted counts.
pub fn classify_count(count: i32, trace: &mut Vec<Diagnostic>) -> (r: Result<i32, ClassifyError>)
    ensures
        r == count_result(count),
        final(trace)@ == old(trace)@ + count_trace(count),
{
    match count {
        1 => {
            trace.push(Diagnostic::One);
        },
        2 => {
            trace.push(Diagnostic::Two);
        },
        _ => {
            proof {
                assert(old(trace)@ + count_trace(count) =~= old(trace)@);
            }
            return Err(ClassifyError::TooMany { count });
        },
    }
    Ok(count)
}

/// Classifies `x` and appends the observations made on the way to `trace`.
/// The observations never change the result.
pub fn classify_traced(x: i32, trace: &mut Vec<Diagnostic>) -> (r: Result<i32, ClassifyError>)
    ensures
        r == classify_spec(x),
        final(trace)@ == old(trace)@ + classify_trace(x),
        !start_valid(x) || x > THRESHOLD ==> final(trace)@ == old(trace)@,
{
    let start = match check_start(x) {
        Ok(s) => s,
        Err(e) => {
            proof {
                assert(old(trace)@ + classify_trace(x) =~= old(trace)@);
            }
            return Err(e);
        },
    };
    if start > THRESHOLD {
        proof {
            assert(old(trace)@ + classify_trace(x) =~= old(trace)@);
        }
        return Ok(start * 2);
    }
    trace.push(Diagnostic::LowStart);
    let count = count_up(trace);
    let r = classify_count(count, trace);
    proof {
        assert(trace@ =~= old(trace)@ + classify_trace(x));
    }
    r
}

/// Classifies `x`: an invalid start value is an `InvalidStart` error; a start
/// value above `THRESHOLD` is doubled; any other start value runs the counting
/// phase, whose final count is always too many.
pub fn classify(x: i32) -> (r: Result<i32, ClassifyError>)
    ensures
        r == classify_spec(x),
        !start_valid(x) ==> r == Err::<i32, ClassifyError>(ClassifyError::InvalidStart { value: x }),
        start_valid(x) && x > THRESHOLD ==> r == Ok::<i32, ClassifyError>((2 * x) as i32),
        start_valid(x) && x <= THRESHOLD ==> r == Err::<i32, ClassifyError>(
            ClassifyError::TooMany { count: (LOOP_BOUND + 1) as i32 },
        ),
{
    let mut trace: Vec<Diagnostic> = Vec::new();
    classify_traced(x, &mut trace)
}

/// Classifying is a function of the input alone: two calls on the same value
/// return the same result and record the same observations.
pub proof fn lemma_classify_repeatable(
    x: i32,
    r1: Result<i32, ClassifyError>,
    r2: Result<i32, ClassifyError>,
    t1: Seq<Diagnostic>,
    t2: Seq<Diagnostic>,
)
    requires
        r1 == classify_spec(x),
        r2 == classify_spec(x),
        t1 == classify_trace(x),
        t2 == classify_trace(x),
    ensures
        r1 == r2,
        t1 == t2,
{
}

/// The arms that accept a final count of one or two are never taken: no input
/// is classified as one or two, and every success is a doubled start value
/// above the threshold.
pub proof fn lemma_count_arms_unreachable(x: i32)
    ensures
        classify_spec(x) != Ok::<i32, ClassifyError>(1),
        classify_spec(x) != Ok::<i32, ClassifyError>(2),
        classify_spec(x) is Ok ==> classify_spec(x)->Ok_0 > 2 * THRESHOLD,
{
}

} // verus!
