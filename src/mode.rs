//! Choosing the run mode: storing, or replaying a stored day at a speed.
use vstd::prelude::*;
use vstd::string::StringSliceAdditionalSpecFns;

verus! {

/// The mutually exclusive start-up modes.
#[derive(Clone, Debug, PartialEq, Eq)]
pub enum Mode {
    /// Persist incoming events.
    Storing,
    /// Replay the events stored on `date` (`YYYY-MM-DD`) at `speed`.
    Reading { date: String, speed: u16 },
}

/// Why no run mode could be chosen.
#[derive(Clone, Copy, Debug, PartialEq, Eq, Structural)]
pub enum ModeError {
    /// Neither storing nor reading was asked for.
    ModeMissing,
    /// The speed is not an unsigned decimal integer that fits in 16 bits.
    SpeedNotANumber,
    /// The speed is zero.
    SpeedZero,
}

/// Whether `b` is an ASCII decimal digit.
pub open spec fn is_digit(b: u8) -> bool {
    48 <= b <= 57
}

/// The value of the decimal digits `b`.
pub open spec fn digits_value(b: Seq<u8>) -> int
    decreases b.len(),
{
    if b.len() == 0 {
        0
    } else {
        digits_value(b.drop_last()) * 10 + (b.last() - 48)
    }
}

/// `b` without one leading `+`.
pub open spec fn unsigned_body(b: Seq<u8>) -> Seq<u8> {
    if b.len() > 0 && b[0] == 43 {
        b.drop_first()
    } else {
        b
    }
}

/// Whether `b` is a 16-bit unsigned decimal number: an optional `+`, then
/// one or more digits whose value is at most 65535.
pub open spec fn is_u16_text(b: Seq<u8>) -> bool {
    let body = unsigned_body(b);
    &&& body.len() > 0
    &&& forall|i: int| 0 <= i < body.len() ==> is_digit(#[trigger] body[i])
    &&& digits_value(body) <= 65535
}

proof fn lemma_digits_value_nonneg(b: Seq<u8>)
    requires
        forall|i: int| 0 <= i < b.len() ==> is_digit(#[trigger] b[i]),
    ensures
        digits_value(b) >= 0,
    decreases b.len(),
{
    if b.len() > 0 {
        lemma_digits_value_nonneg(b.drop_last());
    }
}

/// Reads the replay speed: a positive 16-bit unsigned decimal integer.
pub fn parse_speed(text: &str) -> (r: Result<u16, ModeError>)
    ensures
        !is_u16_text(text.spec_bytes()) <==> r == Err::<u16, ModeError>(
            ModeError::SpeedNotANumber,
        ),
        is_u16_text(text.spec_bytes()) && digits_value(unsigned_body(text.spec_bytes())) == 0
            <==> r == Err::<u16, ModeError>(ModeError::SpeedZero),
        r is Ok <==> is_u16_text(text.spec_bytes()) && digits_value(
            unsigned_body(text.spec_bytes()),
        ) != 0,
        r is Ok ==> r->Ok_0 as int == digits_value(unsigned_body(text.spec_bytes())),
{
    let b = text.as_bytes();
    let ghost bs = b@;
    let start: usize = if b.len() > 0 && b[0] == 43u8 {
        1
    } else {
        0
    };
    let ghost body = unsigned_body(bs);
    assert(body =~= bs.subrange(start as int, bs.len() as int));
    if start >= b.len() {
        return Err(ModeError::SpeedNotANumber);
    }
    let mut acc: u32 = 0;
    let mut i: usize = start;
    while i < b.len()
        invariant
            bs == b@,
            bs == text.spec_bytes(),
            body == unsigned_body(bs),
            start <= i <= b@.len(),
            body == bs.subrange(start as int, bs.len() as int),
            forall|k: int| start <= k < i ==> is_digit(#[trigger] bs[k]),
            acc as int == if digits_value(bs.subrange(start as int, i as int)) < 65536 {
                digits_value(bs.subrange(start as int, i as int))
            } else {
                65536
            },
        decreases b@.len() - i,
    {
        let c = b[i];
        if c < 48u8 || c > 57u8 {
            assert(body[i - start] == bs[i as int]);
            assert(!is_digit(body[i - start]));
            return Err(ModeError::SpeedNotANumber);
        }
        let ghost pre = bs.subrange(start as int, i as int);
        let ghost next = bs.subrange(start as int, i + 1);
        assert(next.drop_last() =~= pre);
        assert(digits_value(next) == digits_value(pre) * 10 + (c - 48));
        let d: u32 = (c - 48u8) as u32;
        if acc >= 65536 {
            proof {
                assert forall|k: int| 0 <= k < pre.len() implies is_digit(#[trigger] pre[k]) by {
                    assert(pre[k] == bs[start + k]);
                }
                lemma_digits_value_nonneg(pre);
                assert(digits_value(pre) * 10 + d >= 65536) by (nonlinear_arith)
                    requires
                        digits_value(pre) >= 65536,
                        d >= 0,
                ;
            }
        } else {
            let v = acc * 10 + d;
            acc = if v >= 65536 {
                65536
            } else {
                v
            };
        }
        i = i + 1;
    }
    proof {
        assert(bs.subrange(start as int, i as int) =~= body);
        assert forall|k: int| 0 <= k < body.len() implies is_digit(#[trigger] body[k]) by {
            assert(body[k] == bs[start + k]);
        }
        lemma_digits_value_nonneg(body);
    }
    if acc >= 65536 {
        Err(ModeError::SpeedNotANumber)
    } else if acc == 0 {
        Err(ModeError::SpeedZero)
    } else {
        Ok(acc as u16)
    }
}

/// Chooses the run mode from the start-up flags: storing wins; otherwise a
/// reading date is needed, and the speed text (`1` when absent) must parse.
pub fn select_mode(storing: bool, reading_date: Option<String>, speed_text: Option<&str>) -> (r:
    Result<Mode, ModeError>)
    ensures
        storing ==> r == Ok::<Mode, ModeError>(Mode::Storing),
        !storing && reading_date is None ==> r == Err::<Mode, ModeError>(ModeError::ModeMissing),
        !storing && reading_date is Some && speed_text is None ==> r == Ok::<Mode, ModeError>(
            Mode::Reading { date: reading_date->Some_0, speed: 1 },
        ),
        !storing && reading_date is Some && speed_text is Some ==> {
            let t = speed_text->Some_0.spec_bytes();
            &&& !is_u16_text(t) ==> r == Err::<Mode, ModeError>(ModeError::SpeedNotANumber)
            &&& is_u16_text(t) && digits_value(unsigned_body(t)) == 0 ==> r == Err::<
                Mode,
                ModeError,
            >(ModeError::SpeedZero)
            &&& is_u16_text(t) && digits_value(unsigned_body(t)) != 0 ==> r == Ok::<
                Mode,
                ModeError,
            >(
                Mode::Reading {
                    date: reading_date->Some_0,
                    speed: digits_value(unsigned_body(t)) as u16,
                },
            )
        },
{
    if storing {
        return Ok(Mode::Storing);
    }
    let date = match reading_date {
        Some(d) => d,
        None => return Err(ModeError::ModeMissing),
    };
    let speed = match speed_text {
        Some(t) => match parse_speed(t) {
            Ok(s) => s,
            Err(e) => return Err(e),
        },
        None => 1,
    };
    Ok(Mode::Reading { date, speed })
}

} // verus!
