//! Frames on the substream.
//!
//! Every message travels as one frame: the length of its encoding, then the
//! encoding. The length is written in base 128, lowest digit first, one digit
//! to a byte, and every byte but the last has its high bit set. A reader
//! therefore knows after each byte whether the length is complete, and
//! never waits for more than one message.

use vstd::prelude::*;

verus! {

/// Why no frame could be taken from the bytes at hand.
#[derive(Clone, Copy, Debug, PartialEq, Eq, Structural)]
pub enum FrameError {
    /// The bytes end before the frame does.
    Incomplete,
    /// The frame announces more bytes than the reader accepts.
    TooLong,
}

/// The bytes that announce a length of `n`.
pub open spec fn length_prefix(n: nat) -> Seq<u8>
    decreases n,
{
    if n < 128 {
        seq![n as u8]
    } else {
        seq![(n % 128 + 128) as u8] + length_prefix(n / 128)
    }
}

/// The frame of a payload.
pub open spec fn framed(payload: Seq<u8>) -> Seq<u8> {
    length_prefix(payload.len()) + payload
}

/// The length that the bytes begin with, and the number of bytes that it is
/// written in, or `None` where the bytes end before the length does.
pub open spec fn parsed_length(bytes: Seq<u8>) -> Option<(nat, nat)>
    decreases bytes.len(),
{
    if bytes.len() == 0 {
        None
    } else if bytes[0] < 128 {
        Some((bytes[0] as nat, 1nat))
    } else {
        match parsed_length(bytes.skip(1)) {
            None => None,
            Some((high, used)) => Some(((bytes[0] - 128) as nat + 128 * high, used + 1)),
        }
    }
}

/// The length that a reader who accepts payloads of up to `max_len` bytes
/// takes from the head of the bytes, and the number of bytes it is written in.
pub open spec fn announced_length(bytes: Seq<u8>, max_len: nat) -> Result<(nat, nat), FrameError> {
    match parsed_length(bytes) {
        None => Err(FrameError::Incomplete),
        Some((n, used)) => if n > max_len {
            Err(FrameError::TooLong)
        } else {
            Ok((n, used))
        },
    }
}

/// The payload of the frame that the bytes begin with, and the length of that
/// frame, for a reader who accepts payloads of up to `max_len` bytes.
pub open spec fn unframed(bytes: Seq<u8>, max_len: nat) -> Result<(Seq<u8>, nat), FrameError> {
    match announced_length(bytes, max_len) {
        Err(error) => Err(error),
        Ok((n, used)) => if bytes.len() < used + n {
            Err(FrameError::Incomplete)
        } else {
            Ok((bytes.subrange(used as int, (used + n) as int), used + n))
        },
    }
}

/// Puts a payload into its frame.
pub fn frame(payload: &[u8]) -> (out: Vec<u8>)
    ensures
        out@ == framed(payload@),
{
    let mut out: Vec<u8> = Vec::new();
    let mut rest: usize = payload.len();
    while rest >= 128
        invariant
            out@ + length_prefix(rest as nat) == length_prefix(payload@.len()),
        decreases rest,
    {
        let digit: u8 = (rest % 128 + 128) as u8;
        proof {
            assert(out@.push(digit) + length_prefix((rest / 128) as nat) == out@ + length_prefix(
                rest as nat,
            ));
        }
        out.push(digit);
        rest = rest / 128;
    }
    proof {
        assert(out@.push(rest as u8) == out@ + length_prefix(rest as nat));
    }
    out.push(rest as u8);
    let mut at: usize = 0;
    while at < payload.len()
        invariant
            at <= payload.len(),
            out@ == length_prefix(payload@.len()) + payload@.take(at as int),
        decreases payload.len() - at,
    {
        proof {
            assert(payload@.take(at as int).push(payload@[at as int]) == payload@.take(at + 1));
            assert((length_prefix(payload@.len()) + payload@.take(at as int)).push(
                payload@[at as int],
            ) == length_prefix(payload@.len()) + payload@.take(at + 1));
        }
        out.push(payload[at]);
        at += 1;
    }
    proof {
        assert(payload@.take(payload@.len() as int) == payload@);
    }
    out
}

/// Reads the length that the bytes begin with. `Incomplete` exactly where the
/// bytes end before the length does, `TooLong` exactly where the length is
/// complete and above `max_len`; else the length and the number of bytes that
/// it is written in.
pub fn frame_length(bytes: &[u8], max_len: usize) -> (result: Result<(usize, usize), FrameError>)
    ensures
        match result {
            Ok((n, used)) => announced_length(bytes@, max_len as nat) == Ok::<
                (nat, nat),
                FrameError,
            >((n as nat, used as nat)),
            Err(error) => announced_length(bytes@, max_len as nat) == Err::<(nat, nat), FrameError>(
                error,
            ),
        },
{
    let mut at: usize = 0;
    let mut value: usize = 0;
    let mut unit: usize = 1;
    // Whether the unit of the digit at hand is above `max_len`.
    let mut unit_beyond: bool = max_len < 1;
    // Whether the digits read so far make a length above `max_len`.
    let mut beyond: bool = false;
    let ghost mut exact_value: nat = 0;
    let ghost mut exact_unit: nat = 1;
    proof {
        assert(bytes@.skip(0) == bytes@);
    }
    while at < bytes.len()
        invariant
            at <= bytes.len(),
            exact_unit >= 1,
            parsed_length(bytes@) == (match parsed_length(bytes@.skip(at as int)) {
                None => None,
                Some((high, used)) => Some((exact_value + exact_unit * high, (used + at) as nat)),
            }),
            beyond <==> exact_value > max_len,
            !beyond ==> value == exact_value,
            unit_beyond <==> exact_unit > max_len,
            !unit_beyond ==> unit == exact_unit,
        decreases bytes.len() - at,
    {
        let byte: u8 = bytes[at];
        let last: bool = byte < 128;
        let digit: u8 = if last {
            byte
        } else {
            byte - 128
        };
        proof {
            let tail = bytes@.skip(at as int);
            assert(tail[0] == byte);
            assert(tail.skip(1) == bytes@.skip(at + 1));
            assert(exact_unit * digit >= 0 && (digit == 0 ==> exact_unit * digit == 0) && (digit
                >= 1 ==> exact_unit * digit >= exact_unit)) by (nonlinear_arith)
                requires
                    exact_unit >= 1,
                    digit >= 0,
            ;
            if parsed_length(bytes@.skip(at + 1)) is Some {
                let high = parsed_length(bytes@.skip(at + 1))->Some_0.0;
                assert(exact_value + exact_unit * (digit + 128 * high) == (exact_value + exact_unit
                    * digit) + (exact_unit * 128) * high) by (nonlinear_arith);
            }
        }
        if !beyond && digit != 0 {
            if unit_beyond {
                beyond = true;
            } else {
                assert(unit * digit <= 0xffff_ffff_ffff_ffff * 127) by (nonlinear_arith)
                    requires
                        unit <= 0xffff_ffff_ffff_ffff,
                        digit <= 127,
                ;
                assert(unit * digit == exact_unit * digit);
                let sum: u128 = (value as u128) + (unit as u128) * (digit as u128);
                if sum > max_len as u128 {
                    beyond = true;
                } else {
                    value = sum as usize;
                }
            }
        }
        proof {
            exact_value = (exact_value + exact_unit * digit) as nat;
        }
        if last {
            return if beyond {
                Err(FrameError::TooLong)
            } else {
                Ok((value, at + 1))
            };
        }
        if !unit_beyond {
            let next: u128 = (unit as u128) * 128;
            if next > max_len as u128 {
                unit_beyond = true;
            } else {
                unit = next as usize;
            }
        }
        proof {
            assert(exact_unit * 128 > exact_unit) by (nonlinear_arith)
                requires
                    exact_unit >= 1,
            ;
            exact_unit = exact_unit * 128;
        }
        at += 1;
    }
    proof {
        assert(bytes@.skip(at as int).len() == 0);
    }
    Err(FrameError::Incomplete)
}

/// Takes the first frame from the bytes: its payload, and the number of bytes
/// that the frame took. `TooLong` exactly where the frame announces more than
/// `max_len` bytes, `Incomplete` exactly where the bytes end before the frame
/// does.
pub fn unframe(bytes: &[u8], max_len: usize) -> (result: Result<(Vec<u8>, usize), FrameError>)
    ensures
        match result {
            Ok((payload, taken)) => unframed(bytes@, max_len as nat) == Ok::<
                (Seq<u8>, nat),
                FrameError,
            >((payload@, taken as nat)),
            Err(error) => unframed(bytes@, max_len as nat) == Err::<(Seq<u8>, nat), FrameError>(
                error,
            ),
        },
{
    match frame_length(bytes, max_len) {
        Err(error) => Err(error),
        Ok((n, used)) => {
            proof {
                lemma_length_lies_within(bytes@);
            }
            if bytes.len() - used < n {
                return Err(FrameError::Incomplete);
            }
            let mut payload: Vec<u8> = Vec::new();
            let mut at: usize = 0;
            while at < n
                invariant
                    at <= n,
                    used + n <= bytes.len(),
                    payload@ == bytes@.subrange(used as int, used + at),
                decreases n - at,
            {
                proof {
                    assert(bytes@.subrange(used as int, used + at).push(bytes@[used + at])
                        == bytes@.subrange(used as int, used + at + 1));
                }
                payload.push(bytes[used + at]);
                at += 1;
            }
            Ok((payload, used + n))
        },
    }
}

/// A length is written in at least one byte and in no more bytes than there
/// are.
pub proof fn lemma_length_lies_within(bytes: Seq<u8>)
    ensures
        parsed_length(bytes) is Some ==> 1 <= parsed_length(bytes)->Some_0.1 <= bytes.len(),
    decreases bytes.len(),
{
    if bytes.len() > 0 && bytes[0] >= 128 {
        lemma_length_lies_within(bytes.skip(1));
    }
}

/// A length that was written is read back as it was, whatever follows it.
pub proof fn lemma_length_round_trip(n: nat, rest: Seq<u8>)
    ensures
        parsed_length(length_prefix(n) + rest) == Some((n, length_prefix(n).len())),
    decreases n,
{
    let bytes = length_prefix(n) + rest;
    if n < 128 {
        assert(bytes[0] == n as u8);
    } else {
        let high = length_prefix(n / 128);
        assert(bytes[0] == (n % 128 + 128) as u8);
        assert(bytes.skip(1) == high + rest);
        lemma_length_round_trip(n / 128, rest);
        assert(length_prefix(n).len() == high.len() + 1);
    }
}

/// Round trip: a payload that was framed is taken from its frame as it was,
/// whatever follows the frame, by every reader that accepts its length.
pub proof fn lemma_frame_round_trip(payload: Seq<u8>, rest: Seq<u8>, max_len: nat)
    requires
        payload.len() <= max_len,
    ensures
        unframed(framed(payload) + rest, max_len) == Ok::<(Seq<u8>, nat), FrameError>(
            (payload, framed(payload).len()),
        ),
{
    let prefix = length_prefix(payload.len());
    let bytes = framed(payload) + rest;
    assert(bytes == prefix + (payload + rest));
    lemma_length_round_trip(payload.len(), payload + rest);
    assert(bytes.subrange(prefix.len() as int, (prefix.len() + payload.len()) as int) == payload);
}

} // verus!
