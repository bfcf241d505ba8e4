//! The framer as mathematics: its state, one step, and runs over whole inputs.
//!
//! The framer works on bytes. A `{` and a `}` are one byte each in UTF-8 and
//! occur in no other character's bytes, so counting them byte by byte is
//! counting them in the text.

use crate::json::json_from_str;
use crate::strings::utf8_text;
use serde_json::{Error, Value};
use vstd::prelude::*;
use vstd::utf8::{
    char_is_scalar, encode_scalar, encode_utf8, encode_utf8_decode_utf8, encode_utf8_valid_utf8,
    has_width_1_encoding,
};

verus! {

/// The byte `{`.
pub const OPEN: u8 = 0x7b;

/// The byte `}`.
pub const CLOSE: u8 = 0x7d;

/// The state between two bytes: the bytes collected for the frame in
/// progress and the number of braces that are still open.
pub struct FramerState {
    pub bytes: Seq<u8>,
    pub depth: int,
}

/// What one step reports.
pub enum Outcome {
    Pending,
    Message(Value),
    Error(Seq<char>),
}

/// The state with nothing collected and no brace open.
pub open spec fn at_rest() -> FramerState {
    FramerState { bytes: Seq::empty(), depth: 0 }
}

/// The report for a frame whose braces have just balanced: the decoded value,
/// or else the text that did not decode.
pub open spec fn resolved(decoded: Result<Value, Error>, raw: Seq<char>) -> Outcome {
    match decoded {
        Ok(value) => Outcome::Message(value),
        Err(_) => Outcome::Error(raw),
    }
}

/// The report for the bytes of a frame whose braces have just balanced: the
/// bytes are read as UTF-8 text, and the text is decoded.
pub open spec fn frame_report(bytes: Seq<u8>) -> Outcome {
    resolved(json_from_str(utf8_text(bytes)), utf8_text(bytes))
}

/// How a step moves the brace depth.
pub open spec fn delta(opens: bool, closes: bool) -> int {
    if opens {
        1
    } else if closes {
        -1
    } else {
        0
    }
}

/// True when a step drops what it is given without collecting it: the
/// framer is resynchronising, or it is between frames and is not given a
/// `{`.
pub open spec fn skips(s: FramerState, opens: bool) -> bool {
    s.depth < 0 || (s.depth == 0 && !opens)
}

/// The state after a step that is given the bytes `added`, which are a `{`
/// (`opens`), a `}` (`closes`) or neither.
pub open spec fn advanced(
    s: FramerState,
    opens: bool,
    closes: bool,
    added: Seq<u8>,
) -> FramerState {
    if skips(s, opens) || s.depth + delta(opens, closes) == 0 {
        at_rest()
    } else {
        FramerState { bytes: s.bytes + added, depth: s.depth + delta(opens, closes) }
    }
}

/// The report of that step.
pub open spec fn announced(s: FramerState, opens: bool, closes: bool, added: Seq<u8>) -> Outcome {
    if !skips(s, opens) && s.depth + delta(opens, closes) == 0 {
        frame_report(s.bytes + added)
    } else {
        Outcome::Pending
    }
}

/// True when a step would open a brace that a depth counter of 32 bits has
/// no room for. The framer in memory takes no such step.
pub open spec fn overfull(s: FramerState, opens: bool) -> bool {
    opens && s.depth >= i32::MAX
}

/// The state after the byte `b`.
pub open spec fn next_state(s: FramerState, b: u8) -> FramerState {
    advanced(s, b == OPEN, b == CLOSE, seq![b])
}

/// The report for the byte `b`.
pub open spec fn outcome(s: FramerState, b: u8) -> Outcome {
    announced(s, b == OPEN, b == CLOSE, seq![b])
}

/// The state after the character `c`, which is collected as its UTF-8 bytes.
pub open spec fn next_state_char(s: FramerState, c: char) -> FramerState {
    advanced(s, c == '{', c == '}', encode_utf8(seq![c]))
}

/// The report for the character `c`.
pub open spec fn outcome_char(s: FramerState, c: char) -> Outcome {
    announced(s, c == '{', c == '}', encode_utf8(seq![c]))
}

/// The state after every byte of `input`, taken in order.
pub open spec fn run(s: FramerState, input: Seq<u8>) -> FramerState
    decreases input.len(),
{
    if input.len() == 0 {
        s
    } else {
        next_state(run(s, input.drop_last()), input.last())
    }
}

/// The reports for the bytes of `input`, one for each, in order.
pub open spec fn reports(s: FramerState, input: Seq<u8>) -> Seq<Outcome>
    decreases input.len(),
{
    if input.len() == 0 {
        Seq::empty()
    } else {
        reports(s, input.drop_last()).push(outcome(run(s, input.drop_last()), input.last()))
    }
}

/// Opening braces minus closing braces in `bytes`.
pub open spec fn balance(bytes: Seq<u8>) -> int
    decreases bytes.len(),
{
    if bytes.len() == 0 {
        0
    } else {
        balance(bytes.drop_last()) + delta(bytes.last() == OPEN, bytes.last() == CLOSE)
    }
}

/// One frame as the framer sees it: the bytes start with `{`, their braces
/// balance at the last byte, and at no byte before.
pub open spec fn is_frame(bytes: Seq<u8>) -> bool {
    &&& bytes.len() > 0
    &&& bytes[0] == OPEN
    &&& balance(bytes) == 0
    &&& forall|k: int| 0 < k < bytes.len() ==> balance(#[trigger] bytes.take(k)) > 0
}

/// A state that a step can leave behind: the depth is not negative, and
/// with no brace open nothing is collected.
pub open spec fn settled(s: FramerState) -> bool {
    s.depth >= 0 && (s.depth == 0 ==> s == at_rest())
}

/// `n` closing braces.
pub open spec fn closers(n: int) -> Seq<u8> {
    Seq::new(n as nat, |i: int| CLOSE)
}

/// `n` reports of `Pending`.
pub open spec fn all_pending(n: int) -> Seq<Outcome> {
    Seq::new(n as nat, |i: int| Outcome::Pending)
}

/// Every step leaves a settled state, whatever state it started from: a
/// negative depth does not outlive the next step, and a depth of zero never
/// stands with bytes collected.
pub proof fn lemma_step_settles(s: FramerState, opens: bool, closes: bool, added: Seq<u8>)
    ensures
        settled(advanced(s, opens, closes, added)),
{
}

/// Every run leaves a settled state, from a settled state or after at
/// least one byte.
pub proof fn lemma_run_settles(s: FramerState, input: Seq<u8>)
    requires
        settled(s) || input.len() > 0,
    ensures
        settled(run(s, input)),
{
    if input.len() > 0 {
        let b = input.last();
        lemma_step_settles(run(s, input.drop_last()), b == OPEN, b == CLOSE, seq![b]);
    }
}

/// A run over `first + second` is the run over `first` followed by the run
/// over `second`, and reports the same.
pub proof fn lemma_run_concat(s: FramerState, first: Seq<u8>, second: Seq<u8>)
    ensures
        run(s, first + second) == run(run(s, first), second),
        reports(s, first + second) == reports(s, first) + reports(run(s, first), second),
    decreases second.len(),
{
    if second.len() == 0 {
        assert(first + second =~= first);
        assert(reports(s, first) + reports(run(s, first), second) =~= reports(s, first));
    } else {
        lemma_run_concat(s, first, second.drop_last());
        assert((first + second).drop_last() =~= first + second.drop_last());
        assert((first + second).last() == second.last());
        assert(reports(s, first + second) =~= reports(s, first) + reports(
            run(s, first),
            second,
        ));
    }
}

/// Inside a frame that started at rest, the framer holds exactly the bytes
/// so far and has reported nothing but `Pending`.
proof fn lemma_frame_prefix(frame: Seq<u8>, k: int)
    requires
        is_frame(frame),
        0 < k < frame.len(),
    ensures
        run(at_rest(), frame.take(k)) == (FramerState {
            bytes: frame.take(k),
            depth: balance(frame.take(k)),
        }),
        balance(frame.take(k)) > 0,
        reports(at_rest(), frame.take(k)) == all_pending(k),
    decreases k,
{
    let prefix = frame.take(k);
    let before = frame.take(k - 1);
    assert(prefix.drop_last() =~= before);
    assert(prefix.last() == frame[k - 1]);
    assert(before + seq![frame[k - 1]] =~= prefix);
    if k == 1 {
        assert(before =~= Seq::<u8>::empty());
        assert(balance(before) == 0);
        assert(run(at_rest(), before) == at_rest());
        assert(reports(at_rest(), before) =~= all_pending(0));
        assert(Seq::<u8>::empty() + seq![frame[0]] =~= prefix);
        assert(reports(at_rest(), prefix) =~= all_pending(k));
    } else {
        lemma_frame_prefix(frame, k - 1);
        assert(reports(at_rest(), prefix) =~= all_pending(k));
    }
}

/// A frame that starts at rest is reported once, at its last byte, as the
/// decoder's verdict on the text that its bytes stand for; every byte
/// before that reports `Pending`, and the framer is at rest again
/// afterwards.
pub proof fn lemma_frame_is_delivered(frame: Seq<u8>)
    requires
        is_frame(frame),
    ensures
        run(at_rest(), frame) == at_rest(),
        reports(at_rest(), frame) == all_pending(frame.len() - 1).push(frame_report(frame)),
{
    let n = frame.len() as int;
    assert(n >= 2) by {
        // A lone `{` does not balance.
        if n == 1 {
            assert(frame.drop_last() =~= Seq::<u8>::empty());
            assert(balance(frame.drop_last()) == 0);
        }
    }
    lemma_frame_prefix(frame, n - 1);
    assert(frame.drop_last() =~= frame.take(n - 1));
    assert(frame.take(n - 1) + seq![frame.last()] =~= frame);
}

/// A text whose UTF-8 bytes are a frame comes back as the decoder's
/// verdict on exactly that text, whatever characters it holds: it is
/// reported once, at its last byte, and every byte before that reports
/// `Pending`.
pub proof fn lemma_text_is_delivered(text: Seq<char>)
    requires
        is_frame(encode_utf8(text)),
    ensures
        run(at_rest(), encode_utf8(text)) == at_rest(),
        reports(at_rest(), encode_utf8(text)) == all_pending(encode_utf8(text).len() - 1).push(
            resolved(json_from_str(text), text),
        ),
{
    encode_utf8_valid_utf8(text);
    encode_utf8_decode_utf8(text);
    lemma_frame_is_delivered(encode_utf8(text));
}

/// Bytes that are no braces are taken as one step that is given all of
/// them, and report `Pending` throughout.
proof fn lemma_plain_bytes(s: FramerState, added: Seq<u8>)
    requires
        added.len() > 0,
        forall|i: int| 0 <= i < added.len() ==> added[i] != OPEN && added[i] != CLOSE,
    ensures
        run(s, added) == advanced(s, false, false, added),
        reports(s, added) == all_pending(added.len() as int),
    decreases added.len(),
{
    let front = added.drop_last();
    assert(front + seq![added.last()] =~= added);
    if added.len() == 1 {
        assert(front =~= Seq::<u8>::empty());
        assert(run(s, front) == s);
        assert(reports(s, front) =~= all_pending(0));
        assert(seq![added.last()] =~= added);
    } else {
        lemma_plain_bytes(s, front);
        assert((s.bytes + front) + seq![added.last()] =~= s.bytes + added);
    }
    assert(reports(s, added) =~= all_pending(added.len() as int));
}

/// The bytes of a character that is not ASCII are all above the ASCII
/// range, so none of them is a brace.
proof fn lemma_wide_scalar_has_no_brace(scalar: u32)
    requires
        0x80 <= scalar <= 0x10ffff,
    ensures
        encode_scalar(scalar).len() > 0,
        forall|i: int|
            0 <= i < encode_scalar(scalar).len() ==> #[trigger] encode_scalar(scalar)[i] >= 0x80,
{
    let b1 = ((scalar >> 6) & 0x1F) as u8;
    let b2 = ((scalar >> 12) & 0x0F) as u8;
    let b3 = ((scalar >> 18) & 0x7) as u8;
    let c1 = (scalar & 0x3F) as u8;
    let c2 = ((scalar >> 6) & 0x3F) as u8;
    let c3 = ((scalar >> 12) & 0x3F) as u8;
    assert(0xC0u8 | b1 >= 0x80) by (bit_vector);
    assert(0xE0u8 | b2 >= 0x80) by (bit_vector);
    assert(0xF0u8 | b3 >= 0x80) by (bit_vector);
    assert(0x80u8 | c1 >= 0x80) by (bit_vector);
    assert(0x80u8 | c2 >= 0x80) by (bit_vector);
    assert(0x80u8 | c3 >= 0x80) by (bit_vector);
}

/// A character steps the framer as its UTF-8 bytes do, taken one after the
/// other: they lead to the same state, the last of them reports what the
/// character reports, and the bytes before it report `Pending`.
pub proof fn lemma_char_is_its_bytes(s: FramerState, c: char)
    ensures
        encode_utf8(seq![c]).len() > 0,
        run(s, encode_utf8(seq![c])) == next_state_char(s, c),
        reports(s, encode_utf8(seq![c])) == all_pending(encode_utf8(seq![c]).len() - 1).push(
            outcome_char(s, c),
        ),
{
    let scalar = c as u32;
    let bytes = encode_utf8(seq![c]);
    char_is_scalar(c);
    assert(seq![c].drop_first() =~= Seq::<char>::empty());
    assert(encode_utf8(Seq::<char>::empty()) =~= Seq::<u8>::empty());
    assert(bytes =~= encode_scalar(scalar));
    if has_width_1_encoding(scalar) {
        let b = (scalar & 0x7F) as u8;
        assert(b as u32 == scalar) by (bit_vector)
            requires
                scalar <= 0x7F,
                b == (scalar & 0x7F) as u8,
        ;
        assert(bytes =~= seq![b]);
        assert(bytes.drop_last() =~= Seq::<u8>::empty());
        assert(run(s, bytes.drop_last()) == s);
        assert(reports(s, bytes.drop_last()) =~= all_pending(0));
        assert((b == OPEN) == (c == '{'));
        assert((b == CLOSE) == (c == '}'));
    } else {
        lemma_wide_scalar_has_no_brace(scalar);
        lemma_plain_bytes(s, bytes);
        assert(all_pending(bytes.len() as int) =~= all_pending(bytes.len() - 1).push(
            Outcome::Pending,
        ));
    }
}

/// Between frames, bytes other than `{` are dropped: the framer stays at
/// rest and reports `Pending` for each.
pub proof fn lemma_stray_bytes_are_dropped(noise: Seq<u8>)
    requires
        forall|i: int| 0 <= i < noise.len() ==> noise[i] != OPEN,
    ensures
        run(at_rest(), noise) == at_rest(),
        reports(at_rest(), noise) == all_pending(noise.len() as int),
    decreases noise.len(),
{
    if noise.len() > 0 {
        lemma_stray_bytes_are_dropped(noise.drop_last());
    }
    assert(reports(at_rest(), noise) =~= all_pending(noise.len() as int));
}

/// After `j` of the closing braces that a settled state still needs, the
/// remaining depth has gone down by `j`.
proof fn lemma_closers_prefix(s: FramerState, j: int)
    requires
        settled(s),
        0 <= j < s.depth,
    ensures
        run(s, closers(j)) == (FramerState { bytes: s.bytes + closers(j), depth: s.depth - j }),
    decreases j,
{
    if j == 0 {
        assert(s.bytes + closers(0) =~= s.bytes);
    } else {
        lemma_closers_prefix(s, j - 1);
        assert(closers(j).drop_last() =~= closers(j - 1));
        assert((s.bytes + closers(j - 1)) + seq![CLOSE] =~= s.bytes + closers(j));
    }
}

/// From a settled state, as many closing braces as are open bring the
/// framer to rest.
pub proof fn lemma_closers_bring_rest(s: FramerState)
    requires
        settled(s),
    ensures
        run(s, closers(s.depth)) == at_rest(),
{
    if s.depth > 0 {
        lemma_closers_prefix(s, s.depth - 1);
        assert(closers(s.depth).drop_last() =~= closers(s.depth - 1));
    }
}

/// The framer heals itself. Whatever was fed to it, from a settled state
/// or from any state at all if at least one byte was fed, no input can
/// leave the depth negative; closing the braces that are then open brings
/// the framer to rest; and the frame that follows is reported at its last
/// byte as the decoder's verdict on its text, with `Pending` for each of
/// its bytes before.
pub proof fn lemma_self_healing(s: FramerState, noise: Seq<u8>, frame: Seq<u8>)
    requires
        settled(s) || noise.len() > 0,
        is_frame(frame),
    ensures
        run(s, noise).depth >= 0,
        run(run(s, noise), closers(run(s, noise).depth)) == at_rest(),
        run(run(s, noise), closers(run(s, noise).depth) + frame) == at_rest(),
        reports(run(s, noise), closers(run(s, noise).depth) + frame) == reports(
            run(s, noise),
            closers(run(s, noise).depth),
        ) + all_pending(frame.len() - 1).push(frame_report(frame)),
{
    let mid = run(s, noise);
    let close = closers(mid.depth);
    lemma_run_settles(s, noise);
    lemma_closers_bring_rest(mid);
    lemma_run_concat(mid, close, frame);
    lemma_frame_is_delivered(frame);
}

} // verus!
