//! The code accumulator: the digits typed since the last Enter.

use vstd::prelude::*;
use crate::keys::{get_char, is_digit_char, is_digit_code, spec_digit_of, InputEvent, KEY_ENTER};

verus! {

/// Whether every character of `s` is a digit.
pub open spec fn all_digits(s: Seq<char>) -> bool {
    forall|i: int| 0 <= i < s.len() ==> is_digit_char(#[trigger] s[i])
}

/// Whether the event is a press of the Enter key, which completes a code.
pub open spec fn is_terminator(ev: InputEvent) -> bool {
    ev.spec_is_key_press() && ev.code == KEY_ENTER
}

/// The digit that the event appends to the buffer, if any.
pub open spec fn typed_digit(ev: InputEvent) -> Option<char> {
    if ev.spec_is_key_press() {
        spec_digit_of(ev.code)
    } else {
        None
    }
}

/// The buffer after one event.
pub open spec fn next_buffer(buf: Seq<char>, ev: InputEvent) -> Seq<char> {
    if is_terminator(ev) {
        Seq::empty()
    } else {
        match typed_digit(ev) {
            Some(c) => buf.push(c),
            None => buf,
        }
    }
}

/// The code handed on by one event: the whole buffer, on a terminator.
pub open spec fn completed_code(buf: Seq<char>, ev: InputEvent) -> Option<Seq<char>> {
    if is_terminator(ev) {
        Some(buf)
    } else {
        None
    }
}

/// The buffer after a sequence of events, taken in order.
pub open spec fn buffer_after(buf: Seq<char>, evs: Seq<InputEvent>) -> Seq<char>
    decreases evs.len(),
{
    if evs.len() == 0 {
        buf
    } else {
        next_buffer(buffer_after(buf, evs.drop_last()), evs.last())
    }
}

/// The digits that a sequence of digit key presses types, in order.
pub open spec fn digits_typed(evs: Seq<InputEvent>) -> Seq<char>
    decreases evs.len(),
{
    if evs.len() == 0 {
        Seq::empty()
    } else {
        match spec_digit_of(evs.last().code) {
            Some(c) => digits_typed(evs.drop_last()).push(c),
            None => digits_typed(evs.drop_last()),
        }
    }
}

/// The digits typed since the last terminator.
///
/// The buffer never holds anything but the characters `0` to `9`, and it
/// has no bound on its length.
pub struct CodeBuffer {
    digits: Vec<char>,
}

impl View for CodeBuffer {
    type V = Seq<char>;

    closed spec fn view(&self) -> Seq<char> {
        self.digits@
    }
}

impl CodeBuffer {
    /// The buffer holds digits only.
    pub open spec fn wf(&self) -> bool {
        all_digits(self@)
    }

    /// An empty buffer.
    pub fn new() -> (r: CodeBuffer)
        ensures
            r.wf(),
            r@ == Seq::<char>::empty(),
    {
        CodeBuffer { digits: Vec::new() }
    }

    pub fn len(&self) -> (r: usize)
        ensures
            r == self@.len(),
    {
        self.digits.len()
    }

    pub fn is_empty(&self) -> (r: bool)
        ensures
            r == (self@.len() == 0),
    {
        self.digits.len() == 0
    }

    /// Appends one digit at the end.
    pub fn append(&mut self, c: char)
        requires
            old(self).wf(),
            is_digit_char(c),
        ensures
            final(self).wf(),
            final(self)@ == old(self)@.push(c),
    {
        self.digits.push(c);
    }

    /// The digits held, as a string, leaving the buffer empty.
    ///
    /// A string of digits has no whitespace about it, so the result is also
    /// the trimmed content.
    pub fn snapshot_and_clear(&mut self) -> (r: String)
        requires
            old(self).wf(),
        ensures
            r@ == old(self)@,
            all_digits(r@),
            final(self).wf(),
            final(self)@ == Seq::<char>::empty(),
    {
        let r = collect_string(&self.digits);
        self.digits.clear();
        r
    }

    /// Applies one raw event: a press of Enter hands on the code and clears
    /// the buffer, a press of a digit key appends its digit, and every other
    /// event (other keys, releases, repeats, events of other types) is
    /// ignored.
    pub fn handle_key(&mut self, ev: InputEvent) -> (r: Option<String>)
        requires
            old(self).wf(),
        ensures
            final(self).wf(),
            final(self)@ == next_buffer(old(self)@, ev),
            r matches Some(code) ==> completed_code(old(self)@, ev) == Some(code@),
            r is None ==> completed_code(old(self)@, ev) is None,
    {
        if !ev.is_key_press() {
            return None;
        }
        if ev.code == KEY_ENTER {
            return Some(self.snapshot_and_clear());
        }
        match get_char(ev.code) {
            Some(c) => {
                self.append(c);
                None
            },
            None => None,
        }
    }
}

/// Relies on `FromIterator<char>` for `String`: the string holds the
/// characters in the order given.
#[verifier::external_body]
fn collect_string(chars: &Vec<char>) -> (r: String)
    ensures
        r@ == chars@,
{
    chars.iter().collect()
}

/// Digits typed before a terminator are handed on exactly, in order and
/// with repeats kept: from an empty buffer, a run of digit key presses
/// leaves the digits it typed in the buffer, and Enter then hands on that
/// code and leaves the buffer empty.
pub proof fn lemma_digits_then_enter(evs: Seq<InputEvent>, enter: InputEvent)
    requires
        forall|i: int| 0 <= i < evs.len() ==> (#[trigger] evs[i]).spec_is_key_press(),
        forall|i: int| 0 <= i < evs.len() ==> is_digit_code((#[trigger] evs[i]).code),
        is_terminator(enter),
    ensures
        buffer_after(Seq::empty(), evs) == digits_typed(evs),
        digits_typed(evs).len() == evs.len(),
        forall|i: int|
            0 <= i < evs.len() ==> spec_digit_of((#[trigger] evs[i]).code) == Some(
                digits_typed(evs)[i],
            ),
        completed_code(buffer_after(Seq::empty(), evs), enter) == Some(digits_typed(evs)),
        next_buffer(buffer_after(Seq::empty(), evs), enter) == Seq::<char>::empty(),
    decreases evs.len(),
{
    if evs.len() > 0 {
        let init = evs.drop_last();
        assert forall|i: int| 0 <= i < init.len() implies (#[trigger] init[i]).spec_is_key_press()
            && is_digit_code(init[i].code) by {
            assert(init[i] == evs[i]);
        }
        lemma_digits_then_enter(init, enter);
        let last = evs.last();
        assert(evs[evs.len() - 1] == last);
        assert(last.code != KEY_ENTER);
        assert forall|i: int|
            0 <= i < evs.len() implies spec_digit_of((#[trigger] evs[i]).code) == Some(
            digits_typed(evs)[i],
        ) by {
            if i < evs.len() - 1 {
                assert(init[i] == evs[i]);
            }
        }
    }
}

/// A press of any key that is neither a digit nor Enter leaves the buffer as
/// it was and hands on no code.
pub proof fn lemma_other_keys_ignored(buf: Seq<char>, ev: InputEvent)
    requires
        ev.spec_is_key_press(),
        !is_digit_code(ev.code),
        ev.code != KEY_ENTER,
    ensures
        next_buffer(buf, ev) == buf,
        completed_code(buf, ev) is None,
{
}

/// Events that are not key presses (releases, repeats, events of other
/// types) leave the buffer as it was and hand on no code, whatever the key.
pub proof fn lemma_non_presses_ignored(buf: Seq<char>, ev: InputEvent)
    requires
        !ev.spec_is_key_press(),
    ensures
        next_buffer(buf, ev) == buf,
        completed_code(buf, ev) is None,
{
}

/// After any terminator the buffer is empty, and the code handed on is the
/// buffer as it stood, whether or not the catalog knows it.
pub proof fn lemma_terminator_clears(buf: Seq<char>, ev: InputEvent)
    requires
        is_terminator(ev),
    ensures
        next_buffer(buf, ev) == Seq::<char>::empty(),
        completed_code(buf, ev) == Some(buf),
{
}

} // verus!
