use vstd::prelude::*;
use crate::text::{pop_char, push_char};

verus! {

/// Largest number of characters a chat line may hold.
pub const MAX_INPUT_LENGTH: usize = 40;

/// The buffer after typing `c`: a character past the budget is dropped.
pub open spec fn typed(buf: Seq<char>, c: char) -> Seq<char> {
    if buf.len() < MAX_INPUT_LENGTH {
        buf.push(c)
    } else {
        buf
    }
}

/// The buffer after typing every character of `cs`, in order.
pub open spec fn typed_all(buf: Seq<char>, cs: Seq<char>) -> Seq<char>
    decreases cs.len(),
{
    if cs.len() == 0 {
        buf
    } else {
        typed_all(typed(buf, cs[0]), cs.drop_first())
    }
}

/// The buffer after one backspace.
pub open spec fn erased(buf: Seq<char>) -> Seq<char> {
    if buf.len() > 0 {
        buf.drop_last()
    } else {
        buf
    }
}

/// A single-line chat buffer holding at most `MAX_INPUT_LENGTH` characters.
#[derive(Clone, Debug)]
pub struct InputEditor {
    text: String,
}

impl View for InputEditor {
    type V = Seq<char>;

    closed spec fn view(&self) -> Seq<char> {
        self.text@
    }
}

impl InputEditor {
    pub open spec fn wf(&self) -> bool {
        self@.len() <= MAX_INPUT_LENGTH
    }

    pub fn new() -> (r: InputEditor)
        ensures
            r@ == Seq::<char>::empty(),
            r.wf(),
    {
        InputEditor { text: String::new() }
    }

    /// The number of characters held.
    pub fn len(&self) -> (r: usize)
        ensures
            r == self@.len(),
    {
        self.text.as_str().unicode_len()
    }

    pub fn is_empty(&self) -> (r: bool)
        ensures
            r == (self@.len() == 0),
    {
        self.len() == 0
    }

    /// The text held.
    pub fn text(&self) -> (r: String)
        ensures
            r@ == self@,
    {
        self.text.clone()
    }

    /// Types `c`; returns whether it was kept, which it is unless the budget is spent.
    pub fn push_char(&mut self, c: char) -> (kept: bool)
        requires
            old(self).wf(),
        ensures
            final(self).wf(),
            kept == (old(self)@.len() < MAX_INPUT_LENGTH),
            final(self)@ == typed(old(self)@, c),
    {
        if self.len() < MAX_INPUT_LENGTH {
            push_char(&mut self.text, c);
            true
        } else {
            false
        }
    }

    /// Removes the last character, if any, and returns it.
    pub fn delete_char(&mut self) -> (r: Option<char>)
        requires
            old(self).wf(),
        ensures
            final(self).wf(),
            final(self)@ == erased(old(self)@),
            r == (if old(self)@.len() > 0 {
                Some(old(self)@.last())
            } else {
                None
            }),
    {
        pop_char(&mut self.text)
    }

    /// Hands out the text and leaves the buffer empty.
    pub fn take_and_clear(&mut self) -> (r: String)
        ensures
            r@ == old(self)@,
            final(self)@ == Seq::<char>::empty(),
            final(self).wf(),
    {
        let taken = self.text.clone();
        self.text = String::new();
        taken
    }

    /// Empties the buffer.
    pub fn clear(&mut self)
        ensures
            final(self)@ == Seq::<char>::empty(),
            final(self).wf(),
    {
        self.text = String::new();
    }
}

/// However many characters are typed into a buffer within the budget, the
/// buffer stays within the budget; and of a long enough run of typing exactly
/// the first `MAX_INPUT_LENGTH` characters are kept.
pub proof fn lemma_typing_respects_budget(buf: Seq<char>, cs: Seq<char>)
    requires
        buf.len() <= MAX_INPUT_LENGTH,
    ensures
        typed_all(buf, cs).len() <= MAX_INPUT_LENGTH,
        buf.len() + cs.len() <= MAX_INPUT_LENGTH ==> typed_all(buf, cs) == buf + cs,
        buf.len() + cs.len() > MAX_INPUT_LENGTH ==> typed_all(buf, cs) == buf + cs.take(
            MAX_INPUT_LENGTH - buf.len(),
        ),
    decreases cs.len(),
{
    if cs.len() > 0 {
        let next = typed(buf, cs[0]);
        lemma_typing_respects_budget(next, cs.drop_first());
        if buf.len() < MAX_INPUT_LENGTH {
            assert(buf + cs =~= next + cs.drop_first());
            if buf.len() + cs.len() > MAX_INPUT_LENGTH {
                assert(buf + cs.take(MAX_INPUT_LENGTH - buf.len()) =~= next + cs.drop_first().take(
                    MAX_INPUT_LENGTH - next.len(),
                ));
            }
        } else {
            assert(cs.take(0) =~= Seq::<char>::empty());
            assert(buf + cs.take(0) =~= buf);
            lemma_all_dropped(buf, cs.drop_first());
        }
    }
}

proof fn lemma_all_dropped(buf: Seq<char>, cs: Seq<char>)
    requires
        buf.len() == MAX_INPUT_LENGTH,
    ensures
        typed_all(buf, cs) == buf,
    decreases cs.len(),
{
    if cs.len() > 0 {
        lemma_all_dropped(buf, cs.drop_first());
    }
}

} // verus!
