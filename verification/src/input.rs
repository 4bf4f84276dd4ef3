//! The line that is being typed.

use vstd::prelude::*;

verus! {

/// The characters typed since the last commit, and the cursor's offset among them.
pub struct InputBuffer {
    chars: Vec<char>,
    offset: usize,
}

/// What an `InputBuffer` holds, as mathematical values.
pub struct InputView {
    pub chars: Seq<char>,
    pub offset: nat,
}

impl InputView {
    /// The cursor stands inside the line or at its end.
    pub open spec fn wf(self) -> bool {
        self.offset <= self.chars.len()
    }

    /// The empty line.
    pub open spec fn empty() -> InputView {
        InputView { chars: Seq::empty(), offset: 0 }
    }

    /// A line is a command when its first character is a slash.
    pub open spec fn command_mode(self) -> bool {
        self.chars.len() > 0 && self.chars[0] == '/'
    }

    /// The line after `c` was typed.
    pub open spec fn push(self, c: char) -> InputView {
        InputView { chars: self.chars.push(c), offset: self.offset + 1 }
    }

    /// The line after a backspace: unchanged where the cursor is at offset 0.
    pub open spec fn pop(self) -> InputView {
        if self.offset == 0 {
            self
        } else {
            InputView { chars: self.chars.drop_last(), offset: (self.offset - 1) as nat }
        }
    }
}

/// A backspace on an empty line changes nothing: the line stays empty and the cursor stays
/// at offset 0.
pub proof fn lemma_pop_on_empty(input: InputView)
    requires
        input.wf(),
        input.chars.len() == 0,
    ensures
        input.pop() == input,
        input.pop().chars.len() == 0,
        input.pop().offset == 0,
{
}

impl View for InputBuffer {
    type V = InputView;

    closed spec fn view(&self) -> InputView {
        InputView { chars: self.chars@, offset: self.offset as nat }
    }
}

impl InputBuffer {
    /// An empty line.
    pub fn new() -> (b: InputBuffer)
        ensures
            b@ == InputView::empty(),
            b@.wf(),
    {
        InputBuffer { chars: Vec::new(), offset: 0 }
    }

    /// Appends `c` and moves the cursor one place on.
    pub fn push(&mut self, c: char)
        requires
            old(self)@.wf(),
        ensures
            final(self)@ == old(self)@.push(c),
            final(self)@.wf(),
    {
        self.chars.push(c);
        let len: usize = self.chars.len();
        assert(self.offset < len);
        self.offset = self.offset + 1;
    }

    /// Removes the last character and moves the cursor one place back. With the cursor at
    /// offset 0 nothing changes.
    pub fn pop(&mut self)
        requires
            old(self)@.wf(),
        ensures
            final(self)@ == old(self)@.pop(),
            final(self)@.wf(),
    {
        if self.offset >= 1 {
            self.offset = self.offset - 1;
            self.chars.pop();
            assert(self.chars@ =~= old(self).chars@.drop_last());
        }
    }

    /// The characters of the line, as a text.
    pub fn current_line(&self) -> (line: String)
        ensures
            line@ == self@.chars,
    {
        let n: usize = self.chars.len();
        let mut line = String::new();
        let mut i: usize = 0;
        while i < n
            invariant
                n == self.chars@.len(),
                i <= n,
                line@ == self.chars@.take(i as int),
            decreases n - i,
        {
            line.push(self.chars[i]);
            i = i + 1;
        }
        assert(self.chars@.take(n as int) =~= self.chars@);
        line
    }

    /// Empties the line and puts the cursor at offset 0.
    pub fn clear(&mut self)
        ensures
            final(self)@ == InputView::empty(),
            final(self)@.wf(),
    {
        self.offset = 0;
        self.chars.clear();
    }

    /// Whether the line is a command: its first character is a slash.
    pub fn command_mode(&self) -> (r: bool)
        ensures
            r == self@.command_mode(),
    {
        self.chars.len() > 0 && self.chars[0] == '/'
    }

    /// The number of characters in the line.
    pub fn len(&self) -> (n: usize)
        ensures
            n == self@.chars.len(),
    {
        self.chars.len()
    }

    /// The cursor's offset in the line.
    pub fn offset(&self) -> (n: usize)
        ensures
            n == self@.offset,
    {
        self.offset
    }
}

} // verus!
