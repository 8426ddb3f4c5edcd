use vstd::prelude::*;

verus! {

/// A keyboard key: a character, or a platform keycode.
#[derive(Clone, Copy, Debug, PartialEq, Eq, Structural)]
pub enum Key {
    Unicode(char),
    Other(u32),
}

/// Whether a key or button goes down, up, or both.
#[derive(Clone, Copy, Debug, PartialEq, Eq, Structural)]
pub enum Direction {
    Press,
    Release,
    Click,
}

/// A mouse button.
#[derive(Clone, Copy, Debug, PartialEq, Eq, Structural)]
pub enum Button {
    Left,
    Middle,
    Right,
    Back,
    Forward,
    ScrollUp,
    ScrollDown,
    ScrollLeft,
    ScrollRight,
}

/// How the coordinates of a mouse move are read.
#[derive(Clone, Copy, Debug, PartialEq, Eq, Structural)]
pub enum Coordinate {
    Abs,
    Rel,
}

/// The axis of a scroll.
#[derive(Clone, Copy, Debug, PartialEq, Eq, Structural)]
pub enum Axis {
    Horizontal,
    Vertical,
}

/// One simulated input action.
#[derive(Debug, PartialEq, Eq)]
pub enum Token {
    Text(String),
    Key(Key, Direction),
    Raw(u16, Direction),
    Button(Button, Direction),
    MoveMouse(i32, i32, Coordinate),
    Scroll(i32, Axis),
    /// An action kind that the interpreter does not carry out.
    Unsupported,
}

/// One step of a macro: a pause in milliseconds, or an input action.
#[derive(Debug, PartialEq, Eq)]
pub enum Instruction {
    Token(Token),
    Wait(u64),
}

/// A named, ordered sequence of instructions.
#[derive(Debug, PartialEq, Eq)]
pub struct Macro {
    pub name: String,
    pub description: String,
    pub code: Vec<Instruction>,
}

/// The value of a [`Token`], with its text as characters.
pub enum TokenView {
    Text(Seq<char>),
    Key(Key, Direction),
    Raw(u16, Direction),
    Button(Button, Direction),
    MoveMouse(i32, i32, Coordinate),
    Scroll(i32, Axis),
    Unsupported,
}

/// The value of an [`Instruction`].
pub enum InstructionView {
    Token(TokenView),
    Wait(u64),
}

/// The value of a [`Macro`].
pub struct MacroView {
    pub name: Seq<char>,
    pub description: Seq<char>,
    pub code: Seq<InstructionView>,
}

impl View for Token {
    type V = TokenView;

    open spec fn view(&self) -> TokenView {
        match self {
            Token::Text(s) => TokenView::Text(s@),
            Token::Key(k, d) => TokenView::Key(*k, *d),
            Token::Raw(c, d) => TokenView::Raw(*c, *d),
            Token::Button(b, d) => TokenView::Button(*b, *d),
            Token::MoveMouse(x, y, c) => TokenView::MoveMouse(*x, *y, *c),
            Token::Scroll(n, a) => TokenView::Scroll(*n, *a),
            Token::Unsupported => TokenView::Unsupported,
        }
    }
}

impl View for Instruction {
    type V = InstructionView;

    open spec fn view(&self) -> InstructionView {
        match self {
            Instruction::Token(t) => InstructionView::Token(t@),
            Instruction::Wait(d) => InstructionView::Wait(*d),
        }
    }
}

/// The values of a sequence of instructions.
pub open spec fn code_view(code: Seq<Instruction>) -> Seq<InstructionView> {
    code.map_values(|i: Instruction| i@)
}

impl View for Macro {
    type V = MacroView;

    open spec fn view(&self) -> MacroView {
        MacroView { name: self.name@, description: self.description@, code: code_view(self.code@) }
    }
}

/// The values of a collection of macros.
pub open spec fn collection_view(c: Seq<Macro>) -> Seq<MacroView> {
    c.map_values(|m: Macro| m@)
}

impl Token {
    /// A copy of this token.
    pub fn duplicate(&self) -> (r: Token)
        ensures
            r == *self,
    {
        match self {
            Token::Text(s) => Token::Text(s.clone()),
            Token::Key(k, d) => Token::Key(*k, *d),
            Token::Raw(c, d) => Token::Raw(*c, *d),
            Token::Button(b, d) => Token::Button(*b, *d),
            Token::MoveMouse(x, y, c) => Token::MoveMouse(*x, *y, *c),
            Token::Scroll(n, a) => Token::Scroll(*n, *a),
            Token::Unsupported => Token::Unsupported,
        }
    }
}

impl Instruction {
    /// A copy of this instruction.
    pub fn duplicate(&self) -> (r: Instruction)
        ensures
            r == *self,
    {
        match self {
            Instruction::Token(t) => Instruction::Token(t.duplicate()),
            Instruction::Wait(d) => Instruction::Wait(*d),
        }
    }
}

impl Macro {
    pub fn new(name: String, description: String, code: Vec<Instruction>) -> (r: Macro)
        ensures
            r.name == name,
            r.description == description,
            r.code == code,
    {
        Macro { name, description, code }
    }

    /// A copy of this macro, for a run that must not see later changes.
    pub fn snapshot(&self) -> (r: Macro)
        ensures
            r.name == self.name,
            r.description == self.description,
            r.code@ == self.code@,
    {
        let mut code: Vec<Instruction> = Vec::new();
        let mut i: usize = 0;
        while i < self.code.len()
            invariant
                i <= self.code@.len(),
                code@ == self.code@.subrange(0, i as int),
            decreases self.code@.len() - i,
        {
            code.push(self.code[i].duplicate());
            i = i + 1;
        }
        assert(code@ =~= self.code@);
        Macro { name: self.name.clone(), description: self.description.clone(), code }
    }
}

} // verus!
