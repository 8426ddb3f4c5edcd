use vstd::prelude::*;
use crate::instruction::{
    Axis, Coordinate, Direction, Instruction, InstructionView, Key, Macro, MacroView, Token,
    TokenView, code_view, collection_view,
};

verus! {

/// Why a macro could not be resolved from the collection.
#[derive(Clone, Copy, Debug, PartialEq, Eq, Structural)]
pub enum StoreError {
    /// The persisted collection is missing or cannot be read.
    StoreRead,
    /// The requested position is not below the collection's length.
    IndexOutOfRange,
}

/// What startup does with what it read from the store.
#[derive(Debug, PartialEq, Eq)]
pub enum Startup {
    /// The store held a collection: use it, write nothing.
    Loaded(Vec<Macro>),
    /// The store held none: write this default collection, then read again.
    Seed(Vec<Macro>),
}

/// A press of the key for `c`, then its release.
pub open spec fn key_tap(c: char) -> Seq<InstructionView> {
    seq![
        InstructionView::Token(TokenView::Key(Key::Unicode(c), Direction::Press)),
        InstructionView::Token(TokenView::Key(Key::Unicode(c), Direction::Release)),
    ]
}

/// The default collection written when the store holds none.
pub open spec fn seed_view() -> Seq<MacroView> {
    seq![
        MacroView {
            name: "macro"@,
            description: "description"@,
            code: seq![
                InstructionView::Wait(1000),
                InstructionView::Token(TokenView::MoveMouse(100, 100, Coordinate::Rel)),
            ] + key_tap('a') + key_tap('a') + seq![InstructionView::Wait(1000)] + key_tap('b')
                + seq![
                InstructionView::Token(TokenView::Text("Skibidi toilet ohio rizz"@)),
                InstructionView::Wait(500),
                InstructionView::Token(TokenView::Scroll(4, Axis::Vertical)),
            ],
        },
        MacroView {
            name: "macro2"@,
            description: "description"@,
            code: seq![
                InstructionView::Wait(1000),
                InstructionView::Token(
                    TokenView::Text("NJOPFPDSFSODPFJODSIFJOPSDPFJ THIS IS FROM A MACRO"@),
                ),
                InstructionView::Wait(500),
                InstructionView::Token(TokenView::Scroll(4, Axis::Vertical)),
            ],
        },
        MacroView {
            name: "skibidi"@,
            description: "awesome macro"@,
            code: seq![
                InstructionView::Wait(1000),
                InstructionView::Token(
                    TokenView::Text("Skibidi Skibidi Skibidi Skibidi Skibidi Skibidi Skibidi"@),
                ),
            ],
        },
    ]
}

fn text(s: &str) -> (r: Instruction)
    ensures
        r@ == InstructionView::Token(TokenView::Text(s@)),
{
    Instruction::Token(Token::Text(s.to_owned()))
}

fn key(c: char, d: Direction) -> (r: Instruction)
    ensures
        r@ == InstructionView::Token(TokenView::Key(Key::Unicode(c), d)),
{
    Instruction::Token(Token::Key(Key::Unicode(c), d))
}

fn scroll_down() -> (r: Instruction)
    ensures
        r@ == InstructionView::Token(TokenView::Scroll(4, Axis::Vertical)),
{
    Instruction::Token(Token::Scroll(4, Axis::Vertical))
}

/// The default collection of three macros.
pub fn seed_collection() -> (r: Vec<Macro>)
    ensures
        collection_view(r@) == seed_view(),
        r@.len() == 3,
{
    let first = vec![
        Instruction::Wait(1000),
        Instruction::Token(Token::MoveMouse(100, 100, Coordinate::Rel)),
        key('a', Direction::Press),
        key('a', Direction::Release),
        key('a', Direction::Press),
        key('a', Direction::Release),
        Instruction::Wait(1000),
        key('b', Direction::Press),
        key('b', Direction::Release),
        text("Skibidi toilet ohio rizz"),
        Instruction::Wait(500),
        scroll_down(),
    ];
    assert(code_view(first@) =~= seed_view()[0].code);
    let second = vec![
        Instruction::Wait(1000),
        text("NJOPFPDSFSODPFJODSIFJOPSDPFJ THIS IS FROM A MACRO"),
        Instruction::Wait(500),
        scroll_down(),
    ];
    assert(code_view(second@) =~= seed_view()[1].code);
    let third = vec![
        Instruction::Wait(1000),
        text("Skibidi Skibidi Skibidi Skibidi Skibidi Skibidi Skibidi"),
    ];
    assert(code_view(third@) =~= seed_view()[2].code);
    let r = vec![
        Macro::new("macro".to_owned(), "description".to_owned(), first),
        Macro::new("macro2".to_owned(), "description".to_owned(), second),
        Macro::new("skibidi".to_owned(), "awesome macro".to_owned(), third),
    ];
    assert(collection_view(r@) =~= seed_view());
    r
}


/// The collection that startup settles on, and whether it writes the default one.
pub open spec fn startup_outcome(read: Option<Seq<MacroView>>) -> (Seq<MacroView>, bool) {
    match read {
        Some(c) => (c, false),
        None => (seed_view(), true),
    }
}

impl Startup {
    /// The collection held, as values, and whether it is to be written.
    pub open spec fn outcome(&self) -> (Seq<MacroView>, bool) {
        match self {
            Startup::Loaded(c) => (collection_view(c@), false),
            Startup::Seed(c) => (collection_view(c@), true),
        }
    }
}

/// Decides startup from what the store gave back: the collection it held, or
/// `None` where it held none or what it held could not be read.
pub fn load_or_seed(read: Option<Vec<Macro>>) -> (r: Startup)
    ensures
        r.outcome() == startup_outcome(
            match read {
                Some(c) => Some(collection_view(c@)),
                None => None,
            },
        ),
        read is Some ==> r == Startup::Loaded(read->0),
{
    match read {
        Some(c) => Startup::Loaded(c),
        None => Startup::Seed(seed_collection()),
    }
}

/// Startup leaves a collection that the store already holds as it is; where the
/// store holds none, it writes the default one, and a second startup then
/// finds exactly that one and writes nothing.
pub proof fn lemma_seeding_idempotent(read: Option<Seq<MacroView>>)
    ensures
        read is Some ==> startup_outcome(read) == (read->0, false),
        read is None ==> startup_outcome(read) == (seed_view(), true),
        startup_outcome(Some(startup_outcome(read).0)) == (startup_outcome(read).0, false),
{
}

/// The names of the macros, in collection order.
pub fn names(collection: &Vec<Macro>) -> (r: Vec<String>)
    ensures
        r@ == collection@.map_values(|m: Macro| m.name),
{
    let mut r: Vec<String> = Vec::new();
    let mut i: usize = 0;
    while i < collection.len()
        invariant
            i <= collection@.len(),
            r@ == collection@.subrange(0, i as int).map_values(|m: Macro| m.name),
        decreases collection@.len() - i,
    {
        r.push(collection[i].name.clone());
        i = i + 1;
        assert(collection@.subrange(0, i as int).map_values(|m: Macro| m.name) =~= r@);
    }
    assert(collection@.subrange(0, i as int) =~= collection@);
    r
}

/// A copy of the macro at `index`, or `IndexOutOfRange` past the end.
pub fn get(collection: &Vec<Macro>, index: usize) -> (r: Result<Macro, StoreError>)
    ensures
        index < collection@.len() <==> r is Ok,
        r is Err ==> r->Err_0 == StoreError::IndexOutOfRange,
        r is Ok ==> r->Ok_0@ == collection@[index as int]@,
{
    if index < collection.len() {
        Ok(collection[index].snapshot())
    } else {
        Err(StoreError::IndexOutOfRange)
    }
}

/// What a worker runs: the macro at `index` of a fresh read of the store, or
/// why there is none (`read` is `None` where the read failed).
pub fn resolve(read: Option<Vec<Macro>>, index: usize) -> (r: Result<Macro, StoreError>)
    ensures
        read is None ==> r == Err::<Macro, StoreError>(StoreError::StoreRead),
        read is Some && index >= read->0@.len() ==> r == Err::<Macro, StoreError>(
            StoreError::IndexOutOfRange,
        ),
        read is Some && index < read->0@.len() ==> r is Ok && r->Ok_0@ == read->0@[index as int]@,
{
    match read {
        None => Err(StoreError::StoreRead),
        Some(c) => get(&c, index),
    }
}

} // verus!
