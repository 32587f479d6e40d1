//! The tokenizer: one linear pass from source bytes to instructions.

use vstd::prelude::*;

verus! {

/// One instruction of the language.
#[derive(Debug, PartialEq, Eq, Clone, Copy, Structural)]
pub enum Symbol {
    /// `+`: add one to the current cell.
    ValueIncrement,
    /// `-`: subtract one from the current cell.
    ValueDecrement,
    /// `>`: move the cursor one cell forward.
    PointerIncrement,
    /// `<`: move the cursor one cell backward.
    PointerDecrement,
    /// `.`: write the current cell as a character.
    PutCharacter,
    /// `[`: start of a loop.
    ForwardJump,
    /// `]`: end of a loop.
    BackwardJump,
    /// `,`: read one byte into the current cell.
    GetCharacter,
}

/// A byte that the tokenizer refused; it carries the byte.
#[derive(Debug, PartialEq, Eq, Clone, Copy, Structural)]
pub struct UnknownSymbolError(pub u8);

/// What the tokenizer does with a byte that is no instruction.
#[derive(Debug, PartialEq, Eq, Clone, Copy, Structural)]
pub enum UnknownBytePolicy {
    /// Every such byte is a comment and is passed over.
    Skip,
    /// Only a line feed is passed over; any other such byte ends the pass
    /// with an error.
    Reject,
}

/// The line feed, the one byte that the `Reject` policy passes over.
pub const LINE_FEED: u8 = 0x0A;

/// The instruction that a byte stands for, if any.
pub open spec fn decode(byte: u8) -> Option<Symbol> {
    if byte == 0x2B {
        Some(Symbol::ValueIncrement)
    } else if byte == 0x2D {
        Some(Symbol::ValueDecrement)
    } else if byte == 0x3E {
        Some(Symbol::PointerIncrement)
    } else if byte == 0x3C {
        Some(Symbol::PointerDecrement)
    } else if byte == 0x2E {
        Some(Symbol::PutCharacter)
    } else if byte == 0x2C {
        Some(Symbol::GetCharacter)
    } else if byte == 0x5B {
        Some(Symbol::ForwardJump)
    } else if byte == 0x5D {
        Some(Symbol::BackwardJump)
    } else {
        None
    }
}

/// The byte that stands for an instruction.
pub open spec fn encode(symbol: Symbol) -> u8 {
    match symbol {
        Symbol::ValueIncrement => 0x2B,
        Symbol::ValueDecrement => 0x2D,
        Symbol::PointerIncrement => 0x3E,
        Symbol::PointerDecrement => 0x3C,
        Symbol::PutCharacter => 0x2E,
        Symbol::GetCharacter => 0x2C,
        Symbol::ForwardJump => 0x5B,
        Symbol::BackwardJump => 0x5D,
    }
}

/// Whether a byte is one of the eight instruction bytes.
pub open spec fn recognized(byte: u8) -> bool {
    decode(byte) is Some
}

/// Whether the `Reject` policy refuses a byte.
pub open spec fn rejected(byte: u8) -> bool {
    !recognized(byte) && byte != LINE_FEED
}

/// The instructions of a source: its recognized bytes, in order, each decoded.
pub open spec fn tokens(source: Seq<u8>) -> Seq<Symbol> {
    source.filter_map(|byte: u8| decode(byte))
}

/// The bytes that a sequence of instructions is written with.
pub open spec fn spelling(code: Seq<Symbol>) -> Seq<u8> {
    code.map_values(|symbol: Symbol| encode(symbol))
}

/// Whether `at` is the place of the first byte in `source` that the
/// `Reject` policy refuses.
pub open spec fn first_rejected_at(source: Seq<u8>, at: int) -> bool {
    &&& 0 <= at < source.len()
    &&& rejected(source[at])
    &&& forall|before: int| 0 <= before < at ==> !rejected(#[trigger] source[before])
}

impl Symbol {
    /// Decodes one byte.
    pub fn from_byte(byte: u8) -> (symbol: Option<Symbol>)
        ensures
            symbol == decode(byte),
    {
        if byte == 0x2B {
            Some(Symbol::ValueIncrement)
        } else if byte == 0x2D {
            Some(Symbol::ValueDecrement)
        } else if byte == 0x3E {
            Some(Symbol::PointerIncrement)
        } else if byte == 0x3C {
            Some(Symbol::PointerDecrement)
        } else if byte == 0x2E {
            Some(Symbol::PutCharacter)
        } else if byte == 0x2C {
            Some(Symbol::GetCharacter)
        } else if byte == 0x5B {
            Some(Symbol::ForwardJump)
        } else if byte == 0x5D {
            Some(Symbol::BackwardJump)
        } else {
            None
        }
    }

    /// The byte that this instruction is written as.
    pub fn to_byte(&self) -> (byte: u8)
        ensures
            byte == encode(*self),
            decode(byte) == Some(*self),
    {
        match self {
            Symbol::ValueIncrement => 0x2B,
            Symbol::ValueDecrement => 0x2D,
            Symbol::PointerIncrement => 0x3E,
            Symbol::PointerDecrement => 0x3C,
            Symbol::PutCharacter => 0x2E,
            Symbol::GetCharacter => 0x2C,
            Symbol::ForwardJump => 0x5B,
            Symbol::BackwardJump => 0x5D,
        }
    }
}

/// Tokenizes `source` under the given policy.
///
/// Under `Skip` the pass always succeeds. Under `Reject` it fails exactly
/// when the source holds a byte that is neither an instruction nor a line
/// feed, and the error carries the first such byte.
pub fn parse_with(source: &[u8], policy: UnknownBytePolicy) -> (result: Result<
    Vec<Symbol>,
    UnknownSymbolError,
>)
    ensures
        match result {
            Ok(code) => {
                &&& code@ == tokens(source@)
                &&& policy == UnknownBytePolicy::Reject ==> forall|at: int|
                    0 <= at < source@.len() ==> !rejected(#[trigger] source@[at])
            },
            Err(error) => {
                &&& policy == UnknownBytePolicy::Reject
                &&& exists|at: int|
                    first_rejected_at(source@, at) && error == UnknownSymbolError(source@[at])
            },
        },
{
    let mut code: Vec<Symbol> = Vec::new();
    let mut at: usize = 0;
    assert(source@.take(0).filter_map(|byte: u8| decode(byte)) == Seq::<Symbol>::empty());
    while at < source.len()
        invariant
            0 <= at <= source@.len(),
            code@ == tokens(source@.take(at as int)),
            policy == UnknownBytePolicy::Reject ==> forall|before: int|
                0 <= before < at ==> !rejected(#[trigger] source@[before]),
        decreases source@.len() - at,
    {
        let byte: u8 = source[at];
        proof {
            source@.lemma_filter_map_take_succ(|byte: u8| decode(byte), at as int);
        }
        match Symbol::from_byte(byte) {
            Some(symbol) => {
                code.push(symbol);
            },
            None => {
                if policy == UnknownBytePolicy::Reject && byte != LINE_FEED {
                    assert(first_rejected_at(source@, at as int));
                    return Err(UnknownSymbolError(byte));
                }
            },
        }
        at = at + 1;
    }
    assert(source@.take(at as int) == source@);
    Ok(code)
}

/// Tokenizes `source`, passing over every byte that is no instruction.
pub fn parse(source: &[u8]) -> (result: Result<Vec<Symbol>, UnknownSymbolError>)
    ensures
        result is Ok,
        result->Ok_0@ == tokens(source@),
{
    parse_with(source, UnknownBytePolicy::Skip)
}

/// Writes a sequence of instructions back as source bytes.
pub fn unparse(code: &[Symbol]) -> (source: Vec<u8>)
    ensures
        source@ == spelling(code@),
{
    let mut source: Vec<u8> = Vec::new();
    let mut at: usize = 0;
    while at < code.len()
        invariant
            0 <= at <= code@.len(),
            source@ == spelling(code@.take(at as int)),
        decreases code@.len() - at,
    {
        source.push(code[at].to_byte());
        assert(code@.take(at + 1).map_values(|symbol: Symbol| encode(symbol))
            == code@.take(at as int).map_values(|symbol: Symbol| encode(symbol)).push(
            encode(code@[at as int]),
        ));
        at = at + 1;
    }
    assert(code@.take(at as int) == code@);
    source
}

/// Decoding the byte of an instruction gives the instruction back.
pub proof fn lemma_decode_encode(symbol: Symbol)
    ensures
        decode(encode(symbol)) == Some(symbol),
{
}

/// An instruction byte is the byte of the instruction it decodes to.
pub proof fn lemma_encode_decode(byte: u8)
    requires
        recognized(byte),
    ensures
        encode(decode(byte)->Some_0) == byte,
{
}

/// Spelling out the instructions of a source gives the source with every
/// byte that is no instruction taken out.
pub proof fn lemma_round_trip(source: Seq<u8>)
    ensures
        spelling(tokens(source)) == source.filter(|byte: u8| recognized(byte)),
    decreases source.len(),
{
    reveal(Seq::filter);
    if source.len() > 0 {
        lemma_round_trip(source.drop_last());
        let byte = source.last();
        if recognized(byte) {
            lemma_encode_decode(byte);
        }
        assert(spelling(tokens(source)) =~= source.filter(|byte: u8| recognized(byte)));
    } else {
        assert(spelling(tokens(source)) =~= source.filter(|byte: u8| recognized(byte)));
    }
}

/// A source made of instruction bytes alone is spelled out unchanged by its
/// own instructions.
pub proof fn lemma_round_trip_exact(source: Seq<u8>)
    requires
        forall|at: int| 0 <= at < source.len() ==> recognized(#[trigger] source[at]),
    ensures
        spelling(tokens(source)) == source,
    decreases source.len(),
{
    if source.len() > 0 {
        let rest = source.drop_last();
        assert forall|at: int| 0 <= at < rest.len() implies recognized(#[trigger] rest[at]) by {
            assert(rest[at] == source[at]);
        }
        lemma_round_trip_exact(rest);
        assert(recognized(source[source.len() - 1]));
        lemma_encode_decode(source.last());
        assert(tokens(source) == tokens(rest).push(decode(source.last())->Some_0));
        assert(spelling(tokens(source)) =~= spelling(tokens(rest)).push(source.last()));
        assert(rest.push(source.last()) =~= source);
    } else {
        assert(spelling(tokens(source)) =~= source);
    }
}

/// Tokenizing the instructions' own spelling gives the instructions back.
pub proof fn lemma_tokens_of_spelling(code: Seq<Symbol>)
    ensures
        tokens(spelling(code)) == code,
    decreases code.len(),
{
    if code.len() > 0 {
        lemma_tokens_of_spelling(code.drop_last());
        lemma_decode_encode(code.last());
        assert(spelling(code).drop_last() =~= spelling(code.drop_last()));
        assert(tokens(spelling(code)) =~= code);
    } else {
        assert(tokens(spelling(code)) =~= code);
    }
}

/// The empty source has no instructions.
pub proof fn lemma_tokens_empty()
    ensures
        tokens(Seq::<u8>::empty()) == Seq::<Symbol>::empty(),
{
}

} // verus!
