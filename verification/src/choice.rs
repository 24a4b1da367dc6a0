use vstd::prelude::*;

verus! {

/// One binary decision a reader can make: the red option or the blue option.
#[derive(Debug, Clone, Copy, PartialEq, Eq, Structural)]
pub enum ChoiceType {
    Red,
    Blue,
}

/// The single character that encodes a decision, both inside a session's
/// path code and inside the dataset's passage keys.
pub open spec fn char_of_choice(c: ChoiceType) -> char {
    match c {
        ChoiceType::Red => 'R',
        ChoiceType::Blue => 'B',
    }
}

/// The decision a path-code character stands for, if any.
pub open spec fn choice_of_char(c: char) -> Option<ChoiceType> {
    if c == 'R' {
        Some(ChoiceType::Red)
    } else if c == 'B' {
        Some(ChoiceType::Blue)
    } else {
        None
    }
}

impl ChoiceType {
    /// The character this decision is written as in a path code.
    pub fn as_char(&self) -> (r: char)
        ensures
            r == char_of_choice(*self),
    {
        match self {
            ChoiceType::Red => 'R',
            ChoiceType::Blue => 'B',
        }
    }

    /// Decodes one path-code character; any character other than the two
    /// decision symbols decodes to nothing.
    pub fn from_char(c: char) -> (r: Option<Self>)
        ensures
            r == choice_of_char(c),
    {
        match c {
            'R' => Some(ChoiceType::Red),
            'B' => Some(ChoiceType::Blue),
            _ => None,
        }
    }
}

/// Encoding and decoding of a decision are inverse to one another: the
/// in-memory decision symbols and the characters used in dataset keys agree.
pub proof fn lemma_choice_char_round_trip(c: ChoiceType, ch: char)
    ensures
        choice_of_char(char_of_choice(c)) == Some(c),
        choice_of_char(ch) is Some ==> char_of_choice(choice_of_char(ch)->Some_0) == ch,
{
}

/// One recorded decision together with the level (0-based) at which it was made.
#[derive(Debug, Clone, Copy)]
pub struct Choice {
    pub choice_type: ChoiceType,
    pub level: usize,
}

impl Choice {
    pub fn new(choice_type: ChoiceType, level: usize) -> (r: Self)
        ensures
            r.choice_type == choice_type,
            r.level == level,
    {
        Self { choice_type, level }
    }
}

} // verus!
