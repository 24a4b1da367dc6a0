use vstd::prelude::*;
use vstd::string::StringExecFns;
use crate::choice::{char_of_choice, Choice, ChoiceType};

verus! {

/// Error raised when a decision is appended to a session that already holds
/// a complete, six-decision path.
#[derive(Debug, Clone, Copy, PartialEq, Eq, Structural)]
pub enum StateError {
    AlreadyComplete,
}

/// The path code of a decision sequence: one character per decision, in order.
pub open spec fn path_code_of(path: Seq<ChoiceType>) -> Seq<char> {
    path.map_values(|c: ChoiceType| char_of_choice(c))
}

/// One reader's session: the ordered decisions made so far, the derived path
/// code, and the level reached. A session holds at most six decisions.
#[derive(Debug)]
pub struct GameState {
    choice_path: String,
    current_level: usize,
    choices: Vec<Choice>,
}

impl View for GameState {
    type V = Seq<ChoiceType>;

    closed spec fn view(&self) -> Seq<ChoiceType> {
        self.choices@.map_values(|c: Choice| c.choice_type)
    }
}

impl Clone for GameState {
    /// A clone carries the same decisions as the session it was made from.
    fn clone(&self) -> (r: Self)
        ensures
            r@ == self@,
    {
        proof {
            use_type_invariant(self);
        }
        let choices = self.choices.clone();
        proof {
            assert(choices@ =~= self.choices@);
        }
        let r = GameState {
            choice_path: self.choice_path.clone(),
            current_level: self.current_level,
            choices,
        };
        proof {
            assert(r@ =~= self@);
        }
        r
    }
}

impl GameState {
    #[verifier::type_invariant]
    spec fn wf(self) -> bool {
        &&& self.current_level == self.choices@.len()
        &&& self.current_level <= 6
        &&& self.choice_path@ == path_code_of(self@)
        &&& forall|i: int|
            0 <= i < self.choices@.len() ==> (#[trigger] self.choices@[i]).level == i
    }

    /// A fresh session: no decisions made yet.
    pub fn new() -> (r: Self)
        ensures
            r@ == Seq::<ChoiceType>::empty(),
    {
        let choice_path = String::new();
        let choices: Vec<Choice> = Vec::new();
        proof {
            assert(choices@.map_values(|c: Choice| c.choice_type) =~= Seq::<ChoiceType>::empty());
            assert(choice_path@ =~= path_code_of(Seq::<ChoiceType>::empty()));
        }
        GameState { choice_path, current_level: 0, choices }
    }

    /// Appends one decision. Succeeds exactly when fewer than six decisions
    /// have been made, returning the new level; on a complete session it
    /// fails and leaves the session untouched.
    pub fn add_choice(&mut self, choice_type: ChoiceType) -> (r: Result<usize, StateError>)
        ensures
            old(self)@.len() < 6 ==> r == Ok::<usize, StateError>((old(self)@.len() + 1) as usize),
            old(self)@.len() < 6 ==> final(self)@ == old(self)@.push(choice_type),
            old(self)@.len() >= 6 ==> r == Err::<usize, StateError>(StateError::AlreadyComplete),
            old(self)@.len() >= 6 ==> *final(self) == *old(self),
    {
        proof {
            use_type_invariant(&*self);
        }
        if self.current_level >= 6 {
            return Err(StateError::AlreadyComplete);
        }
        // The type invariant is checked at every field assignment, so take
        // the session apart and rebuild it in one step.
        let mut taken = GameState::new();
        core::mem::swap(&mut taken, self);
        let GameState { mut choice_path, current_level, mut choices } = taken;
        let choice = Choice::new(choice_type, current_level);
        choices.push(choice);
        match choice_type {
            ChoiceType::Red => choice_path.append("R"),
            ChoiceType::Blue => choice_path.append("B"),
        }
        let new_level = current_level + 1;
        proof {
            reveal_strlit("R");
            reveal_strlit("B");
            let v = choices@.map_values(|c: Choice| c.choice_type);
            assert(v =~= old(self)@.push(choice_type));
            assert(choice_path@ =~= path_code_of(v));
        }
        *self = GameState { choice_path, current_level: new_level, choices };
        Ok(new_level)
    }

    /// Clears the session back to the start: no decisions, an empty path
    /// code, choosing allowed again.
    pub fn reset(&mut self)
        ensures
            final(self)@ == Seq::<ChoiceType>::empty(),
            path_code_of(final(self)@) == Seq::<char>::empty(),
    {
        *self = GameState::new();
        proof {
            assert(path_code_of(self@) =~= Seq::<char>::empty());
        }
    }

    /// A session is complete once six decisions have been made.
    pub fn is_complete(&self) -> (r: bool)
        ensures
            r == (self@.len() >= 6),
    {
        proof {
            use_type_invariant(self);
        }
        self.current_level >= 6
    }

    /// The path code: one character per decision, in the order decided.
    pub fn get_path(&self) -> (r: &str)
        ensures
            r@ == path_code_of(self@),
    {
        proof {
            use_type_invariant(self);
        }
        self.choice_path.as_str()
    }

    /// The level reached: the number of decisions made so far, never above six.
    pub fn get_level(&self) -> (r: usize)
        ensures
            r == self@.len(),
            r <= 6,
    {
        proof {
            use_type_invariant(self);
        }
        self.current_level
    }

    /// A further decision may be made exactly while the session is incomplete.
    pub fn can_make_choice(&self) -> (r: bool)
        ensures
            r == (self@.len() < 6),
    {
        proof {
            use_type_invariant(self);
        }
        self.current_level < 6
    }

    /// The recorded decisions, one per level, in the order decided.
    pub fn get_choices(&self) -> (r: &Vec<Choice>)
        ensures
            r@.len() == self@.len(),
            forall|i: int|
                0 <= i < r@.len() ==> (#[trigger] r@[i]).choice_type == self@[i] && r@[i].level
                    == i,
    {
        proof {
            use_type_invariant(self);
        }
        &self.choices
    }
}

/// The path code always holds exactly one character per decision: after any
/// sequence of appends, the code's length equals the level reached.
pub proof fn lemma_path_code_length(path: Seq<ChoiceType>)
    ensures
        path_code_of(path).len() == path.len(),
{
}

} // verus!
