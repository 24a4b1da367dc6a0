use vstd::prelude::*;
use vstd::string::StrSliceExecFns;
use std::collections::HashMap;
use crate::choice::{choice_of_char, ChoiceType};

verus! {

broadcast use vstd::std_specs::hash::group_hash_axioms;

/// A titled block of narrative text, tied to a path code or to the start or
/// terminal state of the story.
#[derive(Debug, Clone)]
pub struct StoryContent {
    pub title: String,
    pub story: String,
}

/// The prompt shown before a decision: a titled narrative and the labels of
/// the red and the blue options.
#[derive(Debug, Clone)]
pub struct ChoiceData {
    pub title: String,
    pub story: String,
    pub red: String,
    pub blue: String,
}

/// The binary digit a decision contributes to a dataset key.
pub open spec fn key_bit(c: ChoiceType) -> nat {
    match c {
        ChoiceType::Red => 0,
        ChoiceType::Blue => 1,
    }
}

/// The dataset key of a decision sequence: its decisions read as binary
/// digits below a leading one-bit. Distinct sequences get distinct keys.
pub open spec fn path_key_of(path: Seq<ChoiceType>) -> nat
    decreases path.len(),
{
    if path.len() == 0 {
        1
    } else {
        2 * path_key_of(path.drop_last()) + key_bit(path.last())
    }
}

spec fn exp2(n: nat) -> nat
    decreases n,
{
    if n == 0 {
        1
    } else {
        2 * exp2((n - 1) as nat)
    }
}

proof fn lemma_exp2_mono(a: nat, b: nat)
    requires
        a <= b,
    ensures
        exp2(a) <= exp2(b),
    decreases b,
{
    if a < b {
        lemma_exp2_mono(a, (b - 1) as nat);
    }
}

proof fn lemma_path_key_bound(p: Seq<ChoiceType>)
    ensures
        exp2(p.len()) <= path_key_of(p) < exp2(p.len() + 1),
    decreases p.len(),
{
    if p.len() > 0 {
        lemma_path_key_bound(p.drop_last());
    }
}

/// Path keys never collide: two decision sequences with the same dataset key
/// are the same sequence. The dataset can therefore never hand back a
/// passage stored under a different path.
pub proof fn lemma_path_key_injective(p1: Seq<ChoiceType>, p2: Seq<ChoiceType>)
    requires
        path_key_of(p1) == path_key_of(p2),
    ensures
        p1 == p2,
    decreases p1.len(),
{
    lemma_path_key_bound(p1);
    lemma_path_key_bound(p2);
    if p1.len() == 0 && p2.len() == 0 {
        assert(p1 =~= p2);
    } else if p1.len() == 0 || p2.len() == 0 {
        assert(exp2(1) == 2);
        assert(false);
    } else {
        let a = p1.drop_last();
        let b = p2.drop_last();
        lemma_path_key_bound(a);
        lemma_path_key_bound(b);
        assert(key_bit(p1.last()) <= 1 && key_bit(p2.last()) <= 1);
        assert(key_bit(p1.last()) == key_bit(p2.last()));
        lemma_path_key_injective(a, b);
        assert(p1.last() == p2.last());
        assert forall|i: int| 0 <= i < p1.len() implies p1[i] == p2[i] by {
            if i < p1.len() - 1 {
                assert(p1[i] == a[i]);
                assert(p2[i] == b[i]);
            }
        }
        assert(p1 =~= p2);
    }
}

/// The decision sequence a path-code string stands for: one decision per
/// character, or nothing if any character is not a decision symbol.
pub open spec fn decisions_of_code(code: Seq<char>) -> Option<Seq<ChoiceType>>
    decreases code.len(),
{
    if code.len() == 0 {
        Some(Seq::empty())
    } else {
        match decisions_of_code(code.drop_last()) {
            Some(p) => match choice_of_char(code.last()) {
                Some(c) => Some(p.push(c)),
                None => None,
            },
            None => None,
        }
    }
}

/// A path code decodes exactly when each of its characters is a decision
/// symbol, and then to one decision per character.
pub proof fn lemma_decisions_of_code(code: Seq<char>)
    ensures
        (decisions_of_code(code) is Some) <==> (forall|i: int|
            0 <= i < code.len() ==> (#[trigger] choice_of_char(code[i])) is Some),
        decisions_of_code(code) is Some ==> (decisions_of_code(code)->Some_0).len() == code.len(),
    decreases code.len(),
{
    if code.len() > 0 {
        let pre = code.drop_last();
        lemma_decisions_of_code(pre);
        if decisions_of_code(code) is Some {
            assert forall|i: int| 0 <= i < code.len() implies (#[trigger] choice_of_char(
                code[i],
            )) is Some by {
                if i < code.len() - 1 {
                    assert(choice_of_char(pre[i]) is Some);
                } else {
                    assert(code[i] == code.last());
                }
            }
        } else {
            if decisions_of_code(pre) is None {
                let i = choose|i: int|
                    0 <= i < pre.len() && !((#[trigger] choice_of_char(pre[i])) is Some);
                assert(!(choice_of_char(code[i]) is Some));
            } else {
                assert(!(choice_of_char(code[code.len() - 1]) is Some));
            }
        }
    }
}

/// A well-formed passage key holds between one and five decisions: the empty
/// path is served by the start passage and a complete path by the terminal
/// passage, so neither is ever stored.
pub open spec fn valid_passage_path(p: Seq<ChoiceType>) -> bool {
    1 <= p.len() <= 5
}

/// The decision sequence a dataset key string stands for, when it is a
/// well-formed passage key.
pub open spec fn passage_key_of_code(code: Seq<char>) -> Option<Seq<ChoiceType>> {
    match decisions_of_code(code) {
        Some(p) => if valid_passage_path(p) {
            Some(p)
        } else {
            None
        },
        None => None,
    }
}

/// The mathematical content of a dataset: the passages keyed by the decision
/// sequence that reaches them, the prompts keyed by level, and the two
/// singleton passages.
pub struct StoryDataView {
    pub passages: Map<Seq<ChoiceType>, StoryContent>,
    pub prompts: Map<int, ChoiceData>,
    pub start: StoryContent,
    pub ending: StoryContent,
}

/// The static dataset the game resolves content from, loaded once and then
/// only read: story passages keyed by path prefix, choice prompts keyed by
/// level, and the start and terminal passages.
#[derive(Debug, Clone)]
pub struct StoryData {
    fm_choice: HashMap<u64, ChoiceData>,
    fm_story: HashMap<u64, StoryContent>,
    fm_start: StoryContent,
    fm_noend: StoryContent,
}

impl View for StoryData {
    type V = StoryDataView;

    closed spec fn view(&self) -> StoryDataView {
        StoryDataView {
            passages: Map::new(
                |p: Seq<ChoiceType>|
                    valid_passage_path(p) && self.fm_story@.contains_key(
                        path_key_of(p) as u64,
                    ),
                |p: Seq<ChoiceType>| self.fm_story@[path_key_of(p) as u64],
            ),
            prompts: Map::new(
                |l: int| 0 <= l <= 5 && self.fm_choice@.contains_key(l as u64),
                |l: int| self.fm_choice@[l as u64],
            ),
            start: self.fm_start,
            ending: self.fm_noend,
        }
    }
}

/// The passage a path code resolves to: the start passage for the empty
/// code, the stored passage for a stored key, nothing for a gap or for a
/// code that is no decision sequence.
pub open spec fn story_for_code(d: StoryDataView, code: Seq<char>) -> Option<StoryContent> {
    if code.len() == 0 {
        Some(d.start)
    } else {
        match decisions_of_code(code) {
            Some(p) => if d.passages.contains_key(p) {
                Some(d.passages[p])
            } else {
                None
            },
            None => None,
        }
    }
}

/// The prompt a level resolves to, if the dataset holds one.
pub open spec fn prompt_for_level(d: StoryDataView, level: int) -> Option<ChoiceData> {
    if d.prompts.contains_key(level) {
        Some(d.prompts[level])
    } else {
        None
    }
}

/// Decodes a path-code string into decisions, one per character.
fn decode_code(code: &str) -> (r: Option<Vec<ChoiceType>>)
    ensures
        match r {
            Some(v) => decisions_of_code(code@) == Some(v@),
            None => decisions_of_code(code@) is None,
        },
{
    let n = code.unicode_len();
    let mut v: Vec<ChoiceType> = Vec::new();
    let mut i: usize = 0;
    proof {
        assert(code@.subrange(0, 0) =~= Seq::<char>::empty());
    }
    while i < n
        invariant
            i <= n,
            n == code@.len(),
            decisions_of_code(code@.subrange(0, i as int)) == Some(v@),
        decreases n - i,
    {
        let c = code.get_char(i);
        match ChoiceType::from_char(c) {
            Some(ct) => {
                v.push(ct);
                proof {
                    let pre = code@.subrange(0, i as int);
                    let cur = code@.subrange(0, i + 1 as int);
                    assert(cur.drop_last() =~= pre);
                    assert(cur.last() == code@[i as int]);
                }
            },
            None => {
                proof {
                    lemma_decisions_of_code(code@);
                }
                return None;
            },
        }
        i += 1;
    }
    proof {
        assert(code@.subrange(0, n as int) =~= code@);
    }
    Some(v)
}

/// Computes the dataset key of a decision sequence.
fn key_of_path(p: &Vec<ChoiceType>) -> (k: u64)
    requires
        p@.len() <= 6,
    ensures
        k == path_key_of(p@),
        k < 128,
{
    let mut k: u64 = 1;
    let mut i: usize = 0;
    proof {
        assert(p@.subrange(0, 0) =~= Seq::<ChoiceType>::empty());
    }
    while i < p.len()
        invariant
            i <= p@.len() <= 6,
            k == path_key_of(p@.subrange(0, i as int)),
            k < 128,
        decreases p@.len() - i,
    {
        let b: u64 = match p[i] {
            ChoiceType::Red => 0,
            ChoiceType::Blue => 1,
        };
        k = 2 * k + b;
        proof {
            let pre = p@.subrange(0, i as int);
            let cur = p@.subrange(0, i + 1 as int);
            assert(cur.drop_last() =~= pre);
            assert(cur.last() == p@[i as int]);
            lemma_path_key_bound(cur);
            lemma_exp2_mono(cur.len() + 1, 7);
            reveal_with_fuel(exp2, 8);
            assert(exp2(7) == 128);
        }
        i += 1;
    }
    proof {
        assert(p@.subrange(0, p@.len() as int) =~= p@);
    }
    k
}

impl StoryData {
    /// An empty dataset holding only the two singleton passages.
    pub fn new(fm_start: StoryContent, fm_noend: StoryContent) -> (r: Self)
        ensures
            r@.start == fm_start,
            r@.ending == fm_noend,
            r@.passages == Map::<Seq<ChoiceType>, StoryContent>::empty(),
            r@.prompts == Map::<int, ChoiceData>::empty(),
    {
        let r = StoryData {
            fm_choice: HashMap::new(),
            fm_story: HashMap::new(),
            fm_start,
            fm_noend,
        };
        proof {
            assert(r@.passages =~= Map::<Seq<ChoiceType>, StoryContent>::empty());
            assert(r@.prompts =~= Map::<int, ChoiceData>::empty());
        }
        r
    }

    /// Stores the passage for a path prefix. Succeeds exactly when the code
    /// is a well-formed passage key (one to five decision characters);
    /// anything else leaves the dataset untouched.
    pub fn insert_story(&mut self, path: &str, content: StoryContent) -> (r: bool)
        ensures
            passage_key_of_code(path@) is Some ==> {
                &&& r == true
                &&& final(self)@.passages == old(self)@.passages.insert(
                    passage_key_of_code(path@)->Some_0,
                    content,
                )
                &&& final(self)@.prompts == old(self)@.prompts
                &&& final(self)@.start == old(self)@.start
                &&& final(self)@.ending == old(self)@.ending
            },
            passage_key_of_code(path@) is None ==> r == false && *final(self) == *old(self),
    {
        match decode_code(path) {
            None => false,
            Some(v) => {
                if v.len() < 1 || v.len() > 5 {
                    return false;
                }
                let k = key_of_path(&v);
                let ghost p = v@;
                let ghost olddata = *self;
                self.fm_story.insert(k, content);
                proof {
                    assert forall|q: Seq<ChoiceType>|
                        #[trigger] self@.passages.contains_key(q)
                            <==> olddata@.passages.insert(p, content).contains_key(q) by {
                        if valid_passage_path(q) {
                            lemma_path_key_bound(q);
                            lemma_exp2_mono(q.len() + 1, 7);
                            reveal_with_fuel(exp2, 8);
                            if path_key_of(q) == path_key_of(p) {
                                lemma_path_key_injective(q, p);
                            }
                        }
                    }
                    assert forall|q: Seq<ChoiceType>| #[trigger] self@.passages.contains_key(q)
                        implies self@.passages[q] == olddata@.passages.insert(p, content)[q] by {
                        lemma_path_key_bound(q);
                        lemma_exp2_mono(q.len() + 1, 7);
                        reveal_with_fuel(exp2, 8);
                        if path_key_of(q) == path_key_of(p) {
                            lemma_path_key_injective(q, p);
                        }
                    }
                    assert(self@.passages =~= olddata@.passages.insert(p, content));
                    assert(self@.prompts =~= olddata@.prompts);
                }
                true
            },
        }
    }

    /// Stores the choice prompt for a level. Succeeds exactly for the six
    /// reachable levels; any other level leaves the dataset untouched.
    pub fn insert_choice(&mut self, level: usize, prompt: ChoiceData) -> (r: bool)
        ensures
            level <= 5 ==> {
                &&& r == true
                &&& final(self)@.prompts == old(self)@.prompts.insert(level as int, prompt)
                &&& final(self)@.passages == old(self)@.passages
                &&& final(self)@.start == old(self)@.start
                &&& final(self)@.ending == old(self)@.ending
            },
            level > 5 ==> r == false && *final(self) == *old(self),
    {
        if level > 5 {
            return false;
        }
        let ghost olddata = *self;
        self.fm_choice.insert(level as u64, prompt);
        proof {
            assert(self@.prompts =~= olddata@.prompts.insert(level as int, prompt));
            assert(self@.passages =~= olddata@.passages);
        }
        true
    }

    /// Resolves a path code to its passage: the start passage for the empty
    /// code, the stored entry for its key, or nothing for a dataset gap.
    pub fn get_story_by_path(&self, path: &str) -> (r: Option<&StoryContent>)
        ensures
            match r {
                Some(c) => story_for_code(self@, path@) == Some(*c),
                None => story_for_code(self@, path@) is None,
            },
    {
        if path.is_empty() {
            return Some(&self.fm_start);
        }
        match decode_code(path) {
            None => None,
            Some(v) => {
                if v.len() < 1 || v.len() > 5 {
                    proof {
                        lemma_decisions_of_code(path@);
                    }
                    return None;
                }
                let k = key_of_path(&v);
                let r = self.fm_story.get(&k);
                proof {
                    lemma_path_key_bound(v@);
                    lemma_exp2_mono(v@.len() + 1, 7);
                    reveal_with_fuel(exp2, 8);
                }
                r
            },
        }
    }

    /// Resolves a level to its choice prompt, or nothing for a dataset gap.
    pub fn get_choice_by_level(&self, level: usize) -> (r: Option<&ChoiceData>)
        ensures
            match r {
                Some(c) => prompt_for_level(self@, level as int) == Some(*c),
                None => prompt_for_level(self@, level as int) is None,
            },
    {
        if level > 5 {
            return None;
        }
        self.fm_choice.get(&(level as u64))
    }

    /// The terminal passage, shown when a path reaches six decisions —
    /// the same one whatever the path was.
    pub fn get_final_story(&self) -> (r: &StoryContent)
        ensures
            *r == self@.ending,
    {
        &self.fm_noend
    }

    /// A dataset is whole only if every reachable level holds a prompt;
    /// a missing one is a data-integrity error the host must surface.
    pub fn has_all_choice_levels(&self) -> (r: bool)
        ensures
            r == forall|l: int| 0 <= l <= 5 ==> #[trigger] self@.prompts.contains_key(l),
    {
        let mut l: usize = 0;
        while l < 6
            invariant
                l <= 6,
                forall|j: int| 0 <= j < l ==> #[trigger] self@.prompts.contains_key(j),
            decreases 6 - l,
        {
            if !self.fm_choice.contains_key(&(l as u64)) {
                proof {
                    assert(!self@.prompts.contains_key(l as int));
                }
                return false;
            }
            l += 1;
        }
        true
    }
}

} // verus!
