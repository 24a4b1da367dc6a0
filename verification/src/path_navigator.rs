use vstd::prelude::*;
use vstd::string::StringExecFns;
use crate::choice::ChoiceType;
use crate::game_state::{path_code_of, GameState};
use crate::render::{digit_of, digit_str, indent_of, push_indent};
use crate::story::{
    prompt_for_level, story_for_code, ChoiceData, StoryContent, StoryData, StoryDataView,
};

verus! {

/// The prompt the reader faces next: the one stored for the current level
/// while the session is incomplete, nothing once it is complete.
pub open spec fn current_prompt(d: StoryDataView, path: Seq<ChoiceType>) -> Option<ChoiceData> {
    if path.len() < 6 {
        prompt_for_level(d, path.len() as int)
    } else {
        None
    }
}

/// The ending reached after a complete path. It does not depend on the
/// decisions taken: every full path converges to the dataset's one
/// terminal passage.
pub open spec fn ending_for_path(d: StoryDataView, path: Seq<ChoiceType>) -> StoryContent {
    d.ending
}

/// All sixty-four complete paths converge: any two full six-decision paths
/// reach the same ending.
pub proof fn lemma_terminal_convergence(
    d: StoryDataView,
    p1: Seq<ChoiceType>,
    p2: Seq<ChoiceType>,
)
    requires
        p1.len() == 6,
        p2.len() == 6,
    ensures
        ending_for_path(d, p1) == ending_for_path(d, p2),
{
}

/// The human label of a decision in the progress tree.
pub open spec fn tree_label(c: ChoiceType) -> Seq<char> {
    match c {
        ChoiceType::Red => "红色"@,
        ChoiceType::Blue => "蓝色"@,
    }
}

/// The tree line recording the decision taken at a completed level.
pub open spec fn vis_row(path: Seq<ChoiceType>, level: int) -> Seq<char> {
    indent_of(level) + "├─ Level "@ + digit_of(level + 1) + ": "@ + tree_label(path[level])
        + "\n"@
}

/// The tree lines for the first `n` completed levels, in order.
pub open spec fn vis_rows(path: Seq<ChoiceType>, n: int) -> Seq<char>
    decreases n,
{
    if n <= 0 {
        Seq::empty()
    } else {
        vis_rows(path, n - 1) + vis_row(path, n - 1)
    }
}

/// The whole progress tree: a header, one line per completed level, then
/// either a marker for the in-progress choice or, once complete, a trailing
/// line with the full path code.
pub open spec fn tree_visualization(path: Seq<ChoiceType>) -> Seq<char> {
    let head = "故事路径树:\n"@ + vis_rows(path, path.len() as int);
    if path.len() < 6 {
        head + indent_of(path.len() as int) + "├─ Level "@ + digit_of(path.len() as int + 1)
            + ": [当前选择]\n"@
    } else {
        head + indent_of(path.len() as int) + "└─ 完整路径: "@ + path_code_of(path) + "\n"@
    }
}

/// Stateless resolution of content from a dataset and a session: the
/// passage and prompt for the current path, the terminal passage, and a
/// textual tree of the progress made so far.
pub struct PathNavigator<'a> {
    story_data: &'a StoryData,
}

impl<'a> PathNavigator<'a> {
    /// The dataset this navigator resolves content from.
    pub closed spec fn dataset(self) -> StoryDataView {
        self.story_data@
    }

    pub fn new(story_data: &'a StoryData) -> (r: Self)
        ensures
            r.dataset() == story_data@,
    {
        Self { story_data }
    }

    /// The passage for the session's current path: the start passage before
    /// any decision, the stored passage for the path code afterwards, or
    /// nothing for a dataset gap.
    pub fn get_current_story(&self, game_state: &GameState) -> (r: Option<&StoryContent>)
        ensures
            match r {
                Some(c) => story_for_code(self.dataset(), path_code_of(game_state@)) == Some(*c),
                None => story_for_code(self.dataset(), path_code_of(game_state@)) is None,
            },
    {
        let path = game_state.get_path();
        self.story_data.get_story_by_path(path)
    }

    /// The prompt the reader faces next, nothing once the session is
    /// complete. A gap at a reachable level also yields nothing and must be
    /// surfaced by the host.
    pub fn get_current_choice(&self, game_state: &GameState) -> (r: Option<&ChoiceData>)
        ensures
            match r {
                Some(c) => current_prompt(self.dataset(), game_state@) == Some(*c),
                None => current_prompt(self.dataset(), game_state@) is None,
            },
    {
        if game_state.can_make_choice() {
            self.story_data.get_choice_by_level(game_state.get_level())
        } else {
            None
        }
    }

    /// The terminal passage: the same one for every complete path.
    pub fn get_final_story(&self) -> (r: &StoryContent)
        ensures
            *r == self.dataset().ending,
            forall|path: Seq<ChoiceType>| *r == #[trigger] ending_for_path(self.dataset(), path),
    {
        self.story_data.get_final_story()
    }

    /// Renders the progress tree for a session.
    #[verifier::rlimit(100)]
    pub fn generate_tree_visualization(&self, game_state: &GameState) -> (r: String)
        ensures
            r@ == tree_visualization(game_state@),
    {
        let mut tree = String::new();
        tree.append("故事路径树:\n");
        let level_count = game_state.get_level();
        let choices = game_state.get_choices();
        let mut level: usize = 0;
        proof {
            assert(tree@ =~= "故事路径树:\n"@ + vis_rows(game_state@, 0));
        }
        while level < level_count
            invariant
                level <= level_count,
                level_count == game_state@.len() <= 6,
                choices@.len() == game_state@.len(),
                forall|i: int|
                    0 <= i < choices@.len() ==> (#[trigger] choices@[i]).choice_type
                        == game_state@[i],
                tree@ == "故事路径树:\n"@ + vis_rows(game_state@, level as int),
            decreases level_count - level,
        {
            push_indent(&mut tree, level);
            tree.append("├─ Level ");
            tree.append(digit_str(level + 1));
            tree.append(": ");
            match choices[level].choice_type {
                ChoiceType::Red => tree.append("红色"),
                ChoiceType::Blue => tree.append("蓝色"),
            }
            tree.append("\n");
            proof {
                let p = game_state@;
                let l = level as int;
                assert(vis_rows(p, l + 1) == vis_rows(p, l) + vis_row(p, l));
                assert(tree@ =~= "故事路径树:\n"@ + vis_rows(p, l + 1));
            }
            level += 1;
        }
        if level_count < 6 {
            push_indent(&mut tree, level_count);
            tree.append("├─ Level ");
            tree.append(digit_str(level_count + 1));
            tree.append(": [当前选择]\n");
        } else {
            push_indent(&mut tree, level_count);
            tree.append("└─ 完整路径: ");
            tree.append(game_state.get_path());
            tree.append("\n");
        }
        proof {
            assert(tree@ =~= tree_visualization(game_state@));
        }
        tree
    }
}

} // verus!
