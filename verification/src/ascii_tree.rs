use vstd::prelude::*;
use vstd::string::StringExecFns;
use crate::choice::{Choice, ChoiceType};
use crate::game_state::{path_code_of, GameState};
use crate::render::{digit_of, digit_str, indent_of, push_indent};

verus! {

/// The icon and label of a decision in the detailed tree.
pub open spec fn tree_icon_label(c: ChoiceType) -> Seq<char> {
    match c {
        ChoiceType::Red => "🔴 红色"@,
        ChoiceType::Blue => "🔵 蓝色"@,
    }
}

/// The detailed-tree line for the decision taken at a completed level.
pub open spec fn full_tree_row(path: Seq<ChoiceType>, level: int) -> Seq<char> {
    indent_of(level + 1) + "├─ "@ + tree_icon_label(path[level]) + " (Level "@ + digit_of(
        level + 1,
    ) + ")\n"@
}

/// The detailed-tree lines for the first `n` completed levels, in order.
pub open spec fn full_tree_rows(path: Seq<ChoiceType>, n: int) -> Seq<char>
    decreases n,
{
    if n <= 0 {
        Seq::empty()
    } else {
        full_tree_rows(path, n - 1) + full_tree_row(path, n - 1)
    }
}

/// The whole detailed tree: header and root, one line per completed level,
/// a marker for the in-progress choice or a completion block with the full
/// path code, and a closing rule.
pub open spec fn ascii_tree_of(path: Seq<ChoiceType>) -> Seq<char> {
    let head = "故事路径树:\n"@ + "════════════\n"@ + "📚 开始\n"@;
    let rows = full_tree_rows(path, path.len() as int);
    let tail = if path.len() < 6 {
        indent_of(path.len() as int + 1) + "├─ ❓ [当前选择] (Level "@ + digit_of(
            path.len() as int + 1,
        ) + ")\n"@
    } else {
        "  └─ 🎯 故事完成!\n"@ + "     完整路径: "@ + path_code_of(path) + "\n"@
    };
    head + rows + tail + "════════════\n"@
}

/// One arrow step of the compact path line.
pub open spec fn compact_step(c: ChoiceType) -> Seq<char> {
    match c {
        ChoiceType::Red => " → 🔴"@,
        ChoiceType::Blue => " → 🔵"@,
    }
}

/// The first `n` arrow steps of the compact path line, in order.
pub open spec fn compact_steps(path: Seq<ChoiceType>, n: int) -> Seq<char>
    decreases n,
{
    if n <= 0 {
        Seq::empty()
    } else {
        compact_steps(path, n - 1) + compact_step(path[n - 1])
    }
}

/// The compact path line: the root symbol, one arrow step per decision,
/// and a trailing question mark while a decision is still open.
pub open spec fn compact_tree_of(path: Seq<ChoiceType>) -> Seq<char> {
    "Path: "@ + "📚"@ + compact_steps(path, path.len() as int) + if path.len() < 6 {
        " → ❓"@
    } else {
        Seq::empty()
    }
}

/// The number of decisions of one colour in a path.
pub open spec fn count_of(path: Seq<ChoiceType>, c: ChoiceType) -> int
    decreases path.len(),
{
    if path.len() == 0 {
        0
    } else {
        count_of(path.drop_last(), c) + if path.last() == c {
            1int
        } else {
            0int
        }
    }
}

/// The progress percentage shown for a level, to one decimal place.
pub open spec fn progress_text(level: int) -> Seq<char> {
    if level <= 0 {
        "0.0"@
    } else if level == 1 {
        "16.7"@
    } else if level == 2 {
        "33.3"@
    } else if level == 3 {
        "50.0"@
    } else if level == 4 {
        "66.7"@
    } else if level == 5 {
        "83.3"@
    } else {
        "100.0"@
    }
}

/// The statistics block: level, path code, progress, per-colour decision
/// counts and completion status.
pub open spec fn statistics_of(path: Seq<ChoiceType>) -> Seq<char> {
    "游戏统计:\n"@ + "────────────\n"@ + "当前层级: "@ + digit_of(path.len() as int) + "/6\n"@
        + "选择路径: "@ + (if path.len() == 0 {
        "无"@
    } else {
        path_code_of(path)
    }) + "\n"@ + "进度: "@ + progress_text(path.len() as int) + "%\n"@ + "红色选择: "@
        + digit_of(count_of(path, ChoiceType::Red)) + "\n"@ + "蓝色选择: "@ + digit_of(
        count_of(path, ChoiceType::Blue),
    ) + "\n"@ + (if path.len() >= 6 {
        "状态: 完成 ✅\n"@
    } else {
        "状态: 进行中 ⏳\n"@
    }) + "────────────\n"@
}

/// The progress percentage for a level of at most six.
fn progress_str(level: usize) -> (r: &'static str)
    requires
        level <= 6,
    ensures
        r@ == progress_text(level as int),
{
    if level == 0 {
        "0.0"
    } else if level == 1 {
        "16.7"
    } else if level == 2 {
        "33.3"
    } else if level == 3 {
        "50.0"
    } else if level == 4 {
        "66.7"
    } else if level == 5 {
        "83.3"
    } else {
        "100.0"
    }
}

/// Counts the decisions of one colour among the recorded choices.
fn count_choices(choices: &Vec<Choice>, c: ChoiceType) -> (r: usize)
    ensures
        r == count_of(choices@.map_values(|x: Choice| x.choice_type), c),
        r <= choices@.len(),
{
    let ghost mapped = choices@.map_values(|x: Choice| x.choice_type);
    let mut r: usize = 0;
    let mut i: usize = 0;
    proof {
        assert(mapped.subrange(0, 0) =~= Seq::<ChoiceType>::empty());
    }
    while i < choices.len()
        invariant
            i <= choices@.len(),
            mapped == choices@.map_values(|x: Choice| x.choice_type),
            r == count_of(mapped.subrange(0, i as int), c),
            r <= i,
        decreases choices@.len() - i,
    {
        if choices[i].choice_type == c {
            r += 1;
        }
        proof {
            let pre = mapped.subrange(0, i as int);
            let cur = mapped.subrange(0, i + 1 as int);
            assert(cur.drop_last() =~= pre);
            assert(cur.last() == mapped[i as int]);
        }
        i += 1;
    }
    proof {
        assert(mapped.subrange(0, choices@.len() as int) =~= mapped);
    }
    r
}

/// Text renderings of a session's progress through the decision tree.
pub struct AsciiTreeGenerator;

impl AsciiTreeGenerator {
    /// Renders the detailed progress tree.
    #[verifier::rlimit(100)]
    pub fn generate_tree(game_state: &GameState) -> (r: String)
        ensures
            r@ == ascii_tree_of(game_state@),
    {
        let mut tree = String::new();
        tree.append("故事路径树:\n");
        tree.append("════════════\n");
        tree.append("📚 开始\n");
        let len = game_state.get_level();
        let choices = game_state.get_choices();
        let ghost head = "故事路径树:\n"@ + "════════════\n"@ + "📚 开始\n"@;
        let mut level: usize = 0;
        proof {
            assert(tree@ =~= head + full_tree_rows(game_state@, 0));
        }
        while level < len
            invariant
                level <= len,
                len == game_state@.len() <= 6,
                choices@.len() == game_state@.len(),
                forall|i: int|
                    0 <= i < choices@.len() ==> (#[trigger] choices@[i]).choice_type
                        == game_state@[i],
                head == "故事路径树:\n"@ + "════════════\n"@ + "📚 开始\n"@,
                tree@ == head + full_tree_rows(game_state@, level as int),
            decreases len - level,
        {
            push_indent(&mut tree, level + 1);
            tree.append("├─ ");
            match choices[level].choice_type {
                ChoiceType::Red => tree.append("🔴 红色"),
                ChoiceType::Blue => tree.append("🔵 蓝色"),
            }
            tree.append(" (Level ");
            tree.append(digit_str(level + 1));
            tree.append(")\n");
            proof {
                let p = game_state@;
                let l = level as int;
                assert(full_tree_rows(p, l + 1) == full_tree_rows(p, l) + full_tree_row(p, l));
                assert(tree@ =~= head + full_tree_rows(p, l + 1));
            }
            level += 1;
        }
        if len < 6 {
            push_indent(&mut tree, len + 1);
            tree.append("├─ ❓ [当前选择] (Level ");
            tree.append(digit_str(len + 1));
            tree.append(")\n");
        } else {
            tree.append("  └─ 🎯 故事完成!\n");
            tree.append("     完整路径: ");
            tree.append(game_state.get_path());
            tree.append("\n");
        }
        tree.append("════════════\n");
        proof {
            assert(tree@ =~= ascii_tree_of(game_state@));
        }
        tree
    }

    /// Renders the compact, single-line path.
    #[verifier::rlimit(100)]
    pub fn generate_compact_tree(game_state: &GameState) -> (r: String)
        ensures
            r@ == compact_tree_of(game_state@),
    {
        let mut tree = String::new();
        tree.append("Path: ");
        tree.append("📚");
        let len = game_state.get_level();
        let choices = game_state.get_choices();
        let mut level: usize = 0;
        proof {
            assert(tree@ =~= "Path: "@ + "📚"@ + compact_steps(game_state@, 0));
        }
        while level < len
            invariant
                level <= len,
                len == game_state@.len() <= 6,
                choices@.len() == game_state@.len(),
                forall|i: int|
                    0 <= i < choices@.len() ==> (#[trigger] choices@[i]).choice_type
                        == game_state@[i],
                tree@ == "Path: "@ + "📚"@ + compact_steps(game_state@, level as int),
            decreases len - level,
        {
            match choices[level].choice_type {
                ChoiceType::Red => tree.append(" → 🔴"),
                ChoiceType::Blue => tree.append(" → 🔵"),
            }
            proof {
                let p = game_state@;
                let l = level as int;
                assert(compact_steps(p, l + 1) == compact_steps(p, l) + compact_step(p[l]));
                assert(tree@ =~= "Path: "@ + "📚"@ + compact_steps(p, l + 1));
            }
            level += 1;
        }
        if game_state.can_make_choice() {
            tree.append(" → ❓");
        }
        proof {
            assert(tree@ =~= compact_tree_of(game_state@));
        }
        tree
    }

    /// Renders the statistics block.
    #[verifier::rlimit(100)]
    pub fn generate_statistics(game_state: &GameState) -> (r: String)
        ensures
            r@ == statistics_of(game_state@),
    {
        let mut stats = String::new();
        stats.append("游戏统计:\n");
        stats.append("────────────\n");
        stats.append("当前层级: ");
        stats.append(digit_str(game_state.get_level()));
        stats.append("/6\n");
        stats.append("选择路径: ");
        let path = game_state.get_path();
        if path.is_empty() {
            stats.append("无");
        } else {
            stats.append(path);
        }
        stats.append("\n");
        stats.append("进度: ");
        stats.append(progress_str(game_state.get_level()));
        stats.append("%\n");
        let choices = game_state.get_choices();
        proof {
            assert(choices@.map_values(|x: Choice| x.choice_type) =~= game_state@);
        }
        let red_count = count_choices(choices, ChoiceType::Red);
        let blue_count = count_choices(choices, ChoiceType::Blue);
        stats.append("红色选择: ");
        stats.append(digit_str(red_count));
        stats.append("\n");
        stats.append("蓝色选择: ");
        stats.append(digit_str(blue_count));
        stats.append("\n");
        if game_state.is_complete() {
            stats.append("状态: 完成 ✅\n");
        } else {
            stats.append("状态: 进行中 ⏳\n");
        }
        stats.append("────────────\n");
        proof {
            assert(stats@ =~= statistics_of(game_state@));
        }
        stats
    }
}

} // verus!
