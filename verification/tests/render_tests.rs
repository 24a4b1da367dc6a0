use std::time::Duration;
use story_paths::AsciiTreeGenerator;
use story_paths::ChoiceType;
use story_paths::GameState;
use story_paths::PathNavigator;
use story_paths::StoryContent;
use story_paths::StoryData;
use story_paths::TextStreamer;

fn state_of(choices: &[ChoiceType]) -> GameState {
    let mut game_state = GameState::new();
    for c in choices {
        let _ = game_state.add_choice(*c);
    }
    game_state
}

fn empty_dataset() -> StoryData {
    StoryData::new(
        StoryContent { title: "s".to_string(), story: "s".to_string() },
        StoryContent { title: "e".to_string(), story: "e".to_string() },
    )
}

#[test]
fn test_tree_visualization_empty() {
    let story_data = empty_dataset();
    let navigator = PathNavigator::new(&story_data);
    let game_state = state_of(&[]);
    assert_eq!(
        navigator.generate_tree_visualization(&game_state),
        "故事路径树:\n├─ Level 1: [当前选择]\n"
    );
}

#[test]
fn test_tree_visualization_partial() {
    let story_data = empty_dataset();
    let navigator = PathNavigator::new(&story_data);
    let game_state = state_of(&[ChoiceType::Red, ChoiceType::Blue]);
    assert_eq!(
        navigator.generate_tree_visualization(&game_state),
        "故事路径树:\n├─ Level 1: 红色\n  ├─ Level 2: 蓝色\n    ├─ Level 3: [当前选择]\n"
    );
}

#[test]
fn test_tree_visualization_complete() {
    let story_data = empty_dataset();
    let navigator = PathNavigator::new(&story_data);
    let game_state = state_of(&[ChoiceType::Red; 6]);
    assert_eq!(
        navigator.generate_tree_visualization(&game_state),
        "故事路径树:\n├─ Level 1: 红色\n  ├─ Level 2: 红色\n    ├─ Level 3: 红色\n      ├─ Level 4: 红色\n        ├─ Level 5: 红色\n          ├─ Level 6: 红色\n            └─ 完整路径: RRRRRR\n"
    );
}

#[test]
fn test_ascii_tree_start() {
    let game_state = state_of(&[ChoiceType::Blue]);
    assert_eq!(
        AsciiTreeGenerator::generate_tree(&game_state),
        "故事路径树:\n════════════\n📚 开始\n  ├─ 🔵 蓝色 (Level 1)\n    ├─ ❓ [当前选择] (Level 2)\n════════════\n"
    );
}

#[test]
fn test_ascii_tree_complete() {
    let game_state = state_of(&[
        ChoiceType::Red,
        ChoiceType::Blue,
        ChoiceType::Red,
        ChoiceType::Blue,
        ChoiceType::Red,
        ChoiceType::Blue,
    ]);
    assert_eq!(
        AsciiTreeGenerator::generate_tree(&game_state),
        "故事路径树:\n════════════\n📚 开始\n  ├─ 🔴 红色 (Level 1)\n    ├─ 🔵 蓝色 (Level 2)\n      ├─ 🔴 红色 (Level 3)\n        ├─ 🔵 蓝色 (Level 4)\n          ├─ 🔴 红色 (Level 5)\n            ├─ 🔵 蓝色 (Level 6)\n  └─ 🎯 故事完成!\n     完整路径: RBRBRB\n════════════\n"
    );
}

#[test]
fn test_compact_tree() {
    assert_eq!(AsciiTreeGenerator::generate_compact_tree(&state_of(&[])), "Path: 📚 → ❓");
    assert_eq!(
        AsciiTreeGenerator::generate_compact_tree(&state_of(&[ChoiceType::Red, ChoiceType::Blue])),
        "Path: 📚 → 🔴 → 🔵 → ❓"
    );
    assert_eq!(
        AsciiTreeGenerator::generate_compact_tree(&state_of(&[ChoiceType::Blue; 6])),
        "Path: 📚 → 🔵 → 🔵 → 🔵 → 🔵 → 🔵 → 🔵"
    );
}

#[test]
fn test_statistics_empty() {
    assert_eq!(
        AsciiTreeGenerator::generate_statistics(&state_of(&[])),
        "游戏统计:\n────────────\n当前层级: 0/6\n选择路径: 无\n进度: 0.0%\n红色选择: 0\n蓝色选择: 0\n状态: 进行中 ⏳\n────────────\n"
    );
}

#[test]
fn test_statistics_partial() {
    assert_eq!(
        AsciiTreeGenerator::generate_statistics(&state_of(&[ChoiceType::Red])),
        "游戏统计:\n────────────\n当前层级: 1/6\n选择路径: R\n进度: 16.7%\n红色选择: 1\n蓝色选择: 0\n状态: 进行中 ⏳\n────────────\n"
    );
}

#[test]
fn test_statistics_complete() {
    let game_state = state_of(&[
        ChoiceType::Red,
        ChoiceType::Blue,
        ChoiceType::Red,
        ChoiceType::Red,
        ChoiceType::Blue,
        ChoiceType::Blue,
    ]);
    assert_eq!(
        AsciiTreeGenerator::generate_statistics(&game_state),
        "游戏统计:\n────────────\n当前层级: 6/6\n选择路径: RBRRBB\n进度: 100.0%\n红色选择: 3\n蓝色选择: 3\n状态: 完成 ✅\n────────────\n"
    );
}

#[test]
fn test_smart_chunks_breaks_at_pauses() {
    let streamer = TextStreamer::default();
    assert_eq!(streamer.smart_chunks("你好，世界。再见"), vec!["你好，", "世界。", "再见"]);
    assert_eq!(streamer.smart_chunks(""), Vec::<String>::new());
    assert_eq!(streamer.smart_chunks("plain text"), vec!["plain text"]);
    assert_eq!(streamer.smart_chunks("a\nb"), vec!["a\n", "b"]);
    assert_eq!(streamer.smart_chunks("。。"), vec!["。", "。"]);
}

#[test]
fn test_streamer_delay() {
    assert_eq!(TextStreamer::default().get_delay(), Duration::from_millis(50));
    assert_eq!(TextStreamer::new(120).get_delay(), Duration::from_millis(120));
}
