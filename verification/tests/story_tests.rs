use story_paths::ChoiceData;
use story_paths::ChoiceType;
use story_paths::GameState;
use story_paths::PathNavigator;
use story_paths::StoryContent;
use story_paths::StoryData;

fn content(title: &str, story: &str) -> StoryContent {
    StoryContent { title: title.to_string(), story: story.to_string() }
}

fn prompt(title: &str, story: &str, red: &str, blue: &str) -> ChoiceData {
    ChoiceData {
        title: title.to_string(),
        story: story.to_string(),
        red: red.to_string(),
        blue: blue.to_string(),
    }
}

#[test]
fn test_story_navigation() {
    // Mock story data for testing
    let mut story_data = StoryData::new(content("开始", "故事开始"), content("结束", "故事结束"));

    // Add test story
    assert!(story_data.insert_story("R", content("红色路径", "选择了红色")));

    let navigator = PathNavigator::new(&story_data);
    let mut game_state = GameState::new();

    // Test initial state
    let initial_story = navigator.get_current_story(&game_state);
    assert!(initial_story.is_some());
    assert_eq!(initial_story.unwrap().title, "开始");

    // Test after making a choice
    let _ = game_state.add_choice(ChoiceType::Red);
    let after_choice = navigator.get_current_story(&game_state);
    assert!(after_choice.is_some());
    assert_eq!(after_choice.unwrap().title, "红色路径");
}

#[test]
fn test_choice_validation() {
    let red_choice = ChoiceType::Red;
    let blue_choice = ChoiceType::Blue;

    assert_eq!(red_choice.as_char(), 'R');
    assert_eq!(blue_choice.as_char(), 'B');

    assert_eq!(ChoiceType::from_char('R'), Some(ChoiceType::Red));
    assert_eq!(ChoiceType::from_char('B'), Some(ChoiceType::Blue));
    assert_eq!(ChoiceType::from_char('X'), None);
}

#[test]
fn test_prompt_follows_level() {
    let mut story_data = StoryData::new(content("start", "s"), content("end", "e"));
    assert!(story_data.insert_choice(0, prompt("first", "p0", "go left", "go right")));
    assert!(story_data.insert_choice(1, prompt("second", "p1", "up", "down")));

    let navigator = PathNavigator::new(&story_data);
    let mut game_state = GameState::new();

    let first = navigator.get_current_choice(&game_state).expect("prompt for level zero");
    assert_eq!(first.red, "go left");
    assert_eq!(first.blue, "go right");

    let _ = game_state.add_choice(ChoiceType::Red);
    assert_eq!(game_state.get_level(), 1);
    assert_eq!(game_state.get_path(), "R");
    let second = navigator.get_current_choice(&game_state).expect("prompt for level one");
    assert_eq!(second.red, "up");
    assert_eq!(second.blue, "down");
}

#[test]
fn test_complete_path_has_no_prompt() {
    let mut story_data = StoryData::new(content("start", "s"), content("no end", "the one ending"));
    for level in 0..6 {
        assert!(story_data.insert_choice(level, prompt("q", "p", "r", "b")));
    }
    let navigator = PathNavigator::new(&story_data);
    let mut game_state = GameState::new();
    for choice in [
        ChoiceType::Red,
        ChoiceType::Blue,
        ChoiceType::Red,
        ChoiceType::Blue,
        ChoiceType::Red,
        ChoiceType::Blue,
    ] {
        let _ = game_state.add_choice(choice);
    }
    assert!(game_state.is_complete());
    assert_eq!(game_state.get_path(), "RBRBRB");
    assert!(navigator.get_current_choice(&game_state).is_none());
    assert_eq!(navigator.get_final_story().story, "the one ending");
}

#[test]
fn test_terminal_passage_converges() {
    let story_data = StoryData::new(content("start", "s"), content("ending", "converged"));
    let navigator = PathNavigator::new(&story_data);
    // Every one of the 64 possible complete paths reaches the same passage.
    for bits in 0..64u32 {
        let mut game_state = GameState::new();
        for level in 0..6 {
            let choice = if bits & (1 << level) == 0 { ChoiceType::Red } else { ChoiceType::Blue };
            let _ = game_state.add_choice(choice);
        }
        assert!(game_state.is_complete());
        let ending = navigator.get_final_story();
        assert_eq!(ending.title, "ending");
        assert_eq!(ending.story, "converged");
    }
}

#[test]
fn test_missing_passage_is_a_gap() {
    let mut story_data = StoryData::new(content("start", "s"), content("end", "e"));
    assert!(story_data.insert_story("R", content("r", "r")));

    let navigator = PathNavigator::new(&story_data);
    let mut game_state = GameState::new();
    let _ = game_state.add_choice(ChoiceType::Red);
    let _ = game_state.add_choice(ChoiceType::Blue);
    assert_eq!(game_state.get_path(), "RB");

    // The dataset holds nothing under "RB": a gap, not a crash.
    assert!(navigator.get_current_story(&game_state).is_none());
}

#[test]
fn test_insert_story_rejects_bad_keys() {
    let mut story_data = StoryData::new(content("start", "s"), content("end", "e"));
    // Only codes of one to five decision characters are passage keys.
    assert!(!story_data.insert_story("", content("x", "x")));
    assert!(!story_data.insert_story("RX", content("x", "x")));
    assert!(!story_data.insert_story("RRRRRR", content("x", "x")));
    assert!(story_data.insert_story("RRRRR", content("deep", "deep")));
    assert_eq!(story_data.get_story_by_path("RRRRR").unwrap().title, "deep");
    assert!(story_data.get_story_by_path("RX").is_none());
    assert!(story_data.get_story_by_path("RRRRRR").is_none());
}

#[test]
fn test_distinct_paths_never_collide() {
    // Path codes are decision sequences, not hashes: distinct sequences
    // stay distinct dataset keys.
    let mut story_data = StoryData::new(content("start", "s"), content("end", "e"));
    assert!(story_data.insert_story("R", content("r", "")));
    assert!(story_data.insert_story("B", content("b", "")));
    assert!(story_data.insert_story("RB", content("rb", "")));
    assert!(story_data.insert_story("BR", content("br", "")));
    assert!(story_data.insert_story("RRB", content("rrb", "")));
    assert!(story_data.insert_story("RBR", content("rbr", "")));
    assert_eq!(story_data.get_story_by_path("R").unwrap().title, "r");
    assert_eq!(story_data.get_story_by_path("B").unwrap().title, "b");
    assert_eq!(story_data.get_story_by_path("RB").unwrap().title, "rb");
    assert_eq!(story_data.get_story_by_path("BR").unwrap().title, "br");
    assert_eq!(story_data.get_story_by_path("RRB").unwrap().title, "rrb");
    assert_eq!(story_data.get_story_by_path("RBR").unwrap().title, "rbr");
    assert!(story_data.get_story_by_path("BB").is_none());
}

#[test]
fn test_insert_story_overwrites_equal_key() {
    let mut story_data = StoryData::new(content("start", "s"), content("end", "e"));
    assert!(story_data.insert_story("BB", content("old", "old")));
    assert!(story_data.insert_story("BB", content("new", "new")));
    assert_eq!(story_data.get_story_by_path("BB").unwrap().title, "new");
}

#[test]
fn test_empty_path_resolves_to_start() {
    let mut story_data = StoryData::new(content("start here", "s"), content("end", "e"));
    assert!(story_data.insert_story("B", content("blue", "b")));
    assert_eq!(story_data.get_story_by_path("").unwrap().title, "start here");
    assert_eq!(story_data.get_story_by_path("B").unwrap().title, "blue");
    assert!(story_data.get_story_by_path("R").is_none());
}

#[test]
fn test_choice_levels_must_be_complete() {
    let mut story_data = StoryData::new(content("start", "s"), content("end", "e"));
    for level in 0..6 {
        if level != 3 {
            assert!(story_data.insert_choice(level, prompt("q", "p", "r", "b")));
        }
    }
    // A missing prompt at a reachable level is a data-integrity error.
    assert!(!story_data.has_all_choice_levels());
    assert!(story_data.get_choice_by_level(3).is_none());
    assert!(story_data.insert_choice(3, prompt("q3", "p3", "r", "b")));
    assert!(story_data.has_all_choice_levels());
    assert_eq!(story_data.get_choice_by_level(3).unwrap().title, "q3");
    // Levels past the last decision are never stored.
    assert!(!story_data.insert_choice(6, prompt("q", "p", "r", "b")));
    assert!(story_data.get_choice_by_level(6).is_none());
}
