//! Core logic of a small branching-fiction game: a reader makes up to six
//! binary decisions (red or blue), and story passages and choice prompts are
//! resolved from a static dataset keyed by the path taken so far.

pub mod ascii_tree;
pub mod choice;
pub mod game_state;
pub mod path_navigator;
pub mod render;
pub mod story;
pub mod text_streaming;

pub use ascii_tree::AsciiTreeGenerator;
pub use choice::Choice;
pub use choice::ChoiceType;
pub use game_state::GameState;
pub use game_state::StateError;
pub use path_navigator::PathNavigator;
pub use story::ChoiceData;
pub use story::StoryContent;
pub use story::StoryData;
pub use text_streaming::TextStreamer;
