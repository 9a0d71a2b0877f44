use lobsters_cli::app::{State, TagMap};
use lobsters_cli::models::{ShortTag, Story, StoryId, Tag, User};
use lobsters_cli::viewport::{encompass, scroll_into_view};
use std::cmp::Ordering;

fn a_user(name: &str) -> User {
    User {
        username: name.to_string(),
        created_at: "2019-01-01T00:00:00.000-05:00".to_string(),
        is_admin: false,
        about: None,
        is_moderator: false,
        karma: Some(1),
        avatar_url: "/avatars/x.png".to_string(),
        invited_by_user: None,
        github_username: None,
    }
}

fn a_story(title: &str, url: &str, score: i32) -> Story {
    Story {
        short_id: StoryId("abc123".to_string()),
        short_id_url: "https://lobste.rs/s/abc123".to_string(),
        created_at: "2019-04-20T10:00:00.000-05:00".to_string(),
        title: title.to_string(),
        url: url.to_string(),
        score,
        upvotes: 0,
        downvotes: 0,
        comment_count: 3,
        description: None,
        comments_url: "https://lobste.rs/s/abc123/a_title".to_string(),
        submitter_user: a_user("alice"),
        tags: vec![ShortTag("rust".to_string())],
        comments: None,
    }
}

fn a_tag(id: u64, name: &str, is_media: bool) -> Tag {
    Tag {
        id,
        tag: name.to_string(),
        description: None,
        privileged: false,
        is_media,
        inactive: false,
    }
}

fn some_stories(n: usize) -> Vec<Story> {
    (0..n).map(|i| a_story(&format!("story {}", i), "https://example.com/", i as i32)).collect()
}

#[test]
fn a_new_state_selects_the_first_story_at_the_top_left() {
    let state = State::new(some_stories(3), vec![]);
    assert_eq!(state.current_story_index(), 0);
    assert_eq!(state.current_story_offset(), 0);
    assert_eq!(state.col_offset(), 0);
    assert_eq!(state.visible_range(4), 0..4);
    assert_eq!(state.story_range(), 0..2);
    assert_eq!(state.stories().len(), 3);
    assert_eq!(state.current_story().title, "story 0");
}

#[test]
fn three_stories_in_four_rows_show_the_first_two() {
    let mut state = State::new(some_stories(3), vec![]);
    state.reconcile(4);
    assert_eq!(state.visible_range(4), 0..4);
    assert!(state.next_story());
    state.reconcile(4);
    assert_eq!(state.story_range(), 2..4);
    assert_eq!(state.visible_range(4), 0..4);
    assert!(state.next_story());
    state.reconcile(4);
    assert_eq!(state.story_range(), 4..6);
    assert_eq!(state.visible_range(4), 2..6);
}

#[test]
fn next_story_at_the_last_story_changes_nothing() {
    let mut state = State::new(some_stories(3), vec![]);
    assert!(state.next_story());
    assert!(state.next_story());
    state.reconcile(4);
    state.scroll_left(10);
    assert_eq!(state.current_story_index(), 2);
    assert!(!state.next_story());
    assert_eq!(state.current_story_index(), 2);
    assert_eq!(state.visible_range(4), 2..6);
    assert_eq!(state.col_offset(), 10);
    assert_eq!(state.current_story().title, "story 2");
}

#[test]
fn prev_story_at_the_first_story_changes_nothing() {
    let mut state = State::new(some_stories(2), vec![]);
    assert!(!state.prev_story());
    assert_eq!(state.current_story_index(), 0);
    assert!(state.next_story());
    assert!(state.prev_story());
    assert_eq!(state.current_story_index(), 0);
    assert!(!state.prev_story());
}

#[test]
fn a_single_story_cannot_be_left() {
    let mut state = State::new(some_stories(1), vec![]);
    assert!(!state.next_story());
    assert!(!state.prev_story());
    assert_eq!(state.current_story_index(), 0);
}

#[test]
fn the_window_follows_the_selection_down_and_up() {
    let mut state = State::new(some_stories(10), vec![]);
    for step in 1..10 {
        assert!(state.next_story());
        state.reconcile(5);
        let visible = state.visible_range(5);
        let story = state.story_range();
        assert_eq!(story, 2 * step..2 * step + 2);
        assert!(visible.start <= story.start && story.end <= visible.end);
    }
    assert_eq!(state.visible_range(5), 15..20);
    for _ in 0..9 {
        assert!(state.prev_story());
        state.reconcile(5);
        let visible = state.visible_range(5);
        let story = state.story_range();
        assert!(visible.start <= story.start && story.end <= visible.end);
    }
    assert_eq!(state.visible_range(5), 0..5);
}

#[test]
fn the_selection_stays_visible_when_the_window_shrinks_and_grows() {
    let mut state = State::new(some_stories(8), vec![]);
    for _ in 0..5 {
        state.next_story();
    }
    for height in [20, 2, 3, 7, 2, 12] {
        state.reconcile(height);
        let visible = state.visible_range(height);
        let story = state.story_range();
        assert!(visible.start <= story.start && story.end <= visible.end);
    }
    state.reconcile(2);
    assert_eq!(state.visible_range(2), 10..12);
}

#[test]
fn reconcile_leaves_a_window_that_shows_the_selection() {
    let mut state = State::new(some_stories(8), vec![]);
    state.next_story();
    state.next_story();
    *state.row_offset_get_mut() = 3;
    state.reconcile(6);
    assert_eq!(state.visible_range(6), 3..9);
    *state.row_offset_get_mut() = 5;
    state.reconcile(6);
    assert_eq!(state.visible_range(6), 4..10);
    *state.row_offset_get_mut() = 0;
    state.reconcile(4);
    assert_eq!(state.visible_range(4), 2..6);
}

#[test]
fn the_row_offset_can_be_read_and_set() {
    let mut state = State::new(some_stories(3), vec![]);
    assert_eq!(*state.row_offset_get_mut(), 0);
    *state.row_offset_get_mut() = 7;
    assert_eq!(*state.row_offset_get_mut(), 7);
    assert_eq!(state.visible_range(3), 7..10);
    assert_eq!(state.current_story_index(), 0);
    assert_eq!(state.col_offset(), 0);
    assert_eq!(state.visible_range(usize::MAX), 7..usize::MAX);
}

#[test]
fn three_steps_one_way_and_three_back_end_at_the_first_column() {
    let mut state = State::new(some_stories(1), vec![]);
    for expected in [10, 20, 30] {
        assert!(state.scroll_h(10));
        assert_eq!(state.col_offset(), expected);
    }
    for expected in [20, 10, 0] {
        assert!(state.scroll_h(-10));
        assert_eq!(state.col_offset(), expected);
    }
}

#[test]
fn no_step_leads_left_of_the_first_column() {
    let mut state = State::new(some_stories(1), vec![]);
    for _ in 0..5 {
        assert!(state.scroll_h(-10));
        assert_eq!(state.col_offset(), 0);
    }
    assert!(state.scroll_h(4));
    assert!(state.scroll_h(-10));
    assert_eq!(state.col_offset(), 0);
    assert!(state.scroll_h(isize::MIN));
    assert_eq!(state.col_offset(), 0);
    assert!(state.scroll_right(usize::MAX));
    assert_eq!(state.col_offset(), 0);
}

#[test]
fn no_step_leads_beyond_the_largest_offset() {
    let mut state = State::new(some_stories(1), vec![]);
    assert!(state.scroll_left(usize::MAX - 3));
    assert!(state.scroll_left(10));
    assert_eq!(state.col_offset(), usize::MAX);
    assert!(state.scroll_h(isize::MAX));
    assert_eq!(state.col_offset(), usize::MAX);
    assert!(state.scroll_h(isize::MIN));
    assert_eq!(state.col_offset(), usize::MAX - (isize::MAX as usize) - 1);
}

#[test]
fn scroll_left_moves_the_window_right_and_scroll_right_moves_it_left() {
    let mut state = State::new(some_stories(1), vec![]);
    assert!(state.scroll_left(10));
    assert_eq!(state.col_offset(), 10);
    assert!(state.scroll_right(4));
    assert_eq!(state.col_offset(), 6);
    assert!(state.scroll_right(10));
    assert_eq!(state.col_offset(), 0);
}

#[test]
fn scrolling_leaves_selection_and_rows_alone() {
    let mut state = State::new(some_stories(4), vec![]);
    state.next_story();
    state.next_story();
    state.reconcile(2);
    state.scroll_left(10);
    state.scroll_h(5);
    state.scroll_right(1);
    assert_eq!(state.current_story_index(), 2);
    assert_eq!(state.visible_range(2), 4..6);
    assert_eq!(state.col_offset(), 14);
}

#[test]
fn the_widest_score_counts_the_sign() {
    let stories = vec![a_story("a", "", 5), a_story("b", "", -12), a_story("c", "", 99)];
    assert_eq!(State::new(stories, vec![]).max_score_digits(), Some(3));
    let stories = vec![a_story("a", "", 5)];
    assert_eq!(State::new(stories, vec![]).max_score_digits(), Some(1));
    let stories = vec![a_story("a", "", 1000), a_story("b", "", -1)];
    assert_eq!(State::new(stories, vec![]).max_score_digits(), Some(4));
    assert_eq!(lobsters_cli::app::widest(&[]), None);
}

#[test]
fn a_tag_is_found_by_its_name() {
    let tags = vec![a_tag(1, "rust", false), a_tag(2, "video", true)];
    let map = TagMap::new(tags);
    assert_eq!(map.get(&ShortTag("video".to_string())).unwrap().id, 2);
    assert_eq!(map.get(&ShortTag("rust".to_string())).unwrap().id, 1);
    assert!(map.get(&ShortTag("Rust".to_string())).is_none());
    assert!(map.get(&ShortTag("".to_string())).is_none());
    assert!(TagMap::new(vec![]).get(&ShortTag("rust".to_string())).is_none());
}

#[test]
fn the_later_of_two_tags_of_one_name_stands() {
    let tags = vec![a_tag(1, "rust", false), a_tag(2, "go", false), a_tag(3, "rust", true)];
    let map = TagMap::new(tags);
    let found = map.get(&ShortTag("rust".to_string())).unwrap();
    assert_eq!(found.id, 3);
    assert!(found.is_media);
}

#[test]
fn the_state_finds_the_tags_it_was_given() {
    let state = State::new(some_stories(1), vec![a_tag(1, "rust", false)]);
    assert_eq!(state.get_tag(&ShortTag("rust".to_string())).unwrap().tag, "rust");
    assert!(state.get_tag(&ShortTag("go".to_string())).is_none());
    assert_eq!(state.tags().get(&ShortTag("rust".to_string())).unwrap().id, 1);
}

#[test]
fn the_story_url_is_the_url_of_the_selected_story() {
    let stories =
        vec![a_story("a", "https://example.com/a", 1), a_story("b", "https://example.org/b", 1)];
    let mut state = State::new(stories, vec![]);
    assert_eq!(state.story_url().unwrap().as_str(), "https://example.com/a");
    state.next_story();
    assert_eq!(state.story_url().unwrap().as_str(), "https://example.org/b");
    assert_eq!(state.comments_url().unwrap().as_str(), "https://lobste.rs/s/abc123/a_title");
}

#[test]
fn a_story_without_a_url_opens_its_comments() {
    let state = State::new(vec![a_story("a", "", 1)], vec![]);
    assert_eq!(state.story_url().unwrap().as_str(), "https://lobste.rs/s/abc123/a_title");
}

#[test]
fn a_url_that_is_none_is_an_error() {
    let mut story = a_story("a", "no url", 1);
    story.comments_url = "/s/abc123".to_string();
    let state = State::new(vec![story], vec![]);
    assert_eq!(state.story_url().unwrap_err(), url::ParseError::RelativeUrlWithoutBase);
    assert_eq!(state.comments_url().unwrap_err(), url::ParseError::RelativeUrlWithoutBase);
}

#[test]
fn encompass_compares_two_ranges() {
    assert_eq!(encompass(&(0..4), &(0..2)), Some(Ordering::Equal));
    assert_eq!(encompass(&(0..4), &(2..4)), Some(Ordering::Equal));
    assert_eq!(encompass(&(0..4), &(4..6)), Some(Ordering::Greater));
    assert_eq!(encompass(&(0..4), &(3..5)), Some(Ordering::Greater));
    assert_eq!(encompass(&(2..6), &(0..2)), Some(Ordering::Less));
    assert_eq!(encompass(&(2..6), &(1..9)), Some(Ordering::Less));
}

#[test]
fn scroll_into_view_moves_the_window_no_further_than_needed() {
    assert_eq!(scroll_into_view(&(0..4), &(0..2), 4), 0);
    assert_eq!(scroll_into_view(&(0..4), &(4..6), 4), 2);
    assert_eq!(scroll_into_view(&(6..10), &(2..4), 4), 2);
    assert_eq!(scroll_into_view(&(3..5), &(4..6), 2), 4);
}
