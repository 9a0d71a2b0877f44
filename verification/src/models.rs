use vstd::prelude::*;

verus! {

/// A member of the site.
#[derive(Debug)]
pub struct User {
    pub username: String,
    pub created_at: String,
    pub is_admin: bool,
    pub about: Option<String>,
    pub is_moderator: bool,
    pub karma: Option<i32>,
    pub avatar_url: String,
    pub invited_by_user: Option<String>,
    pub github_username: Option<String>,
}

/// The short identifier of a story.
#[derive(Debug)]
pub struct StoryId(pub String);

/// A reference to a tag by its name.
#[derive(Debug)]
pub struct ShortTag(pub String);

/// A ranked story.
#[derive(Debug)]
pub struct Story {
    pub short_id: StoryId,
    pub short_id_url: String,
    pub created_at: String,
    pub title: String,
    pub url: String,
    pub score: i32,
    pub upvotes: u32,
    pub downvotes: u32,
    pub comment_count: u32,
    pub description: Option<String>,
    pub comments_url: String,
    pub submitter_user: User,
    pub tags: Vec<ShortTag>,
    pub comments: Option<Vec<Comment>>,
}

/// The short identifier of a comment.
#[derive(Debug)]
pub struct CommentId(pub String);

/// A comment on a story.
#[derive(Debug)]
pub struct Comment {
    pub short_id: CommentId,
    pub short_id_url: String,
    pub created_at: String,
    pub updated_at: String,
    pub is_deleted: bool,
    pub is_moderated: bool,
    pub score: i32,
    pub upvotes: u32,
    pub downvotes: u32,
    pub comment: String,
    pub url: String,
    pub indent_level: u32,
    pub commenting_user: User,
}

/// A comment that is about to be posted.
#[derive(Debug)]
pub struct NewComment {
    pub story_id: StoryId,
    pub comment: String,
    pub hat_id: Option<String>,
    pub parent_comment_short_id: Option<CommentId>,
}

/// A tag of the site, with the flags that classify it.
#[derive(Debug)]
pub struct Tag {
    pub id: u64,
    pub tag: String,
    pub description: Option<String>,
    pub privileged: bool,
    pub is_media: bool,
    pub inactive: bool,
}

} // verus!
