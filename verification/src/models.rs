//! The post entity and the input payload, with the one validation rule
//! of the service: a title must be between 10 and 100 characters long.

use vstd::prelude::*;
use vstd::string::StrSliceExecFns;

verus! {

/// Shortest title accepted, in characters.
pub const TITLE_MIN: usize = 10;

/// Longest title accepted, in characters.
pub const TITLE_MAX: usize = 100;

/// Mathematical model of a stored post: the identifier as an integer and
/// the text fields as character sequences.
pub ghost struct PostModel {
    pub id: int,
    pub title: Seq<char>,
    pub body: Seq<char>,
    pub published: bool,
}

/// A persisted post. The identifier is assigned by the store on creation
/// and never changes afterwards.
#[derive(Debug)]
pub struct Post {
    pub id: i32,
    pub title: String,
    pub body: String,
    pub published: bool,
}

impl View for Post {
    type V = PostModel;

    open spec fn view(&self) -> PostModel {
        PostModel {
            id: self.id as int,
            title: self.title@,
            body: self.body@,
            published: self.published,
        }
    }
}

impl Post {
    /// A field-for-field copy of the post.
    pub fn duplicate(&self) -> (p: Post)
        ensures
            p@ == self@,
    {
        Post {
            id: self.id,
            title: self.title.clone(),
            body: self.body.clone(),
            published: self.published,
        }
    }
}

/// The client-supplied payload used both to create a post and to replace
/// the title and body of an existing one. It carries no identifier and no
/// published flag.
#[derive(Debug)]
pub struct NewPost {
    pub title: String,
    pub body: String,
}

/// The validation rule: the title is between `TITLE_MIN` and `TITLE_MAX`
/// characters long, inclusive. The body is unconstrained.
pub open spec fn title_len_ok(title: Seq<char>) -> bool {
    TITLE_MIN <= title.len() && title.len() <= TITLE_MAX
}

impl NewPost {
    /// The payload passes validation.
    pub open spec fn spec_valid(&self) -> bool {
        title_len_ok(self.title@)
    }

    /// Checks the validation rule. Lengths are counted in characters,
    /// not bytes.
    pub fn validate(&self) -> (r: bool)
        ensures
            r == self.spec_valid(),
    {
        let n = self.title.as_str().unicode_len();
        TITLE_MIN <= n && n <= TITLE_MAX
    }
}

} // verus!
