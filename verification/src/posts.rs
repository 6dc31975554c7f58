//! The four operations of the service — list, create, update, publish —
//! and the translation of every outcome into an HTTP response.

use vstd::prelude::*;
use crate::models::{NewPost, Post};
use crate::store::{
    contains_id, post_with_id, spec_publish, spec_update, with_published, with_title_body,
    PostsTable,
};

verus! {

/// The most records a single list request returns.
pub const LIST_LIMIT: usize = 100;

/// How a failed operation is reported: a rejected payload and a missing
/// post are the client's fault, a failing store is the server's.
#[derive(Clone, Copy, PartialEq, Eq, Structural, Debug)]
pub enum ApiError {
    /// The payload failed the title-length rule.
    Validation,
    /// No post has the requested identifier.
    NotFound,
    /// The store could not be reached or refused the statement.
    Database,
}

impl ApiError {
    /// The HTTP status each error is reported with.
    pub open spec fn spec_status(self) -> u16 {
        match self {
            ApiError::Validation => 400,
            ApiError::NotFound => 400,
            ApiError::Database => 500,
        }
    }

    /// The error is blamed on the client.
    pub open spec fn is_client_error(self) -> bool {
        400 <= self.spec_status() < 500
    }

    /// The error is blamed on the server.
    pub open spec fn is_server_error(self) -> bool {
        500 <= self.spec_status()
    }

    /// The HTTP status code for this error.
    pub fn status_code(&self) -> (r: u16)
        ensures
            r == self.spec_status(),
    {
        match self {
            ApiError::Validation => 400,
            ApiError::NotFound => 400,
            ApiError::Database => 500,
        }
    }

    /// The short fixed phrase that the response body carries.
    pub open spec fn spec_message(self) -> Seq<char> {
        match self {
            ApiError::Validation => "Title must be between 10 and 100 characters long"@,
            ApiError::NotFound => "Could not find post"@,
            ApiError::Database => "Database connection failed"@,
        }
    }

    /// The short fixed phrase that the response body carries.
    pub fn message(&self) -> (r: &'static str)
        ensures
            r@ == self.spec_message(),
    {
        match self {
            ApiError::Validation => "Title must be between 10 and 100 characters long",
            ApiError::NotFound => "Could not find post",
            ApiError::Database => "Database connection failed",
        }
    }
}

/// Creates a post. A payload that fails validation is rejected before the
/// table is touched; otherwise the post is stored with the next identifier
/// and published false, and returned in full.
pub fn add_post(table: &mut PostsTable, new_post: &NewPost) -> (r: Result<Post, ApiError>)
    requires
        old(table).wf(),
        old(table).spec_next_id() < i32::MAX,
    ensures
        final(table).wf(),
        new_post.spec_valid() ==> {
            &&& r matches Ok(p)
            &&& p@.id == old(table).spec_next_id()
            &&& p@.title == new_post.title@
            &&& p@.body == new_post.body@
            &&& !p@.published
            &&& final(table)@ == old(table)@.push(p@)
            &&& final(table).spec_next_id() == old(table).spec_next_id() + 1
        },
        !new_post.spec_valid() ==> r == Err::<Post, ApiError>(ApiError::Validation)
            && *final(table) == *old(table),
{
    if !new_post.validate() {
        return Err(ApiError::Validation);
    }
    Ok(table.insert(new_post))
}

/// Replaces the title and body of the post with the given identifier. A
/// payload that fails validation is rejected first; a missing post is the
/// client's error; otherwise the changed post is returned and its
/// published flag is left alone.
pub fn update_post(table: &mut PostsTable, post_id: i32, new_post: &NewPost) -> (r: Result<
    Post,
    ApiError,
>)
    requires
        old(table).wf(),
    ensures
        final(table).wf(),
        final(table).spec_next_id() == old(table).spec_next_id(),
        !new_post.spec_valid() ==> r == Err::<Post, ApiError>(ApiError::Validation)
            && *final(table) == *old(table),
        new_post.spec_valid() && !contains_id(old(table)@, post_id as int)
            ==> r == Err::<Post, ApiError>(ApiError::NotFound) && *final(table) == *old(table),
        new_post.spec_valid() && contains_id(old(table)@, post_id as int) ==> {
            &&& final(table)@ == spec_update(
                old(table)@,
                post_id as int,
                new_post.title@,
                new_post.body@,
            )
            &&& r matches Ok(p)
            &&& p@ == with_title_body(
                post_with_id(old(table)@, post_id as int),
                new_post.title@,
                new_post.body@,
            )
            &&& p@.id == post_id as int
        },
{
    if !new_post.validate() {
        return Err(ApiError::Validation);
    }
    match table.update(post_id, new_post) {
        Some(p) => Ok(p),
        None => Err(ApiError::NotFound),
    }
}

/// Sets the published flag of the post with the given identifier. The
/// operation is idempotent: an already published post is stored and
/// returned unchanged, with no error. A missing post is the client's
/// error.
pub fn publish_post(table: &mut PostsTable, post_id: i32) -> (r: Result<Post, ApiError>)
    requires
        old(table).wf(),
    ensures
        final(table).wf(),
        final(table).spec_next_id() == old(table).spec_next_id(),
        !contains_id(old(table)@, post_id as int)
            ==> r == Err::<Post, ApiError>(ApiError::NotFound) && *final(table) == *old(table),
        contains_id(old(table)@, post_id as int) ==> {
            &&& final(table)@ == spec_publish(old(table)@, post_id as int)
            &&& r matches Ok(p)
            &&& p@ == with_published(post_with_id(old(table)@, post_id as int))
            &&& p@.published
        },
{
    match table.publish(post_id) {
        Some(p) => Ok(p),
        None => Err(ApiError::NotFound),
    }
}

/// Lists the stored posts in storage order, never more than `LIST_LIMIT`
/// records however many exist.
pub fn get_all_posts(table: &PostsTable) -> (r: Vec<Post>)
    ensures
        r@.len() <= LIST_LIMIT,
        r@.len() == if table@.len() <= LIST_LIMIT {
            table@.len()
        } else {
            LIST_LIMIT as nat
        },
        forall|i: int| 0 <= i < r@.len() ==> (#[trigger] r@[i])@ == table@[i],
{
    table.first_n(LIST_LIMIT)
}

/// Turns the outcome of a statement that looks a post up and changes it
/// into the response: the changed post when one was found, otherwise the
/// client error for a missing post.
pub fn respond_found(found: Option<Post>) -> (r: Result<Post, ApiError>)
    ensures
        found matches Some(p) ==> r == Ok::<Post, ApiError>(p),
        found is None ==> r == Err::<Post, ApiError>(ApiError::NotFound),
{
    match found {
        Some(p) => Ok(p),
        None => Err(ApiError::NotFound),
    }
}

/// The body of the greeting route.
pub fn hello() -> (r: &'static str)
    ensures
        r@ == "Hello, World!"@,
{
    "Hello, World!"
}

} // verus!
