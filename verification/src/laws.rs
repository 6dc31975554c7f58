//! Properties of the service that hold for every table and every input,
//! stated over the same spec functions the operations' contracts use.

use vstd::prelude::*;
use crate::models::PostModel;
use crate::posts::ApiError;
use crate::store::{contains_id, index_of_id, post_with_id, spec_publish, with_published};

verus! {

/// Publishing is idempotent: publishing a second time changes nothing,
/// the post keeps being found, and a found post is published afterwards
/// both times.
pub proof fn lemma_publish_idempotent(s: Seq<PostModel>, id: int)
    ensures
        spec_publish(spec_publish(s, id), id) == spec_publish(s, id),
        contains_id(spec_publish(s, id), id) == contains_id(s, id),
        contains_id(s, id) ==> post_with_id(spec_publish(s, id), id).published,
{
    let sp = spec_publish(s, id);
    assert forall|i: int| 0 <= i < sp.len() implies #[trigger] spec_publish(sp, id)[i]
        == sp[i] by {
        assert(sp[i] == if s[i].id == id {
            with_published(s[i])
        } else {
            s[i]
        });
    }
    assert(spec_publish(sp, id) =~= sp);
    if contains_id(s, id) {
        let i = choose|i: int| 0 <= i < s.len() && s[i].id == id;
        assert(sp[i].id == id);
        assert(contains_id(sp, id));
        let k = index_of_id(sp, id);
        assert(0 <= k < sp.len() && sp[k].id == id);
        assert(sp[k] == if s[k].id == id {
            with_published(s[k])
        } else {
            s[k]
        });
        assert(sp[k].published);
    }
    if contains_id(sp, id) {
        let i = choose|i: int| 0 <= i < sp.len() && sp[i].id == id;
        assert(sp[i] == if s[i].id == id {
            with_published(s[i])
        } else {
            s[i]
        });
        assert(s[i].id == id);
        assert(contains_id(s, id));
    }
}

/// A missing post is the client's error, not the server's: the error for
/// it carries a 400-class status, never a 500-class one. The same holds
/// of a rejected payload; only a failing store is the server's error.
pub proof fn lemma_missing_post_is_client_error()
    ensures
        ApiError::NotFound.is_client_error(),
        !ApiError::NotFound.is_server_error(),
        ApiError::Validation.is_client_error(),
        ApiError::Database.is_server_error(),
{
}

} // verus!
