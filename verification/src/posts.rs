//! The post catalog: a fixed listing, checked post by post before it is
//! handed out.

use crate::validation::{code_of, id_is_valid, validate_id, ID_NOT_POSITIVE};
use vstd::prelude::*;
use vstd::string::StringExecFns;

verus! {

/// A blog post.
#[derive(Debug, PartialEq, Eq)]
pub struct Posts {
    pub id: i32,
    pub title: String,
    pub body: String,
}

/// A post with its texts as sequences of characters.
pub ghost struct PostsView {
    pub id: i32,
    pub title: Seq<char>,
    pub body: Seq<char>,
}

impl View for Posts {
    type V = PostsView;

    open spec fn view(&self) -> PostsView {
        PostsView { id: self.id, title: self.title@, body: self.body@ }
    }
}

/// The views of the posts of a listing, in order.
pub open spec fn listing_view(posts: Seq<Posts>) -> Seq<PostsView> {
    Seq::new(posts.len(), |i: int| posts[i]@)
}

/// The catalog: two posts, the first before the second.
pub open spec fn catalog() -> Seq<PostsView> {
    seq![
        PostsView {
            id: 1,
            title: "First Post"@,
            body: "This is the body of the first post"@,
        },
        PostsView {
            id: 2,
            title: "Second Post"@,
            body: "This is the body of the second post"@,
        },
    ]
}

/// Every post of the listing has a valid identifier.
pub open spec fn all_valid(posts: Seq<Posts>) -> bool {
    forall|i: int| 0 <= i < posts.len() ==> id_is_valid(#[trigger] posts[i].id)
}

/// The text with which a listing that holds an invalid post is refused.
pub open spec fn rejection_text() -> Seq<char> {
    "Validation error: "@ + ID_NOT_POSITIVE@
}

/// The posts of the catalog, freshly made.
pub fn catalog_posts() -> (posts: Vec<Posts>)
    ensures
        listing_view(posts@) == catalog(),
{
    let mut posts: Vec<Posts> = Vec::new();
    posts.push(
        Posts {
            id: 1,
            title: "First Post".to_owned(),
            body: "This is the body of the first post".to_owned(),
        },
    );
    posts.push(
        Posts {
            id: 2,
            title: "Second Post".to_owned(),
            body: "This is the body of the second post".to_owned(),
        },
    );
    assert(listing_view(posts@) =~= catalog());
    posts
}

/// Checks a listing post by post, in order. A listing whose posts are all
/// valid comes back whole and unchanged. One that holds an invalid post is
/// refused as a whole, with `rejection_text`: no part of it is returned.
pub fn checked_listing(posts: Vec<Posts>) -> (res: Result<Vec<Posts>, String>)
    ensures
        res is Ok <==> all_valid(posts@),
        res matches Ok(listing) ==> listing == posts,
        res matches Err(text) ==> text@ == rejection_text(),
{
    let mut i: usize = 0;
    while i < posts.len()
        invariant
            i <= posts.len(),
            all_valid(posts@.take(i as int)),
        decreases posts.len() - i,
    {
        match validate_id(posts[i].id) {
            Ok(()) => {},
            Err(error) => {
                let mut text = "Validation error: ".to_owned();
                let code = code_of(&error);
                text.append(code.as_str());
                return Err(text);
            },
        }
        assert forall|j: int| 0 <= j < i + 1 implies id_is_valid(
            #[trigger] posts@.take(i + 1)[j].id,
        ) by {
            if j < i {
                assert(posts@.take(i as int)[j] == posts@[j]);
            }
        }
        i += 1;
    }
    assert(posts@.take(i as int) =~= posts@);
    Ok(posts)
}

} // verus!
