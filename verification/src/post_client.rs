//! The demo post and the text it is shown as.

use vstd::prelude::*;
use crate::text::push_signed_decimal;
use crate::text::signed_decimal;

verus! {

/// A post as the demo endpoint returns it.
#[allow(non_snake_case)]
#[derive(Debug, Clone, PartialEq, Eq)]
pub struct Post {
    pub userId: i32,
    pub id: i32,
    pub title: String,
    pub body: String,
}

/// The text a post is shown as: its number and title, an empty line, and
/// its body.
pub open spec fn post_text(id: int, title: Seq<char>, body: Seq<char>) -> Seq<char> {
    "Post #"@ + signed_decimal(id) + ": "@ + title + "\n\n"@ + body
}

/// The text `post` is shown as.
pub fn format_post(post: &Post) -> (r: String)
    ensures
        r@ == post_text(post.id as int, post.title@, post.body@),
{
    let mut out = String::from_str("Post #");
    push_signed_decimal(&mut out, post.id as i64);
    out.append(": ");
    out.append(post.title.as_str());
    out.append("\n\n");
    out.append(post.body.as_str());
    out
}

} // verus!
