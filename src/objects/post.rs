//! The counters that a wall post carries.

use vstd::prelude::*;
use crate::error::Error;
use crate::json::Json;
use crate::objects::{get_integer, integer_field, Integer};

verus! {

/// Comments on a post.
#[derive(Clone, Copy, Debug, PartialEq, Eq, Structural)]
pub struct Comments {
    pub count: Integer,
    pub can_post: Integer,
    pub groups_can_post: Integer,
}

/// Likes of a post.
#[derive(Clone, Copy, Debug, PartialEq, Eq, Structural)]
pub struct Likes {
    pub count: Integer,
    pub user_likes: Integer,
    pub can_like: Integer,
    pub can_publish: Integer,
}

/// Reposts of a post.
#[derive(Clone, Copy, Debug, PartialEq, Eq, Structural)]
pub struct Reposts {
    pub count: Integer,
    pub user_reposted: Integer,
}

/// Views of a post.
#[derive(Clone, Copy, Debug, PartialEq, Eq, Structural)]
pub struct Views {
    pub count: Integer,
}

impl Comments {
    /// Decodes a `Comments` object; every member is required.
    pub fn from_json(v: &Json) -> (r: Result<Comments, Error>)
        ensures
            match (
                integer_field(*v, "count"@),
                integer_field(*v, "can_post"@),
                integer_field(*v, "groups_can_post"@),
            ) {
                (Some(count), Some(can_post), Some(groups_can_post)) => r is Ok && r->Ok_0
                    == (Comments { count, can_post, groups_can_post }),
                _ => r is Err && r->Err_0 is Serde,
            },
    {
        let count = get_integer(v, "count")?;
        let can_post = get_integer(v, "can_post")?;
        let groups_can_post = get_integer(v, "groups_can_post")?;
        Ok(Comments { count, can_post, groups_can_post })
    }
}

impl Likes {
    /// Decodes a `Likes` object; every member is required.
    pub fn from_json(v: &Json) -> (r: Result<Likes, Error>)
        ensures
            match (
                integer_field(*v, "count"@),
                integer_field(*v, "user_likes"@),
                integer_field(*v, "can_like"@),
                integer_field(*v, "can_publish"@),
            ) {
                (Some(count), Some(user_likes), Some(can_like), Some(can_publish)) => r is Ok
                    && r->Ok_0 == (Likes { count, user_likes, can_like, can_publish }),
                _ => r is Err && r->Err_0 is Serde,
            },
    {
        let count = get_integer(v, "count")?;
        let user_likes = get_integer(v, "user_likes")?;
        let can_like = get_integer(v, "can_like")?;
        let can_publish = get_integer(v, "can_publish")?;
        Ok(Likes { count, user_likes, can_like, can_publish })
    }
}

impl Reposts {
    /// Decodes a `Reposts` object; every member is required.
    pub fn from_json(v: &Json) -> (r: Result<Reposts, Error>)
        ensures
            match (integer_field(*v, "count"@), integer_field(*v, "user_reposted"@)) {
                (Some(count), Some(user_reposted)) => r is Ok && r->Ok_0
                    == (Reposts { count, user_reposted }),
                _ => r is Err && r->Err_0 is Serde,
            },
    {
        let count = get_integer(v, "count")?;
        let user_reposted = get_integer(v, "user_reposted")?;
        Ok(Reposts { count, user_reposted })
    }
}

impl Views {
    /// Decodes a `Views` object; its one member is required.
    pub fn from_json(v: &Json) -> (r: Result<Views, Error>)
        ensures
            match integer_field(*v, "count"@) {
                Some(count) => r is Ok && r->Ok_0 == (Views { count }),
                None => r is Err && r->Err_0 is Serde,
            },
    {
        let count = get_integer(v, "count")?;
        Ok(Views { count })
    }
}

} // verus!
