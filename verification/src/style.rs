//! Static assets served with a cache lifetime: the stylesheet and others.
use vstd::prelude::*;

use crate::text::{int_text, i64_text, owned, push_str};

verus! {

/// The compiled stylesheet, served with a cache lifetime in seconds.
pub struct StyleSheet<'a> {
    inner: &'a str,
    cache_max_age: i32,
}

/// A static asset: its content, cache lifetime and media type.
pub struct Asset<'a> {
    inner: &'a str,
    cache_max_age: i32,
    content_type: String,
}

/// The `Cache-control` value for a lifetime: `max-age={seconds}`.
pub open spec fn cache_control(max_age: i32) -> Seq<char> {
    "max-age="@ + int_text(max_age as int)
}

fn cache_control_of(max_age: i32) -> (v: String)
    ensures
        v@ == cache_control(max_age),
{
    proof {
        reveal_strlit("max-age=");
    }
    let mut v = owned("max-age=");
    let n = i64_text(max_age as i64);
    push_str(&mut v, n.as_str());
    v
}

impl<'a> View for StyleSheet<'a> {
    type V = (Seq<char>, i32);

    closed spec fn view(&self) -> (Seq<char>, i32) {
        (self.inner@, self.cache_max_age)
    }
}

impl<'a> StyleSheet<'a> {
    /// A stylesheet with the given text and cache lifetime.
    pub fn new(inner: &'a str, cache_max_age: i32) -> (s: Self)
        ensures
            s@ == (inner@, cache_max_age),
    {
        Self { inner, cache_max_age }
    }

    /// The text of the stylesheet.
    pub fn content(&self) -> (t: &'a str)
        ensures
            t@ == self@.0,
    {
        self.inner
    }

    /// The `Cache-control` header value it is served with.
    pub fn cache_control(&self) -> (v: String)
        ensures
            v@ == cache_control(self@.1),
    {
        cache_control_of(self.cache_max_age)
    }
}

impl<'a> View for Asset<'a> {
    type V = (Seq<char>, i32, Seq<char>);

    closed spec fn view(&self) -> (Seq<char>, i32, Seq<char>) {
        (self.inner@, self.cache_max_age, self.content_type@)
    }
}

impl<'a> Asset<'a> {
    /// An asset with the given content, cache lifetime and media type.
    pub fn new(inner: &'a str, cache_max_age: i32, content_type: String) -> (s: Self)
        ensures
            s@ == (inner@, cache_max_age, content_type@),
    {
        Self { inner, cache_max_age, content_type }
    }

    /// The content of the asset.
    pub fn content(&self) -> (t: &'a str)
        ensures
            t@ == self@.0,
    {
        self.inner
    }

    /// The media type of the asset.
    pub fn content_type(&self) -> (t: &str)
        ensures
            t@ == self@.2,
    {
        self.content_type.as_str()
    }

    /// The `Cache-control` header value it is served with.
    pub fn cache_control(&self) -> (v: String)
        ensures
            v@ == cache_control(self@.1),
    {
        cache_control_of(self.cache_max_age)
    }
}

} // verus!
