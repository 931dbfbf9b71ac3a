//! A string that is either static or shared.

use vstd::prelude::*;
use std::sync::Arc;

verus! {

/// An immutable string container that can be freely shared across
/// threads.
///
/// The value is either a `&'static str`, for which nothing is allocated,
/// or a string behind an `Arc`.
#[derive(Clone, Debug)]
pub enum SharedStr {
    Static(&'static str),
    Arc(Arc<String>),
}

impl View for SharedStr {
    type V = Seq<char>;

    open spec fn view(&self) -> Seq<char> {
        match self {
            SharedStr::Static(value) => value@,
            SharedStr::Arc(value) => (**value)@,
        }
    }
}

impl SharedStr {
    /// The empty string, for which nothing is allocated.
    pub fn new() -> (res: Self)
        ensures
            res@ == Seq::<char>::empty(),
            res is Static,
    {
        proof {
            reveal_strlit("");
        }
        SharedStr::Static("")
    }

    /// Shares a static string, for which nothing is allocated.
    pub fn from_static(value: &'static str) -> (res: Self)
        ensures
            res@ == value@,
            res is Static,
    {
        SharedStr::Static(value)
    }

    /// Shares an owned string.
    pub fn from_string(value: String) -> (res: Self)
        ensures
            res@ == value@,
            res is Arc,
    {
        SharedStr::Arc(Arc::new(value))
    }

    /// The string.
    pub fn as_str(&self) -> (res: &str)
        ensures
            res@ == self@,
    {
        match self {
            SharedStr::Static(value) => value,
            SharedStr::Arc(value) => value.as_str(),
        }
    }

    /// Whether two shared strings hold the same text, wherever it is
    /// kept.
    pub fn same(&self, other: &SharedStr) -> (res: bool)
        ensures
            res == (self@ == other@),
    {
        let left = self.as_str().to_owned();
        let right = other.as_str().to_owned();
        left == right
    }
}

} // verus!
