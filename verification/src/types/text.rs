//! Conversion of caller-supplied text into owned strings.
use vstd::prelude::*;

use crate::text::push_str;

verus! {

/// Text a builder or constructor accepts: a string slice or an owned string.
pub trait IntoText: Sized {
    /// The characters of the text.
    spec fn text_view(&self) -> Seq<char>;

    /// The text as an owned string.
    fn into_text(self) -> (r: String)
        ensures
            r@ == self.text_view(),
    ;
}

impl<'a> IntoText for &'a str {
    open spec fn text_view(&self) -> Seq<char> {
        (*self)@
    }

    fn into_text(self) -> (r: String) {
        let mut s = String::new();
        push_str(&mut s, self);
        s
    }
}

impl IntoText for String {
    open spec fn text_view(&self) -> Seq<char> {
        self@
    }

    fn into_text(self) -> (r: String) {
        self
    }
}

} // verus!
