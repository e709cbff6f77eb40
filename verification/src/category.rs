//! Action categories.
//!
//! A category names the kind of action that produced an output (`cxx_link`,
//! `write`, ...). It is a lowercase identifier and becomes a path segment of
//! scratch outputs, so it is validated on construction.

use vstd::prelude::*;

verus! {

use vstd::string::StrSliceExecFns;

/// Error from validating a category string.
#[derive(Clone, Copy, Debug, PartialEq, Eq, Structural)]
pub enum CategoryError {
    /// The string is not a well-formed category.
    InvalidCategory,
}

/// A character a category may contain after its first.
pub open spec fn is_category_char(c: char) -> bool {
    ('a' as int) <= (c as int) <= ('z' as int) || ('0' as int) <= (c as int) <= ('9' as int) || c
        == '_'
}

/// A well-formed category: nonempty, starts with a lowercase letter, then
/// lowercase letters, digits and underscores.
pub open spec fn wf_category(s: Seq<char>) -> bool {
    &&& s.len() > 0
    &&& ('a' as int) <= (s[0] as int) <= ('z' as int)
    &&& forall|i: int| 0 <= i < s.len() ==> is_category_char(#[trigger] s[i])
}

/// The category of an action, validated on construction.
#[derive(Clone, Copy, Debug, Hash, PartialEq, Eq)]
pub struct CategoryRef<'a> {
    pub s: &'a str,
}

impl<'a> CategoryRef<'a> {
    /// Validates `s` as a category.
    pub fn new(s: &'a str) -> (r: Result<Self, CategoryError>)
        ensures
            wf_category(s@) ==> (r matches Ok(c) && c.s@ == s@),
            !wf_category(s@) ==> (r matches Err(e) && e == CategoryError::InvalidCategory),
    {
        let n = s.unicode_len();
        if n == 0 {
            return Err(CategoryError::InvalidCategory);
        }
        let first = s.get_char(0) as u32;
        if !(97 <= first && first <= 122) {
            return Err(CategoryError::InvalidCategory);
        }
        let mut i: usize = 0;
        while i < n
            invariant
                n == s@.len(),
                i <= n,
                forall|j: int| 0 <= j < i ==> is_category_char(#[trigger] s@[j]),
            decreases n - i,
        {
            let c = s.get_char(i) as u32;
            if !((97 <= c && c <= 122) || (48 <= c && c <= 57) || c == 95) {
                return Err(CategoryError::InvalidCategory);
            }
            i += 1;
        }
        Ok(CategoryRef { s })
    }

    /// The category as a string slice.
    pub fn as_str(&self) -> (r: &'a str)
        ensures
            r@ == self.s@,
    {
        self.s
    }
}

} // verus!
