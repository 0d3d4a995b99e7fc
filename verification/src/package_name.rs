//! Names of conda packages, as written and in normal form.

use crate::outside::normalized_name;
use crate::error::{fails_with, GlobalError, GlobalErrorView};
use vstd::prelude::*;

verus! {

/// Is `c` one of the characters a package name may hold: an ASCII letter, an
/// ASCII digit, `-`, `_` or `.`?
pub open spec fn is_name_char(c: char) -> bool {
    let n = c as u32;
    ||| 0x61 <= n <= 0x7a
    ||| 0x41 <= n <= 0x5a
    ||| 0x30 <= n <= 0x39
    ||| n == 0x2d
    ||| n == 0x5f
    ||| n == 0x2e
}

/// Does `s` hold nothing but characters of package names? The empty name counts.
pub open spec fn is_valid_name(s: Seq<char>) -> bool {
    forall|i: int| 0 <= i < s.len() ==> is_name_char(#[trigger] s[i])
}

/// `c` with an ASCII capital replaced by its small letter.
pub open spec fn lower_char(c: char) -> char {
    if 0x41 <= c as u32 <= 0x5a {
        ((c as u32) + 0x20) as char
    } else {
        c
    }
}

/// `s` with every ASCII capital replaced by its small letter.
pub open spec fn lowered(s: Seq<char>) -> Seq<char> {
    Seq::new(s.len(), |i: int| lower_char(s[i]))
}

/// The name of a package: the text it was written as, and the normal form by
/// which two names are compared and under which a package is stored.
#[derive(Debug)]
pub struct PackageName {
    pub source: String,
    pub normalized: String,
}

/// What a [`PackageName`] holds, as sequences of characters.
pub struct PackageNameView {
    pub source: Seq<char>,
    pub normalized: Seq<char>,
}

impl View for PackageName {
    type V = PackageNameView;

    open spec fn view(&self) -> PackageNameView {
        PackageNameView { source: self.source@, normalized: self.normalized@ }
    }
}

impl PackageNameView {
    /// The normal form is the lowered source, and the source is a valid name.
    pub open spec fn is_canonical(self) -> bool {
        is_valid_name(self.source) && self.normalized == lowered(self.source)
    }

    /// Two names denote the same package when their normal forms agree.
    pub open spec fn same_package(self, other: PackageNameView) -> bool {
        self.normalized == other.normalized
    }
}

impl PackageName {
    /// Checks `source` and derives its normal form.
    pub fn new(source: String) -> (r: Result<PackageName, GlobalError>)
        ensures
            is_valid_name(source@) ==> r is Ok,
            r matches Ok(name) ==> name@.source == source@ && name@.is_canonical(),
            !is_valid_name(source@) ==> fails_with(r, (GlobalErrorView::InvalidName { name: source@ })),
    {
        match normalized_name(source.as_str()) {
            Some(normalized) => Ok(PackageName { source, normalized }),
            None => Err(GlobalError::InvalidName { name: source }),
        }
    }

    /// A name from both forms as another reader of package metadata reports them.
    pub fn from_parts(source: String, normalized: String) -> (name: PackageName)
        ensures
            name@.source == source@,
            name@.normalized == normalized@,
    {
        PackageName { source, normalized }
    }

    /// The name as it was written.
    pub fn as_source(&self) -> (s: &str)
        ensures
            s@ == self@.source,
    {
        self.source.as_str()
    }

    /// The name in normal form.
    pub fn as_normalized(&self) -> (s: &str)
        ensures
            s@ == self@.normalized,
    {
        self.normalized.as_str()
    }

    /// Do `self` and `other` name the same package?
    pub fn same_package(&self, other: &PackageName) -> (b: bool)
        ensures
            b == self@.same_package(other@),
    {
        self.normalized == other.normalized
    }

    /// A copy of the name.
    pub fn duplicate(&self) -> (name: PackageName)
        ensures
            name@ == self@,
    {
        PackageName { source: self.source.clone(), normalized: self.normalized.clone() }
    }
}

} // verus!
