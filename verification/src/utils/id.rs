//! Row identifiers that remember which table they belong to.

use std::cmp::Ordering;
use std::marker::PhantomData;
use vstd::prelude::*;
use vstd::string::*;

verus! {

/// The primary key of a row of kind `T`.
///
/// The tag keeps the identifier of a user from being handed to a function
/// that expects the identifier of a topic or of a post. A tag is a marker
/// type that stands for a table; it is never the row type itself, since a row
/// holds its own identifier.
#[derive(Debug)]
pub struct Id<T>(i64, PhantomData<T>);

impl<T> View for Id<T> {
    type V = int;

    closed spec fn view(&self) -> int {
        self.0 as int
    }
}

impl<T> Id<T> {
    /// Tags the integer `id` as the key of a row of kind `T`.
    pub fn new(id: i64) -> (r: Id<T>)
        ensures
            r@ == id,
    {
        Id(id, PhantomData)
    }

    /// The integer behind the identifier.
    pub fn value(&self) -> (r: i64)
        ensures
            r == self@,
    {
        self.0
    }

    /// The identifier as it is shown in a log: `<ID: `, the integer as the
    /// standard library displays it, and `>`.
    pub fn to_string(&self) -> (r: String)
        ensures
            exists|digits: String|
                #![trigger digits@]
                to_string_from_display_ensures::<i64>(&(self@ as i64), digits) && r@ == "<ID: "@
                    + digits@ + ">"@,
    {
        let digits = self.0.to_string();
        let r = String::from_str("<ID: ").concat(digits.as_str()).concat(">");
        assert(r@ == "<ID: "@ + digits@ + ">"@);
        r
    }
}

impl<T> Clone for Id<T> {
    fn clone(&self) -> (r: Self)
        ensures
            r@ == self@,
    {
        Id::new(self.0)
    }
}

impl<T> Copy for Id<T> {}

impl<T> PartialEq for Id<T> {
    fn eq(&self, other: &Self) -> (r: bool) {
        self.0 == other.0
    }
}

impl<T> vstd::std_specs::cmp::PartialEqSpecImpl for Id<T> {
    open spec fn obeys_eq_spec() -> bool {
        true
    }

    open spec fn eq_spec(&self, other: &Self) -> bool {
        self@ == other@
    }
}

impl<T> PartialOrd for Id<T> {
    fn partial_cmp(&self, other: &Self) -> (r: Option<Ordering>) {
        if self.0 < other.0 {
            Some(Ordering::Less)
        } else if self.0 == other.0 {
            Some(Ordering::Equal)
        } else {
            Some(Ordering::Greater)
        }
    }
}

/// Identifiers are ordered as their integers are.
impl<T> vstd::std_specs::cmp::PartialOrdSpecImpl for Id<T> {
    open spec fn obeys_partial_cmp_spec() -> bool {
        true
    }

    open spec fn partial_cmp_spec(&self, other: &Self) -> Option<Ordering> {
        if self@ < other@ {
            Some(Ordering::Less)
        } else if self@ == other@ {
            Some(Ordering::Equal)
        } else {
            Some(Ordering::Greater)
        }
    }
}

} // verus!
