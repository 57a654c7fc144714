//! Strings that are either borrowed for the whole program or owned, and a cell
//! that is filled once.

use std::borrow::Cow;
use std::sync::OnceLock;
use vstd::prelude::*;

verus! {

/// A string that is either a `&'static str` or an owned `String`, so that static
/// names cost no allocation.  Its view is the sequence of its characters, whichever
/// of the two it is.
pub type ScopedString = Cow<'static, str>;

/// `Cow::from` of a string slice: the slice itself, borrowed.  Nothing is copied.
pub assume_specification<'a>[ <Cow<'a, str> as From<&'a str>>::from ](s: &'a str) -> (r: Cow<
    'a,
    str,
>)
    ensures
        r == Cow::Borrowed(s),
;

/// `Cow::from` of a `String`: the string itself, owned.
pub assume_specification<'a>[ <Cow<'a, str> as From<String>>::from ](s: String) -> (r: Cow<'a, str>)
    ensures
        r == Cow::<str>::Owned(s),
;

/// `From<T> for T`, the conversion of a value into its own type: the value itself.
pub assume_specification<Same>[ <Same as From<Same>>::from ](value: Same) -> (r: Same)
    ensures
        r == value,
;

/// A copy of `s` with the same characters.  A borrowed string stays borrowed.
pub fn scoped_clone(s: &ScopedString) -> (r: ScopedString)
    ensures
        r@ == s@,
{
    match s {
        Cow::Borrowed(b) => Cow::Borrowed(*b),
        Cow::Owned(o) => Cow::Owned(o.clone()),
    }
}

/// The characters of `s` as a string slice.
pub fn scoped_str(s: &ScopedString) -> (r: &str)
    ensures
        r@ == s@,
{
    match s {
        Cow::Borrowed(b) => *b,
        Cow::Owned(o) => o.as_str(),
    }
}

/// `str`'s `==`: whether two strings hold the same characters.
#[verifier::external_body]
fn same_str(a: &str, b: &str) -> (r: bool)
    ensures
        r == (a@ == b@),
{
    a == b
}

/// Whether `a` and `b` hold the same characters, borrowed or owned.
pub fn scoped_eq(a: &ScopedString, b: &ScopedString) -> (r: bool)
    ensures
        r == (a@ == b@),
{
    same_str(scoped_str(a), scoped_str(b))
}

/// `std::sync::OnceLock`.  Nothing is known of what it holds.
#[verifier::external_type_specification]
#[verifier::external_body]
#[verifier::reject_recursive_types(T)]
pub struct ExOnceLock<T>(OnceLock<T>);

/// `OnceLock::new`: a cell that holds nothing yet.
#[verifier::external_body]
fn once_lock_new<T>() -> (r: OnceLock<T>) {
    OnceLock::new()
}

/// `OnceLock::get_or_init`: the value in the cell.  If the cell is empty, `f` is run
/// and what it returns is stored first; callers that arrive meanwhile wait, and get
/// that same value.  Whether `f` runs depends on who came first, so nothing is
/// stated of the value.
#[verifier::external_body]
fn once_lock_get_or_init<T, F: Fn() -> T>(cell: &OnceLock<T>, f: F) -> (r: &T)
    requires
        call_requires(f, ()),
{
    cell.get_or_init(f)
}

/// A cell that is filled at most once, by whichever caller comes first.
#[verifier::reject_recursive_types(T)]
pub struct OnceCell<T> {
    inner: OnceLock<T>,
}

impl<T> OnceCell<T> {
    /// Creates a new `OnceCell` that holds nothing yet.
    pub fn new() -> (r: OnceCell<T>) {
        OnceCell { inner: once_lock_new() }
    }

    /// Gets the value, filling the cell first if it is empty.
    ///
    /// If the cell is empty, `f` is run to make the value, which is stored for the
    /// callers that follow.  `f` must not use this cell itself.
    pub fn get_or_init<F: Fn() -> T>(&self, f: F) -> (r: &T)
        requires
            call_requires(f, ()),
    {
        once_lock_get_or_init(&self.inner, f)
    }
}

} // verus!
