//! Callback handling.
//!
//! Fetching a list from the server results in a callback being fired for each list item, and then
//! once more to signal the end of the list (or an error). [`ListResult`] tells these apart.

use vstd::prelude::*;

verus! {

/// List result instance.
///
/// Fetching a list can result in a callback being fired for each list item, and then once more to
/// signal the end of the list having been reached. This type is used to distinguish such state to a
/// closure callback.
#[derive(Debug)]
pub enum ListResult<T> {
    /// List item
    Item(T),
    /// End of list reached
    End,
    /// Failure
    Error,
}

impl<T> ListResult<T> {
    /// Interprets a list callback: an end-of-list flag `eol` of `0` carries an item, a positive
    /// one marks the end of the list, and a negative one an error. An item must be present
    /// whenever `eol` is `0`.
    pub fn from_query(eol: i32, item: Option<T>) -> (r: Self)
        requires
            eol == 0 ==> item is Some,
        ensures
            eol == 0 ==> r == ListResult::Item(item->0),
            eol > 0 ==> r is End,
            eol < 0 ==> r is Error,
    {
        if eol == 0 {
            match item {
                Some(i) => ListResult::Item(i),
                None => ListResult::Error,
            }
        } else if eol > 0 {
            ListResult::End
        } else {
            ListResult::Error
        }
    }
}

} // verus!
