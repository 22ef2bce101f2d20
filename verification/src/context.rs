use vstd::prelude::*;

use crate::error::{is_known_status, Error, CUBEB_OK};
use crate::layout::Layout;

verus! {

/// The outcome of a query to the backend, from the status code it returned and the
/// value it wrote: the value on success, the reported error otherwise (the value
/// is then discarded).
pub fn query_result<T>(status: i32, value: T) -> (r: Result<T, Error>)
    requires
        is_known_status(status),
    ensures
        status == CUBEB_OK ==> r == Ok::<T, Error>(value),
        status != CUBEB_OK ==> r == Err::<T, Error>(Error::of_code(status).unwrap()),
        r is Ok <==> status == CUBEB_OK,
{
    match Error::cubeb(status) {
        Some(error) => Err(error),
        None => Ok(value),
    }
}

/// The outcome of a query for the preferred channel layout, from the status code
/// the backend returned and the raw layout it wrote, which must stand for a layout
/// where the query succeeded.
pub fn channel_layout_query_result(status: i32, raw_layout: u32) -> (r: Result<Layout, Error>)
    requires
        is_known_status(status),
        status == CUBEB_OK ==> Layout::is_raw(raw_layout),
    ensures
        status == CUBEB_OK ==> r == Ok::<Layout, Error>(Layout::of_raw(raw_layout)),
        status == CUBEB_OK ==> r == Ok::<Layout, Error>(Layout::interface_order()[raw_layout as int]),
        status != CUBEB_OK ==> r == Err::<Layout, Error>(Error::of_code(status).unwrap()),
{
    match Error::cubeb(status) {
        Some(error) => Err(error),
        None => Ok(Layout::from_raw(raw_layout)),
    }
}

} // verus!
