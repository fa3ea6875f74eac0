//! What the server decides while it starts.

use vstd::prelude::*;

use crate::error::{CauseView, Error, ErrorView, Report, ReportView};
use crate::model::result_view;

verus! {

/// What to do when the configured address cannot be bound: where it is in
/// use, go on and bind the address of the command line instead; any other
/// failure is an internal error.
pub fn after_bind_failure(address_in_use: bool) -> (outcome: Result<(), Report>)
    ensures
        result_view(outcome) == (if address_in_use {
            Ok::<(), ReportView>(())
        } else {
            Err::<(), ReportView>(ReportView::of(CauseView::General(ErrorView::InternalServerError)))
        }),
{
    if address_in_use {
        Ok(())
    } else {
        Err(Report::from(Error::InternalServerError))
    }
}

} // verus!
