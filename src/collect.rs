//! A collection request: the date range and purpose applied to every source
//! of one run.

use vstd::prelude::*;

use crate::config::Config;
use crate::date::CalendarDate;
use crate::protocol::Purpose;

verus! {

pub struct CollectionTask {
    start_date: CalendarDate,
    end_date: CalendarDate,
    mode: Purpose,
}

impl CollectionTask {
    pub closed spec fn spec_start_date(&self) -> CalendarDate {
        self.start_date
    }

    pub closed spec fn spec_end_date(&self) -> CalendarDate {
        self.end_date
    }

    pub closed spec fn spec_mode(&self) -> Purpose {
        self.mode
    }

    /// A request over the given dates; the configuration is not kept.
    pub fn new(start_date: CalendarDate, end_date: CalendarDate, config: Config, mode: Purpose) -> (r: CollectionTask)
        ensures
            r.spec_start_date() == start_date,
            r.spec_end_date() == end_date,
            r.spec_mode() == mode,
    {
        CollectionTask { start_date, end_date, mode }
    }

    /// Starting a request by itself does nothing: the sources are run by
    /// whoever holds the request.
    pub fn start(self) {
    }
}

} // verus!
