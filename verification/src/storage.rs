//! The rules that every store of the hub keeps, whatever it keeps the
//! ledger in: how uses are counted, and how the applications are paged.

use vstd::prelude::*;

verus! {

/// Why a store gives no answer.
#[derive(Debug, Clone, Copy, PartialEq, Eq)]
pub enum Error {
    /// It does not hold what was asked for.
    NotFound,
    /// The page starts behind the last application.
    IndexOutOfBounds,
    /// A counter is at its end.
    CounterOverflow,
}

impl Error {
    /// The words for this error.
    pub fn message(&self) -> (words: String)
        ensures
            self is NotFound ==> words@ == "not found"@,
            self is IndexOutOfBounds ==> words@ == "index out of bounds"@,
            self is CounterOverflow ==> words@ == "counter overflow"@,
    {
        match self {
            Error::NotFound => "not found".to_owned(),
            Error::IndexOutOfBounds => "index out of bounds".to_owned(),
            Error::CounterOverflow => "counter overflow".to_owned(),
        }
    }
}

/// The counters that one use of a referral code at an application
/// touches.
#[derive(Debug, Clone, Copy, PartialEq, Eq)]
pub struct Invocations {
    /// How often the code was used at the application.
    pub by_referrer: u64,
    /// How often any code was used at the application.
    pub total: u64,
    /// How many different codes were used at the application.
    pub discrete_referrers: u64,
}

/// Whether one more use can be counted: none of the counters that it
/// raises is at its end.
pub open spec fn can_count(before: Invocations) -> bool {
    &&& before.by_referrer < u64::MAX
    &&& before.total < u64::MAX
    &&& before.by_referrer == 0 ==> before.discrete_referrers < u64::MAX
}

/// The counters once one more use is counted: the code's and the
/// application's go up by one, and the number of different codes goes up
/// where this code was not used at the application before.
pub open spec fn counted(before: Invocations) -> Invocations {
    Invocations {
        by_referrer: (before.by_referrer + 1) as u64,
        total: (before.total + 1) as u64,
        discrete_referrers: if before.by_referrer == 0 {
            (before.discrete_referrers + 1) as u64
        } else {
            before.discrete_referrers
        },
    }
}

/// Counts one more use, if no counter is at its end.
pub fn count_invocation(before: Invocations) -> (after: Result<Invocations, Error>)
    ensures
        after is Ok <==> can_count(before),
        after matches Ok(counters) ==> counters == counted(before),
        after matches Err(e) ==> e == Error::CounterOverflow,
{
    if before.by_referrer == u64::MAX || before.total == u64::MAX || (before.by_referrer == 0
        && before.discrete_referrers == u64::MAX) {
        return Err(Error::CounterOverflow);
    }
    Ok(
        Invocations {
            by_referrer: before.by_referrer + 1,
            total: before.total + 1,
            discrete_referrers: if before.by_referrer == 0 {
                before.discrete_referrers + 1
            } else {
                before.discrete_referrers
            },
        },
    )
}

/// The place that an application gets when it registers for the first
/// time: the one after the last place given, or the first.
pub fn next_index(last_index: Option<u64>) -> (index: Result<u64, Error>)
    ensures
        last_index is None ==> index == Ok::<u64, Error>(0),
        last_index matches Some(last) ==> (if last < u64::MAX {
            index == Ok::<u64, Error>((last + 1) as u64)
        } else {
            index == Err::<u64, Error>(Error::CounterOverflow)
        }),
{
    match last_index {
        None => Ok(0),
        Some(last) => match last.checked_add(1) {
            Some(index) => Ok(index),
            None => Err(Error::CounterOverflow),
        },
    }
}

/// The place at which a page starts.
pub open spec fn page_start(start: Option<u64>) -> int {
    match start {
        Some(start) => start as int,
        None => 0,
    }
}

/// The place at which a page ends, among `count` applications: `limit`
/// places after its start, or the last place where no limit is given or
/// the limit leads past it.
pub open spec fn page_end(count: int, start: Option<u64>, limit: Option<u64>) -> int {
    match limit {
        Some(limit) => if page_start(start) + limit < count - 1 {
            page_start(start) + limit
        } else {
            count - 1
        },
        None => count - 1,
    }
}

/// The first and the last place of one page among `count` applications.
/// `Ok(None)`: there are no applications, and the page is empty.
/// `Err(IndexOutOfBounds)`: the page would start behind the last one.
pub fn page_bounds(count: u64, start: Option<u64>, limit: Option<u64>) -> (bounds: Result<
    Option<(u64, u64)>,
    Error,
>)
    ensures
        count == 0 ==> bounds == Ok::<Option<(u64, u64)>, Error>(None),
        count > 0 && page_start(start) >= count ==> bounds == Err::<Option<(u64, u64)>, Error>(
            Error::IndexOutOfBounds,
        ),
        count > 0 && page_start(start) < count ==> (bounds matches Ok(Some((first, last)))
            && first == page_start(start) && last == page_end(count as int, start, limit)
            && first <= last < count),
{
    if count == 0 {
        return Ok(None);
    }
    let last_index: u64 = count - 1;
    let first: u64 = match start {
        Some(start) => start,
        None => 0,
    };
    if first > last_index {
        return Err(Error::IndexOutOfBounds);
    }
    let last: u64 = match limit {
        Some(limit) => match first.checked_add(limit) {
            Some(end) => if end < last_index {
                end
            } else {
                last_index
            },
            None => last_index,
        },
        None => last_index,
    };
    Ok(Some((first, last)))
}

} // verus!
