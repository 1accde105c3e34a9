use vstd::prelude::*;

verus! {

/// The recoverable error conditions of the database.
///
/// Both conditions are explicit return values, never silent: the caller
/// decides whether to retry, drop an observer, or treat the condition as
/// fatal. No retries are performed internally.
#[derive(Debug, Clone, Copy, PartialEq, Eq, Structural)]
pub enum DatabaseError {
    /// Registration was attempted while every subscriber slot of the subset
    /// was already taken.
    SubscriberOverflow,
    /// `notify_subscribers` was attempted while the subscriber registry lock
    /// was held by an overlapping call. The pending changes observed by the
    /// failed call are restored, so nothing is lost by retrying later.
    SubscriberLock,
}

} // verus!
