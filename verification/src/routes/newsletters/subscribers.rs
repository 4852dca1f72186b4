//! The confirmed subscribers, as read from the subscriber directory.

use crate::domain::subscriber_email::invalid_email_message;
use crate::domain::subscriber_email::is_valid_email;
use crate::domain::subscriber_email::SubscriberEmail;
use vstd::prelude::*;

verus! {

/// A subscriber whose stored address is a valid one.
#[derive(Debug)]
pub struct ConfirmedSubscriber {
    pub email: SubscriberEmail,
}

/// A directory entry as the broadcast sees it: the address of a subscriber
/// that can be written to, or the reason why the stored address cannot be
/// used.
pub type Entry = Result<Seq<char>, Seq<char>>;

/// The entry that a stored address becomes.
pub open spec fn entry_of(raw_email: Seq<char>) -> Entry {
    if is_valid_email(raw_email) {
        Ok(raw_email)
    } else {
        Err(invalid_email_message(raw_email))
    }
}

/// A parsed row as an entry.
pub open spec fn entry_view(subscriber: Result<ConfirmedSubscriber, String>) -> Entry {
    match subscriber {
        Ok(confirmed) => Ok(confirmed.email@),
        Err(reason) => Err(reason@),
    }
}

/// The entries of a list of parsed rows.
pub open spec fn directory_view(subscribers: Seq<Result<ConfirmedSubscriber, String>>) -> Seq<
    Entry,
> {
    Seq::new(subscribers.len(), |i: int| entry_view(subscribers[i]))
}

/// The entries of a list of stored addresses.
pub open spec fn directory_of(rows: Seq<String>) -> Seq<Entry> {
    Seq::new(rows.len(), |i: int| entry_of(rows[i]@))
}

/// Validates the stored address of each confirmed subscriber, in the order
/// of the rows. A malformed address is kept as an error in its place; it
/// does not affect the other rows.
pub fn get_confirmed_subscribers(rows: Vec<String>) -> (confirmed_subscribers: Vec<
    Result<ConfirmedSubscriber, String>,
>)
    ensures
        directory_view(confirmed_subscribers@) == directory_of(rows@),
        forall|i: int|
            0 <= i < rows.len() && (#[trigger] directory_of(rows@)[i]) is Ok ==> rows[i]@.contains(
                '@',
            ),
{
    let mut confirmed_subscribers: Vec<Result<ConfirmedSubscriber, String>> = Vec::new();
    let mut i: usize = 0;
    while i < rows.len()
        invariant
            i <= rows.len(),
            confirmed_subscribers.len() == i,
            forall|j: int|
                0 <= j < i ==> entry_view(#[trigger] confirmed_subscribers@[j]) == entry_of(
                    rows@[j]@,
                ),
            forall|j: int|
                0 <= j < i && (#[trigger] directory_of(rows@)[j]) is Ok ==> rows[j]@.contains('@'),
        decreases rows.len() - i,
    {
        let parsed = match SubscriberEmail::parse(rows[i].clone()) {
            Ok(email) => Ok(ConfirmedSubscriber { email }),
            Err(error) => Err(error),
        };
        confirmed_subscribers.push(parsed);
        i = i + 1;
    }
    assert(directory_view(confirmed_subscribers@) =~= directory_of(rows@));
    confirmed_subscribers
}

} // verus!
