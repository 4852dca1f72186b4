//! Delivery of one issue to a list of subscribers.
//!
//! Sending a message is the caller's work. The caller is told whom to write
//! to next, reports how the transport answered, and is told the next
//! recipient in turn, until every subscriber has an outcome. A malformed
//! address or a failed send never ends the batch.

use crate::domain::subscriber_email::SubscriberEmail;
use crate::routes::newsletters::subscribers::directory_view;
use crate::routes::newsletters::subscribers::ConfirmedSubscriber;
use crate::routes::newsletters::subscribers::Entry;
use crate::routes::newsletters::BodyData;
use crate::routes::newsletters::PublishError;
use crate::routes::newsletters::PublishFailure;
use vstd::prelude::*;
use vstd::string::StringExecFns;

verus! {

/// What became of the issue for one subscriber.
#[derive(Debug, PartialEq, Eq)]
pub enum DeliveryOutcome {
    /// The transport accepted the message.
    Delivered,
    /// The stored address is malformed; nothing was sent. Holds the reason.
    SkippedInvalidAddress(String),
    /// The transport refused the message. Holds the reason, which names the
    /// recipient.
    Failed(String),
}

/// A `DeliveryOutcome` with its reason as a sequence of characters.
pub enum Delivery {
    Delivered,
    SkippedInvalidAddress(Seq<char>),
    Failed(Seq<char>),
}

impl View for DeliveryOutcome {
    type V = Delivery;

    open spec fn view(&self) -> Delivery {
        match self {
            DeliveryOutcome::Delivered => Delivery::Delivered,
            DeliveryOutcome::SkippedInvalidAddress(reason) => Delivery::SkippedInvalidAddress(
                reason@,
            ),
            DeliveryOutcome::Failed(reason) => Delivery::Failed(reason@),
        }
    }
}

/// The outcomes of a list, each by its view.
pub open spec fn deliveries_view(outcomes: Seq<DeliveryOutcome>) -> Seq<Delivery> {
    Seq::new(outcomes.len(), |i: int| outcomes[i]@)
}

/// What the transport answered, with its error as a sequence of characters.
pub open spec fn answer_view(sent: Result<(), String>) -> Result<(), Seq<char>> {
    match sent {
        Ok(()) => Ok(()),
        Err(cause) => Err(cause@),
    }
}

/// The words that open the reason of every failed send.
pub open spec fn send_failure_prefix() -> Seq<char> {
    "Failed to send newsletter issue to "@
}

/// The reason recorded for a send to `address` that failed with `cause`.
pub open spec fn send_failure_reason(address: Seq<char>, cause: Seq<char>) -> Seq<char> {
    send_failure_prefix() + address + ": "@ + cause
}

/// Whether `reason` is the reason of a failed send to `address`: it opens
/// with the fixed words, and the address follows them.
pub open spec fn names_recipient(reason: Seq<char>, address: Seq<char>) -> bool {
    let start = send_failure_prefix().len() as int;
    &&& reason.len() >= start + address.len()
    &&& reason.subrange(0, start) == send_failure_prefix()
    &&& reason.subrange(start, start + address.len()) == address
}

/// The outcome for a subscriber at `address`, given the transport's answer.
pub open spec fn delivery_of(address: Seq<char>, sent: Result<(), Seq<char>>) -> Delivery {
    match sent {
        Ok(()) => Delivery::Delivered,
        Err(cause) => Delivery::Failed(send_failure_reason(address, cause)),
    }
}

/// Whether an outcome is one that the entry allows: a malformed address is
/// skipped with its reason; a valid one was attempted, and either delivered
/// or failed with a reason that names it.
pub open spec fn agrees(entry: Entry, delivery: Delivery) -> bool {
    match entry {
        Err(reason) => delivery == Delivery::SkippedInvalidAddress(reason),
        Ok(address) => delivery is Delivered || (delivery matches Delivery::Failed(reason)
            && names_recipient(reason, address)),
    }
}

/// Whether `deliveries` are outcomes for the first entries of `directory`,
/// one for each, in order.
pub open spec fn is_consistent(directory: Seq<Entry>, deliveries: Seq<Delivery>) -> bool {
    &&& deliveries.len() <= directory.len()
    &&& forall|i: int| 0 <= i < deliveries.len() ==> agrees(directory[i], #[trigger] deliveries[i])
}

/// Whether `deliveries` are outcomes for all of `directory`.
pub open spec fn is_complete(directory: Seq<Entry>, deliveries: Seq<Delivery>) -> bool {
    is_consistent(directory, deliveries) && deliveries.len() == directory.len()
}

/// The position of the first valid address at or after `from`, or the
/// length of the directory if there is none.
pub open spec fn next_valid(directory: Seq<Entry>, from: int) -> int
    decreases directory.len() - from,
{
    if from < 0 || from >= directory.len() {
        directory.len() as int
    } else if directory[from] is Ok {
        from
    } else {
        next_valid(directory, from + 1)
    }
}

/// The outcomes of the entries from `from` up to `to`, where all of them
/// are malformed.
pub open spec fn skipped(directory: Seq<Entry>, from: int, to: int) -> Seq<Delivery> {
    Seq::new(
        (to - from) as nat,
        |i: int| Delivery::SkippedInvalidAddress(directory[from + i]->Err_0),
    )
}

/// The recipient of the next message once `decided` entries have their
/// outcome, if any valid address is left. It depends on how many outcomes
/// there are, not on what they are.
pub open spec fn next_recipient(directory: Seq<Entry>, decided: nat) -> Option<Seq<char>> {
    let next = next_valid(directory, decided as int);
    if next < directory.len() {
        Some(directory[next]->Ok_0)
    } else {
        None
    }
}

/// `next_valid` stops at a valid address, and skips malformed ones only.
pub proof fn lemma_next_valid(directory: Seq<Entry>, from: int)
    requires
        0 <= from <= directory.len(),
    ensures
        from <= next_valid(directory, from) <= directory.len(),
        next_valid(directory, from) < directory.len() ==> directory[next_valid(
            directory,
            from,
        )] is Ok,
        forall|j: int| from <= j < next_valid(directory, from) ==> (#[trigger] directory[j]) is Err,
    decreases directory.len() - from,
{
    if from < directory.len() && directory[from] is Err {
        lemma_next_valid(directory, from + 1);
    }
}

#[derive(Debug)]
struct Batch {
    issue: BodyData,
    subscribers: Vec<Result<ConfirmedSubscriber, String>>,
    outcomes: Vec<DeliveryOutcome>,
}

impl Batch {
    spec fn directory(self) -> Seq<Entry> {
        directory_view(self.subscribers@)
    }

    spec fn deliveries(self) -> Seq<Delivery> {
        deliveries_view(self.outcomes@)
    }
}

/// One message for the transport: the issue, addressed to one recipient.
#[derive(Debug)]
pub struct Email<'a> {
    pub to: &'a SubscriberEmail,
    pub subject: &'a str,
    pub html_body: &'a str,
    pub text_body: &'a str,
}

/// A batch that waits for the answer of the transport: a message to one
/// recipient is due or under way.
#[derive(Debug)]
pub struct PendingSend {
    batch: Batch,
}

/// A batch in which every subscriber has an outcome.
#[derive(Debug)]
pub struct Report {
    batch: Batch,
}

/// What the caller is to do next.
#[derive(Debug)]
pub enum Dispatch {
    /// Send the issue to the recipient of this batch, then record the
    /// transport's answer.
    Send(PendingSend),
    /// Nothing is left to send.
    Done(Report),
}

impl PendingSend {
    #[verifier::type_invariant]
    spec fn has_recipient(self) -> bool {
        &&& is_consistent(self.batch.directory(), self.batch.deliveries())
        &&& self.batch.deliveries().len() < self.batch.directory().len()
        &&& self.batch.directory()[self.batch.deliveries().len() as int] is Ok
    }

    /// The issue that is being sent.
    pub closed spec fn content(self) -> BodyData {
        self.batch.issue
    }

    /// The subscriber directory of the batch.
    pub closed spec fn directory(self) -> Seq<Entry> {
        self.batch.directory()
    }

    /// The outcomes so far, in the order of the directory.
    pub closed spec fn deliveries(self) -> Seq<Delivery> {
        self.batch.deliveries()
    }

    /// The address of the recipient of the message that is due: the first
    /// entry without an outcome.
    pub open spec fn address(self) -> Seq<char> {
        self.directory()[self.deliveries().len() as int]->Ok_0
    }

    /// The issue to send.
    pub fn issue(&self) -> (issue: &BodyData)
        ensures
            *issue == self.content(),
    {
        &self.batch.issue
    }

    /// The recipient to send the issue to.
    pub fn recipient(&self) -> (recipient: &SubscriberEmail)
        ensures
            recipient@ == self.address(),
            self.deliveries().len() < self.directory().len(),
            self.directory()[self.deliveries().len() as int] is Ok,
            is_consistent(self.directory(), self.deliveries()),
    {
        proof {
            use_type_invariant(self);
        }
        let at = self.batch.outcomes.len();
        match &self.batch.subscribers[at] {
            Ok(subscriber) => &subscriber.email,
            Err(_) => {
                proof {
                    assert(false);
                }
                unreached()
            },
        }
    }

    /// The message to hand to the transport: the title and the two bodies
    /// of the issue, each in its place, addressed to the recipient.
    pub fn email(&self) -> (email: Email<'_>)
        ensures
            email.to@ == self.address(),
            email.subject@ == self.content().title@,
            email.html_body@ == self.content().content.html@,
            email.text_body@ == self.content().content.text@,
    {
        let to = self.recipient();
        Email {
            to,
            subject: self.batch.issue.title.as_str(),
            html_body: self.batch.issue.content.html.as_str(),
            text_body: self.batch.issue.content.text.as_str(),
        }
    }

    /// Records how the transport answered for the recipient and moves on:
    /// the recipient gets its outcome, each malformed address that follows
    /// is skipped, and the next valid address, if any, becomes the
    /// recipient. A failed send is recorded like a successful one; it does
    /// not end the batch.
    pub fn record(self, sent: Result<(), String>) -> (dispatch: Dispatch)
        ensures
            dispatch_follows(
                dispatch,
                self.content(),
                self.directory(),
                self.deliveries().push(delivery_of(self.address(), answer_view(sent))),
            ),
    {
        proof {
            use_type_invariant(&self);
        }
        let ghost directory = self.directory();
        let ghost decided = self.deliveries();
        let ghost address = self.address();
        let outcome = match sent {
            Ok(()) => DeliveryOutcome::Delivered,
            Err(cause) => {
                let mut reason = String::from_str("Failed to send newsletter issue to ");
                reason.append(self.recipient().as_ref());
                reason.append(": ");
                reason.append(cause.as_str());
                proof {
                    let start = send_failure_prefix().len() as int;
                    assert(reason@.subrange(0, start) =~= send_failure_prefix());
                    assert(reason@.subrange(start, start + address.len()) =~= address);
                }
                DeliveryOutcome::Failed(reason)
            },
        };
        let mut batch = self.batch;
        batch.outcomes.push(outcome);
        proof {
            let recorded = decided.push(delivery_of(address, answer_view(sent)));
            assert(batch.deliveries() =~= recorded);
            assert(agrees(directory[decided.len() as int], recorded[decided.len() as int]));
        }
        advance(batch)
    }
}

impl Report {
    #[verifier::type_invariant]
    spec fn covers_everyone(self) -> bool {
        is_complete(self.batch.directory(), self.batch.deliveries())
    }

    /// The subscriber directory of the batch.
    pub closed spec fn directory(self) -> Seq<Entry> {
        self.batch.directory()
    }

    /// The outcome of each subscriber, in the order of the directory.
    pub closed spec fn deliveries(self) -> Seq<Delivery> {
        self.batch.deliveries()
    }

    /// The outcome of each subscriber, in the order of the directory.
    pub fn outcomes(&self) -> (outcomes: &Vec<DeliveryOutcome>)
        ensures
            deliveries_view(outcomes@) == self.deliveries(),
            is_complete(self.directory(), self.deliveries()),
    {
        proof {
            use_type_invariant(self);
        }
        &self.batch.outcomes
    }

    /// The result of the batch as a whole: success if no send failed, else
    /// one error that lists the reason of every failed send.
    pub fn result(&self) -> (result: Result<(), PublishError>)
        ensures
            match batch_result(self.deliveries()) {
                Ok(()) => result is Ok,
                Err(failure) => result matches Err(error) && error@ == failure,
            },
    {
        summarize(&self.batch.outcomes)
    }
}

/// What follows once `decided` are the outcomes so far: the malformed
/// addresses up to the next valid one are skipped; then either that
/// address is the recipient of the next message, or, where none is left,
/// the batch is done with an outcome for every entry.
pub open spec fn dispatch_follows(
    dispatch: Dispatch,
    issue: BodyData,
    directory: Seq<Entry>,
    decided: Seq<Delivery>,
) -> bool {
    let next = next_valid(directory, decided.len() as int);
    let deliveries = decided + skipped(directory, decided.len() as int, next);
    match next_recipient(directory, decided.len()) {
        Some(address) => {
            &&& dispatch matches Dispatch::Send(pending)
            &&& pending.content() == issue
            &&& pending.directory() == directory
            &&& pending.deliveries() == deliveries
            &&& pending.address() == address
        },
        None => {
            &&& dispatch matches Dispatch::Done(report)
            &&& report.directory() == directory
            &&& report.deliveries() == deliveries
            &&& is_complete(directory, deliveries)
        },
    }
}

fn advance(start: Batch) -> (dispatch: Dispatch)
    requires
        is_consistent(start.directory(), start.deliveries()),
    ensures
        dispatch_follows(dispatch, start.issue, start.directory(), start.deliveries()),
{
    let ghost directory = start.directory();
    let ghost decided = start.deliveries();
    let mut batch = start;
    proof {
        assert(decided =~= decided + skipped(directory, decided.len() as int, decided.len() as int));
    }
    while batch.outcomes.len() < batch.subscribers.len()
        invariant
            directory == start.directory(),
            decided == start.deliveries(),
            batch.issue == start.issue,
            batch.directory() == directory,
            directory.len() == batch.subscribers.len(),
            batch.deliveries().len() == batch.outcomes.len(),
            is_consistent(directory, batch.deliveries()),
            decided.len() <= batch.deliveries().len(),
            next_valid(directory, decided.len() as int) == next_valid(
                directory,
                batch.deliveries().len() as int,
            ),
            batch.deliveries() == decided + skipped(
                directory,
                decided.len() as int,
                batch.deliveries().len() as int,
            ),
        decreases batch.subscribers.len() - batch.outcomes.len(),
    {
        let at = batch.outcomes.len();
        let ghost before = batch.deliveries();
        let reason = match &batch.subscribers[at] {
            Ok(_) => None,
            Err(reason) => Some(reason.clone()),
        };
        match reason {
            None => {
                proof {
                    assert(directory[at as int] is Ok);
                    assert(next_valid(directory, at as int) == at);
                }
                return Dispatch::Send(PendingSend { batch });
            },
            Some(reason) => {
                batch.outcomes.push(DeliveryOutcome::SkippedInvalidAddress(reason));
                proof {
                    assert(directory[at as int] == Err::<Seq<char>, Seq<char>>(reason@));
                    assert(batch.deliveries() =~= before.push(
                        Delivery::SkippedInvalidAddress(reason@),
                    ));
                    assert(batch.deliveries() =~= decided + skipped(
                        directory,
                        decided.len() as int,
                        at + 1,
                    ));
                }
            },
        }
    }
    Dispatch::Done(Report { batch })
}

/// Starts the delivery of `issue` to `subscribers`, in their order.
pub fn begin(issue: BodyData, subscribers: Vec<Result<ConfirmedSubscriber, String>>) -> (dispatch:
    Dispatch)
    ensures
        dispatch_follows(dispatch, issue, directory_view(subscribers@), Seq::empty()),
{
    let batch = Batch { issue, subscribers, outcomes: Vec::new() };
    assert(batch.deliveries() =~= Seq::empty());
    advance(batch)
}

/// Whether any send failed.
pub open spec fn has_failure(deliveries: Seq<Delivery>) -> bool {
    exists|i: int| 0 <= i < deliveries.len() && (#[trigger] deliveries[i]) is Failed
}

/// The reasons of the failed sends, in order, separated by `; `.
pub open spec fn failure_report(deliveries: Seq<Delivery>) -> Seq<char>
    decreases deliveries.len(),
{
    if deliveries.len() == 0 {
        Seq::empty()
    } else {
        let earlier = failure_report(deliveries.drop_last());
        match deliveries.last() {
            Delivery::Failed(reason) => if has_failure(deliveries.drop_last()) {
                earlier + "; "@ + reason
            } else {
                reason
            },
            _ => earlier,
        }
    }
}

/// The result of a batch with the given outcomes: an error exactly where a
/// send failed, and then one that lists the reason of every failed send.
pub open spec fn batch_result(deliveries: Seq<Delivery>) -> Result<(), PublishFailure> {
    if has_failure(deliveries) {
        Err(PublishFailure::UnexpectedError(failure_report(deliveries)))
    } else {
        Ok(())
    }
}

/// Where no send failed there is nothing to report.
pub proof fn lemma_report_without_failure(deliveries: Seq<Delivery>)
    requires
        !has_failure(deliveries),
    ensures
        failure_report(deliveries) == Seq::<char>::empty(),
    decreases deliveries.len(),
{
    if deliveries.len() > 0 {
        let earlier = deliveries.drop_last();
        assert(!(deliveries[deliveries.len() - 1] is Failed));
        if has_failure(earlier) {
            let j = choose|j: int| 0 <= j < earlier.len() && (#[trigger] earlier[j]) is Failed;
            assert(deliveries[j] is Failed);
        }
        lemma_report_without_failure(earlier);
    }
}

/// Derives the result of a batch from its outcomes.
pub fn summarize(outcomes: &Vec<DeliveryOutcome>) -> (result: Result<(), PublishError>)
    ensures
        match batch_result(deliveries_view(outcomes@)) {
            Ok(()) => result is Ok,
            Err(failure) => result matches Err(error) && error@ == failure,
        },
{
    let ghost deliveries = deliveries_view(outcomes@);
    let mut failed = false;
    let mut report = String::new();
    let mut i: usize = 0;
    proof {
        assert(deliveries.take(0) =~= Seq::empty());
    }
    while i < outcomes.len()
        invariant
            i <= outcomes.len(),
            deliveries == deliveries_view(outcomes@),
            failed == has_failure(deliveries.take(i as int)),
            report@ == failure_report(deliveries.take(i as int)),
        decreases outcomes.len() - i,
    {
        proof {
            let upto = deliveries.take(i as int);
            let next = deliveries.take(i + 1);
            assert(next.drop_last() =~= upto);
            assert(next.last() == deliveries[i as int]);
            if has_failure(next) {
                let j = choose|j: int| 0 <= j < next.len() && (#[trigger] next[j]) is Failed;
                if j < i {
                    assert(upto[j] is Failed);
                }
            }
            if has_failure(upto) {
                let j = choose|j: int| 0 <= j < upto.len() && (#[trigger] upto[j]) is Failed;
                assert(next[j] is Failed);
            }
            if deliveries[i as int] is Failed {
                assert(next[i as int] is Failed);
            }
        }
        match &outcomes[i] {
            DeliveryOutcome::Failed(reason) => {
                if failed {
                    report.append("; ");
                } else {
                    proof {
                        lemma_report_without_failure(deliveries.take(i as int));
                    }
                }
                report.append(reason.as_str());
                failed = true;
            },
            _ => {},
        }
        i = i + 1;
    }
    proof {
        assert(deliveries.take(i as int) =~= deliveries);
    }
    if failed {
        Err(PublishError::UnexpectedError(report))
    } else {
        Ok(())
    }
}

} // verus!
