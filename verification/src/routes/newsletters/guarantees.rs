//! What holds of every finished batch, whatever the directory held and
//! whatever the transport answered.

use crate::routes::newsletters::delivery::agrees;
use crate::routes::newsletters::delivery::batch_result;
use crate::routes::newsletters::delivery::delivery_of;
use crate::routes::newsletters::delivery::failure_report;
use crate::routes::newsletters::delivery::has_failure;
use crate::routes::newsletters::delivery::is_complete;
use crate::routes::newsletters::delivery::names_recipient;
use crate::routes::newsletters::delivery::next_recipient;
use crate::routes::newsletters::delivery::send_failure_prefix;
use crate::routes::newsletters::delivery::Delivery;
use crate::routes::newsletters::subscribers::Entry;
use crate::routes::newsletters::PublishFailure;
use vstd::prelude::*;

verus! {

/// The number of malformed addresses in a directory.
pub open spec fn malformed_count(directory: Seq<Entry>) -> nat
    decreases directory.len(),
{
    if directory.len() == 0 {
        0
    } else {
        malformed_count(directory.drop_last()) + if directory.last() is Err {
            1nat
        } else {
            0nat
        }
    }
}

/// The number of subscribers that were skipped.
pub open spec fn skipped_count(deliveries: Seq<Delivery>) -> nat
    decreases deliveries.len(),
{
    if deliveries.len() == 0 {
        0
    } else {
        skipped_count(deliveries.drop_last()) + if deliveries.last() is SkippedInvalidAddress {
            1nat
        } else {
            0nat
        }
    }
}

/// The number of subscribers that received the issue.
pub open spec fn delivered_count(deliveries: Seq<Delivery>) -> nat
    decreases deliveries.len(),
{
    if deliveries.len() == 0 {
        0
    } else {
        delivered_count(deliveries.drop_last()) + if deliveries.last() is Delivered {
            1nat
        } else {
            0nat
        }
    }
}

/// The number of sends that failed.
pub open spec fn failed_count(deliveries: Seq<Delivery>) -> nat
    decreases deliveries.len(),
{
    if deliveries.len() == 0 {
        0
    } else {
        failed_count(deliveries.drop_last()) + if deliveries.last() is Failed {
            1nat
        } else {
            0nat
        }
    }
}

/// Whether `part` occurs in `text`.
pub open spec fn mentions(text: Seq<char>, part: Seq<char>) -> bool {
    exists|at: int| occurs_at(text, part, at)
}

/// Whether `part` occurs in `text` at position `at`.
pub open spec fn occurs_at(text: Seq<char>, part: Seq<char>, at: int) -> bool {
    0 <= at && at + part.len() <= text.len() && text.subrange(at, at + part.len()) == part
}

/// In a finished batch exactly the malformed addresses are skipped, and
/// every other subscriber was written to: the sends that succeeded and
/// those that failed add up to the number of valid addresses.
pub proof fn lemma_outcome_counts(directory: Seq<Entry>, deliveries: Seq<Delivery>)
    requires
        is_complete(directory, deliveries),
    ensures
        skipped_count(deliveries) == malformed_count(directory),
        delivered_count(deliveries) + failed_count(deliveries) + malformed_count(directory)
            == directory.len(),
    decreases directory.len(),
{
    if directory.len() > 0 {
        let last = directory.len() - 1;
        assert(agrees(directory[last], deliveries[last]));
        assert forall|i: int| 0 <= i < deliveries.drop_last().len() implies agrees(
            directory.drop_last()[i],
            #[trigger] deliveries.drop_last()[i],
        ) by {
            assert(agrees(directory[i], deliveries[i]));
        }
        lemma_outcome_counts(directory.drop_last(), deliveries.drop_last());
    }
}

/// No send failed exactly where the count of failed sends is zero.
pub proof fn lemma_failed_count(deliveries: Seq<Delivery>)
    ensures
        has_failure(deliveries) <==> failed_count(deliveries) > 0,
    decreases deliveries.len(),
{
    if deliveries.len() > 0 {
        let earlier = deliveries.drop_last();
        lemma_failed_count(earlier);
        if has_failure(earlier) {
            let j = choose|j: int| 0 <= j < earlier.len() && (#[trigger] earlier[j]) is Failed;
            assert(deliveries[j] is Failed);
        }
        if has_failure(deliveries) {
            let j = choose|j: int| 0 <= j < deliveries.len() && (#[trigger] deliveries[j]) is Failed;
            if j < earlier.len() {
                assert(earlier[j] is Failed);
            }
        }
        if deliveries.last() is Failed {
            assert(deliveries[deliveries.len() - 1] is Failed);
        }
    }
}

/// One malformed address among valid ones costs nothing but itself: where
/// the directory holds exactly one malformed address and the transport
/// accepts every message, every other subscriber receives the issue, the
/// malformed one is the only one skipped, and the batch succeeds.
pub proof fn lemma_one_malformed_address_is_isolated(
    directory: Seq<Entry>,
    deliveries: Seq<Delivery>,
)
    requires
        is_complete(directory, deliveries),
        malformed_count(directory) == 1,
        !has_failure(deliveries),
    ensures
        delivered_count(deliveries) == directory.len() - 1,
        skipped_count(deliveries) == 1,
        batch_result(deliveries) is Ok,
{
    lemma_outcome_counts(directory, deliveries);
    lemma_failed_count(deliveries);
}

/// A finished batch succeeds exactly where every subscriber with a valid
/// address received the issue.
pub proof fn lemma_success_means_everyone_received(
    directory: Seq<Entry>,
    deliveries: Seq<Delivery>,
)
    requires
        is_complete(directory, deliveries),
    ensures
        batch_result(deliveries) is Ok <==> forall|i: int|
            0 <= i < directory.len() && directory[i] is Ok ==> (#[trigger] deliveries[i])
                is Delivered,
{
    if batch_result(deliveries) is Ok {
        assert forall|i: int| 0 <= i < directory.len() && directory[i] is Ok implies (
        #[trigger] deliveries[i]) is Delivered by {
            assert(agrees(directory[i], deliveries[i]));
        }
    } else {
        let k = choose|k: int| 0 <= k < deliveries.len() && (#[trigger] deliveries[k]) is Failed;
        assert(agrees(directory[k], deliveries[k]));
    }
}

/// The report of a batch holds the reason of each failed send.
pub proof fn lemma_report_holds_reason(deliveries: Seq<Delivery>, k: int)
    requires
        0 <= k < deliveries.len(),
        deliveries[k] is Failed,
    ensures
        mentions(failure_report(deliveries), deliveries[k]->Failed_0),
    decreases deliveries.len(),
{
    let reason = deliveries[k]->Failed_0;
    let report = failure_report(deliveries);
    let earlier = deliveries.drop_last();
    if k == deliveries.len() - 1 {
        let at = report.len() - reason.len();
        assert(report.subrange(at, at + reason.len()) =~= reason);
        assert(occurs_at(report, reason, at));
    } else {
        assert(earlier[k] is Failed);
        lemma_report_holds_reason(earlier, k);
        let at = choose|at: int| occurs_at(failure_report(earlier), reason, at);
        assert(report.subrange(at, at + reason.len()) =~= failure_report(earlier).subrange(
            at,
            at + reason.len(),
        ));
        assert(occurs_at(report, reason, at));
    }
}

/// A failed send neither ends the batch nor goes unreported: where the
/// send to the subscriber at `k` failed, every valid address after it was
/// still written to, and the batch fails with an error whose text holds
/// the address of that subscriber.
pub proof fn lemma_failure_is_isolated_and_reported(
    directory: Seq<Entry>,
    deliveries: Seq<Delivery>,
    k: int,
)
    requires
        is_complete(directory, deliveries),
        0 <= k < deliveries.len(),
        deliveries[k] is Failed,
    ensures
        directory[k] is Ok,
        forall|j: int|
            k < j < directory.len() && directory[j] is Ok ==> (#[trigger] deliveries[j])
                is Delivered || deliveries[j] is Failed,
        batch_result(deliveries) matches Err(PublishFailure::UnexpectedError(report)) && mentions(
            report,
            directory[k]->Ok_0,
        ),
{
    assert(agrees(directory[k], deliveries[k]));
    assert forall|j: int| k < j < directory.len() && directory[j] is Ok implies (
    #[trigger] deliveries[j]) is Delivered || deliveries[j] is Failed by {
        assert(agrees(directory[j], deliveries[j]));
    }
    let reason = deliveries[k]->Failed_0;
    let address = directory[k]->Ok_0;
    let report = failure_report(deliveries);
    lemma_report_holds_reason(deliveries, k);
    let at = choose|at: int| occurs_at(report, reason, at);
    let start = send_failure_prefix().len() as int;
    assert(names_recipient(reason, address));
    assert(report.subrange(at + start, at + start + address.len()) =~= reason.subrange(
        start,
        start + address.len(),
    ));
    assert(occurs_at(report, address, at + start));
}

/// Who is written to next does not depend on how the transport answered:
/// after a failed send the batch goes on with the same recipient as after
/// a successful one.
pub proof fn lemma_next_recipient_ignores_answer(
    directory: Seq<Entry>,
    decided: Seq<Delivery>,
    address: Seq<char>,
    cause: Seq<char>,
)
    ensures
        next_recipient(directory, decided.push(delivery_of(address, Err(cause))).len())
            == next_recipient(directory, decided.push(delivery_of(address, Ok(()))).len()),
{
}

} // verus!
