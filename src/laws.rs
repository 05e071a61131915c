use vstd::prelude::*;
use crate::address::{same_address, trim_of};
use crate::record::{is_stale, stale_patches, DnsRecord};
use crate::reconcile::{initial_run, Action, Outcome, Phase, RunView};

verus! {

/// When the discovered and the stored address agree, the first step ends the
/// run: nothing is stored and the provider is never contacted.
pub proof fn unchanged_address_is_noop(current: Seq<char>, previous: Seq<char>, credential: bool)
    requires
        same_address(current, previous),
    ensures
        initial_run(current, previous, credential).on_start().1 == Action::Finish(
            Outcome::Unchanged,
        ),
        initial_run(current, previous, credential).on_start().0.phase == Phase::Done,
{
}

/// When the addresses differ, the first thing asked for is to store the new
/// (trimmed) address, before any contact with the provider.
pub proof fn changed_address_is_stored_first(
    current: Seq<char>,
    previous: Seq<char>,
    credential: bool,
)
    requires
        !same_address(current, previous),
    ensures
        initial_run(current, previous, credential).on_start().1 == Action::Save,
        initial_run(current, previous, credential).on_start().0.current == trim_of(current),
        initial_run(current, previous, credential).on_start().0.phase == Phase::Saving,
{
}

/// No step after the start asks to store the address again, whatever the
/// store, the provider or the updates reported: the address is stored at most
/// once per run.
pub proof fn store_is_asked_once(s: RunView, ok: bool, records: Seq<DnsRecord>)
    ensures
        s.on_saved(ok).1 != Action::Save,
        s.on_listed(records).1 != Action::Save,
        s.on_list_failed().1 != Action::Save,
        s.on_updated(ok).1 != Action::Save,
{
}

/// Without a credential a changed address is stored and the run ends there,
/// with no listing and no update.
pub proof fn missing_credential_stays_local(current: Seq<char>, previous: Seq<char>, ok: bool)
    requires
        !same_address(current, previous),
    ensures
        initial_run(current, previous, false).on_start().1 == Action::Save,
        initial_run(current, previous, false).on_start().0.on_saved(ok).1 == Action::Finish(
            if ok {
                Outcome::LocalOnly
            } else {
                Outcome::StorageFailed
            },
        ),
{
}

/// A second run with the same discovered address, after the first one stored
/// its address, does nothing.
pub proof fn second_run_is_noop(
    current: Seq<char>,
    previous: Seq<char>,
    credential: bool,
    first: RunView,
    credential_again: bool,
)
    requires
        first == initial_run(current, previous, credential).on_start().0,
        first.well_formed(),
    ensures
        initial_run(current, first.current, credential_again).on_start().1 == Action::Finish(
            Outcome::Unchanged,
        ),
{
}

/// A failed update does not stop the run: the next pending update is asked
/// for exactly as after a success, and the failure is recorded.
pub proof fn failed_update_does_not_stop_run(s: RunView)
    requires
        s.well_formed(),
        s.phase == Phase::Updating,
    ensures
        s.on_updated(false).1 == s.on_updated(true).1,
        s.on_updated(false).0.next == s.next + 1,
        s.on_updated(false).0.failed == s.failed.push(s.queue[s.next as int].id),
        s.next + 1 < s.queue.len() ==> s.on_updated(false).1 == Action::Update(
            (s.next + 1) as usize,
        ),
{
}

proof fn patches_come_from_stale_records(
    records: Seq<DnsRecord>,
    previous: Seq<char>,
    current: Seq<char>,
)
    ensures
        forall|j: int|
            #![trigger stale_patches(records, previous, current)[j]]
            0 <= j < stale_patches(records, previous, current).len() ==> {
                &&& stale_patches(records, previous, current)[j].data == current
                &&& exists|i: int|
                    0 <= i < records.len() && records[i].id == stale_patches(
                        records,
                        previous,
                        current,
                    )[j].id && records[i].kind@ == stale_patches(records, previous, current)[j].kind
                        && is_stale(#[trigger] records[i], previous)
            },
    decreases records.len(),
{
    if records.len() > 0 {
        let rest = records.drop_last();
        let last_at = records.len() - 1;
        let q = stale_patches(records, previous, current);
        let qr = stale_patches(rest, previous, current);
        patches_come_from_stale_records(rest, previous, current);
        assert forall|j: int| 0 <= j < q.len() implies {
            &&& q[j].data == current
            &&& exists|i: int|
                0 <= i < records.len() && records[i].id == q[j].id && records[i].kind@ == q[j].kind
                    && is_stale(#[trigger] records[i], previous)
        } by {
            if j < qr.len() {
                assert(q[j] == qr[j]);
                let i = choose|i: int|
                    0 <= i < rest.len() && rest[i].id == qr[j].id && rest[i].kind@ == qr[j].kind
                        && is_stale(#[trigger] rest[i], previous);
                assert(records[i] == rest[i]);
            } else {
                assert(records[last_at] == records.last());
            }
        }
    }
}

proof fn stale_records_get_patches(
    records: Seq<DnsRecord>,
    previous: Seq<char>,
    current: Seq<char>,
)
    ensures
        forall|i: int|
            0 <= i < records.len() && is_stale(#[trigger] records[i], previous) ==> exists|j: int|
                0 <= j < stale_patches(records, previous, current).len() && #[trigger] stale_patches(
                    records,
                    previous,
                    current,
                )[j].id == records[i].id,
    decreases records.len(),
{
    if records.len() > 0 {
        let rest = records.drop_last();
        let last_at = records.len() - 1;
        let q = stale_patches(records, previous, current);
        let qr = stale_patches(rest, previous, current);
        stale_records_get_patches(rest, previous, current);
        assert forall|i: int|
            0 <= i < records.len() && is_stale(#[trigger] records[i], previous) implies exists|
            j: int,
        | 0 <= j < q.len() && #[trigger] q[j].id == records[i].id by {
            if i < last_at {
                assert(records[i] == rest[i]);
                let j = choose|j: int| 0 <= j < qr.len() && #[trigger] qr[j].id == rest[i].id;
                assert(q[j] == qr[j]);
            } else {
                assert(q[qr.len() as int].id == records[i].id);
            }
        }
    }
}

/// Every patch sets a listed, stale record (same id and type) to the current
/// address; with ids unique, a record gets a patch exactly when it is stale,
/// so records holding any other address are not touched.
pub proof fn only_stale_records_are_patched(
    records: Seq<DnsRecord>,
    previous: Seq<char>,
    current: Seq<char>,
)
    requires
        forall|i: int, j: int|
            0 <= i < j < records.len() ==> records[i].id != records[j].id,
    ensures
        forall|j: int|
            #![trigger stale_patches(records, previous, current)[j]]
            0 <= j < stale_patches(records, previous, current).len() ==> {
                &&& stale_patches(records, previous, current)[j].data == current
                &&& exists|i: int|
                    0 <= i < records.len() && records[i].id == stale_patches(
                        records,
                        previous,
                        current,
                    )[j].id && records[i].kind@ == stale_patches(records, previous, current)[j].kind
                        && is_stale(#[trigger] records[i], previous)
            },
        forall|i: int|
            0 <= i < records.len() ==> (is_stale(#[trigger] records[i], previous) <==> exists|
                j: int,
            |
                0 <= j < stale_patches(records, previous, current).len() && #[trigger] stale_patches(
                    records,
                    previous,
                    current,
                )[j].id == records[i].id),
{
    let q = stale_patches(records, previous, current);
    patches_come_from_stale_records(records, previous, current);
    stale_records_get_patches(records, previous, current);
    assert forall|i: int|
        0 <= i < records.len() && (exists|j: int| 0 <= j < q.len() && #[trigger] q[j].id
            == records[i].id) implies is_stale(#[trigger] records[i], previous) by {
        let j = choose|j: int| 0 <= j < q.len() && #[trigger] q[j].id == records[i].id;
        let k = choose|k: int|
            0 <= k < records.len() && records[k].id == q[j].id && records[k].kind@ == q[j].kind
                && is_stale(#[trigger] records[k], previous);
        if k != i {
            if k < i {
                assert(records[k].id != records[i].id);
            } else {
                assert(records[i].id != records[k].id);
            }
        }
    }
}

} // verus!
