use vstd::prelude::*;
use crate::address::{is_same_address, normalize, same_address, trim_of};

verus! {

/// A DNS record as the provider lists it.
#[derive(Clone, Debug)]
pub struct DnsRecord {
    pub id: u64,
    pub kind: String,
    pub data: String,
}

/// Why a listed record could not be read.
#[derive(Clone, Copy, Debug, PartialEq, Eq, Structural)]
pub enum RecordError {
    MissingId,
    MissingType,
    MissingData,
}

/// The single-field change to send for one record.
#[derive(Clone, Debug)]
pub struct RecordUpdate {
    pub id: u64,
    pub kind: String,
    pub data: String,
}

/// Mathematical content of a `RecordUpdate`.
pub ghost struct PatchView {
    pub id: u64,
    pub kind: Seq<char>,
    pub data: Seq<char>,
}

impl View for RecordUpdate {
    type V = PatchView;

    open spec fn view(&self) -> PatchView {
        PatchView { id: self.id, kind: self.kind@, data: self.data@ }
    }
}

/// The mathematical content of a sequence of updates, one for one.
pub open spec fn patch_views(us: Seq<RecordUpdate>) -> Seq<PatchView> {
    us.map_values(|u: RecordUpdate| u@)
}

/// A record still points at the previous address.
pub open spec fn is_stale(r: DnsRecord, previous: Seq<char>) -> bool {
    same_address(r.data@, previous)
}

/// The change that moves a record to the current address, keeping its type.
pub open spec fn patch_for(r: DnsRecord, current: Seq<char>) -> PatchView {
    PatchView { id: r.id, kind: r.kind@, data: current }
}

/// One patch per stale record, in the order the records were listed.
pub open spec fn stale_patches(
    records: Seq<DnsRecord>,
    previous: Seq<char>,
    current: Seq<char>,
) -> Seq<PatchView>
    decreases records.len(),
{
    if records.len() == 0 {
        Seq::empty()
    } else {
        let rest = stale_patches(records.drop_last(), previous, current);
        if is_stale(records.last(), previous) {
            rest.push(patch_for(records.last(), current))
        } else {
            rest
        }
    }
}

impl DnsRecord {
    /// Builds a record from the fields found in a provider payload, with the
    /// type trimmed; the first missing field (id, then type, then data) is
    /// reported.
    pub fn from_fields(id: Option<u64>, kind: Option<String>, data: Option<String>) -> (r: Result<
        DnsRecord,
        RecordError,
    >)
        ensures
            id is None ==> r == Err::<DnsRecord, RecordError>(RecordError::MissingId),
            id is Some && kind is None ==> r == Err::<DnsRecord, RecordError>(
                RecordError::MissingType,
            ),
            id is Some && kind is Some && data is None ==> r == Err::<DnsRecord, RecordError>(
                RecordError::MissingData,
            ),
            id is Some && kind is Some && data is Some ==> {
                &&& r is Ok
                &&& r->Ok_0.id == id->Some_0
                &&& r->Ok_0.kind@ == trim_of(kind->Some_0@)
                &&& r->Ok_0.data == data->Some_0
            },
    {
        match (id, kind, data) {
            (None, _, _) => Err(RecordError::MissingId),
            (Some(_), None, _) => Err(RecordError::MissingType),
            (Some(_), Some(_), None) => Err(RecordError::MissingData),
            (Some(i), Some(k), Some(d)) => Ok(DnsRecord { id: i, kind: normalize(k.as_str()), data: d }),
        }
    }
}

/// The updates to send: every record whose data is the previous address
/// (both trimmed) gets the current address, in listing order; the others
/// get nothing.
pub fn plan_updates(records: &Vec<DnsRecord>, previous: &str, current: &str) -> (r: Vec<
    RecordUpdate,
>)
    ensures
        patch_views(r@) == stale_patches(records@, previous@, current@),
{
    let mut out: Vec<RecordUpdate> = Vec::new();
    let mut i: usize = 0;
    while i < records.len()
        invariant
            i <= records.len(),
            patch_views(out@) == stale_patches(records@.subrange(0, i as int), previous@, current@),
        decreases records.len() - i,
    {
        let rec = &records[i];
        let ghost before = out@;
        if is_same_address(rec.data.as_str(), previous) {
            let u = RecordUpdate { id: rec.id, kind: rec.kind.clone(), data: current.to_owned() };
            out.push(u);
            assert(patch_views(out@) =~= patch_views(before).push(u@));
        }
        assert(records@.subrange(0, i + 1).drop_last() =~= records@.subrange(0, i as int));
        i = i + 1;
    }
    assert(records@.subrange(0, i as int) =~= records@);
    out
}

} // verus!
