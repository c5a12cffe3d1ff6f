use vstd::prelude::*;

use crate::files::{prepared_wf, record_of_upload, s3_key_spec, PreparedUpload};
use crate::models::FileRecord;
use crate::text::{nat_decimal, u64_to_decimal};

verus! {

/// The stored objects that no file record accounts for, in store order.
pub open spec fn orphans_spec(known: Seq<Seq<char>>, stored: Seq<Seq<char>>) -> Seq<Seq<char>> {
    stored.filter(|k: Seq<char>| !known.contains(k))
}

fn contains_key(known: &Vec<String>, key: &String) -> (r: bool)
    ensures
        r == known.deep_view().contains(key@),
{
    let mut i: usize = 0;
    while i < known.len()
        invariant
            i <= known@.len(),
            forall|j: int| 0 <= j < i ==> known.deep_view()[j] != key@,
        decreases known@.len() - i,
    {
        if known[i].eq(key) {
            assert(known.deep_view()[i as int] == key@);
            return true;
        }
        i = i + 1;
    }
    false
}

/// The object keys that no file record accounts for: those stored but not
/// among the records' keys, in the order the store listed them.
pub fn orphan_keys(known: &Vec<String>, stored: &Vec<String>) -> (orphans: Vec<String>)
    ensures
        orphans.deep_view() == orphans_spec(known.deep_view(), stored.deep_view()),
{
    let ghost pred = |k: Seq<char>| !known.deep_view().contains(k);
    let mut orphans: Vec<String> = Vec::new();
    let mut i: usize = 0;
    while i < stored.len()
        invariant
            i <= stored@.len(),
            pred == (|k: Seq<char>| !known.deep_view().contains(k)),
            orphans.deep_view() == stored.deep_view().take(i as int).filter(pred),
        decreases stored@.len() - i,
    {
        let ghost prefix = stored.deep_view().take(i as int);
        assert(stored.deep_view().take(i + 1) =~= prefix.push(stored.deep_view()[i as int]));
        proof {
            prefix.lemma_filter_push(stored.deep_view()[i as int], pred);
        }
        if !contains_key(known, &stored[i]) {
            let ghost before = orphans.deep_view();
            orphans.push(stored[i].clone());
            assert(orphans.deep_view() =~= before.push(stored.deep_view()[i as int]));
        }
        i = i + 1;
    }
    assert(stored.deep_view().take(stored@.len() as int) =~= stored.deep_view());
    orphans
}

/// The error text of a synchronisation in which deletions failed.
pub open spec fn sync_failure_message(failed: nat) -> Seq<char> {
    nat_decimal(failed) + " orphan deletion(s) failed"@
}

/// The outcome of removing orphans: success when every deletion succeeded,
/// else an error that gives the number of failures.
pub fn sync_outcome(failed: usize) -> (r: Result<(), String>)
    ensures
        r is Ok <==> failed == 0,
        r matches Err(m) ==> m@ == sync_failure_message(failed as nat),
{
    if failed > 0 {
        let mut m = u64_to_decimal(failed as u64);
        m.append(" orphan deletion(s) failed");
        Err(m)
    } else {
        Ok(())
    }
}

/// Synchronisation never removes an object that a file record accounts
/// for, and removes every object that none accounts for.
pub proof fn lemma_orphans_exactly_unknown(known: Seq<Seq<char>>, stored: Seq<Seq<char>>, key: Seq<char>)
    ensures
        orphans_spec(known, stored).contains(key) <==> (stored.contains(key) && !known.contains(key)),
{
    broadcast use vstd::seq_lib::group_filter_ensures;

    let pred = |k: Seq<char>| !known.contains(k);
    let orphans = stored.filter(pred);
    if orphans.contains(key) {
        let i = choose|i: int| 0 <= i < orphans.len() && orphans[i] == key;
        stored.lemma_filter_contains_rev(pred, key);
        assert(pred(orphans[i]));
    }
    if stored.contains(key) && !known.contains(key) {
        stored.lemma_filter_contains_rev(pred, key);
        let i = choose|i: int| 0 <= i < stored.len() && stored[i] == key;
    }
}

/// An uploaded object survives synchronisation: once its record is among
/// the records whose keys are known, the object stored under the upload's
/// key is not an orphan.
pub proof fn lemma_uploaded_object_survives_sync(
    p: PreparedUpload,
    r: FileRecord,
    etag: Seq<char>,
    known: Seq<Seq<char>>,
    stored: Seq<Seq<char>>,
)
    requires
        prepared_wf(p),
        record_of_upload(r, p, etag),
        known.contains(s3_key_spec(r.path@, r.name@)),
    ensures
        s3_key_spec(r.path@, r.name@) == p.s3_key@,
        !orphans_spec(known, stored).contains(p.s3_key@),
{
    lemma_orphans_exactly_unknown(known, stored, p.s3_key@);
}

} // verus!
