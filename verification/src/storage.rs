use vstd::prelude::*;

use crate::text::{trim_both_char, trim_leading, trim_trailing};

verus! {

/// The ETag of a stored object as the records keep it: without the quotes
/// that surround it, empty when the store reports none.
pub open spec fn etag_spec(reported: Option<Seq<char>>) -> Seq<char> {
    match reported {
        Some(e) => trim_trailing(trim_leading(e, '"'), '"'),
        None => Seq::empty(),
    }
}

/// The ETag of a stored object as the records keep it.
pub fn normalize_etag(reported: Option<&str>) -> (e: String)
    ensures
        e@ == etag_spec(
            match reported {
                Some(r) => Some(r@),
                None => None,
            },
        ),
{
    match reported {
        Some(r) => String::from_str(trim_both_char(r, '"')),
        None => String::new(),
    }
}

/// One page of an object listing.
#[derive(Debug)]
pub struct ListPage {
    /// The keys of the page's objects; an object may come without one.
    pub keys: Vec<Option<String>>,
    /// Whether more pages follow, when the store says.
    pub is_truncated: Option<bool>,
    /// The token that fetches the next page, when the store gives one.
    pub next_token: Option<String>,
}

/// The keys that a sequence of optional keys holds, in order.
pub open spec fn present_keys(keys: Seq<Option<String>>) -> Seq<Seq<char>>
    decreases keys.len(),
{
    if keys.len() == 0 {
        Seq::empty()
    } else {
        let rest = present_keys(keys.drop_last());
        match keys.last() {
            Some(k) => rest.push(k@),
            None => rest,
        }
    }
}

/// The token of the next page: given only when the page says more follow.
pub open spec fn next_token_spec(page: ListPage) -> Option<Seq<char>> {
    if page.is_truncated == Some(true) {
        match page.next_token {
            Some(t) => Some(t@),
            None => None,
        }
    } else {
        None
    }
}

/// The keys gathered from the pages of a listing, in the order the store
/// gave them.
#[derive(Debug)]
pub struct Listing {
    pub keys: Vec<String>,
}

impl Listing {
    /// A listing before its first page.
    pub fn new() -> (l: Listing)
        ensures
            l.keys@.len() == 0,
    {
        Listing { keys: Vec::new() }
    }

    /// Adds a page's keys and gives the token of the next page; the listing
    /// is complete when there is none.
    pub fn absorb(&mut self, page: ListPage) -> (next: Option<String>)
        ensures
            final(self).keys.deep_view() == old(self).keys.deep_view() + present_keys(page.keys@),
            match next {
                Some(t) => next_token_spec(page) == Some(t@),
                None => next_token_spec(page) is None,
            },
    {
        let ghost start = self.keys.deep_view();
        let ListPage { keys, is_truncated, next_token } = page;
        let mut i: usize = 0;
        while i < keys.len()
            invariant
                i <= keys@.len(),
                self.keys.deep_view() == start + present_keys(keys@.take(i as int)),
            decreases keys@.len() - i,
        {
            assert(keys@.take(i + 1).drop_last() =~= keys@.take(i as int));
            match &keys[i] {
                Some(k) => {
                    let ghost before = self.keys.deep_view();
                    self.keys.push(k.clone());
                    assert(self.keys.deep_view() =~= before.push(k@));
                },
                None => {},
            }
            i = i + 1;
        }
        assert(keys@.take(keys@.len() as int) =~= keys@);
        let more = match is_truncated {
            Some(b) => b,
            None => false,
        };
        if more {
            next_token
        } else {
            None
        }
    }
}

/// What to do once the bucket was looked up.
#[derive(Debug)]
pub enum BucketStep {
    /// The bucket exists.
    Ready,
    /// The bucket must be made.
    Create,
}

/// The bucket is made exactly when looking it up failed.
pub fn bucket_step(found: bool) -> (s: BucketStep)
    ensures
        found <==> s is Ready,
{
    if found {
        BucketStep::Ready
    } else {
        BucketStep::Create
    }
}

/// The outcome of making the bucket, given the store's error text on
/// failure.
pub fn bucket_created(res: Result<(), String>) -> (r: Result<(), String>)
    ensures
        r is Ok <==> res is Ok,
        res matches Err(e) ==> (r matches Err(m) && m@ == "Failed to create bucket: "@ + e@),
{
    match res {
        Ok(()) => Ok(()),
        Err(e) => {
            let mut m = String::from_str("Failed to create bucket: ");
            m.append(e.as_str());
            Err(m)
        },
    }
}

/// The object store operations whose failures are reported.
#[derive(Debug)]
pub enum StorageOp {
    Upload,
    Download,
    Delete,
    List,
}

/// The prefix of a failed operation's error text.
pub open spec fn storage_error_prefix(op: StorageOp) -> Seq<char> {
    match op {
        StorageOp::Upload => "S3 upload error: "@,
        StorageOp::Download => "S3 download error: "@,
        StorageOp::Delete => "S3 delete error: "@,
        StorageOp::List => "S3 list error: "@,
    }
}

/// The error text of a failed operation: its prefix and the store's text.
pub fn storage_error(op: StorageOp, detail: &str) -> (m: String)
    ensures
        m@ == storage_error_prefix(op) + detail@,
{
    let mut m = match op {
        StorageOp::Upload => String::from_str("S3 upload error: "),
        StorageOp::Download => String::from_str("S3 download error: "),
        StorageOp::Delete => String::from_str("S3 delete error: "),
        StorageOp::List => String::from_str("S3 list error: "),
    };
    m.append(detail);
    m
}

} // verus!
