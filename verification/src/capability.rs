//! The Capability Locator: scans an account's owned-object pages for the
//! capability object that authorises acting on a specific game. Candidates
//! of the wrong shape or type are skipped — the result set is heterogeneous —
//! but once the type matches, a payload that fails to deserialise is fatal:
//! that is corruption, not heterogeneity. Exhausting every page without a
//! match means the account is not authorised to move now.

use vstd::prelude::*;

use crate::errors::Error;
use crate::model::{bytes_equal, Digest, ObjectId, ObjectRef};
use crate::object::{owned_module_name, RawContent};

verus! {

/// The capability type's name.
pub open spec fn capability_type_name() -> Seq<char> {
    "TurnCap"@
}

/// The decoded payload of a capability object: its own identifier and the
/// game it authorises acting on.
#[derive(Debug)]
pub struct TurnCap {
    pub id: ObjectId,
    pub game: ObjectId,
}

/// One candidate from an owned-object page, reduced to plain values. The
/// payload deserialisation is the collaborator's; `decoded` is absent when
/// it failed or was not possible.
#[derive(Debug)]
pub struct CandidateData {
    pub id: ObjectId,
    pub version: u64,
    pub digest: Digest,
    pub content: Option<RawContent>,
    pub decoded: Option<TurnCap>,
}

/// One entry of an owned-object page: an error reported for the entry, or
/// its data, or neither.
#[derive(Debug)]
pub struct CapCandidate {
    pub error: Option<String>,
    pub data: Option<CandidateData>,
}

/// One page of the owned-object listing; the cursor itself is opaque and
/// stays with the transport.
#[derive(Debug)]
pub struct CapPage {
    pub items: Vec<CapCandidate>,
    pub has_next_page: bool,
}

/// What one candidate contributes to the scan.
#[derive(Debug)]
pub enum ItemStep {
    /// Wrong shape or wrong type: tolerated and passed over.
    Skip,
    /// An error that ends the scan.
    Fatal(Error),
    /// The capability for the target game.
    Found,
}

/// Does a candidate's type tag name the capability type of the configured
/// package?
pub open spec fn capability_type_matches(package: Seq<u8>, content: RawContent) -> bool {
    match content {
        RawContent::Package => false,
        RawContent::MoveObject { type_tag, payload } => {
            &&& type_tag.package@ == package
            &&& type_tag.module@ == owned_module_name()
            &&& type_tag.name@ == capability_type_name()
        },
    }
}

/// The scan's decision for one candidate: an entry-level error is fatal; a
/// candidate without data, without content, or of another type is skipped; a
/// type match whose payload failed to deserialise is fatal corruption; a
/// deserialised capability is found exactly when it references the target
/// game.
pub open spec fn item_step(package: Seq<u8>, target: Seq<u8>, c: CapCandidate) -> ItemStep {
    match c.error {
        Some(msg) => ItemStep::Fatal(Error::Transport(msg)),
        None => match c.data {
            None => ItemStep::Skip,
            Some(d) => match d.content {
                None => ItemStep::Skip,
                Some(content) => if !capability_type_matches(package, content) {
                    ItemStep::Skip
                } else {
                    match d.decoded {
                        None => ItemStep::Fatal(Error::CorruptCapability),
                        Some(cap) => if cap.game@ == target {
                            ItemStep::Found
                        } else {
                            ItemStep::Skip
                        },
                    }
                },
            },
        },
    }
}

/// Shifts a found index by `i`; errors and misses pass through.
pub open spec fn shift_item(r: Result<Option<int>, Error>, i: int) -> Result<Option<int>, Error> {
    match r {
        Ok(Some(k)) => Ok(Some(k + i)),
        other => other,
    }
}

/// The outcome of scanning one page's candidates in order: the index of the
/// first found capability, a fatal error, or a miss.
pub open spec fn scan_items(package: Seq<u8>, target: Seq<u8>, items: Seq<CapCandidate>) -> Result<
    Option<int>,
    Error,
>
    decreases items.len(),
{
    if items.len() == 0 {
        Ok(None)
    } else {
        match item_step(package, target, items[0]) {
            ItemStep::Fatal(e) => Err(e),
            ItemStep::Found => Ok(Some(0)),
            ItemStep::Skip => shift_item(scan_items(package, target, items.drop_first()), 1),
        }
    }
}

/// A prefix of skipped candidates does not change the scan's outcome, beyond
/// offsetting a found index.
pub proof fn lemma_scan_skip_prefix(
    package: Seq<u8>,
    target: Seq<u8>,
    items: Seq<CapCandidate>,
    i: int,
)
    requires
        0 <= i <= items.len(),
        forall|j: int| 0 <= j < i ==> item_step(package, target, #[trigger] items[j]) is Skip,
    ensures
        scan_items(package, target, items) == shift_item(
            scan_items(package, target, items.skip(i)),
            i,
        ),
    decreases i,
{
    if i == 0 {
        assert(items.skip(0) =~= items);
        match scan_items(package, target, items) {
            Ok(k) => {},
            Err(e) => {},
        }
    } else {
        assert(item_step(package, target, items[0]) is Skip);
        lemma_scan_skip_prefix(package, target, items.drop_first(), i - 1);
        assert(items.drop_first().skip(i - 1) =~= items.skip(i));
    }
}

/// The decision for one candidate, executed. Where the scan finds the
/// capability, the candidate's exact reference is handed back.
#[derive(Debug)]
pub enum Decision {
    Skip,
    Fatal(Error),
    Found(ObjectRef),
}

fn candidate_step(package: &ObjectId, target: &ObjectId, c: &CapCandidate) -> (r: Decision)
    ensures
        match item_step(package@, target@, *c) {
            ItemStep::Skip => r is Skip,
            ItemStep::Fatal(e) => (r matches Decision::Fatal(e2) && e2 == e),
            ItemStep::Found => {
                &&& c.data matches Some(d)
                &&& (r matches Decision::Found(oref) && c.data matches Some(d) && oref.id@ == d.id@
                    && oref.version == d.version && oref.digest@ == d.digest@)
            },
        },
{
    if let Some(msg) = &c.error {
        return Decision::Fatal(Error::Transport(msg.clone()));
    }
    let Some(d) = &c.data else {
        return Decision::Skip;
    };
    let Some(content) = &d.content else {
        return Decision::Skip;
    };
    let RawContent::MoveObject { type_tag, payload } = content else {
        return Decision::Skip;
    };
    if !(bytes_equal(&type_tag.package.bytes, &package.bytes) && type_tag.module
        == "owned".to_owned() && type_tag.name == "TurnCap".to_owned()) {
        return Decision::Skip;
    }
    let Some(cap) = &d.decoded else {
        return Decision::Fatal(Error::CorruptCapability);
    };
    if cap.game.matches(target) {
        Decision::Found(
            ObjectRef { id: d.id.duplicate(), version: d.version, digest: d.digest.duplicate() },
        )
    } else {
        Decision::Skip
    }
}

/// Scans one page's candidates for the capability of the target game: the
/// first found candidate's exact reference, a fatal error, or a miss that
/// lets the caller turn to the next page.
pub fn scan_candidates(package: &ObjectId, target: &ObjectId, items: &Vec<CapCandidate>) -> (r:
    Result<Option<ObjectRef>, Error>)
    ensures
        match scan_items(package@, target@, items@) {
            Err(e) => r == Err::<Option<ObjectRef>, Error>(e),
            Ok(None) => r == Ok::<Option<ObjectRef>, Error>(None),
            Ok(Some(k)) => {
                &&& 0 <= k < items@.len()
                &&& items@[k].data matches Some(d)
                &&& (r matches Ok(Some(oref)) && items@[k].data matches Some(d) && oref.id@ == d.id@
                    && oref.version == d.version && oref.digest@ == d.digest@)
            },
        },
{
    let ghost full = scan_items(package@, target@, items@);
    let mut i: usize = 0;
    while i < items.len()
        invariant
            i <= items@.len(),
            full == scan_items(package@, target@, items@),
            forall|j: int| 0 <= j < i ==> item_step(package@, target@, #[trigger] items@[j]) is Skip,
        decreases items@.len() - i,
    {
        let step = candidate_step(package, target, &items[i]);
        proof {
            lemma_scan_skip_prefix(package@, target@, items@, i as int);
            assert(items@.skip(i as int).len() == items@.len() - i);
            assert(items@.skip(i as int)[0] == items@[i as int]);
            assert(items@.skip(i as int).drop_first() =~= items@.skip(i as int + 1));
        }
        match step {
            Decision::Skip => {
                i = i + 1;
            },
            Decision::Fatal(e) => {
                assert(full == Err::<Option<int>, Error>(
                    item_step(package@, target@, items@[i as int])->Fatal_0,
                ));
                return Err(e);
            },
            Decision::Found(oref) => {
                assert(full == Ok::<Option<int>, Error>(Some(i as int)));
                return Ok(Some(oref));
            },
        }
    }
    proof {
        lemma_scan_skip_prefix(package@, target@, items@, items@.len() as int);
        assert(items@.skip(items@.len() as int).len() == 0);
    }
    Ok(None)
}

/// Shifts a found page index by `i`; errors pass through.
pub open spec fn shift_page(r: Result<(int, int), Error>, i: int) -> Result<(int, int), Error> {
    match r {
        Ok(pk) => Ok((pk.0 + i, pk.1)),
        Err(e) => Err(e),
    }
}

/// The outcome of the whole paginated scan: the page and item of the first
/// found capability, a fatal error, or — once a page reports no next page or
/// the enumeration runs out — `NoTurn`.
pub open spec fn pages_outcome(package: Seq<u8>, target: Seq<u8>, pages: Seq<CapPage>) -> Result<
    (int, int),
    Error,
>
    decreases pages.len(),
{
    if pages.len() == 0 {
        Err(Error::NoTurn)
    } else {
        match scan_items(package, target, pages[0].items@) {
            Err(e) => Err(e),
            Ok(Some(k)) => Ok((0, k)),
            Ok(None) => if !pages[0].has_next_page {
                Err(Error::NoTurn)
            } else {
                shift_page(pages_outcome(package, target, pages.drop_first()), 1)
            },
        }
    }
}

/// A prefix of missed pages does not change the scan's outcome, beyond
/// offsetting a found page index.
pub proof fn lemma_pages_skip_prefix(
    package: Seq<u8>,
    target: Seq<u8>,
    pages: Seq<CapPage>,
    i: int,
)
    requires
        0 <= i <= pages.len(),
        forall|p: int|
            0 <= p < i ==> scan_items(package, target, (#[trigger] pages[p]).items@) == Ok::<
                Option<int>,
                Error,
            >(None) && pages[p].has_next_page,
    ensures
        pages_outcome(package, target, pages) == shift_page(
            pages_outcome(package, target, pages.skip(i)),
            i,
        ),
    decreases i,
{
    if i == 0 {
        assert(pages.skip(0) =~= pages);
        match pages_outcome(package, target, pages) {
            Ok(pk) => {},
            Err(e) => {},
        }
    } else {
        lemma_pages_skip_prefix(package, target, pages.drop_first(), i - 1);
        assert(pages.drop_first().skip(i - 1) =~= pages.skip(i));
    }
}

/// Locates the capability for the target game across the account's pages:
/// returns the first found candidate's exact reference, propagates a fatal
/// error, and fails with `NoTurn` when the enumeration ends without a match.
pub fn find_capability(package: &ObjectId, target: &ObjectId, pages: &Vec<CapPage>) -> (r: Result<
    ObjectRef,
    Error,
>)
    ensures
        match pages_outcome(package@, target@, pages@) {
            Err(e) => r == Err::<ObjectRef, Error>(e),
            Ok(pk) => {
                &&& 0 <= pk.0 < pages@.len()
                &&& pages@[pk.0].items@[pk.1].data matches Some(d)
                &&& (r matches Ok(oref) && pages@[pk.0].items@[pk.1].data matches Some(d)
                    && oref.id@ == d.id@ && oref.version == d.version && oref.digest@ == d.digest@)
            },
        },
{
    let ghost full = pages_outcome(package@, target@, pages@);
    let mut i: usize = 0;
    while i < pages.len()
        invariant
            i <= pages@.len(),
            full == pages_outcome(package@, target@, pages@),
            forall|p: int|
                0 <= p < i ==> scan_items(package@, target@, (#[trigger] pages@[p]).items@) == Ok::<
                    Option<int>,
                    Error,
                >(None) && pages@[p].has_next_page,
        decreases pages@.len() - i,
    {
        let page = &pages[i];
        let res = scan_candidates(package, target, &page.items);
        proof {
            lemma_pages_skip_prefix(package@, target@, pages@, i as int);
            assert(pages@.skip(i as int).len() == pages@.len() - i);
            assert(pages@.skip(i as int)[0] == pages@[i as int]);
            assert(pages@.skip(i as int).drop_first() =~= pages@.skip(i as int + 1));
        }
        match res {
            Err(e) => {
                return Err(e);
            },
            Ok(Some(oref)) => {
                return Ok(oref);
            },
            Ok(None) => {
                if !page.has_next_page {
                    return Err(Error::NoTurn);
                }
                i = i + 1;
            },
        }
    }
    proof {
        lemma_pages_skip_prefix(package@, target@, pages@, pages@.len() as int);
        assert(pages@.skip(pages@.len() as int).len() == 0);
    }
    Err(Error::NoTurn)
}

/// Every page of candidates skipped means no capability: a scan over any
/// enumeration in which no candidate is the target's capability and none is
/// fatal ends in `NoTurn` — also over an empty enumeration.
pub proof fn lemma_no_match_is_no_turn(package: Seq<u8>, target: Seq<u8>, pages: Seq<CapPage>)
    requires
        forall|p: int, j: int|
            0 <= p < pages.len() && 0 <= j < pages[p].items@.len() ==> item_step(
                package,
                target,
                #[trigger] pages[p].items@[j],
            ) is Skip,
    ensures
        pages_outcome(package, target, pages) == Err::<(int, int), Error>(Error::NoTurn),
    decreases pages.len(),
{
    if pages.len() > 0 {
        lemma_scan_skip_prefix(package, target, pages[0].items@, pages[0].items@.len() as int);
        assert(pages[0].items@.skip(pages[0].items@.len() as int).len() == 0);
        assert(scan_items(package, target, pages[0].items@) == Ok::<Option<int>, Error>(None));
        assert forall|p: int, j: int|
            0 <= p < pages.drop_first().len() && 0 <= j
                < pages.drop_first()[p].items@.len() implies item_step(
            package,
            target,
            #[trigger] pages.drop_first()[p].items@[j],
        ) is Skip by {
            assert(pages.drop_first()[p] == pages[p + 1]);
        }
        lemma_no_match_is_no_turn(package, target, pages.drop_first());
    }
}

} // verus!
