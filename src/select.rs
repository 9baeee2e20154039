use vstd::prelude::*;

use crate::error::WpError;
use crate::model::{WpConfig, WpMeta, WpResp};

verus! {

/// Where an item stands in the listing: the page to request and the
/// position on that page.
#[derive(Debug, Clone, Copy, PartialEq, Eq)]
pub struct PagePos {
    pub page: usize,
    pub offset: usize,
}

/// The page that holds `index`. The page that carries the metadata is
/// requested as page 0 and is not used for items: items are looked up from
/// page 1 on.
pub open spec fn page_of(index: nat, per_page: nat) -> nat
    recommends
        per_page > 0,
{
    1 + index / per_page
}

/// The position of `index` on its page.
pub open spec fn offset_of(index: nat, per_page: nat) -> nat
    recommends
        per_page > 0,
{
    index % per_page
}

/// Whether `index` names an item of a collection with these figures.
pub open spec fn in_range(index: nat, meta: WpMeta) -> bool {
    index < meta.total && meta.per_page > 0
}

/// Finds the page and the position on it of the item at `index`.
///
/// Fails with `OutOfBounds` when the index is not below the collection's
/// total, or when pages hold no items.
pub fn locate(index: usize, meta: &WpMeta) -> (r: Result<PagePos, WpError>)
    ensures
        in_range(index as nat, *meta) ==> r == Ok::<PagePos, WpError>(PagePos {
            page: page_of(index as nat, meta.per_page as nat) as usize,
            offset: offset_of(index as nat, meta.per_page as nat) as usize,
        }),
        !in_range(index as nat, *meta) ==> r == Err::<PagePos, WpError>(WpError::OutOfBounds),
{
    if index >= meta.total || meta.per_page == 0 {
        return Err(WpError::OutOfBounds);
    }
    let q = index / meta.per_page;
    assert(q <= index) by (nonlinear_arith)
        requires
            q == index / meta.per_page,
            meta.per_page > 0,
    ;
    Ok(PagePos { page: 1 + q, offset: index % meta.per_page })
}

/// The address that a page holds at the position of `index`, when the
/// figures place `index` in the collection and the page reaches that far.
pub open spec fn resolved_path(index: nat, first: WpMeta, next: WpResp) -> Option<Seq<char>> {
    let offset = offset_of(index, first.per_page as nat);
    if in_range(index, first) && offset < next.data@.len() {
        Some(next.paths()[offset as int])
    } else {
        None
    }
}

/// How a selection changes the configuration: on success the index and the
/// resolved address are recorded and nothing else changes; on failure
/// nothing changes.
pub open spec fn selection_made(
    before: WpConfig,
    after: WpConfig,
    index: nat,
    first: WpMeta,
    next: WpResp,
    r: Result<(), WpError>,
) -> bool {
    match resolved_path(index, first, next) {
        Some(path) => {
            &&& r == Ok::<(), WpError>(())
            &&& after.current_selection == index
            &&& after.filepath@ == path
            &&& after.file_location == before.file_location
            &&& after.username == before.username
            &&& after.api_key == before.api_key
            &&& after.collection_id == before.collection_id
        },
        None => r == Err::<(), WpError>(WpError::OutOfBounds) && after == before,
    }
}

/// rand's `random` draws a value from the process-wide generator; nothing
/// is promised of the value.
pub assume_specification<T>[ rand::random::<T> ]() -> (r: T)
    where
        rand::distributions::Standard: rand::distributions::Distribution<T>,
;

/// The index that a drawn number picks in a collection with these figures.
///
/// Fails with `OutOfBounds` when the collection is empty.
pub fn index_from_draw(draw: usize, meta: &WpMeta) -> (r: Result<usize, WpError>)
    ensures
        meta.total > 0 ==> r == Ok::<usize, WpError>(draw % meta.total),
        meta.total == 0 ==> r == Err::<usize, WpError>(WpError::OutOfBounds),
{
    if meta.total == 0 {
        Err(WpError::OutOfBounds)
    } else {
        Ok(draw % meta.total)
    }
}

/// Draws an index of the collection at random.
///
/// Fails with `OutOfBounds` when the collection is empty; otherwise the
/// index is below the collection's total.
pub fn random_index(meta: &WpMeta) -> (r: Result<usize, WpError>)
    ensures
        meta.total == 0 ==> r == Err::<usize, WpError>(WpError::OutOfBounds),
        meta.total > 0 ==> r is Ok && r->Ok_0 < meta.total,
        meta.total == 1 ==> r == Ok::<usize, WpError>(0),
{
    let draw: usize = rand::random::<usize>();
    index_from_draw(draw, meta)
}

/// The index to resolve and where it stands: the one asked for, or one drawn
/// at random when none is asked for.
///
/// Fails with `OutOfBounds` when the index asked for is outside the
/// collection, when nothing is asked for and the collection is empty, or
/// when pages hold no items.
pub fn choose_page(requested: Option<usize>, first: &WpMeta) -> (r: Result<(usize, PagePos), WpError>)
    ensures
        r is Ok ==> {
            let (index, pos) = r->Ok_0;
            &&& in_range(index as nat, *first)
            &&& pos.page == page_of(index as nat, first.per_page as nat)
            &&& pos.offset == offset_of(index as nat, first.per_page as nat)
        },
        requested is Some ==> (r is Ok <==> in_range(requested->0 as nat, *first)),
        requested is Some && r is Ok ==> r->Ok_0.0 == requested->0,
        requested is None ==> (r is Ok <==> first.total > 0 && first.per_page > 0),
        r is Err ==> r == Err::<(usize, PagePos), WpError>(WpError::OutOfBounds),
{
    let index = match requested {
        Some(i) => i,
        None => match random_index(first) {
            Ok(i) => i,
            Err(e) => return Err(e),
        },
    };
    match locate(index, first) {
        Ok(pos) => Ok((index, pos)),
        Err(e) => Err(e),
    }
}

/// Resolving one index against the same listing succeeds or fails alike and
/// records the same index and address, whatever the configuration held
/// before.
pub proof fn lemma_selection_deterministic(
    a_before: WpConfig,
    a_after: WpConfig,
    ra: Result<(), WpError>,
    b_before: WpConfig,
    b_after: WpConfig,
    rb: Result<(), WpError>,
    index: nat,
    first: WpMeta,
    next: WpResp,
)
    requires
        selection_made(a_before, a_after, index, first, next, ra),
        selection_made(b_before, b_after, index, first, next, rb),
    ensures
        ra == rb,
        ra is Ok ==> a_after.current_selection == b_after.current_selection && a_after.filepath@
            == b_after.filepath@,
{
}

/// An index at or past the collection's total, or a position past the end
/// of the fetched page, fails with `OutOfBounds` and leaves the
/// configuration as it was.
pub proof fn lemma_out_of_range_fails(
    before: WpConfig,
    after: WpConfig,
    r: Result<(), WpError>,
    index: nat,
    first: WpMeta,
    next: WpResp,
)
    requires
        selection_made(before, after, index, first, next, r),
        index >= first.total || (first.per_page > 0 && offset_of(index, first.per_page as nat)
            >= next.data@.len()),
    ensures
        r == Err::<(), WpError>(WpError::OutOfBounds),
        after == before,
{
}

impl WpConfig {
    /// Records the item at `index` of the collection, given the figures of
    /// the first page and the page that `locate` names for `index`.
    ///
    /// Fails with `OutOfBounds` when `index` is outside the collection, or
    /// when the page is shorter than the position of `index` on it.
    pub fn get_data_at_index_after_first_call(
        &mut self,
        index: usize,
        first: WpMeta,
        next: &WpResp,
    ) -> (r: Result<(), WpError>)
        ensures
            selection_made(*old(self), *final(self), index as nat, first, *next, r),
    {
        let pos = match locate(index, &first) {
            Ok(pos) => pos,
            Err(e) => return Err(e),
        };
        if pos.offset >= next.data.len() {
            return Err(WpError::OutOfBounds);
        }
        self.current_selection = index;
        self.filepath = next.data[pos.offset].path.clone();
        Ok(())
    }

    /// Records the item at `index`, given the first page of the listing and
    /// the page that `locate` names for `index`.
    pub fn get_data_at_index(&mut self, index: usize, first: &WpResp, next: &WpResp) -> (r: Result<
        (),
        WpError,
    >)
        ensures
            selection_made(*old(self), *final(self), index as nat, first.meta, *next, r),
    {
        self.get_data_at_index_after_first_call(index, first.meta, next)
    }
}

} // verus!
