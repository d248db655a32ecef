//! The listing endpoint: which page it asks the catalogue for, how an entry
//! of that page becomes an item of the answer, and what the answer is.

use crate::decimal::{numeral_u32, parse_u32};
use crate::pokemon_api;
use crate::pokemon_api::{
    fetched, fetched_view, lemma_fetched_by_value, PokedexError, PokemonList, PokemonListView,
    Reply,
};
use crate::url_parts::{parse_url, parsed_url, parsed_view, UrlParts, UrlPartsView};
use vstd::prelude::*;

verus! {

/// The page size asked for where the request names none.
pub const DEFAULT_LIMIT: u32 = 20;

/// The first entry asked for where the request names none.
pub const DEFAULT_OFFSET: u32 = 0;

/// One item of a listing: an entry's number and its name.
#[derive(Debug, Clone, PartialEq, Eq)]
pub struct Pokemon {
    /// The number in the segment of the entry's address that names it.
    pub id: u32,
    /// The entry's display name, as upstream gave it.
    pub name: String,
}

/// The mathematical value of [`Pokemon`].
pub struct PokemonView {
    pub id: u32,
    pub name: Seq<char>,
}

impl View for Pokemon {
    type V = PokemonView;

    open spec fn view(&self) -> PokemonView {
        PokemonView { id: self.id, name: self.name@ }
    }
}

/// Why an entry's address yields no number.
#[derive(Debug, Clone, Copy, PartialEq, Eq, Structural)]
pub enum ExtractError {
    /// The address does not parse as a URL.
    MalformedUrl,
    /// The URL has no path that divides into segments.
    NoPathSegments,
    /// The path holds no segment that could name the entry.
    EmptySegments,
    /// The segment that names the entry is no unsigned 32-bit numeral.
    NonNumericId,
}

/// The answer to a listing request.
#[derive(Debug, Clone, PartialEq, Eq)]
pub enum PokemonListResponse {
    /// Status 200, with the items of the page in upstream order.
    Success(Vec<Pokemon>),
    /// Status 500, with no body.
    InternalServerError,
}

/// The mathematical value of [`PokemonListResponse`].
pub enum PokemonListResponseView {
    Success(Seq<PokemonView>),
    InternalServerError,
}

/// The values of a run of items, in order.
pub open spec fn items_view(items: Seq<Pokemon>) -> Seq<PokemonView> {
    Seq::new(items.len(), |i: int| items[i]@)
}

impl View for PokemonListResponse {
    type V = PokemonListResponseView;

    open spec fn view(&self) -> PokemonListResponseView {
        match self {
            PokemonListResponse::Success(items) => PokemonListResponseView::Success(
                items_view(items@),
            ),
            PokemonListResponse::InternalServerError => {
                PokemonListResponseView::InternalServerError
            },
        }
    }
}

/// The HTTP status that goes with an answer.
pub open spec fn status_of(response: PokemonListResponseView) -> u16 {
    match response {
        PokemonListResponseView::Success(_) => 200,
        PokemonListResponseView::InternalServerError => 500,
    }
}

/// The page asked for: the limit and the offset of the request, each
/// replaced by its default where the request does not name it.
pub open spec fn paging(limit: Option<u32>, offset: Option<u32>) -> (u32, u32) {
    (
        match limit {
            Some(limit) => limit,
            None => DEFAULT_LIMIT,
        },
        match offset {
            Some(offset) => offset,
            None => DEFAULT_OFFSET,
        },
    )
}

/// The segment of a path that names the entry: the last one, or the one
/// before it where the path ends in a slash and the last one is therefore
/// empty. A path with no segment but such an empty one has none.
pub open spec fn naming_segment(segments: Seq<Seq<char>>) -> Option<Seq<char>> {
    let kept = if segments.len() > 0 && segments.last().len() == 0 {
        segments.drop_last()
    } else {
        segments
    };
    if kept.len() == 0 {
        None
    } else {
        Some(kept.last())
    }
}

/// The number that an outcome of parsing an entry's address yields, or the
/// reason why it yields none.
pub open spec fn identified(parsed: Option<UrlPartsView>) -> Result<u32, ExtractError> {
    match parsed {
        None => Err(ExtractError::MalformedUrl),
        Some(parts) => match parts.path_segments {
            None => Err(ExtractError::NoPathSegments),
            Some(segments) => match naming_segment(segments) {
                None => Err(ExtractError::EmptySegments),
                Some(segment) => match numeral_u32(segment) {
                    Some(id) => Ok(id),
                    None => Err(ExtractError::NonNumericId),
                },
            },
        },
    }
}

/// The item that an entry becomes, or the reason why it becomes none.
pub open spec fn extracted(record: pokemon_api::PokemonView) -> Result<PokemonView, ExtractError> {
    match identified(parsed_url(record.url)) {
        Ok(id) => Ok(PokemonView { id, name: record.name }),
        Err(e) => Err(e),
    }
}

/// Whether every entry becomes an item.
pub open spec fn all_extracted(records: Seq<pokemon_api::PokemonView>) -> bool {
    forall|i: int| 0 <= i < records.len() ==> (#[trigger] extracted(records[i])) is Ok
}

/// The items that the entries become, in order, where every entry becomes
/// one.
pub open spec fn items_of(records: Seq<pokemon_api::PokemonView>) -> Seq<PokemonView>
    recommends
        all_extracted(records),
{
    Seq::new(records.len(), |i: int| extracted(records[i])->Ok_0)
}

/// Whether `e` is the failure of the first entry that becomes no item.
pub open spec fn is_first_failure(
    records: Seq<pokemon_api::PokemonView>,
    e: ExtractError,
) -> bool {
    exists|k: int|
        0 <= k < records.len() && all_extracted(records.subrange(0, k)) && #[trigger] extracted(
            records[k],
        ) == Err::<PokemonView, ExtractError>(e)
}

/// The answer to a listing request, given what fetching the page came to:
/// the items of the page where there is a page and every entry of it becomes
/// an item, and the bare failure otherwise.
pub open spec fn answer(fetched: Result<PokemonListView, PokedexError>) -> PokemonListResponseView {
    match fetched {
        Ok(page) => if all_extracted(page.results) {
            PokemonListResponseView::Success(items_of(page.results))
        } else {
            PokemonListResponseView::InternalServerError
        },
        Err(_) => PokemonListResponseView::InternalServerError,
    }
}

/// An entry whose address parses to a path that ends in a numeral becomes
/// an item with the number of that numeral and with the entry's own name.
pub proof fn lemma_numeric_segment_extracts(
    record: pokemon_api::PokemonView,
    segments: Seq<Seq<char>>,
    id: u32,
)
    requires
        parsed_url(record.url) matches Some(parts) && parts.path_segments == Some(segments),
        segments.len() > 0,
        numeral_u32(segments.last()) == Some(id),
    ensures
        extracted(record) == Ok::<PokemonView, ExtractError>(
            PokemonView { id, name: record.name },
        ),
{
}

/// A slash after the numeral changes nothing: an entry whose path ends in
/// a numeral and one empty segment becomes the same item.
pub proof fn lemma_trailing_slash_extracts(
    record: pokemon_api::PokemonView,
    segments: Seq<Seq<char>>,
    id: u32,
)
    requires
        parsed_url(record.url) matches Some(parts) && parts.path_segments == Some(segments),
        segments.len() > 1,
        segments.last().len() == 0,
        numeral_u32(segments[segments.len() - 2]) == Some(id),
    ensures
        extracted(record) == Ok::<PokemonView, ExtractError>(
            PokemonView { id, name: record.name },
        ),
{
}

/// An entry whose address parses to a path that ends in a segment which is
/// not empty and no numeral becomes no item: the failure is `NonNumericId`.
pub proof fn lemma_non_numeric_segment_fails(
    record: pokemon_api::PokemonView,
    segments: Seq<Seq<char>>,
)
    requires
        parsed_url(record.url) matches Some(parts) && parts.path_segments == Some(segments),
        segments.len() > 0,
        segments.last().len() > 0,
        numeral_u32(segments.last()) is None,
    ensures
        extracted(record) == Err::<PokemonView, ExtractError>(ExtractError::NonNumericId),
{
}

/// One entry that becomes no item fails the whole listing: the answer to
/// a page that holds such an entry is the bare failure, status 500, whatever
/// the other entries are.
pub proof fn lemma_one_failure_fails_the_listing(page: PokemonListView, k: int)
    requires
        0 <= k < page.results.len(),
        extracted(page.results[k]) is Err,
    ensures
        answer(Ok(page)) == PokemonListResponseView::InternalServerError,
        status_of(answer(Ok(page))) == 500,
{
}

/// A listing that succeeds holds one item for each entry of the page, in
/// the order of the page, each with its entry's name.
pub proof fn lemma_listing_keeps_order(page: PokemonListView, i: int)
    requires
        all_extracted(page.results),
        0 <= i < page.results.len(),
    ensures
        answer(Ok(page)) matches PokemonListResponseView::Success(items) && items.len()
            == page.results.len() && items[i].name == page.results[i].name && identified(
            parsed_url(page.results[i].url),
        ) == Ok::<u32, ExtractError>(items[i].id),
{
}

/// Every failure to fetch the page gives the same answer: the bare failure,
/// status 500.
pub proof fn lemma_fetch_failure_fails_the_listing(e: PokedexError)
    ensures
        answer(Err(e)) == PokemonListResponseView::InternalServerError,
        status_of(answer(Err(e))) == 500,
{
}

/// Listing is repeatable: two requests for a page that upstream answers
/// alike get the same answer. The answer depends on nothing but the reply.
pub proof fn lemma_listing_is_repeatable(first: Reply, second: Reply)
    requires
        first@ == second@,
    ensures
        answer(fetched_view(fetched(first))) == answer(fetched_view(fetched(second))),
{
    lemma_fetched_by_value(first, second);
}

/// Picks the segment of a path that names the entry.
pub fn pick_segment(segments: &Vec<String>) -> (r: Option<&String>)
    ensures
        r is Some <==> naming_segment(segments.deep_view()) is Some,
        r matches Some(segment) ==> naming_segment(segments.deep_view()) == Some(segment@),
{
    let n = segments.len();
    if n == 0 {
        return None;
    }
    let last = &segments[n - 1];
    if !last.as_str().is_empty() {
        return Some(last);
    }
    if n == 1 {
        return None;
    }
    Some(&segments[n - 2])
}

/// Reads the number of an entry off an outcome of parsing its address.
pub fn identify(parsed: &Option<UrlParts>) -> (r: Result<u32, ExtractError>)
    ensures
        r == identified(parsed_view(*parsed)),
{
    let parts = match parsed {
        Some(parts) => parts,
        None => {
            return Err(ExtractError::MalformedUrl);
        },
    };
    let segments = match &parts.path_segments {
        Some(segments) => segments,
        None => {
            return Err(ExtractError::NoPathSegments);
        },
    };
    let segment = match pick_segment(segments) {
        Some(segment) => segment,
        None => {
            return Err(ExtractError::EmptySegments);
        },
    };
    match parse_u32(segment.as_str()) {
        Some(id) => Ok(id),
        None => Err(ExtractError::NonNumericId),
    }
}

/// Turns an entry of a page into an item of the answer: the number in the
/// naming segment of its address, and its name unchanged.
pub fn extract(record: pokemon_api::Pokemon) -> (r: Result<Pokemon, ExtractError>)
    ensures
        r is Ok <==> extracted(record@) is Ok,
        r matches Ok(item) ==> extracted(record@) == Ok::<PokemonView, ExtractError>(item@),
        r matches Err(e) ==> extracted(record@) == Err::<PokemonView, ExtractError>(e),
{
    let parsed = parse_url(record.url.as_str());
    match identify(&parsed) {
        Ok(id) => Ok(Pokemon { id, name: record.name }),
        Err(e) => Err(e),
    }
}

/// Turns the entries of a page into items, all or none: the items in the
/// order of the entries where every entry becomes one, and otherwise the
/// failure of the first entry that does not.
pub fn extract_all(records: Vec<pokemon_api::Pokemon>) -> (r: Result<Vec<Pokemon>, ExtractError>)
    ensures
        r is Ok <==> all_extracted(pokemon_api::records_view(records@)),
        r matches Ok(items) ==> items_view(items@) == items_of(pokemon_api::records_view(records@)),
        r matches Err(e) ==> is_first_failure(pokemon_api::records_view(records@), e),
{
    let ghost views = pokemon_api::records_view(records@);
    let mut items: Vec<Pokemon> = Vec::new();
    for record in it: records
        invariant
            it.seq() == records@,
            views == pokemon_api::records_view(records@),
            items@.len() == it.index(),
            all_extracted(views.subrange(0, it.index() as int)),
            forall|i: int|
                0 <= i < items@.len() ==> extracted(views[i]) == Ok::<PokemonView, ExtractError>(
                    #[trigger] items@[i]@,
                ),
    {
        let ghost k = it.index() as int;
        match extract(record) {
            Ok(item) => {
                items.push(item);
            },
            Err(e) => {
                assert(!all_extracted(views)) by {
                    assert(extracted(views[k]) is Err);
                }
                return Err(e);
            },
        }
    }
    assert(views.subrange(0, views.len() as int) =~= views);
    Ok(items)
}

impl PokemonListResponse {
    /// The HTTP status that goes with the answer: 200 with the items, 500
    /// with nothing.
    pub fn status(&self) -> (r: u16)
        ensures
            r == status_of(self@),
    {
        match self {
            PokemonListResponse::Success(_) => 200,
            PokemonListResponse::InternalServerError => 500,
        }
    }
}

/// The listing endpoint.
pub struct Api;

impl Api {
    /// The page that a listing request asks the catalogue for: what the
    /// request names, and the defaults for what it leaves out.
    pub fn paging(&self, limit: Option<u32>, offset: Option<u32>) -> (r: (u32, u32))
        ensures
            r == paging(limit, offset),
    {
        (
            match limit {
                Some(limit) => limit,
                None => DEFAULT_LIMIT,
            },
            match offset {
                Some(offset) => offset,
                None => DEFAULT_OFFSET,
            },
        )
    }

    /// Answers a listing request, given what fetching the page came to.
    pub fn pokemon(&self, fetched: Result<PokemonList, PokedexError>) -> (r: PokemonListResponse)
        ensures
            r@ == answer(fetched_view(fetched)),
    {
        match fetched {
            Ok(page) => match extract_all(page.results) {
                Ok(items) => PokemonListResponse::Success(items),
                Err(_) => PokemonListResponse::InternalServerError,
            },
            Err(_) => PokemonListResponse::InternalServerError,
        }
    }
}

} // verus!
