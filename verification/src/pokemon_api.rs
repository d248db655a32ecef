//! The upstream catalogue: the shape of its pages, the address a page is
//! asked at, and what the answer to such a request amounts to.
//!
//! Nothing here touches the network. A caller asks [`Pokedex::page_url`] for
//! the address to GET, performs the request, and hands what came back to
//! [`Pokedex::get_all_pokemon`] as a [`Reply`].

use crate::decimal::{decimal_text, push_decimal};
use crate::text::same_text;
use crate::url_parts::{
    join_url, joined_url, parse_url, parsed_url, parsed_view, UrlParts, UrlPartsView,
};
use vstd::prelude::*;

verus! {

/// One entry of an upstream page.
#[derive(Debug, Clone, PartialEq, Eq)]
pub struct Pokemon {
    /// The address of the entry's detail resource.
    pub url: String,
    /// The entry's display name.
    pub name: String,
}

/// The mathematical value of [`Pokemon`].
pub struct PokemonView {
    pub url: Seq<char>,
    pub name: Seq<char>,
}

impl View for Pokemon {
    type V = PokemonView;

    open spec fn view(&self) -> PokemonView {
        PokemonView { url: self.url@, name: self.name@ }
    }
}

/// One page of the upstream catalogue.
#[derive(Debug, Clone, PartialEq, Eq)]
pub struct PokemonList {
    /// The number of entries in the whole catalogue.
    pub count: u32,
    /// The address of the page after this one, if there is one.
    pub next: Option<String>,
    /// The address of the page before this one, if there is one.
    pub previous: Option<String>,
    /// The entries of this page, in upstream order.
    pub results: Vec<Pokemon>,
}

/// The mathematical value of [`PokemonList`].
pub struct PokemonListView {
    pub count: u32,
    pub next: Option<Seq<char>>,
    pub previous: Option<Seq<char>>,
    pub results: Seq<PokemonView>,
}

/// The values of a run of entries, in order.
pub open spec fn records_view(records: Seq<Pokemon>) -> Seq<PokemonView> {
    Seq::new(records.len(), |i: int| records[i]@)
}

impl View for PokemonList {
    type V = PokemonListView;

    open spec fn view(&self) -> PokemonListView {
        PokemonListView {
            count: self.count,
            next: match self.next {
                Some(address) => Some(address@),
                None => None,
            },
            previous: match self.previous {
                Some(address) => Some(address@),
                None => None,
            },
            results: records_view(self.results@),
        }
    }
}

/// Why the catalogue could not be set up or a page could not be had.
#[derive(Debug, Clone, Copy, PartialEq, Eq, Structural)]
pub enum PokedexError {
    /// The base address is no URL, cannot be a base, or is not `http(s)`.
    InvalidBaseUrl,
    /// No response arrived.
    Transport,
    /// A response arrived with a status outside 200..=299.
    HttpStatus(u16),
    /// A successful response arrived whose body is no page.
    Decode,
}

/// What one GET of a page address came to.
#[derive(Debug, Clone, PartialEq, Eq)]
pub enum Reply {
    /// No response arrived: the name did not resolve, the connection failed
    /// or broke, or the request timed out.
    Unreachable,
    /// A response arrived with this status. `page` is the page that its body
    /// decodes to, or nothing where the body is no page.
    Response { status: u16, page: Option<PokemonList> },
}

/// The mathematical value of [`Reply`].
pub enum ReplyView {
    Unreachable,
    Response { status: u16, page: Option<PokemonListView> },
}

impl View for Reply {
    type V = ReplyView;

    open spec fn view(&self) -> ReplyView {
        match self {
            Reply::Unreachable => ReplyView::Unreachable,
            Reply::Response { status, page } => ReplyView::Response {
                status: *status,
                page: match page {
                    Some(page) => Some(page@),
                    None => None,
                },
            },
        }
    }
}

/// The scheme `http`.
pub open spec fn http() -> Seq<char> {
    seq!['h', 't', 't', 'p']
}

/// The scheme `https`.
pub open spec fn https() -> Seq<char> {
    seq!['h', 't', 't', 'p', 's']
}

/// Whether an outcome of parsing is fit to be the catalogue's base: it is
/// a URL, relative references resolve against it, and its scheme is `http`
/// or `https`.
pub open spec fn is_valid_base(parsed: Option<UrlPartsView>) -> bool {
    parsed matches Some(parts) && !parts.cannot_be_a_base && (parts.scheme == http()
        || parts.scheme == https())
}

/// The relative reference of the list resource.
pub open spec fn list_path() -> Seq<char> {
    seq!['p', 'o', 'k', 'e', 'm', 'o', 'n']
}

/// The address of the page of `limit` entries that starts at entry `offset`,
/// for a list resource at `list`.
pub open spec fn page_address(list: Seq<char>, limit: u32, offset: u32) -> Seq<char> {
    list + seq!['?', 'l', 'i', 'm', 'i', 't', '='] + decimal_text(limit as nat) + seq![
        '&',
        'o',
        'f',
        'f',
        's',
        'e',
        't',
        '=',
    ] + decimal_text(offset as nat)
}

/// Whether `status` is in the success range.
pub open spec fn is_success(status: u16) -> bool {
    200 <= status <= 299
}

/// What a reply amounts to: the page of a successful response that holds
/// one, and otherwise the reason why there is none.
pub open spec fn fetched(reply: Reply) -> Result<PokemonList, PokedexError> {
    match reply {
        Reply::Unreachable => Err(PokedexError::Transport),
        Reply::Response { status, page } => if !is_success(status) {
            Err(PokedexError::HttpStatus(status))
        } else {
            match page {
                Some(page) => Ok(page),
                None => Err(PokedexError::Decode),
            }
        },
    }
}

/// The value of what fetching a page came to.
pub open spec fn fetched_view(fetched: Result<PokemonList, PokedexError>) -> Result<
    PokemonListView,
    PokedexError,
> {
    match fetched {
        Ok(page) => Ok(page@),
        Err(e) => Err(e),
    }
}

/// What a reply amounts to depends on the value of the reply alone, and is
/// never a complaint about the base address.
pub proof fn lemma_fetched_by_value(first: Reply, second: Reply)
    requires
        first@ == second@,
    ensures
        fetched_view(fetched(first)) == fetched_view(fetched(second)),
        fetched(first) != Err::<PokemonList, PokedexError>(PokedexError::InvalidBaseUrl),
{
}

/// Decides whether an outcome of parsing is fit to be the catalogue's base.
pub fn is_base(parsed: &Option<UrlParts>) -> (ok: bool)
    ensures
        ok == is_valid_base(parsed_view(*parsed)),
{
    match parsed {
        None => false,
        Some(parts) => {
            proof {
                reveal_strlit("http");
                reveal_strlit("https");
                assert("http"@ =~= http());
                assert("https"@ =~= https());
            }
            !parts.cannot_be_a_base && (same_text(parts.scheme.as_str(), "http") || same_text(
                parts.scheme.as_str(),
                "https",
            ))
        },
    }
}

/// Builds the address of the page of `limit` entries that starts at entry
/// `offset`, for a list resource at `list`.
pub fn page_address_of(list: String, limit: u32, offset: u32) -> (r: String)
    ensures
        r@ == page_address(list@, limit, offset),
{
    proof {
        reveal_strlit("?limit=");
        reveal_strlit("&offset=");
    }
    let mut address = list;
    address.append("?limit=");
    push_decimal(&mut address, limit);
    address.append("&offset=");
    push_decimal(&mut address, offset);
    address
}

/// Whether `status` is in the success range, 200..=299.
pub fn is_success_status(status: u16) -> (ok: bool)
    ensures
        ok == is_success(status),
{
    200 <= status && status <= 299
}

/// The upstream catalogue, reached under a base address that was validated
/// when the value was made.
pub struct Pokedex {
    base: String,
}

impl View for Pokedex {
    type V = Seq<char>;

    /// The base address, as it was given.
    closed spec fn view(&self) -> Seq<char> {
        self.base@
    }
}

impl Pokedex {
    #[verifier::type_invariant]
    spec fn base_is_valid(self) -> bool {
        is_valid_base(parsed_url(self.base@))
    }

    /// Sets the catalogue up under `base`.
    ///
    /// Succeeds exactly when `base` parses as a URL against which relative
    /// references resolve and whose scheme is `http` or `https`.
    pub fn new(base: &str) -> (r: Result<Pokedex, PokedexError>)
        ensures
            r is Ok <==> is_valid_base(parsed_url(base@)),
            r matches Ok(pokedex) ==> pokedex@ == base@,
            r matches Err(e) ==> e == PokedexError::InvalidBaseUrl,
    {
        let parsed = parse_url(base);
        if is_base(&parsed) {
            Ok(Pokedex { base: base.to_owned() })
        } else {
            Err(PokedexError::InvalidBaseUrl)
        }
    }

    /// The base address. It is valid for every catalogue.
    pub fn base(&self) -> (r: &str)
        ensures
            r@ == self@,
            is_valid_base(parsed_url(self@)),
    {
        proof {
            use_type_invariant(self);
        }
        self.base.as_str()
    }

    /// The address to GET for the page of `limit` entries that starts at
    /// entry `offset`: the list resource, resolved against the base, with
    /// the two numbers as its query. There is none where the list resource
    /// does not resolve against the base.
    pub fn page_url(&self, limit: u32, offset: u32) -> (r: Option<String>)
        ensures
            r is Some <==> joined_url(self@, list_path()) is Some,
            r matches Some(address) ==> address@ == page_address(
                joined_url(self@, list_path())->0,
                limit,
                offset,
            ),
    {
        proof {
            reveal_strlit("pokemon");
            assert("pokemon"@ =~= list_path());
        }
        match join_url(self.base.as_str(), "pokemon") {
            Some(list) => Some(page_address_of(list, limit, offset)),
            None => None,
        }
    }

    /// The page that a reply to a page request holds, or the reason why it
    /// holds none.
    pub fn get_all_pokemon(&self, reply: Reply) -> (r: Result<PokemonList, PokedexError>)
        ensures
            r == fetched(reply),
    {
        match reply {
            Reply::Unreachable => Err(PokedexError::Transport),
            Reply::Response { status, page } => {
                if !is_success_status(status) {
                    Err(PokedexError::HttpStatus(status))
                } else {
                    match page {
                        Some(page) => Ok(page),
                        None => Err(PokedexError::Decode),
                    }
                }
            },
        }
    }
}

} // verus!
