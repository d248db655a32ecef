//! The logic of a small gateway that lists the entries of a paginated
//! upstream catalogue by number and name.
//!
//! The library performs no input or output. A caller asks it which address
//! to request, performs the request, and hands back what arrived; the
//! library decides what that amounts to and what to answer.
//!
//! - [`pokemon_api`]: the catalogue, the address of a page and the reading
//!   of a reply;
//! - [`api`]: the listing endpoint, from the fetched page to the answer;
//! - [`decimal`]: unsigned decimal numerals, read and written;
//! - [`text`]: comparison of texts;
//! - [`url_parts`]: the components of a URL, from the `url` crate.

pub mod api;
pub mod decimal;
pub mod pokemon_api;
pub mod text;
pub mod url_parts;
