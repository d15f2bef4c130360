//! Typed access to the catalogue of television series that
//! [subspedia](https://www.subspedia.tv/) publishes: where each listing is
//! found, what a listed record holds, and how a fetched catalogue is searched
//! by name or by identifier.

pub mod error;
pub mod record;
pub mod request;
pub mod search;
pub mod text;

pub use error::FetchError;
pub use record::Serie;
pub use record::SerieTraduzione;
pub use record::Sottotitolo;
pub use request::ReqElencoSerie;
pub use request::ReqSerieTraduzione;
pub use request::ReqSottotitoliSerie;
pub use request::ReqUltimiSottotitoli;
pub use request::Request;
pub use search::search_by_id;
pub use search::search_by_name;
