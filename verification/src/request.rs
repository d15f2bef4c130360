//! The requests that the service answers. A request knows the address of its
//! listing and the kind of record that the listing holds.

use std::borrow::Cow;
use vstd::prelude::*;
use vstd::string::StringExecFns;

use crate::record::Serie;
use crate::record::SerieTraduzione;
use crate::record::Sottotitolo;
use crate::text::decimal;
use crate::text::decimal_text;

verus! {

/// What every request has: the records it asks for and the address it asks
/// at. The trait is open to requests of the caller's own; of their addresses
/// nothing is promised here. Each request of this library states its own.
pub trait Request {
    /// The record that each element of the listing is read as.
    type Response: std::fmt::Debug + std::marker::Send;

    /// The absolute address of the listing.
    fn url(&self) -> Cow<'static, str>;
}

/// Asks for the series that are being translated.
pub struct ReqSerieTraduzione;

impl Request for ReqSerieTraduzione {
    type Response = SerieTraduzione;

    fn url(&self) -> (url: Cow<'static, str>)
        ensures
            url@ == "https://www.subspedia.tv/API/serie_traduzione"@,
    {
        Cow::Borrowed("https://www.subspedia.tv/API/serie_traduzione")
    }
}

/// Asks for the whole catalogue of series.
pub struct ReqElencoSerie;

impl Request for ReqElencoSerie {
    type Response = Serie;

    fn url(&self) -> (url: Cow<'static, str>)
        ensures
            url@ == "https://www.subspedia.tv/API/elenco_serie"@,
    {
        Cow::Borrowed("https://www.subspedia.tv/API/elenco_serie")
    }
}

/// Asks for the subtitles that came out last.
pub struct ReqUltimiSottotitoli;

impl Request for ReqUltimiSottotitoli {
    type Response = Sottotitolo;

    fn url(&self) -> (url: Cow<'static, str>)
        ensures
            url@ == "https://www.subspedia.tv/API/ultimi_sottotitoli"@,
    {
        Cow::Borrowed("https://www.subspedia.tv/API/ultimi_sottotitoli")
    }
}

/// Asks for the subtitles of one series.
pub struct ReqSottotitoliSerie {
    id: usize,
}

/// The address at which the subtitles of the series `id` are listed: a fixed
/// text, then the decimal numeral of `id`.
pub open spec fn sottotitoli_serie_address(id: usize) -> Seq<char> {
    "https://www.subspedia.tv/API/sottotitoli_serie?serie="@ + decimal(id as nat)
}

impl ReqSottotitoliSerie {
    /// The identifier of the series that the request is about.
    pub closed spec fn series(&self) -> usize {
        self.id
    }

    /// A request for the subtitles of the series `id`.
    pub fn new(id: usize) -> (req: ReqSottotitoliSerie)
        ensures
            req.series() == id,
    {
        ReqSottotitoliSerie { id }
    }
}

impl Request for ReqSottotitoliSerie {
    type Response = Sottotitolo;

    fn url(&self) -> (url: Cow<'static, str>)
        ensures
            url@ == sottotitoli_serie_address(self.series()),
    {
        let mut address = String::from_str("https://www.subspedia.tv/API/sottotitoli_serie?serie=");
        let id = decimal_text(self.id);
        address.append(id.as_str());
        Cow::Owned(address)
    }
}

} // verus!
