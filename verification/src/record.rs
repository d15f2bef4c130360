//! The records that the listings hold. Each mirrors one object of a listing,
//! field for field and under the listing's own field names.

use vstd::prelude::*;

verus! {

/// A series that is being translated, with the episode the translators are at.
#[derive(Debug)]
pub struct SerieTraduzione {
    pub id_serie: usize,
    pub nome_serie: String,
    pub link_serie: String,
    pub id_thetvdb: usize,
    pub num_stagione: usize,
    pub num_episodio: usize,
    pub stato: String,
}

/// A series of the catalogue.
#[derive(Debug)]
pub struct Serie {
    pub id_serie: usize,
    pub nome_serie: String,
    pub link_serie: String,
    pub id_thetvdb: usize,
    pub stato: String,
    pub anno: usize,
}

/// What a `Serie` holds, as numbers and sequences of characters.
pub struct SerieView {
    pub id_serie: nat,
    pub nome_serie: Seq<char>,
    pub link_serie: Seq<char>,
    pub id_thetvdb: nat,
    pub stato: Seq<char>,
    pub anno: nat,
}

impl View for Serie {
    type V = SerieView;

    open spec fn view(&self) -> SerieView {
        SerieView {
            id_serie: self.id_serie as nat,
            nome_serie: self.nome_serie@,
            link_serie: self.link_serie@,
            id_thetvdb: self.id_thetvdb as nat,
            stato: self.stato@,
            anno: self.anno as nat,
        }
    }
}

impl Clone for Serie {
    /// A copy that equals the record field by field.
    fn clone(&self) -> (copy: Serie)
        ensures
            copy == *self,
    {
        Serie {
            id_serie: self.id_serie,
            nome_serie: self.nome_serie.clone(),
            link_serie: self.link_serie.clone(),
            id_thetvdb: self.id_thetvdb,
            stato: self.stato.clone(),
            anno: self.anno,
        }
    }
}

/// The subtitles of one episode.
#[derive(Debug)]
pub struct Sottotitolo {
    pub id_serie: usize,
    pub nome_serie: String,
    pub ep_titolo: String,
    pub num_stagione: usize,
    pub num_episodio: usize,
    pub immagine: String,
    pub link_sottotitoli: String,
    pub link_serie: String,
    pub link_file: String,
    pub descrizione: String,
    pub id_thetvdb: usize,
    pub data_uscita: String,
    pub grazie: usize,
}

} // verus!
