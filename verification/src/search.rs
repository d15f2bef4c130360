//! Searching a fetched catalogue: by a part of the name, whatever its case,
//! and by identifier.

use vstd::prelude::*;
use vstd::string::StringExecFns;

use crate::error::FetchError;
use crate::record::Serie;
use crate::text::decimal;
use crate::text::decimal_text;
use crate::text::lemma_empty_occurs;
use crate::text::lowered;
use crate::text::lowered_chars;
use crate::text::occurs;
use crate::text::occurs_at;
use crate::text::occurs_in;

verus! {

/// A series named `nome` answers the query `name`: with both in lower case,
/// the query stands somewhere in the name.
pub open spec fn name_matches(nome: Seq<char>, name: Seq<char>) -> bool {
    occurs_in(lowered(name), lowered(nome))
}

/// The series of the catalogue that answer the query `name`, in catalogue
/// order.
pub open spec fn named_like(catalog: Seq<Serie>, name: Seq<char>) -> Seq<Serie> {
    catalog.filter(|serie: Serie| name_matches(serie@.nome_serie, name))
}

/// What is reported when no series answers the query `name`.
pub open spec fn not_found_by_name(name: Seq<char>) -> Seq<char> {
    "Series with name "@ + name + " not found"@
}

/// The last series of the catalogue whose identifier is `id`.
pub open spec fn last_with_id(catalog: Seq<Serie>, id: usize) -> Option<Serie>
    decreases catalog.len(),
{
    if catalog.len() == 0 {
        None
    } else if catalog.last()@.id_serie == id {
        Some(catalog.last())
    } else {
        last_with_id(catalog.drop_last(), id)
    }
}

/// No series of the catalogue has the identifier `id`.
pub open spec fn id_absent(catalog: Seq<Serie>, id: usize) -> bool {
    forall|at: int| 0 <= at < catalog.len() ==> (#[trigger] catalog[at])@.id_serie != id
}

/// The series at position `at` has the identifier `id`, and none after it
/// has.
pub open spec fn id_last_at(catalog: Seq<Serie>, id: usize, at: int) -> bool {
    &&& 0 <= at < catalog.len()
    &&& catalog[at]@.id_serie == id
    &&& forall|later: int|
        at < later < catalog.len() ==> (#[trigger] catalog[later])@.id_serie != id
}

/// What is reported when no series has the identifier `id`.
pub open spec fn not_found_by_id(id: usize) -> Seq<char> {
    "Series with id "@ + decimal(id as nat) + " not found."@
}

/// The empty query is answered by every series: it keeps the whole catalogue.
pub proof fn lemma_empty_name_keeps_all(catalog: Seq<Serie>, name: Seq<char>)
    requires
        name.len() == 0,
    ensures
        named_like(catalog, name) == catalog,
    decreases catalog.len(),
{
    reveal(Seq::filter);
    if catalog.len() > 0 {
        lemma_empty_name_keeps_all(catalog.drop_last(), name);
        lemma_empty_occurs(lowered(catalog.last()@.nome_serie));
        assert(lowered(name) =~= Seq::<char>::empty());
        assert(catalog.drop_last().push(catalog.last()) =~= catalog);
    }
}

/// Case is ignored: whether a name answers a query rests on the two in lower
/// case alone.
pub proof fn lemma_case_is_ignored(
    nome: Seq<char>,
    other_nome: Seq<char>,
    name: Seq<char>,
    other_name: Seq<char>,
)
    requires
        lowered(nome) == lowered(other_nome),
        lowered(name) == lowered(other_name),
    ensures
        name_matches(nome, name) == name_matches(other_nome, other_name),
{
}

/// Two queries that are equal in lower case find the same series.
pub proof fn lemma_query_case_is_ignored(catalog: Seq<Serie>, name: Seq<char>, other: Seq<char>)
    requires
        lowered(name) == lowered(other),
    ensures
        named_like(catalog, name) == named_like(catalog, other),
    decreases catalog.len(),
{
    reveal(Seq::filter);
    if catalog.len() > 0 {
        lemma_query_case_is_ignored(catalog.drop_last(), name, other);
    }
}

/// A search by `id` finds the series that has the identifier with none after
/// it that has: the only one, or of several the last.
pub proof fn lemma_last_with_id(catalog: Seq<Serie>, id: usize, at: int)
    requires
        id_last_at(catalog, id, at),
    ensures
        last_with_id(catalog, id) == Some(catalog[at]),
    decreases catalog.len(),
{
    if at < catalog.len() - 1 {
        let front = catalog.drop_last();
        assert(catalog[catalog.len() - 1]@.id_serie != id);
        assert forall|later: int| at < later < front.len() implies (#[trigger] front[later])@.id_serie
            != id by {
            assert(front[later] == catalog[later]);
        }
        lemma_last_with_id(front, id, at);
    }
}

/// A search by `id` finds nothing exactly when no series has the identifier,
/// and what it finds is a series of the catalogue that has it.
pub proof fn lemma_absent_id(catalog: Seq<Serie>, id: usize)
    ensures
        last_with_id(catalog, id) is None <==> id_absent(catalog, id),
        last_with_id(catalog, id) matches Some(serie) ==> serie@.id_serie == id
            && catalog.contains(serie),
    decreases catalog.len(),
{
    if catalog.len() > 0 {
        let front = catalog.drop_last();
        lemma_absent_id(front, id);
        if catalog.last()@.id_serie == id {
            assert(catalog[catalog.len() - 1]@.id_serie == id);
        } else {
            if id_absent(front, id) {
                assert forall|at: int| 0 <= at < catalog.len() implies (#[trigger] catalog[at])@.id_serie
                    != id by {
                    if at < front.len() {
                        assert(front[at] == catalog[at]);
                    }
                }
            } else {
                let at = choose|at: int| 0 <= at < front.len() && (#[trigger] front[at])@.id_serie == id;
                assert(catalog[at] == front[at]);
            }
            if last_with_id(front, id) is Some {
                let serie = last_with_id(front, id)->0;
                let at = choose|at: int| 0 <= at < front.len() && front[at] == serie;
                assert(catalog[at] == serie);
            }
        }
    }
}

/// The report of a failed search by `id` holds the numeral of `id`.
pub proof fn lemma_report_names_id(id: usize)
    ensures
        occurs_in(decimal(id as nat), not_found_by_id(id)),
{
    let numeral = decimal(id as nat);
    let report = not_found_by_id(id);
    let at = "Series with id "@.len() as int;
    assert(report.subrange(at, at + numeral.len()) =~= numeral);
    assert(occurs_at(numeral, report, at));
}

/// The report of a failed search by `name` holds the query as it was given.
pub proof fn lemma_report_names_query(name: Seq<char>)
    ensures
        occurs_in(name, not_found_by_name(name)),
{
    let report = not_found_by_name(name);
    let at = "Series with name "@.len() as int;
    assert(report.subrange(at, at + name.len()) =~= name);
    assert(occurs_at(name, report, at));
}

fn report_by_name(name: &str) -> (report: String)
    ensures
        report@ == not_found_by_name(name@),
{
    let mut report = String::from_str("Series with name ");
    report.append(name);
    report.append(" not found");
    report
}

fn report_by_id(id: usize) -> (report: String)
    ensures
        report@ == not_found_by_id(id),
{
    let mut report = String::from_str("Series with id ");
    let numeral = decimal_text(id);
    report.append(numeral.as_str());
    report.append(" not found.");
    report
}

/// Searches the catalogue for the series whose name holds `name`, whatever the
/// case of either. The series found come in catalogue order; that there is
/// none is a failure, reported with the query in it. The empty query finds
/// every series.
pub fn search_by_name(catalog: &[Serie], name: &str) -> (found: Result<Vec<Serie>, FetchError>)
    ensures
        match found {
            Ok(series) => series@ == named_like(catalog@, name@) && series@.len() > 0,
            Err(FetchError::NotFound(report)) => named_like(catalog@, name@).len() == 0
                && report@ == not_found_by_name(name@),
            Err(_) => false,
        },
        name@.len() == 0 && catalog@.len() > 0 ==> (found matches Ok(series) && series@
            == catalog@),
{
    let needle = lowered_chars(name);
    let mut series: Vec<Serie> = Vec::new();
    let mut at: usize = 0;
    while at < catalog.len()
        invariant
            at <= catalog.len(),
            needle@ == lowered(name@),
            series@ == named_like(catalog@.take(at as int), name@),
        decreases catalog.len() - at,
    {
        let hay = lowered_chars(catalog[at].nome_serie.as_str());
        if occurs(needle.as_slice(), hay.as_slice()) {
            series.push(catalog[at].clone());
        }
        proof {
            reveal(Seq::filter);
            let seen = catalog@.take(at + 1);
            assert(seen.drop_last() =~= catalog@.take(at as int));
            assert(seen.last() == catalog@[at as int]);
        }
        at += 1;
    }
    proof {
        assert(catalog@.take(at as int) =~= catalog@);
        if name@.len() == 0 {
            lemma_empty_name_keeps_all(catalog@, name@);
        }
    }
    if series.len() > 0 {
        Ok(series)
    } else {
        Err(FetchError::NotFound(report_by_name(name)))
    }
}

fn position_of_last(catalog: &[Serie], id: usize) -> (position: Option<usize>)
    ensures
        match position {
            Some(at) => at < catalog@.len() && last_with_id(catalog@, id) == Some(
                catalog@[at as int],
            ),
            None => last_with_id(catalog@, id) is None,
        },
{
    let mut left: usize = catalog.len();
    assert(catalog@.take(left as int) =~= catalog@);
    while left > 0
        invariant
            left <= catalog.len(),
            last_with_id(catalog@, id) == last_with_id(catalog@.take(left as int), id),
        decreases left,
    {
        left -= 1;
        proof {
            let seen = catalog@.take(left + 1);
            assert(seen.last() == catalog@[left as int]);
            assert(seen.drop_last() =~= catalog@.take(left as int));
        }
        if catalog[left].id_serie == id {
            return Some(left);
        }
    }
    None
}

/// Searches the catalogue for the series with the identifier `id`. Where
/// several have it, the last of them in catalogue order is the one found; that
/// there is none is a failure, reported with the identifier in it.
pub fn search_by_id(catalog: &[Serie], id: usize) -> (found: Result<Serie, FetchError>)
    ensures
        match found {
            Ok(serie) => last_with_id(catalog@, id) == Some(serie),
            Err(FetchError::NotFound(report)) => last_with_id(catalog@, id) is None && report@
                == not_found_by_id(id),
            Err(_) => false,
        },
        id_absent(catalog@, id) ==> (found matches Err(FetchError::NotFound(report))
            && occurs_in(decimal(id as nat), report@)),
        forall|at: int| #[trigger]
            id_last_at(catalog@, id, at) ==> found == Ok::<Serie, FetchError>(catalog@[at]),
{
    proof {
        lemma_absent_id(catalog@, id);
        lemma_report_names_id(id);
        assert forall|at: int| #[trigger] id_last_at(catalog@, id, at) implies last_with_id(
            catalog@,
            id,
        ) == Some(catalog@[at]) by {
            lemma_last_with_id(catalog@, id, at);
        }
    }
    match position_of_last(catalog, id) {
        Some(at) => Ok(catalog[at].clone()),
        None => Err(FetchError::NotFound(report_by_id(id))),
    }
}

} // verus!
