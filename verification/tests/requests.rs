use subspedia::ReqElencoSerie;
use subspedia::ReqSerieTraduzione;
use subspedia::ReqSottotitoliSerie;
use subspedia::ReqUltimiSottotitoli;
use subspedia::Request;

#[test]
fn series_in_translation_have_a_fixed_address() {
    assert_eq!(
        ReqSerieTraduzione.url(),
        "https://www.subspedia.tv/API/serie_traduzione"
    );
}

#[test]
fn the_catalogue_has_a_fixed_address() {
    assert_eq!(
        ReqElencoSerie.url(),
        "https://www.subspedia.tv/API/elenco_serie"
    );
}

#[test]
fn the_last_subtitles_have_a_fixed_address() {
    assert_eq!(
        ReqUltimiSottotitoli.url(),
        "https://www.subspedia.tv/API/ultimi_sottotitoli"
    );
}

#[test]
fn subtitles_of_a_series_are_asked_for_by_its_number() {
    assert_eq!(
        ReqSottotitoliSerie::new(500).url(),
        "https://www.subspedia.tv/API/sottotitoli_serie?serie=500"
    );
}

#[test]
fn series_zero_is_written_as_one_digit() {
    assert_eq!(
        ReqSottotitoliSerie::new(0).url(),
        "https://www.subspedia.tv/API/sottotitoli_serie?serie=0"
    );
}

#[test]
fn the_largest_series_number_is_written_in_full() {
    let expected = format!(
        "https://www.subspedia.tv/API/sottotitoli_serie?serie={}",
        usize::MAX
    );
    assert_eq!(ReqSottotitoliSerie::new(usize::MAX).url(), expected);
}

#[test]
fn every_series_number_ends_the_address_as_its_numeral() {
    let base = "https://www.subspedia.tv/API/sottotitoli_serie?serie=";
    for id in [1usize, 9, 10, 11, 99, 100, 101, 4096, 65535, 1_000_000, 123_456_789] {
        let url = ReqSottotitoliSerie::new(id).url();
        assert!(url.starts_with(base));
        assert_eq!(&url[base.len()..], id.to_string());
    }
}

#[test]
fn a_request_gives_the_same_address_twice() {
    let request = ReqSottotitoliSerie::new(77);
    assert_eq!(request.url(), request.url());
}

#[test]
fn every_address_is_absolute_and_secure() {
    let addresses = vec![
        ReqSerieTraduzione.url().into_owned(),
        ReqElencoSerie.url().into_owned(),
        ReqUltimiSottotitoli.url().into_owned(),
        ReqSottotitoliSerie::new(3).url().into_owned(),
    ];
    for address in addresses {
        assert!(address.starts_with("https://www.subspedia.tv/API/"));
    }
}
