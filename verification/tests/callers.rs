use std::borrow::Cow;
use subspedia::Request;
use subspedia::Serie;

struct Mirror {
    host: String,
}

impl Request for Mirror {
    type Response = Serie;

    fn url(&self) -> Cow<'static, str> {
        Cow::Owned(format!("https://{}/API/elenco_serie", self.host))
    }
}

#[test]
fn a_request_of_the_caller_has_its_own_address() {
    let mirror = Mirror { host: String::from("mirror.example") };
    assert_eq!(mirror.url(), "https://mirror.example/API/elenco_serie");
}
