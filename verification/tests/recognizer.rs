use identifiers::{Doi, Error, Recognizer};

#[test]
fn one_recognizer_serves_many_texts() {
    let recognizer = Recognizer::new();

    let first = recognizer.extract("I love 10.1038/nplants.2015.3");
    let second = recognizer.extract("No DOIs here");
    let third = recognizer.extract("10.1000/182 and 10.1000/183");

    assert_eq!(first.len(), 1);
    assert_eq!(first[0].as_str(), "10.1038/nplants.2015.3");
    assert!(second.is_empty());
    assert_eq!(third.len(), 2);
    assert_eq!(third[0].as_str(), "10.1000/182");
    assert_eq!(third[1].as_str(), "10.1000/183");
}

#[test]
fn recognizer_parses_like_doi() {
    let recognizer = Recognizer::new();

    assert_eq!(
        recognizer.parse("see 10.1234/foobar there"),
        Doi::parse("see 10.1234/foobar there")
    );
    assert_eq!(
        recognizer.parse("see 10.1234/foobar there").unwrap().as_str(),
        "10.1234/foobar"
    );
    assert_eq!(
        recognizer.parse("not a DOI"),
        Err(Error::InvalidDoi("not a DOI".to_string()))
    );
}

#[test]
fn recognizer_extracts_like_doi() {
    let recognizer = Recognizer::new();
    let text = "I love 10.1038/nplants.2015.3 and 10.1038/nplants.2015.4";

    assert_eq!(recognizer.extract(text), Doi::extract(text));
}
