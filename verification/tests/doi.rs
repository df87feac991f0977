use identifiers::{Doi, Error};

fn strings(dois: &[Doi]) -> Vec<String> {
    dois.iter().map(|doi| doi.to_string()).collect()
}

#[test]
fn can_parse_a_valid_doi() {
    let doi: Doi = "10.1038/nplants.2015.3".parse().unwrap();

    assert_eq!(doi.as_str(), "10.1038/nplants.2015.3");
}

#[test]
fn can_parse_an_invalid_doi() {
    let doi = "not a DOI".parse::<Doi>();

    match doi {
        Err(Error::InvalidDoi(text)) => assert_eq!(text, "not a DOI"),
        _ => panic!("Expected an invalid DOI"),
    }
}

#[test]
fn extract_returns_a_doi() {
    let dois = Doi::extract("I love 10.1038/nplants.2015.3");

    assert_eq!(strings(&dois), vec!["10.1038/nplants.2015.3"]);
    assert_eq!(dois, vec![Doi::parse("10.1038/nplants.2015.3").unwrap()]);
}

#[test]
fn extract_returns_multiple_dois() {
    let dois = Doi::extract("I love 10.1038/nplants.2015.3 and 10.1038/nplants.2015.4");

    assert_eq!(
        strings(&dois),
        vec!["10.1038/nplants.2015.3", "10.1038/nplants.2015.4"]
    );
    assert_eq!(
        dois,
        vec![
            Doi::parse("10.1038/nplants.2015.3").unwrap(),
            Doi::parse("10.1038/nplants.2015.4").unwrap(),
        ]
    );
}

#[test]
fn extract_returns_an_empty_vec() {
    let dois = Doi::extract("No DOIs here");

    assert_eq!(dois, Vec::new());
}

#[test]
fn parse_of_an_exact_doi_gives_it_back() {
    let doi = Doi::parse("10.1234/foobar").unwrap();

    assert_eq!(doi.as_str(), "10.1234/foobar");
    assert_eq!(doi.to_string(), "10.1234/foobar");
}

#[test]
fn parse_then_to_string_round_trips() {
    let doi = Doi::parse("10.1038/nplants.2015.3").unwrap();

    assert_eq!(doi.to_string(), "10.1038/nplants.2015.3");
}

#[test]
fn parse_keeps_the_match_and_not_the_input() {
    let doi = Doi::parse("I love 10.1038/nplants.2015.3 very much").unwrap();

    assert_eq!(doi.as_str(), "10.1038/nplants.2015.3");
}

#[test]
fn parse_takes_the_first_of_several_matches() {
    let doi = Doi::parse("both 10.1234/first and 10.5678/second").unwrap();

    assert_eq!(doi.as_str(), "10.1234/first");
}

#[test]
fn parse_failure_carries_the_whole_input() {
    let input = "  nothing to see: 10.12/short  ";

    assert_eq!(Doi::parse(input), Err(Error::InvalidDoi(input.to_string())));
}

#[test]
fn parse_and_from_str_agree() {
    for text in ["10.1234/foobar", "see 10.1234/foobar.", "not a DOI", ""] {
        assert_eq!(text.parse::<Doi>(), Doi::parse(text));
    }
}

#[test]
fn text_without_a_doi_gives_nothing_and_an_error() {
    for text in ["", " ", "No DOIs here", "10.", "10.1234", "10.1234/", "doi:10.abc/def"] {
        assert_eq!(strings(&Doi::extract(text)), Vec::<String>::new());
        assert_eq!(Doi::parse(text), Err(Error::InvalidDoi(text.to_string())));
    }
}

#[test]
fn text_with_a_doi_gives_the_matched_pieces() {
    let text = "first 10.1000/182 then (10.1016/j.cell.2009.01.042) at last";
    let dois = Doi::extract(text);

    assert!(!dois.is_empty());
    for doi in &dois {
        assert!(text.contains(doi.as_str()));
        assert_eq!(doi.to_string(), doi.as_str());
    }
    assert_eq!(strings(&dois), vec!["10.1000/182", "10.1016/j.cell.2009.01.042"]);
    assert_eq!(Doi::parse(text).unwrap(), dois[0]);
}

#[test]
fn extract_returns_one_doi_for_each_phrase_in_order() {
    let phrases = [
        "I love 10.1038/nplants.2015.3",
        "you prefer 10.1000/182",
        "they cite 10.5555/12345678",
    ];
    let text = phrases.join(" and ");

    assert_eq!(
        strings(&Doi::extract(&text)),
        vec!["10.1038/nplants.2015.3", "10.1000/182", "10.5555/12345678"]
    );
}

#[test]
fn extract_twice_gives_the_same() {
    let text = "I love 10.1038/nplants.2015.3 and 10.1038/nplants.2015.4";

    assert_eq!(Doi::extract(text), Doi::extract(text));
    assert_eq!(Doi::extract(""), Doi::extract(""));
}

#[test]
fn registrant_code_has_four_to_nine_digits() {
    assert_eq!(strings(&Doi::extract("10.123/abc")), Vec::<String>::new());
    assert_eq!(strings(&Doi::extract("10.1234/abc")), vec!["10.1234/abc"]);
    assert_eq!(strings(&Doi::extract("10.123456789/abc")), vec!["10.123456789/abc"]);
    assert_eq!(strings(&Doi::extract("10.1234567890/abc")), Vec::<String>::new());
}

#[test]
fn a_doi_starts_at_a_word_boundary() {
    assert_eq!(strings(&Doi::extract("x10.1234/abc")), Vec::<String>::new());
    assert_eq!(strings(&Doi::extract("210.1234/abc")), Vec::<String>::new());
    assert_eq!(strings(&Doi::extract("doi:10.1234/abc")), vec!["10.1234/abc"]);
    assert_eq!(strings(&Doi::extract("(10.1234/abc")), vec!["10.1234/abc"]);
}

#[test]
fn a_suffix_runs_to_the_last_word_boundary_before_whitespace() {
    assert_eq!(strings(&Doi::extract("10.1234/abc def")), vec!["10.1234/abc"]);
    assert_eq!(strings(&Doi::extract("10.1234/abc\tdef")), vec!["10.1234/abc"]);
    assert_eq!(strings(&Doi::extract("10.1234/abc\ndef")), vec!["10.1234/abc"]);
    assert_eq!(strings(&Doi::extract("10.1234/abc.")), vec!["10.1234/abc"]);
    assert_eq!(strings(&Doi::extract("10.1234/abc, def")), vec!["10.1234/abc"]);
    assert_eq!(strings(&Doi::extract("10.1234/a(b)c-d_e")), vec!["10.1234/a(b)c-d_e"]);
}

#[test]
fn punctuation_without_a_space_stays_in_the_suffix() {
    assert_eq!(strings(&Doi::extract("10.1234/abc,def")), vec!["10.1234/abc,def"]);
    assert_eq!(
        strings(&Doi::extract("10.1234/abc,10.5678/def")),
        vec!["10.1234/abc,10.5678/def"]
    );
    assert_eq!(strings(&Doi::extract("10.1234/abc;see")), vec!["10.1234/abc;see"]);
}

#[test]
fn a_suffix_needs_a_word_character() {
    assert_eq!(strings(&Doi::extract("10.1234/...")), Vec::<String>::new());
    assert_eq!(strings(&Doi::extract("10.1234/ abc")), Vec::<String>::new());
    assert_eq!(strings(&Doi::extract("10.1234/-a-")), vec!["10.1234/-a"]);
}

#[test]
fn text_around_a_doi_may_hold_any_characters() {
    let dois = Doi::extract("Ünïcödé — 10.1038/nplants.2015.3 » ça “10.1000/182” 日本語");

    assert_eq!(strings(&dois), vec!["10.1038/nplants.2015.3", "10.1000/182"]);
}

#[test]
fn a_suffix_may_hold_any_characters_but_whitespace() {
    assert_eq!(strings(&Doi::extract("see 10.1234/étude-été now")), vec!["10.1234/étude-été"]);
    assert_eq!(strings(&Doi::extract("10.1234/日本語 と")), vec!["10.1234/日本語"]);
    assert_eq!(strings(&Doi::extract("10.1234/abc\u{a0}def")), vec!["10.1234/abc"]);
    assert_eq!(Doi::parse("10.1234/日本語").unwrap().as_str(), "10.1234/日本語");
}

#[test]
fn digits_of_any_script_count_as_digits() {
    assert_eq!(strings(&Doi::extract("10.١٢٣٤/abc")), vec!["10.١٢٣٤/abc"]);
}

#[test]
fn dois_are_equal_when_their_strings_are() {
    let a = Doi::parse("about 10.1234/abc").unwrap();
    let b = Doi::parse("10.1234/abc again").unwrap();
    let c = Doi::parse("10.1234/ABC").unwrap();

    assert_eq!(a, b);
    assert_ne!(a, c);
    assert_eq!(a.clone(), a);
    assert_eq!(a.clone().as_str(), "10.1234/abc");
    assert_eq!(format!("{:?}", a), "Doi(\"10.1234/abc\")");
}
