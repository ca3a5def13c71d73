use fatcat_cli::specifier::{
    changelog_index, is_changelog_lookup, ContainerLookupKey, CreatorLookupKey, FileLookupKey, ReleaseLookupKey,
    Specifier, SpecifierError,
};
use fatcat_cli::util::is_fcid;

#[test]
fn test_specifier_from_str() -> () {
    assert!(Specifier::from_str("release_asdf").is_err());
    assert_eq!(
        Specifier::from_str("creator_iimvc523xbhqlav6j3sbthuehu").unwrap(),
        Specifier::Creator("iimvc523xbhqlav6j3sbthuehu".to_string())
    );
    assert_eq!(
        Specifier::from_str("username:big-bot").unwrap(),
        Specifier::EditorUsername("big-bot".to_string())
    );
    assert_eq!(
        Specifier::from_str("doi:10.1234/a!s.df+-d").unwrap(),
        Specifier::ReleaseLookup(ReleaseLookupKey::DOI, "10.1234/a!s.df+-d".to_string())
    );
    assert!(Specifier::from_str("doi:").is_err());
    assert_eq!(Specifier::from_str("changelog_1234").unwrap(), Specifier::Changelog(1234));
    assert!(Specifier::from_str("changelog_12E4").is_err());
}

const ID: &str = "iimvc523xbhqlav6j3sbthuehu";

#[test]
fn every_entity_prefix_parses() {
    let cases: Vec<(&str, fn(String) -> Specifier)> = vec![
        ("release", Specifier::Release),
        ("work", Specifier::Work),
        ("container", Specifier::Container),
        ("creator", Specifier::Creator),
        ("file", Specifier::File),
        ("fileset", Specifier::FileSet),
        ("webcapture", Specifier::WebCapture),
        ("editgroup", Specifier::Editgroup),
        ("editor", Specifier::Editor),
    ];
    for (prefix, make) in cases {
        let text = format!("{}_{}", prefix, ID);
        assert_eq!(Specifier::from_str(&text).unwrap(), make(ID.to_string()));
    }
}

#[test]
fn entity_identifier_must_be_26_base32_characters() {
    // one character short, one too many
    assert!(Specifier::from_str("work_iimvc523xbhqlav6j3sbthueh").is_err());
    assert!(Specifier::from_str("work_iimvc523xbhqlav6j3sbthuehuu").is_err());
    // upper case letters, and the digits 0, 1, 8 and 9, are outside the alphabet
    assert!(Specifier::from_str("work_IIMVC523XBHQLAV6J3SBTHUEHU").is_err());
    assert!(Specifier::from_str("work_iimvc523xbhqlav6j3sbthueh1").is_err());
    assert!(Specifier::from_str("work_iimvc523xbhqlav6j3sbthueh8").is_err());
    // an unknown entity kind
    assert!(Specifier::from_str("thing_iimvc523xbhqlav6j3sbthuehu").is_err());
    // trailing or leading text
    assert!(Specifier::from_str(" work_iimvc523xbhqlav6j3sbthuehu").is_err());
    assert!(Specifier::from_str("work_iimvc523xbhqlav6j3sbthuehu ").is_err());
}

#[test]
fn every_lookup_key_parses() {
    let v = "abc-123".to_string();
    let p = |t: &str| Specifier::from_str(t).unwrap();
    assert_eq!(p("doi:abc-123"), Specifier::ReleaseLookup(ReleaseLookupKey::DOI, v.clone()));
    assert_eq!(p("pmcid:abc-123"), Specifier::ReleaseLookup(ReleaseLookupKey::PMCID, v.clone()));
    assert_eq!(p("pmid:abc-123"), Specifier::ReleaseLookup(ReleaseLookupKey::PMID, v.clone()));
    assert_eq!(p("arxiv:abc-123"), Specifier::ReleaseLookup(ReleaseLookupKey::Arxiv, v.clone()));
    assert_eq!(p("issnl:abc-123"), Specifier::ContainerLookup(ContainerLookupKey::ISSNL, v.clone()));
    assert_eq!(p("orcid:abc-123"), Specifier::CreatorLookup(CreatorLookupKey::Orcid, v.clone()));
    assert_eq!(p("sha1:abc-123"), Specifier::FileLookup(FileLookupKey::SHA1, v.clone()));
    assert_eq!(p("sha256:abc-123"), Specifier::FileLookup(FileLookupKey::SHA256, v.clone()));
    assert_eq!(p("md5:abc-123"), Specifier::FileLookup(FileLookupKey::MD5, v.clone()));
    assert_eq!(p("username:abc-123"), Specifier::EditorUsername(v.clone()));
}

#[test]
fn lookup_value_may_hold_colons_but_no_white_space() {
    assert_eq!(
        Specifier::from_str("doi:a:b").unwrap(),
        Specifier::ReleaseLookup(ReleaseLookupKey::DOI, "a:b".to_string())
    );
    assert!(Specifier::from_str("doi:a b").is_err());
    assert!(Specifier::from_str("doi: ab").is_err());
    assert!(Specifier::from_str("doi:ab\t").is_err());
    // ideographic space is white space too
    assert!(Specifier::from_str("doi:a\u{3000}b").is_err());
    // other non-ASCII text is accepted
    assert_eq!(
        Specifier::from_str("orcid:é").unwrap(),
        Specifier::CreatorLookup(CreatorLookupKey::Orcid, "é".to_string())
    );
    // an unknown key
    assert!(Specifier::from_str("isbn:123").is_err());
}

#[test]
fn changelog_indexes() {
    assert_eq!(Specifier::from_str("changelog_0").unwrap(), Specifier::Changelog(0));
    assert_eq!(
        Specifier::from_str("changelog_9223372036854775807").unwrap(),
        Specifier::Changelog(i64::MAX)
    );
    assert_eq!(
        Specifier::from_str("changelog_9223372036854775808"),
        Err(SpecifierError::InvalidChangelogIndex)
    );
    assert_eq!(
        Specifier::from_str("changelog_00000000000000000000000042").unwrap(),
        Specifier::Changelog(42)
    );
    assert_eq!(
        Specifier::from_str("changelog_"),
        Err(SpecifierError::Unrecognized("changelog_".to_string()))
    );
    assert_eq!(
        Specifier::from_str("changelog_-1"),
        Err(SpecifierError::Unrecognized("changelog_-1".to_string()))
    );
}

#[test]
fn non_ascii_decimal_digits_match_but_give_no_index() {
    // Arabic-Indic digits one and two are decimal digits, but not ASCII ones
    assert_eq!(
        Specifier::from_str("changelog_\u{661}\u{662}"),
        Err(SpecifierError::InvalidChangelogIndex)
    );
    // a letter is no digit at all
    assert_eq!(
        Specifier::from_str("changelog_x"),
        Err(SpecifierError::Unrecognized("changelog_x".to_string()))
    );
}

#[test]
fn unrecognized_text_is_kept_in_the_error() {
    assert_eq!(
        Specifier::from_str("nothing here"),
        Err(SpecifierError::Unrecognized("nothing here".to_string()))
    );
    assert_eq!(Specifier::from_str(""), Err(SpecifierError::Unrecognized(String::new())));
}

#[test]
fn changelog_lookups_are_recognized() {
    assert!(is_changelog_lookup("changelog:5"));
    assert!(!is_changelog_lookup("changelog:"));
    assert!(!is_changelog_lookup("changelog_5"));
    assert!(!is_changelog_lookup("doi:5"));
}

#[test]
fn parsed_identifiers_pass_is_fcid() {
    for text in ["release_", "fileset_", "editor_"] {
        let s = Specifier::from_str(&format!("{}{}", text, ID)).unwrap();
        let ident = match s {
            Specifier::Release(t) | Specifier::FileSet(t) | Specifier::Editor(t) => t,
            _ => panic!("not an entity"),
        };
        assert!(is_fcid(&ident));
    }
}

#[test]
fn is_fcid_checks_ascii_and_length() {
    assert!(is_fcid(ID));
    assert!(is_fcid("ABCDEFGHIJKLMNOPQRSTUVWXYZ"));
    assert!(!is_fcid("iimvc523xbhqlav6j3sbthueh"));
    assert!(!is_fcid(""));
    // 13 two-byte characters: 26 bytes, but not ASCII
    assert!(!is_fcid("ééééééééééééé"));
}

#[test]
fn changelog_index_reads_ascii_digits() {
    assert_eq!(changelog_index("0042"), Ok(42));
    assert_eq!(changelog_index("9223372036854775807"), Ok(i64::MAX));
    assert_eq!(changelog_index("9223372036854775808"), Err(SpecifierError::InvalidChangelogIndex));
    assert_eq!(changelog_index("99999999999999999999x"), Err(SpecifierError::InvalidChangelogIndex));
    assert_eq!(changelog_index(""), Err(SpecifierError::InvalidChangelogIndex));
    assert_eq!(changelog_index("12a"), Err(SpecifierError::InvalidChangelogIndex));
    assert_eq!(changelog_index("+5"), Err(SpecifierError::InvalidChangelogIndex));
    assert_eq!(changelog_index("\u{661}"), Err(SpecifierError::InvalidChangelogIndex));
}

#[test]
fn changelog_ascii_digits_give_their_value() {
    assert_eq!(Specifier::from_str("changelog_007"), Ok(Specifier::Changelog(7)));
    assert_eq!(Specifier::from_str("changelog_1234"), Ok(Specifier::Changelog(1234)));
    assert_eq!(
        Specifier::from_str("changelog_9223372036854775808"),
        Err(SpecifierError::InvalidChangelogIndex)
    );
}
