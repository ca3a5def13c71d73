use fatcat_cli::api::{ApiError, ApiModelKind, ApiRequest, EntityStep, LookupOutcome, TextFormat};
use fatcat_cli::specifier::{
    ContainerLookupKey, CreatorLookupKey, FileLookupKey, ReleaseLookupKey, Specifier,
};

const ID: &str = "iimvc523xbhqlav6j3sbthuehu";

fn s(t: &str) -> String {
    t.to_string()
}

fn release_args(q: &ApiRequest) -> Vec<Option<String>> {
    match q {
        ApiRequest::LookupRelease(p) => vec![
            p.doi.clone(),
            p.wikidata_qid.clone(),
            p.isbn13.clone(),
            p.pmid.clone(),
            p.pmcid.clone(),
            p.core.clone(),
            p.arxiv.clone(),
            p.jstor.clone(),
            p.ark.clone(),
            p.mag.clone(),
            p.expand.clone(),
            p.hide.clone(),
        ],
        _ => panic!("not a release lookup"),
    }
}

fn file_args(q: &ApiRequest) -> Vec<Option<String>> {
    match q {
        ApiRequest::LookupFile(p) => vec![
            p.sha1.clone(),
            p.sha256.clone(),
            p.md5.clone(),
            p.expand.clone(),
            p.hide.clone(),
        ],
        _ => panic!("not a file lookup"),
    }
}

fn only(n: usize, i: usize, v: &str) -> Vec<Option<String>> {
    (0..n).map(|j| if j == i { Some(s(v)) } else { None }).collect()
}

#[test]
fn release_lookup_keys_select_their_argument() {
    let q = |k| Specifier::ReleaseLookup(k, s("x1")).api_request();
    assert_eq!(release_args(&q(ReleaseLookupKey::DOI)), only(12, 0, "x1"));
    assert_eq!(release_args(&q(ReleaseLookupKey::PMID)), only(12, 3, "x1"));
    assert_eq!(release_args(&q(ReleaseLookupKey::PMCID)), only(12, 4, "x1"));
    assert_eq!(release_args(&q(ReleaseLookupKey::Arxiv)), only(12, 6, "x1"));
}

#[test]
fn file_lookup_keys_select_their_argument() {
    let q = |k| Specifier::FileLookup(k, s("abcd")).api_request();
    assert_eq!(file_args(&q(FileLookupKey::SHA1)), only(5, 0, "abcd"));
    assert_eq!(file_args(&q(FileLookupKey::SHA256)), only(5, 1, "abcd"));
    assert_eq!(file_args(&q(FileLookupKey::MD5)), only(5, 2, "abcd"));
}

#[test]
fn container_and_creator_lookups() {
    match Specifier::ContainerLookup(ContainerLookupKey::ISSNL, s("1234-5678")).api_request() {
        ApiRequest::LookupContainer(p) => {
            assert_eq!(p.issnl, Some(s("1234-5678")));
            assert_eq!((p.wikidata_qid, p.expand, p.hide), (None, None, None));
        }
        _ => panic!("wrong request"),
    }
    match Specifier::CreatorLookup(CreatorLookupKey::Orcid, s("0000-0002")).api_request() {
        ApiRequest::LookupCreator(p) => {
            assert_eq!(p.orcid, Some(s("0000-0002")));
            assert_eq!((p.wikidata_qid, p.expand, p.hide), (None, None, None));
        }
        _ => panic!("wrong request"),
    }
}

#[test]
fn entity_specifiers_fetch_by_identifier() {
    let get = |sp: Specifier| sp.api_request();
    assert!(matches!(get(Specifier::Release(s(ID))), ApiRequest::GetRelease(t) if t == ID));
    assert!(matches!(get(Specifier::Work(s(ID))), ApiRequest::GetWork(t) if t == ID));
    assert!(matches!(get(Specifier::Container(s(ID))), ApiRequest::GetContainer(t) if t == ID));
    assert!(matches!(get(Specifier::Creator(s(ID))), ApiRequest::GetCreator(t) if t == ID));
    assert!(matches!(get(Specifier::File(s(ID))), ApiRequest::GetFile(t) if t == ID));
    assert!(matches!(get(Specifier::FileSet(s(ID))), ApiRequest::GetFileset(t) if t == ID));
    assert!(matches!(get(Specifier::WebCapture(s(ID))), ApiRequest::GetWebcapture(t) if t == ID));
    assert!(matches!(get(Specifier::Editgroup(s(ID))), ApiRequest::GetEditgroup(t) if t == ID));
    assert!(matches!(get(Specifier::Editor(s(ID))), ApiRequest::GetEditor(t) if t == ID));
    assert!(matches!(get(Specifier::Changelog(77)), ApiRequest::GetChangelogEntry(77)));
}

#[test]
fn requests_are_answered_by_their_kind() {
    let kind = |sp: Specifier| sp.api_request().model_kind();
    assert_eq!(kind(Specifier::Release(s(ID))), ApiModelKind::Release);
    assert_eq!(kind(Specifier::ReleaseLookup(ReleaseLookupKey::DOI, s("d"))), ApiModelKind::Release);
    assert_eq!(kind(Specifier::Work(s(ID))), ApiModelKind::Work);
    assert_eq!(kind(Specifier::ContainerLookup(ContainerLookupKey::ISSNL, s("i"))), ApiModelKind::Container);
    assert_eq!(kind(Specifier::CreatorLookup(CreatorLookupKey::Orcid, s("o"))), ApiModelKind::Creator);
    assert_eq!(kind(Specifier::FileLookup(FileLookupKey::MD5, s("m"))), ApiModelKind::File);
    assert_eq!(kind(Specifier::FileSet(s(ID))), ApiModelKind::FileSet);
    assert_eq!(kind(Specifier::WebCapture(s(ID))), ApiModelKind::WebCapture);
    assert_eq!(kind(Specifier::Editgroup(s(ID))), ApiModelKind::Editgroup);
    assert_eq!(kind(Specifier::Editor(s(ID))), ApiModelKind::Editor);
    assert_eq!(kind(Specifier::Changelog(1)), ApiModelKind::Changelog);
}

#[test]
fn toml_output_only_for_releases_works_and_containers() {
    for k in [ApiModelKind::Release, ApiModelKind::Work, ApiModelKind::Container] {
        assert_eq!(k.toml_output_format(), TextFormat::Toml);
    }
    for k in [
        ApiModelKind::Creator,
        ApiModelKind::File,
        ApiModelKind::FileSet,
        ApiModelKind::WebCapture,
        ApiModelKind::Editgroup,
        ApiModelKind::Editor,
        ApiModelKind::Changelog,
    ] {
        assert_eq!(k.toml_output_format(), TextFormat::Json);
    }
}

#[test]
fn specific_specifiers_pass_through() {
    for sp in [Specifier::Release(s(ID)), Specifier::Editgroup(s(ID)), Specifier::Changelog(3)] {
        match sp.clone().into_entity_specifier() {
            EntityStep::Resolved(r) => assert_eq!(r, sp),
            EntityStep::Lookup(_) => panic!("no lookup expected"),
        }
    }
}

#[test]
fn lookups_resolve_to_the_entity_found() {
    let lookups = vec![
        (Specifier::ReleaseLookup(ReleaseLookupKey::Arxiv, s("1905.1")), Specifier::Release(s(ID))),
        (Specifier::ContainerLookup(ContainerLookupKey::ISSNL, s("1234")), Specifier::Container(s(ID))),
        (Specifier::CreatorLookup(CreatorLookupKey::Orcid, s("0000")), Specifier::Creator(s(ID))),
        (Specifier::FileLookup(FileLookupKey::SHA1, s("ab")), Specifier::File(s(ID))),
    ];
    for (lookup, entity) in lookups {
        match lookup.clone().into_entity_specifier() {
            EntityStep::Lookup(q) => {
                assert_eq!(q.model_kind(), lookup.api_request().model_kind());
            }
            EntityStep::Resolved(_) => panic!("a lookup was expected"),
        }
        let resolved = lookup.resolve_lookup(LookupOutcome::Found(Some(s(ID)))).unwrap();
        assert_eq!(resolved, entity);
        // the lookup fetches the kind of object the resolved entity names
        assert_eq!(resolved.api_request().model_kind(), lookup.api_request().model_kind());
        // a resolved specifier is final
        assert!(matches!(resolved.clone().into_entity_specifier(), EntityStep::Resolved(r) if r == resolved));
        assert_eq!(lookup.resolve_lookup(LookupOutcome::Failed), Err(ApiError::ApiProblem));
    }
}
