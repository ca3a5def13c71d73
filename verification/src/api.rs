//! Which catalog API request each specifier calls for, and what the answers
//! to those requests turn into.
use vstd::prelude::*;
use crate::specifier::{
    ContainerLookupKey, CreatorLookupKey, FileLookupKey, ReleaseLookupKey, Specifier,
    SpecifierView,
};

verus! {

/// The kinds of catalog object an API answer can carry.
#[derive(Debug, Clone, Copy, PartialEq, Eq, Structural)]
pub enum ApiModelKind {
    Release,
    Work,
    Container,
    Creator,
    File,
    FileSet,
    WebCapture,
    Editgroup,
    Editor,
    Changelog,
}

/// Text renderings of a catalog object.
#[derive(Debug, Clone, Copy, PartialEq, Eq, Structural)]
pub enum TextFormat {
    Json,
    Toml,
}

impl ApiModelKind {
    /// The rendering that TOML output produces for this kind: TOML for
    /// releases, works and containers; JSON for every other kind.
    pub fn toml_output_format(self) -> (f: TextFormat)
        ensures
            f == (if self == ApiModelKind::Release || self == ApiModelKind::Work || self
                == ApiModelKind::Container {
                TextFormat::Toml
            } else {
                TextFormat::Json
            }),
    {
        match self {
            ApiModelKind::Release | ApiModelKind::Work | ApiModelKind::Container => TextFormat::Toml,
            _ => TextFormat::Json,
        }
    }
}

/// The view of an optional string argument.
pub open spec fn opt_text(o: Option<String>) -> Option<Seq<char>> {
    match o {
        Some(t) => Some(t@),
        None => None,
    }
}

/// `n` absent arguments, but for argument `i`, which holds `value`.
pub open spec fn only_argument(n: nat, i: int, value: Seq<char>) -> Seq<Option<Seq<char>>> {
    Seq::new(n, |j: int| if j == i { Some(value) } else { None })
}

/// Arguments of a release lookup, in the order the API takes them.
pub struct ReleaseLookupParams {
    pub doi: Option<String>,
    pub wikidata_qid: Option<String>,
    pub isbn13: Option<String>,
    pub pmid: Option<String>,
    pub pmcid: Option<String>,
    pub core: Option<String>,
    pub arxiv: Option<String>,
    pub jstor: Option<String>,
    pub ark: Option<String>,
    pub mag: Option<String>,
    pub expand: Option<String>,
    pub hide: Option<String>,
}

impl View for ReleaseLookupParams {
    type V = Seq<Option<Seq<char>>>;

    open spec fn view(&self) -> Seq<Option<Seq<char>>> {
        seq![
            opt_text(self.doi),
            opt_text(self.wikidata_qid),
            opt_text(self.isbn13),
            opt_text(self.pmid),
            opt_text(self.pmcid),
            opt_text(self.core),
            opt_text(self.arxiv),
            opt_text(self.jstor),
            opt_text(self.ark),
            opt_text(self.mag),
            opt_text(self.expand),
            opt_text(self.hide),
        ]
    }
}

/// Arguments of a container lookup, in the order the API takes them.
pub struct ContainerLookupParams {
    pub issnl: Option<String>,
    pub wikidata_qid: Option<String>,
    pub expand: Option<String>,
    pub hide: Option<String>,
}

impl View for ContainerLookupParams {
    type V = Seq<Option<Seq<char>>>;

    open spec fn view(&self) -> Seq<Option<Seq<char>>> {
        seq![
            opt_text(self.issnl),
            opt_text(self.wikidata_qid),
            opt_text(self.expand),
            opt_text(self.hide),
        ]
    }
}

/// Arguments of a creator lookup, in the order the API takes them.
pub struct CreatorLookupParams {
    pub orcid: Option<String>,
    pub wikidata_qid: Option<String>,
    pub expand: Option<String>,
    pub hide: Option<String>,
}

impl View for CreatorLookupParams {
    type V = Seq<Option<Seq<char>>>;

    open spec fn view(&self) -> Seq<Option<Seq<char>>> {
        seq![
            opt_text(self.orcid),
            opt_text(self.wikidata_qid),
            opt_text(self.expand),
            opt_text(self.hide),
        ]
    }
}

/// Arguments of a file lookup, in the order the API takes them.
pub struct FileLookupParams {
    pub sha1: Option<String>,
    pub sha256: Option<String>,
    pub md5: Option<String>,
    pub expand: Option<String>,
    pub hide: Option<String>,
}

impl View for FileLookupParams {
    type V = Seq<Option<Seq<char>>>;

    open spec fn view(&self) -> Seq<Option<Seq<char>>> {
        seq![
            opt_text(self.sha1),
            opt_text(self.sha256),
            opt_text(self.md5),
            opt_text(self.expand),
            opt_text(self.hide),
        ]
    }
}

/// One call of the catalog API. The `Get` requests of entities pass no
/// `expand` or `hide` argument.
pub enum ApiRequest {
    GetRelease(String),
    GetWork(String),
    GetContainer(String),
    GetCreator(String),
    GetFile(String),
    GetFileset(String),
    GetWebcapture(String),
    GetEditgroup(String),
    GetEditor(String),
    GetChangelogEntry(i64),
    LookupRelease(ReleaseLookupParams),
    LookupContainer(ContainerLookupParams),
    LookupCreator(CreatorLookupParams),
    LookupFile(FileLookupParams),
}

/// The mathematical value of an `ApiRequest`.
pub enum ApiRequestView {
    GetRelease(Seq<char>),
    GetWork(Seq<char>),
    GetContainer(Seq<char>),
    GetCreator(Seq<char>),
    GetFile(Seq<char>),
    GetFileset(Seq<char>),
    GetWebcapture(Seq<char>),
    GetEditgroup(Seq<char>),
    GetEditor(Seq<char>),
    GetChangelogEntry(i64),
    LookupRelease(Seq<Option<Seq<char>>>),
    LookupContainer(Seq<Option<Seq<char>>>),
    LookupCreator(Seq<Option<Seq<char>>>),
    LookupFile(Seq<Option<Seq<char>>>),
}

impl View for ApiRequest {
    type V = ApiRequestView;

    open spec fn view(&self) -> ApiRequestView {
        match self {
            ApiRequest::GetRelease(t) => ApiRequestView::GetRelease(t@),
            ApiRequest::GetWork(t) => ApiRequestView::GetWork(t@),
            ApiRequest::GetContainer(t) => ApiRequestView::GetContainer(t@),
            ApiRequest::GetCreator(t) => ApiRequestView::GetCreator(t@),
            ApiRequest::GetFile(t) => ApiRequestView::GetFile(t@),
            ApiRequest::GetFileset(t) => ApiRequestView::GetFileset(t@),
            ApiRequest::GetWebcapture(t) => ApiRequestView::GetWebcapture(t@),
            ApiRequest::GetEditgroup(t) => ApiRequestView::GetEditgroup(t@),
            ApiRequest::GetEditor(t) => ApiRequestView::GetEditor(t@),
            ApiRequest::GetChangelogEntry(i) => ApiRequestView::GetChangelogEntry(*i),
            ApiRequest::LookupRelease(p) => ApiRequestView::LookupRelease(p@),
            ApiRequest::LookupContainer(p) => ApiRequestView::LookupContainer(p@),
            ApiRequest::LookupCreator(p) => ApiRequestView::LookupCreator(p@),
            ApiRequest::LookupFile(p) => ApiRequestView::LookupFile(p@),
        }
    }
}

/// The request that fetches what a specifier names. An entity specifier is
/// fetched by its identifier; a lookup passes its value as the one argument
/// that its key selects (DOI, PMID, PMCID and arXiv identifiers are the
/// first, fourth, fifth and seventh release lookup arguments; an ISSN-L and
/// an ORCID the first container and creator lookup arguments; SHA-1, SHA-256
/// and MD5 hashes the first, second and third file lookup arguments).
/// Editor usernames have no request.
pub open spec fn request_for(v: SpecifierView) -> ApiRequestView {
    match v {
        SpecifierView::Release(t) => ApiRequestView::GetRelease(t),
        SpecifierView::Work(t) => ApiRequestView::GetWork(t),
        SpecifierView::Container(t) => ApiRequestView::GetContainer(t),
        SpecifierView::Creator(t) => ApiRequestView::GetCreator(t),
        SpecifierView::File(t) => ApiRequestView::GetFile(t),
        SpecifierView::FileSet(t) => ApiRequestView::GetFileset(t),
        SpecifierView::WebCapture(t) => ApiRequestView::GetWebcapture(t),
        SpecifierView::Editgroup(t) => ApiRequestView::GetEditgroup(t),
        SpecifierView::Editor(t) => ApiRequestView::GetEditor(t),
        SpecifierView::Changelog(i) => ApiRequestView::GetChangelogEntry(i),
        SpecifierView::ReleaseLookup(k, t) => ApiRequestView::LookupRelease(
            only_argument(
                12,
                match k {
                    ReleaseLookupKey::DOI => 0,
                    ReleaseLookupKey::PMID => 3,
                    ReleaseLookupKey::PMCID => 4,
                    ReleaseLookupKey::Arxiv => 6,
                },
                t,
            ),
        ),
        SpecifierView::ContainerLookup(_, t) => ApiRequestView::LookupContainer(
            only_argument(4, 0, t),
        ),
        SpecifierView::CreatorLookup(_, t) => ApiRequestView::LookupCreator(
            only_argument(4, 0, t),
        ),
        SpecifierView::FileLookup(k, t) => ApiRequestView::LookupFile(
            only_argument(
                5,
                match k {
                    FileLookupKey::SHA1 => 0,
                    FileLookupKey::SHA256 => 1,
                    FileLookupKey::MD5 => 2,
                },
                t,
            ),
        ),
        // no request exists for an editor username
        SpecifierView::EditorUsername(t) => ApiRequestView::GetEditor(t),
    }
}

/// The kind of object that answers a request.
pub open spec fn model_kind_of(q: ApiRequestView) -> ApiModelKind {
    match q {
        ApiRequestView::GetRelease(_) => ApiModelKind::Release,
        ApiRequestView::LookupRelease(_) => ApiModelKind::Release,
        ApiRequestView::GetWork(_) => ApiModelKind::Work,
        ApiRequestView::GetContainer(_) => ApiModelKind::Container,
        ApiRequestView::LookupContainer(_) => ApiModelKind::Container,
        ApiRequestView::GetCreator(_) => ApiModelKind::Creator,
        ApiRequestView::LookupCreator(_) => ApiModelKind::Creator,
        ApiRequestView::GetFile(_) => ApiModelKind::File,
        ApiRequestView::LookupFile(_) => ApiModelKind::File,
        ApiRequestView::GetFileset(_) => ApiModelKind::FileSet,
        ApiRequestView::GetWebcapture(_) => ApiModelKind::WebCapture,
        ApiRequestView::GetEditgroup(_) => ApiModelKind::Editgroup,
        ApiRequestView::GetEditor(_) => ApiModelKind::Editor,
        ApiRequestView::GetChangelogEntry(_) => ApiModelKind::Changelog,
    }
}

impl ApiRequest {
    /// The kind of object that answers this request.
    pub fn model_kind(&self) -> (k: ApiModelKind)
        ensures
            k == model_kind_of(self@),
    {
        match self {
            ApiRequest::GetRelease(_) | ApiRequest::LookupRelease(_) => ApiModelKind::Release,
            ApiRequest::GetWork(_) => ApiModelKind::Work,
            ApiRequest::GetContainer(_) | ApiRequest::LookupContainer(_) => ApiModelKind::Container,
            ApiRequest::GetCreator(_) | ApiRequest::LookupCreator(_) => ApiModelKind::Creator,
            ApiRequest::GetFile(_) | ApiRequest::LookupFile(_) => ApiModelKind::File,
            ApiRequest::GetFileset(_) => ApiModelKind::FileSet,
            ApiRequest::GetWebcapture(_) => ApiModelKind::WebCapture,
            ApiRequest::GetEditgroup(_) => ApiModelKind::Editgroup,
            ApiRequest::GetEditor(_) => ApiModelKind::Editor,
            ApiRequest::GetChangelogEntry(_) => ApiModelKind::Changelog,
        }
    }
}

/// A specifier that names its object by an external key.
pub open spec fn is_lookup(v: SpecifierView) -> bool {
    ||| v is ReleaseLookup
    ||| v is ContainerLookup
    ||| v is CreatorLookup
    ||| v is FileLookup
}

/// The entity specifier that a lookup resolves to, given the identifier of
/// the object found.
pub open spec fn resolved_entity(v: SpecifierView, ident: Seq<char>) -> SpecifierView {
    match v {
        SpecifierView::ReleaseLookup(..) => SpecifierView::Release(ident),
        SpecifierView::ContainerLookup(..) => SpecifierView::Container(ident),
        SpecifierView::CreatorLookup(..) => SpecifierView::Creator(ident),
        SpecifierView::FileLookup(..) => SpecifierView::File(ident),
        _ => v,
    }
}

/// What becomes of a specifier that is to be made specific: it is already
/// specific, or a lookup request must be answered first.
pub enum EntityStep {
    Resolved(Specifier),
    Lookup(ApiRequest),
}

/// The answer to a lookup request: the object was found, with the
/// identifier it carries (if any), or the call failed in some way.
pub enum LookupOutcome {
    Found(Option<String>),
    Failed,
}

/// A failed API call.
#[derive(Debug, Clone, Copy, PartialEq, Eq, Structural)]
pub enum ApiError {
    /// The API did not answer with the object asked for.
    ApiProblem,
}

/// The one argument a lookup passes, in position `i` of `n`.
fn only_arg(n: usize, i: usize, value: &String) -> (args: Vec<Option<String>>)
    requires
        i < n,
    ensures
        args@.len() == n,
        forall|j: int| 0 <= j < n ==> opt_text(#[trigger] args@[j]) == only_argument(n as nat, i as int, value@)[j],
{
    let mut args: Vec<Option<String>> = Vec::new();
    let mut j: usize = 0;
    while j < n
        invariant
            i < n,
            j <= n,
            args@.len() == j,
            forall|k: int| 0 <= k < j ==> opt_text(#[trigger] args@[k]) == only_argument(n as nat, i as int, value@)[k],
        decreases n - j,
    {
        if j == i {
            args.push(Some(value.clone()));
        } else {
            args.push(None);
        }
        j += 1;
    }
    args
}

impl Specifier {
    /// The API request that fetches the object this specifier names
    /// (an editor username names none).
    pub fn api_request(&self) -> (q: ApiRequest)
        requires
            !(self@ is EditorUsername),
        ensures
            q@ == request_for(self@),
    {
        match self {
            Specifier::Release(t) => ApiRequest::GetRelease(t.clone()),
            Specifier::Work(t) => ApiRequest::GetWork(t.clone()),
            Specifier::Container(t) => ApiRequest::GetContainer(t.clone()),
            Specifier::Creator(t) => ApiRequest::GetCreator(t.clone()),
            Specifier::File(t) => ApiRequest::GetFile(t.clone()),
            Specifier::FileSet(t) => ApiRequest::GetFileset(t.clone()),
            Specifier::WebCapture(t) => ApiRequest::GetWebcapture(t.clone()),
            Specifier::Editgroup(t) => ApiRequest::GetEditgroup(t.clone()),
            Specifier::Editor(t) => ApiRequest::GetEditor(t.clone()),
            Specifier::Changelog(i) => ApiRequest::GetChangelogEntry(*i),
            Specifier::EditorUsername(t) => {
                // excluded by the precondition
                proof {
                    assert(false);
                }
                ApiRequest::GetEditor(t.clone())
            },
            Specifier::ReleaseLookup(k, t) => {
                let slot: usize = match k {
                    ReleaseLookupKey::DOI => 0,
                    ReleaseLookupKey::PMID => 3,
                    ReleaseLookupKey::PMCID => 4,
                    ReleaseLookupKey::Arxiv => 6,
                };
                let mut a = only_arg(12, slot, t);
                let hide = a.pop().unwrap();
                let expand = a.pop().unwrap();
                let mag = a.pop().unwrap();
                let ark = a.pop().unwrap();
                let jstor = a.pop().unwrap();
                let arxiv = a.pop().unwrap();
                let core = a.pop().unwrap();
                let pmcid = a.pop().unwrap();
                let pmid = a.pop().unwrap();
                let isbn13 = a.pop().unwrap();
                let wikidata_qid = a.pop().unwrap();
                let doi = a.pop().unwrap();
                let p = ReleaseLookupParams {
                    doi,
                    wikidata_qid,
                    isbn13,
                    pmid,
                    pmcid,
                    core,
                    arxiv,
                    jstor,
                    ark,
                    mag,
                    expand,
                    hide,
                };
                assert(p@ =~= only_argument(12, slot as int, t@));
                ApiRequest::LookupRelease(p)
            },
            Specifier::ContainerLookup(_, t) => {
                let p = ContainerLookupParams {
                    issnl: Some(t.clone()),
                    wikidata_qid: None,
                    expand: None,
                    hide: None,
                };
                assert(p@ =~= only_argument(4, 0, t@));
                ApiRequest::LookupContainer(p)
            },
            Specifier::CreatorLookup(_, t) => {
                let p = CreatorLookupParams {
                    orcid: Some(t.clone()),
                    wikidata_qid: None,
                    expand: None,
                    hide: None,
                };
                assert(p@ =~= only_argument(4, 0, t@));
                ApiRequest::LookupCreator(p)
            },
            Specifier::FileLookup(k, t) => {
                let slot: usize = match k {
                    FileLookupKey::SHA1 => 0,
                    FileLookupKey::SHA256 => 1,
                    FileLookupKey::MD5 => 2,
                };
                let mut a = only_arg(5, slot, t);
                let hide = a.pop().unwrap();
                let expand = a.pop().unwrap();
                let md5 = a.pop().unwrap();
                let sha256 = a.pop().unwrap();
                let sha1 = a.pop().unwrap();
                let p = FileLookupParams { sha1, sha256, md5, expand, hide };
                assert(p@ =~= only_argument(5, slot as int, t@));
                ApiRequest::LookupFile(p)
            },
        }
    }
}

impl Specifier {
    /// Makes this specifier specific. An entity or changelog specifier is
    /// specific already and passes through; a lookup first needs its lookup
    /// request answered (see `resolve_lookup`). An editor username cannot be
    /// looked up.
    pub fn into_entity_specifier(self) -> (r: EntityStep)
        requires
            !(self@ is EditorUsername),
        ensures
            !is_lookup(self@) ==> r == EntityStep::Resolved(self),
            is_lookup(self@) ==> (r matches EntityStep::Lookup(q) && q@ == request_for(self@)),
    {
        match self {
            Specifier::ReleaseLookup(..) | Specifier::ContainerLookup(..)
            | Specifier::CreatorLookup(..) | Specifier::FileLookup(..) => {
                EntityStep::Lookup(self.api_request())
            },
            _ => EntityStep::Resolved(self),
        }
    }

    /// The specific specifier that this lookup resolves to, given the answer
    /// to its lookup request: the entity of the looked-up kind with the
    /// identifier found, or an API error when the object was not found.
    /// An answer that finds an object without an identifier is outside what
    /// this function accepts.
    pub fn resolve_lookup(&self, outcome: LookupOutcome) -> (r: Result<Specifier, ApiError>)
        requires
            is_lookup(self@),
            !(outcome matches LookupOutcome::Found(None)),
        ensures
            outcome matches LookupOutcome::Found(Some(ident)) ==> (r matches Ok(x) && x@
                == resolved_entity(self@, ident@)),
            outcome is Failed ==> r == Err::<Specifier, ApiError>(ApiError::ApiProblem),
    {
        match outcome {
            LookupOutcome::Found(Some(ident)) => match self {
                Specifier::ReleaseLookup(..) => Ok(Specifier::Release(ident)),
                Specifier::ContainerLookup(..) => Ok(Specifier::Container(ident)),
                Specifier::CreatorLookup(..) => Ok(Specifier::Creator(ident)),
                _ => Ok(Specifier::File(ident)),
            },
            _ => Err(ApiError::ApiProblem),
        }
    }
}

} // verus!
