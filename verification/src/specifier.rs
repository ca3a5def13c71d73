//! Entity specifiers: the text forms a user names a catalog object by, and
//! their parser.
use vstd::prelude::*;
use crate::text::{
    all_ascii_digits, chars_of, decimal_value, is_ascii_digit, is_non_blank_word, is_unicode_digit_run,
    non_blank_from, starts_with_word, digit_run_from,
};

verus! {

/// External identifier kinds by which a release can be looked up.
#[derive(Debug, Clone, Copy, PartialEq, Eq, Structural)]
pub enum ReleaseLookupKey {
    DOI,
    PMCID,
    PMID,
    Arxiv,
}

/// External identifier kinds by which a container can be looked up.
#[derive(Debug, Clone, Copy, PartialEq, Eq, Structural)]
pub enum ContainerLookupKey {
    ISSNL,
}

/// External identifier kinds by which a creator can be looked up.
#[derive(Debug, Clone, Copy, PartialEq, Eq, Structural)]
pub enum CreatorLookupKey {
    Orcid,
}

/// Hash kinds by which a file can be looked up.
#[derive(Debug, Clone, Copy, PartialEq, Eq, Structural)]
pub enum FileLookupKey {
    SHA1,
    SHA256,
    MD5,
}

/// A way of naming one catalog object: directly by its fatcat identifier,
/// or by an external key that the API resolves.
#[derive(Debug, Clone, PartialEq, Eq)]
pub enum Specifier {
    Release(String),
    ReleaseLookup(ReleaseLookupKey, String),
    Work(String),
    Container(String),
    ContainerLookup(ContainerLookupKey, String),
    Creator(String),
    CreatorLookup(CreatorLookupKey, String),
    File(String),
    FileLookup(FileLookupKey, String),
    FileSet(String),
    WebCapture(String),
    Editgroup(String),
    Editor(String),
    EditorUsername(String),
    Changelog(i64),
}

/// The mathematical value of a `Specifier`: the same variants, with the
/// text of each string field.
pub enum SpecifierView {
    Release(Seq<char>),
    ReleaseLookup(ReleaseLookupKey, Seq<char>),
    Work(Seq<char>),
    Container(Seq<char>),
    ContainerLookup(ContainerLookupKey, Seq<char>),
    Creator(Seq<char>),
    CreatorLookup(CreatorLookupKey, Seq<char>),
    File(Seq<char>),
    FileLookup(FileLookupKey, Seq<char>),
    FileSet(Seq<char>),
    WebCapture(Seq<char>),
    Editgroup(Seq<char>),
    Editor(Seq<char>),
    EditorUsername(Seq<char>),
    Changelog(i64),
}

impl View for Specifier {
    type V = SpecifierView;

    open spec fn view(&self) -> SpecifierView {
        match self {
            Specifier::Release(t) => SpecifierView::Release(t@),
            Specifier::ReleaseLookup(k, t) => SpecifierView::ReleaseLookup(*k, t@),
            Specifier::Work(t) => SpecifierView::Work(t@),
            Specifier::Container(t) => SpecifierView::Container(t@),
            Specifier::ContainerLookup(k, t) => SpecifierView::ContainerLookup(*k, t@),
            Specifier::Creator(t) => SpecifierView::Creator(t@),
            Specifier::CreatorLookup(k, t) => SpecifierView::CreatorLookup(*k, t@),
            Specifier::File(t) => SpecifierView::File(t@),
            Specifier::FileLookup(k, t) => SpecifierView::FileLookup(*k, t@),
            Specifier::FileSet(t) => SpecifierView::FileSet(t@),
            Specifier::WebCapture(t) => SpecifierView::WebCapture(t@),
            Specifier::Editgroup(t) => SpecifierView::Editgroup(t@),
            Specifier::Editor(t) => SpecifierView::Editor(t@),
            Specifier::EditorUsername(t) => SpecifierView::EditorUsername(t@),
            Specifier::Changelog(i) => SpecifierView::Changelog(*i),
        }
    }
}

/// Why a text is not a specifier.
#[derive(Debug, Clone, PartialEq, Eq)]
pub enum SpecifierError {
    /// The text has none of the specifier forms; the text itself is kept.
    Unrecognized(String),
    /// `changelog_` followed by decimal digits that do not denote an `i64`:
    /// some digit is not ASCII, or the value exceeds `i64::MAX`.
    InvalidChangelogIndex,
}

/// The mathematical value of a `SpecifierError`.
pub enum SpecifierErrorView {
    Unrecognized(Seq<char>),
    InvalidChangelogIndex,
}

impl View for SpecifierError {
    type V = SpecifierErrorView;

    open spec fn view(&self) -> SpecifierErrorView {
        match self {
            SpecifierError::Unrecognized(t) => SpecifierErrorView::Unrecognized(t@),
            SpecifierError::InvalidChangelogIndex => SpecifierErrorView::InvalidChangelogIndex,
        }
    }
}

/// The value of a parse result.
pub open spec fn parse_result_view(r: Result<Specifier, SpecifierError>) -> Result<
    SpecifierView,
    SpecifierErrorView,
> {
    match r {
        Ok(x) => Ok(x@),
        Err(e) => Err(e@),
    }
}

/// A character of a fatcat identifier: a digit from 2 to 7, or a lower-case
/// ASCII letter (the base32 alphabet).
pub open spec fn is_fcid_char(c: char) -> bool {
    ('2' <= c && c <= '7') || ('a' <= c && c <= 'z')
}

/// A fatcat identifier as an entity specifier spells it: 26 base32 characters.
pub open spec fn is_fcid_text(t: Seq<char>) -> bool {
    &&& t.len() == 26
    &&& forall|i: int| 0 <= i < t.len() ==> is_fcid_char(#[trigger] t[i])
}

/// What follows `word` and one separator character in `s`.
pub open spec fn after_word(s: Seq<char>, word: Seq<char>) -> Seq<char> {
    s.skip(word.len() + 1 as int)
}

/// `s` is `word`, an underscore, and a fatcat identifier.
pub open spec fn entity_form(s: Seq<char>, word: Seq<char>) -> bool {
    &&& s.len() == word.len() + 27
    &&& s.take(word.len() as int) == word
    &&& s[word.len() as int] == '_'
    &&& is_fcid_text(after_word(s, word))
}

/// `s` is `word`, a colon, and nonempty text without white space.
pub open spec fn lookup_form(s: Seq<char>, word: Seq<char>) -> bool {
    &&& s.len() > word.len() + 1
    &&& s.take(word.len() as int) == word
    &&& s[word.len() as int] == ':'
    &&& is_non_blank_word(after_word(s, word))
}

/// `s` is `changelog_` and a run of Unicode decimal digits.
pub open spec fn changelog_form(s: Seq<char>) -> bool {
    &&& s.len() > 10
    &&& s.take(10) == "changelog_"@
    &&& is_unicode_digit_run(s.skip(10))
}

/// The changelog index that the digits `d` denote, if they denote an `i64`.
pub open spec fn changelog_index_of(d: Seq<char>) -> Result<i64, SpecifierErrorView> {
    if d.len() > 0 && all_ascii_digits(d) && decimal_value(d) <= i64::MAX {
        Ok(decimal_value(d) as i64)
    } else {
        Err(SpecifierErrorView::InvalidChangelogIndex)
    }
}

/// The specifier that an entity form names.
pub open spec fn parse_entity(s: Seq<char>) -> Option<SpecifierView> {
    if entity_form(s, "release"@) {
        Some(SpecifierView::Release(after_word(s, "release"@)))
    } else if entity_form(s, "work"@) {
        Some(SpecifierView::Work(after_word(s, "work"@)))
    } else if entity_form(s, "container"@) {
        Some(SpecifierView::Container(after_word(s, "container"@)))
    } else if entity_form(s, "creator"@) {
        Some(SpecifierView::Creator(after_word(s, "creator"@)))
    } else if entity_form(s, "file"@) {
        Some(SpecifierView::File(after_word(s, "file"@)))
    } else if entity_form(s, "fileset"@) {
        Some(SpecifierView::FileSet(after_word(s, "fileset"@)))
    } else if entity_form(s, "webcapture"@) {
        Some(SpecifierView::WebCapture(after_word(s, "webcapture"@)))
    } else if entity_form(s, "editgroup"@) {
        Some(SpecifierView::Editgroup(after_word(s, "editgroup"@)))
    } else if entity_form(s, "editor"@) {
        Some(SpecifierView::Editor(after_word(s, "editor"@)))
    } else {
        None
    }
}

/// The specifier that a lookup form names.
pub open spec fn parse_lookup(s: Seq<char>) -> Option<SpecifierView> {
    if lookup_form(s, "doi"@) {
        Some(SpecifierView::ReleaseLookup(ReleaseLookupKey::DOI, after_word(s, "doi"@)))
    } else if lookup_form(s, "pmcid"@) {
        Some(SpecifierView::ReleaseLookup(ReleaseLookupKey::PMCID, after_word(s, "pmcid"@)))
    } else if lookup_form(s, "pmid"@) {
        Some(SpecifierView::ReleaseLookup(ReleaseLookupKey::PMID, after_word(s, "pmid"@)))
    } else if lookup_form(s, "arxiv"@) {
        Some(SpecifierView::ReleaseLookup(ReleaseLookupKey::Arxiv, after_word(s, "arxiv"@)))
    } else if lookup_form(s, "issnl"@) {
        Some(SpecifierView::ContainerLookup(ContainerLookupKey::ISSNL, after_word(s, "issnl"@)))
    } else if lookup_form(s, "orcid"@) {
        Some(SpecifierView::CreatorLookup(CreatorLookupKey::Orcid, after_word(s, "orcid"@)))
    } else if lookup_form(s, "sha1"@) {
        Some(SpecifierView::FileLookup(FileLookupKey::SHA1, after_word(s, "sha1"@)))
    } else if lookup_form(s, "sha256"@) {
        Some(SpecifierView::FileLookup(FileLookupKey::SHA256, after_word(s, "sha256"@)))
    } else if lookup_form(s, "md5"@) {
        Some(SpecifierView::FileLookup(FileLookupKey::MD5, after_word(s, "md5"@)))
    } else if lookup_form(s, "username"@) {
        Some(SpecifierView::EditorUsername(after_word(s, "username"@)))
    } else {
        None
    }
}

/// The meaning of a specifier text: an entity form, else a lookup form, else
/// a changelog form; anything else is unrecognized.
pub open spec fn parse_specifier(s: Seq<char>) -> Result<SpecifierView, SpecifierErrorView> {
    if parse_entity(s) is Some {
        Ok(parse_entity(s)->0)
    } else if parse_lookup(s) is Some {
        Ok(parse_lookup(s)->0)
    } else if changelog_form(s) {
        match changelog_index_of(s.skip(10)) {
            Ok(i) => Ok(SpecifierView::Changelog(i)),
            Err(e) => Err(e),
        }
    } else {
        Err(SpecifierErrorView::Unrecognized(s))
    }
}

/// `changelog_` followed by one or more ASCII digits.
pub open spec fn is_changelog_text(s: Seq<char>) -> bool {
    &&& s.len() > 10
    &&& s.take(10) == "changelog_"@
    &&& all_ascii_digits(s.skip(10))
}

/// Text that begins with `changelog_` has neither an entity form nor a
/// lookup form.
pub proof fn lemma_changelog_text_has_no_other_form(s: Seq<char>)
    requires
        s.len() > 10,
        s.take(10) == "changelog_"@,
    ensures
        parse_entity(s) is None,
        parse_lookup(s) is None,
{
    reveal_strlit("changelog_");
    reveal_strlit("release");
    reveal_strlit("work");
    reveal_strlit("container");
    reveal_strlit("creator");
    reveal_strlit("file");
    reveal_strlit("fileset");
    reveal_strlit("webcapture");
    reveal_strlit("editgroup");
    reveal_strlit("editor");
    reveal_strlit("doi");
    reveal_strlit("pmcid");
    reveal_strlit("pmid");
    reveal_strlit("arxiv");
    reveal_strlit("issnl");
    reveal_strlit("orcid");
    reveal_strlit("sha1");
    reveal_strlit("sha256");
    reveal_strlit("md5");
    reveal_strlit("username");
    assert(s[0] == s.take(10)[0]);
    assert(s[1] == s.take(10)[1]);
    assert(s[0] == 'c' && s[1] == 'h');
    assert forall|w: Seq<char>| #![trigger s.take(w.len() as int)]
        w.len() >= 2 && w.len() <= s.len() && (w[0] != 'c' || w[1] != 'h') implies s.take(
        w.len() as int,
    ) != w by {
        assert(s.take(w.len() as int)[0] == s[0]);
        assert(s.take(w.len() as int)[1] == s[1]);
    }
}

/// The text after `from` characters of `s`, as a new string.
fn rest_of(s: &str, from: usize) -> (t: String)
    requires
        from <= s@.len(),
    ensures
        t@ == s@.skip(from as int),
{
    let n = s.unicode_len();
    let tail = s.substring_char(from, n);
    assert(s@.subrange(from as int, n as int) =~= s@.skip(from as int));
    tail.to_owned()
}

/// The identifier of `s` if it is `word`, an underscore and a fatcat
/// identifier.
fn entity_ident(s: &str, v: &Vec<char>, word: &str) -> (r: Option<String>)
    requires
        v@ == s@,
    ensures
        r is Some <==> entity_form(s@, word@),
        r matches Some(t) ==> t@ == after_word(s@, word@),
{
    let n = word.unicode_len();
    if n >= v.len() || v.len() - n != 27 || !starts_with_word(v, word) || v[n] != '_' {
        return None;
    }
    let mut i: usize = n + 1;
    while i < v.len()
        invariant
            v@ == s@,
            n == word@.len(),
            v@.len() == n + 27,
            n + 1 <= i <= v@.len(),
            forall|j: int| n + 1 <= j < i ==> is_fcid_char(#[trigger] v@[j]),
        decreases v@.len() - i,
    {
        let c = v[i];
        if !(('2' <= c && c <= '7') || ('a' <= c && c <= 'z')) {
            assert(after_word(s@, word@)[i - n - 1] == v@[i as int]);
            return None;
        }
        i += 1;
    }
    assert forall|j: int| 0 <= j < after_word(s@, word@).len() implies is_fcid_char(
        #[trigger] after_word(s@, word@)[j],
    ) by {
        assert(after_word(s@, word@)[j] == v@[n + 1 + j]);
    }
    Some(rest_of(s, n + 1))
}

/// The value of `s` if it is `word`, a colon and nonempty text without
/// white space.
fn lookup_value(s: &str, v: &Vec<char>, word: &str) -> (r: Option<String>)
    requires
        v@ == s@,
    ensures
        r is Some <==> lookup_form(s@, word@),
        r matches Some(t) ==> t@ == after_word(s@, word@),
{
    let n = word.unicode_len();
    if n >= v.len() || !starts_with_word(v, word) || v[n] != ':' || !non_blank_from(v, n + 1) {
        return None;
    }
    Some(rest_of(s, n + 1))
}

/// Whether `s` is a changelog lookup, `changelog:` followed by text without
/// white space: a form that the lookup syntax admits but that no lookup
/// exists for, so `Specifier::from_str` does not accept it.
pub fn is_changelog_lookup(s: &str) -> (b: bool)
    ensures
        b == lookup_form(s@, "changelog"@),
{
    let v = chars_of(s);
    lookup_value(s, &v, "changelog").is_some()
}

/// The changelog index that the text `digits` denotes: its value when it
/// is a nonempty run of ASCII digits whose value fits in an `i64`.
pub fn changelog_index(digits: &str) -> (r: Result<i64, SpecifierError>)
    ensures
        match r {
            Ok(i) => changelog_index_of(digits@) == Ok::<i64, SpecifierErrorView>(i),
            Err(e) => changelog_index_of(digits@) == Err::<i64, SpecifierErrorView>(e@),
        },
{
    let n = digits.unicode_len();
    if n == 0 {
        return Err(SpecifierError::InvalidChangelogIndex);
    }
    let mut acc: i64 = 0;
    let mut too_large = false;
    let mut i: usize = 0;
    while i < n
        invariant
            n == digits@.len(),
            i <= n,
            all_ascii_digits(digits@.take(i as int)),
            !too_large ==> acc == decimal_value(digits@.take(i as int)),
            too_large ==> decimal_value(digits@.take(i as int)) > i64::MAX,
        decreases n - i,
    {
        let c = digits.get_char(i);
        if !('0' <= c && c <= '9') {
            assert(!is_ascii_digit(digits@[i as int]));
            return Err(SpecifierError::InvalidChangelogIndex);
        }
        let ghost prefix = digits@.take(i as int);
        let ghost next = digits@.take(i + 1);
        assert(next.drop_last() =~= prefix);
        assert(next.last() == c);
        assert(all_ascii_digits(next)) by {
            assert forall|j: int| 0 <= j < next.len() implies is_ascii_digit(#[trigger] next[j]) by {
                if j < i {
                    assert(next[j] == prefix[j]);
                }
            }
        }
        let d: i64 = ((c as u32) - ('0' as u32)) as i64;
        if !too_large {
            match acc.checked_mul(10) {
                Some(m) => match m.checked_add(d) {
                    Some(a) => {
                        acc = a;
                    },
                    None => {
                        too_large = true;
                    },
                },
                None => {
                    too_large = true;
                    assert(decimal_value(next) >= decimal_value(prefix) * 10);
                },
            }
        } else {
            assert(decimal_value(next) >= decimal_value(prefix) * 10);
        }
        i += 1;
    }
    assert(digits@.take(n as int) =~= digits@);
    if too_large {
        Err(SpecifierError::InvalidChangelogIndex)
    } else {
        Ok(acc)
    }
}

impl Specifier {
    /// Parses a specifier: `<entity>_<fcid>` for the entity kinds release,
    /// work, container, creator, file, fileset, webcapture, editgroup and
    /// editor; `<key>:<value>` for the lookup keys doi, pmcid, pmid, arxiv,
    /// issnl, orcid, sha1, sha256, md5 and username, with a value of one or
    /// more characters that are not white space; or `changelog_<index>`.
    /// The key `changelog` is admitted by the lookup syntax but has no
    /// lookup; such text is outside what this function accepts.
    pub fn from_str(s: &str) -> (r: Result<Specifier, SpecifierError>)
        requires
            !lookup_form(s@, "changelog"@),
        ensures
            parse_result_view(r) == parse_specifier(s@),
            is_changelog_text(s@) ==> changelog_form(s@),
            is_changelog_text(s@) ==> parse_result_view(r) == (if decimal_value(s@.skip(10))
                <= i64::MAX {
                Ok::<SpecifierView, SpecifierErrorView>(
                    SpecifierView::Changelog(decimal_value(s@.skip(10)) as i64),
                )
            } else {
                Err::<SpecifierView, SpecifierErrorView>(SpecifierErrorView::InvalidChangelogIndex)
            }),
    {
        proof {
            if is_changelog_text(s@) {
                lemma_changelog_text_has_no_other_form(s@);
            }
        }
        let v = chars_of(s);
        // first the entity forms
        if let Some(t) = entity_ident(s, &v, "release") {
            return Ok(Specifier::Release(t));
        }
        if let Some(t) = entity_ident(s, &v, "work") {
            return Ok(Specifier::Work(t));
        }
        if let Some(t) = entity_ident(s, &v, "container") {
            return Ok(Specifier::Container(t));
        }
        if let Some(t) = entity_ident(s, &v, "creator") {
            return Ok(Specifier::Creator(t));
        }
        if let Some(t) = entity_ident(s, &v, "file") {
            return Ok(Specifier::File(t));
        }
        if let Some(t) = entity_ident(s, &v, "fileset") {
            return Ok(Specifier::FileSet(t));
        }
        if let Some(t) = entity_ident(s, &v, "webcapture") {
            return Ok(Specifier::WebCapture(t));
        }
        if let Some(t) = entity_ident(s, &v, "editgroup") {
            return Ok(Specifier::Editgroup(t));
        }
        if let Some(t) = entity_ident(s, &v, "editor") {
            return Ok(Specifier::Editor(t));
        }
        // then the lookup forms
        if let Some(t) = lookup_value(s, &v, "doi") {
            return Ok(Specifier::ReleaseLookup(ReleaseLookupKey::DOI, t));
        }
        if let Some(t) = lookup_value(s, &v, "pmcid") {
            return Ok(Specifier::ReleaseLookup(ReleaseLookupKey::PMCID, t));
        }
        if let Some(t) = lookup_value(s, &v, "pmid") {
            return Ok(Specifier::ReleaseLookup(ReleaseLookupKey::PMID, t));
        }
        if let Some(t) = lookup_value(s, &v, "arxiv") {
            return Ok(Specifier::ReleaseLookup(ReleaseLookupKey::Arxiv, t));
        }
        if let Some(t) = lookup_value(s, &v, "issnl") {
            return Ok(Specifier::ContainerLookup(ContainerLookupKey::ISSNL, t));
        }
        if let Some(t) = lookup_value(s, &v, "orcid") {
            return Ok(Specifier::CreatorLookup(CreatorLookupKey::Orcid, t));
        }
        if let Some(t) = lookup_value(s, &v, "sha1") {
            return Ok(Specifier::FileLookup(FileLookupKey::SHA1, t));
        }
        if let Some(t) = lookup_value(s, &v, "sha256") {
            return Ok(Specifier::FileLookup(FileLookupKey::SHA256, t));
        }
        if let Some(t) = lookup_value(s, &v, "md5") {
            return Ok(Specifier::FileLookup(FileLookupKey::MD5, t));
        }
        if let Some(t) = lookup_value(s, &v, "username") {
            return Ok(Specifier::EditorUsername(t));
        }
        // lastly the changelog form
        proof {
            reveal_strlit("changelog_");
        }
        if v.len() > 10 && starts_with_word(&v, "changelog_") && digit_run_from(&v, 10) {
            let digits = rest_of(s, 10);
            return match changelog_index(digits.as_str()) {
                Ok(i) => Ok(Specifier::Changelog(i)),
                Err(e) => Err(e),
            };
        }
        Err(SpecifierError::Unrecognized(s.to_owned()))
    }
}

} // verus!
