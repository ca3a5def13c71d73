//! Properties that relate the library's functions to one another.
use vstd::prelude::*;
use crate::api::{is_lookup, model_kind_of, request_for, resolved_entity, ApiRequestView};
use crate::cli::{host_scheme_of, level_for, level_rank, HostScheme};
use crate::specifier::{
    after_word, entity_form, is_fcid_char, is_fcid_text, lookup_form, parse_specifier, SpecifierView,
    SpecifierErrorView, ReleaseLookupKey, ContainerLookupKey, CreatorLookupKey, FileLookupKey,
};
use crate::text::{decimal_value, is_non_blank_word};
use crate::util::spec_is_fcid;

verus! {

/// The fatcat identifier an entity specifier carries, if it is one.
pub open spec fn entity_ident_of(v: SpecifierView) -> Option<Seq<char>> {
    match v {
        SpecifierView::Release(t) => Some(t),
        SpecifierView::Work(t) => Some(t),
        SpecifierView::Container(t) => Some(t),
        SpecifierView::Creator(t) => Some(t),
        SpecifierView::File(t) => Some(t),
        SpecifierView::FileSet(t) => Some(t),
        SpecifierView::WebCapture(t) => Some(t),
        SpecifierView::Editgroup(t) => Some(t),
        SpecifierView::Editor(t) => Some(t),
        _ => None,
    }
}

/// The value a lookup specifier carries, if it is one.
pub open spec fn lookup_value_of(v: SpecifierView) -> Option<Seq<char>> {
    match v {
        SpecifierView::ReleaseLookup(_, t) => Some(t),
        SpecifierView::ContainerLookup(_, t) => Some(t),
        SpecifierView::CreatorLookup(_, t) => Some(t),
        SpecifierView::FileLookup(_, t) => Some(t),
        SpecifierView::EditorUsername(t) => Some(t),
        _ => None,
    }
}

/// Every identifier that an entity specifier text yields passes `is_fcid`.
pub proof fn law_parsed_identifiers_are_fcids(s: Seq<char>)
    ensures
        parse_specifier(s) matches Ok(v) ==> (entity_ident_of(v) matches Some(t) ==> spec_is_fcid(t)),
{
    if parse_specifier(s) is Ok && entity_ident_of(parse_specifier(s)->Ok_0) is Some {
        let t = entity_ident_of(parse_specifier(s)->Ok_0)->Some_0;
        assert(is_fcid_text(t));
        assert forall|i: int| 0 <= i < t.len() implies '\0' <= #[trigger] t[i] <= '\u{7f}' by {
            assert(is_fcid_char(t[i]));
        }
    }
}

/// Every value that a lookup specifier text yields is nonempty and holds no
/// white space.
pub proof fn law_lookup_values_are_words(s: Seq<char>)
    ensures
        parse_specifier(s) matches Ok(v) ==> (lookup_value_of(v) matches Some(t) ==> is_non_blank_word(t)),
{
}

/// Resolving a lookup gives a specific specifier: making it specific again
/// passes it through unchanged.
pub proof fn law_resolution_is_final(v: SpecifierView, ident: Seq<char>)
    requires
        is_lookup(v),
    ensures
        !is_lookup(resolved_entity(v, ident)),
        !(resolved_entity(v, ident) is EditorUsername),
        entity_ident_of(resolved_entity(v, ident)) == Some(ident),
{
}

/// A lookup fetches the same kind of object as the entity it resolves to.
pub proof fn law_lookup_fetches_resolved_kind(v: SpecifierView, ident: Seq<char>)
    requires
        is_lookup(v),
    ensures
        model_kind_of(request_for(v)) == model_kind_of(request_for(resolved_entity(v, ident))),
{
}

/// More `-v` flags never log less.
pub proof fn law_more_verbosity_logs_more(fewer: i8, more: i8)
    requires
        fewer <= more,
    ensures
        level_rank(level_for(fewer)) <= level_rank(level_for(more)),
{
}

/// Text that begins with a character other than `s[j]` at position `j` is
/// no prefix of `s`.
proof fn lemma_mismatch_at(s: Seq<char>, j: int)
    requires
        0 <= j < s.len(),
    ensures
        forall|w: Seq<char>| #![trigger s.take(w.len() as int)]
            j < w.len() <= s.len() && w[j] != s[j] ==> s.take(w.len() as int) != w,
{
    assert forall|w: Seq<char>| #![trigger s.take(w.len() as int)]
        j < w.len() <= s.len() && w[j] != s[j] implies s.take(w.len() as int) != w by {
        assert(s.take(w.len() as int)[j] == s[j]);
    }
}

/// `word`, an underscore and `t` form the entity text of `word` for `t`,
/// when `t` is 26 characters of the base32 alphabet.
proof fn lemma_entity_text(word: Seq<char>, t: Seq<char>)
    requires
        t.len() == 26,
        forall|i: int| 0 <= i < 26 ==> ('2' <= #[trigger] t[i] && t[i] <= '7') || ('a' <= t[i] && t[i] <= 'z'),
    ensures
        entity_form(word + seq!['_'] + t, word),
        after_word(word + seq!['_'] + t, word) == t,
        (word + seq!['_'] + t).len() == word.len() + 27,
        (word + seq!['_'] + t)[0] == word[0] || word.len() == 0,
{
    let s = word + seq!['_'] + t;
    assert(s.take(word.len() as int) =~= word);
    assert(s.skip(word.len() + 1 as int) =~= t);
    assert forall|i: int| 0 <= i < t.len() implies is_fcid_char(#[trigger] t[i]) by {}
}

/// Every entity kind followed by an underscore and 26 characters from
/// `2`-`7` and `a`-`z` (any of them, `7` and `z` included) names that entity
/// with those 26 characters as its identifier.
pub proof fn law_entity_texts_parse(t: Seq<char>)
    requires
        t.len() == 26,
        forall|i: int| 0 <= i < 26 ==> ('2' <= #[trigger] t[i] && t[i] <= '7') || ('a' <= t[i] && t[i] <= 'z'),
    ensures
        parse_specifier("release"@ + seq!['_'] + t) == Ok::<SpecifierView, SpecifierErrorView>(SpecifierView::Release(t)),
        parse_specifier("work"@ + seq!['_'] + t) == Ok::<SpecifierView, SpecifierErrorView>(SpecifierView::Work(t)),
        parse_specifier("container"@ + seq!['_'] + t) == Ok::<SpecifierView, SpecifierErrorView>(SpecifierView::Container(t)),
        parse_specifier("creator"@ + seq!['_'] + t) == Ok::<SpecifierView, SpecifierErrorView>(SpecifierView::Creator(t)),
        parse_specifier("file"@ + seq!['_'] + t) == Ok::<SpecifierView, SpecifierErrorView>(SpecifierView::File(t)),
        parse_specifier("fileset"@ + seq!['_'] + t) == Ok::<SpecifierView, SpecifierErrorView>(SpecifierView::FileSet(t)),
        parse_specifier("webcapture"@ + seq!['_'] + t) == Ok::<SpecifierView, SpecifierErrorView>(SpecifierView::WebCapture(t)),
        parse_specifier("editgroup"@ + seq!['_'] + t) == Ok::<SpecifierView, SpecifierErrorView>(SpecifierView::Editgroup(t)),
        parse_specifier("editor"@ + seq!['_'] + t) == Ok::<SpecifierView, SpecifierErrorView>(SpecifierView::Editor(t)),
{
    reveal_strlit("release");
    reveal_strlit("work");
    reveal_strlit("container");
    reveal_strlit("creator");
    reveal_strlit("file");
    reveal_strlit("fileset");
    reveal_strlit("webcapture");
    reveal_strlit("editgroup");
    reveal_strlit("editor");
    lemma_entity_text("release"@, t);
    lemma_mismatch_at("release"@ + seq!['_'] + t, 0);
    lemma_entity_text("work"@, t);
    lemma_mismatch_at("work"@ + seq!['_'] + t, 0);
    lemma_entity_text("container"@, t);
    lemma_mismatch_at("container"@ + seq!['_'] + t, 0);
    lemma_entity_text("creator"@, t);
    lemma_mismatch_at("creator"@ + seq!['_'] + t, 0);
    lemma_entity_text("file"@, t);
    lemma_mismatch_at("file"@ + seq!['_'] + t, 0);
    lemma_entity_text("fileset"@, t);
    lemma_mismatch_at("fileset"@ + seq!['_'] + t, 0);
    lemma_entity_text("webcapture"@, t);
    lemma_mismatch_at("webcapture"@ + seq!['_'] + t, 0);
    lemma_entity_text("editgroup"@, t);
    lemma_mismatch_at("editgroup"@ + seq!['_'] + t, 0);
    lemma_entity_text("editor"@, t);
    lemma_mismatch_at("editor"@ + seq!['_'] + t, 0);
}

/// A character of Unicode `White_Space`, written out.
pub open spec fn is_listed_white_space(c: char) -> bool {
    ||| ('\t' <= c && c <= '\r')
    ||| c == ' '
    ||| c == '\u{85}'
    ||| c == '\u{a0}'
    ||| c == '\u{1680}'
    ||| ('\u{2000}' <= c && c <= '\u{200a}')
    ||| c == '\u{2028}'
    ||| c == '\u{2029}'
    ||| c == '\u{202f}'
    ||| c == '\u{205f}'
    ||| c == '\u{3000}'
}

/// `word`, a colon and `v` form the lookup text of `word` for `v`, when `v`
/// is nonempty and holds no white space.
proof fn lemma_lookup_text(word: Seq<char>, v: Seq<char>)
    requires
        v.len() > 0,
        forall|i: int| 0 <= i < v.len() ==> !is_listed_white_space(#[trigger] v[i]),
    ensures
        lookup_form(word + seq![':'] + v, word),
        after_word(word + seq![':'] + v, word) == v,
{
    let s = word + seq![':'] + v;
    assert(s.take(word.len() as int) =~= word);
    assert(s.skip(word.len() + 1 as int) =~= v);
}

/// Every lookup key followed by a colon and any nonempty value without
/// white space, of whatever length, names a lookup of that key for exactly
/// that value.
pub proof fn law_lookup_texts_parse(v: Seq<char>)
    requires
        v.len() > 0,
        forall|i: int| 0 <= i < v.len() ==> !is_listed_white_space(#[trigger] v[i]),
    ensures
        parse_specifier("doi"@ + seq![':'] + v) == Ok::<SpecifierView, SpecifierErrorView>(SpecifierView::ReleaseLookup(ReleaseLookupKey::DOI, v)),
        parse_specifier("pmcid"@ + seq![':'] + v) == Ok::<SpecifierView, SpecifierErrorView>(SpecifierView::ReleaseLookup(ReleaseLookupKey::PMCID, v)),
        parse_specifier("pmid"@ + seq![':'] + v) == Ok::<SpecifierView, SpecifierErrorView>(SpecifierView::ReleaseLookup(ReleaseLookupKey::PMID, v)),
        parse_specifier("arxiv"@ + seq![':'] + v) == Ok::<SpecifierView, SpecifierErrorView>(SpecifierView::ReleaseLookup(ReleaseLookupKey::Arxiv, v)),
        parse_specifier("issnl"@ + seq![':'] + v) == Ok::<SpecifierView, SpecifierErrorView>(SpecifierView::ContainerLookup(ContainerLookupKey::ISSNL, v)),
        parse_specifier("orcid"@ + seq![':'] + v) == Ok::<SpecifierView, SpecifierErrorView>(SpecifierView::CreatorLookup(CreatorLookupKey::Orcid, v)),
        parse_specifier("sha1"@ + seq![':'] + v) == Ok::<SpecifierView, SpecifierErrorView>(SpecifierView::FileLookup(FileLookupKey::SHA1, v)),
        parse_specifier("sha256"@ + seq![':'] + v) == Ok::<SpecifierView, SpecifierErrorView>(SpecifierView::FileLookup(FileLookupKey::SHA256, v)),
        parse_specifier("md5"@ + seq![':'] + v) == Ok::<SpecifierView, SpecifierErrorView>(SpecifierView::FileLookup(FileLookupKey::MD5, v)),
        parse_specifier("username"@ + seq![':'] + v) == Ok::<SpecifierView, SpecifierErrorView>(SpecifierView::EditorUsername(v)),
{
    reveal_strlit("release");
    reveal_strlit("work");
    reveal_strlit("container");
    reveal_strlit("creator");
    reveal_strlit("file");
    reveal_strlit("fileset");
    reveal_strlit("webcapture");
    reveal_strlit("editgroup");
    reveal_strlit("editor");
    reveal_strlit("doi");
    reveal_strlit("pmcid");
    reveal_strlit("pmid");
    reveal_strlit("arxiv");
    reveal_strlit("issnl");
    reveal_strlit("orcid");
    reveal_strlit("sha1");
    reveal_strlit("sha256");
    reveal_strlit("md5");
    reveal_strlit("username");
    lemma_lookup_text("doi"@, v);
    lemma_mismatch_at("doi"@ + seq![':'] + v, 0);
    lemma_lookup_text("pmcid"@, v);
    lemma_mismatch_at("pmcid"@ + seq![':'] + v, 0);
    lemma_mismatch_at("pmcid"@ + seq![':'] + v, 2);
    lemma_lookup_text("pmid"@, v);
    lemma_mismatch_at("pmid"@ + seq![':'] + v, 0);
    lemma_mismatch_at("pmid"@ + seq![':'] + v, 2);
    lemma_lookup_text("arxiv"@, v);
    lemma_mismatch_at("arxiv"@ + seq![':'] + v, 0);
    lemma_lookup_text("issnl"@, v);
    lemma_mismatch_at("issnl"@ + seq![':'] + v, 0);
    lemma_lookup_text("orcid"@, v);
    lemma_mismatch_at("orcid"@ + seq![':'] + v, 0);
    lemma_lookup_text("sha1"@, v);
    lemma_mismatch_at("sha1"@ + seq![':'] + v, 0);
    lemma_mismatch_at("sha1"@ + seq![':'] + v, 3);
    lemma_lookup_text("sha256"@, v);
    lemma_mismatch_at("sha256"@ + seq![':'] + v, 0);
    lemma_mismatch_at("sha256"@ + seq![':'] + v, 3);
    lemma_lookup_text("md5"@, v);
    lemma_mismatch_at("md5"@ + seq![':'] + v, 0);
    lemma_lookup_text("username"@, v);
    lemma_mismatch_at("username"@ + seq![':'] + v, 0);
}

/// A release lookup passes its value, unchanged, as the one argument its
/// key selects among the twelve release lookup arguments: the first for a
/// DOI, the fourth for a PMID, the fifth for a PMCID, the seventh for an
/// arXiv identifier; every other argument is absent.
pub proof fn law_release_lookup_passes_value(k: ReleaseLookupKey, t: Seq<char>)
    ensures
        request_for(SpecifierView::ReleaseLookup(k, t)) matches ApiRequestView::LookupRelease(a)
            && a.len() == 12
            && a[if k == ReleaseLookupKey::DOI { 0int } else if k == ReleaseLookupKey::PMID { 3int }
                else if k == ReleaseLookupKey::PMCID { 4int } else { 6int }] == Some(t)
            && forall|j: int| 0 <= j < 12 && j != (if k == ReleaseLookupKey::DOI { 0int }
                else if k == ReleaseLookupKey::PMID { 3int } else if k == ReleaseLookupKey::PMCID { 4int }
                else { 6int }) ==> a[j] is None,
{
}

/// A file lookup passes its hash, unchanged, as the first (SHA-1), second
/// (SHA-256) or third (MD5) of the five file lookup arguments; container
/// and creator lookups pass theirs as the first of four; every other
/// argument is absent.
pub proof fn law_other_lookups_pass_value(t: Seq<char>, fk: FileLookupKey, ck: ContainerLookupKey, rk: CreatorLookupKey)
    ensures
        request_for(SpecifierView::FileLookup(fk, t)) matches ApiRequestView::LookupFile(a)
            && a.len() == 5
            && a[if fk == FileLookupKey::SHA1 { 0int } else if fk == FileLookupKey::SHA256 { 1int } else { 2int }] == Some(t)
            && forall|j: int| 0 <= j < 5 && j != (if fk == FileLookupKey::SHA1 { 0int }
                else if fk == FileLookupKey::SHA256 { 1int } else { 2int }) ==> a[j] is None,
        request_for(SpecifierView::ContainerLookup(ck, t)) matches ApiRequestView::LookupContainer(a)
            && a.len() == 4 && a[0] == Some(t) && a[1] is None && a[2] is None && a[3] is None,
        request_for(SpecifierView::CreatorLookup(rk, t)) matches ApiRequestView::LookupCreator(a)
            && a.len() == 4 && a[0] == Some(t) && a[1] is None && a[2] is None && a[3] is None,
{
}

/// The transport depends only on the literal beginning of the host URL:
/// `https://` followed by anything is HTTPS, `http://` followed by
/// anything is HTTP.
pub proof fn law_host_scheme_by_prefix(h: Seq<char>)
    ensures
        host_scheme_of(seq!['h', 't', 't', 'p', 's', ':', '/', '/'] + h) == Some(HostScheme::Https),
        host_scheme_of(seq!['h', 't', 't', 'p', ':', '/', '/'] + h) == Some(HostScheme::Http),
{
    reveal_strlit("https://");
    reveal_strlit("http://");
    let a = seq!['h', 't', 't', 'p', 's', ':', '/', '/'] + h;
    let b = seq!['h', 't', 't', 'p', ':', '/', '/'] + h;
    assert(a.take(8) =~= "https://"@);
    assert(b.take(7) =~= "http://"@);
    lemma_mismatch_at(b, 4);
}

/// Only texts of exactly 26 characters, all of them ASCII, are fatcat
/// identifiers; text of any other length is not.
pub proof fn law_fcid_is_26_ascii_characters(t: Seq<char>)
    ensures
        spec_is_fcid(t) <==> (t.len() == 26 && forall|i: int| 0 <= i < t.len() ==> '\0' <= #[trigger] t[i] && t[i] <= '\u{7f}'),
        t.len() != 26 ==> !spec_is_fcid(t),
{
}

/// Appending an ASCII digit to a run of digits multiplies its value by ten
/// and adds the digit's value; a single digit is worth its own value.
pub proof fn law_decimal_digit_appended(d: Seq<char>, c: char)
    requires
        '0' <= c && c <= '9',
    ensures
        decimal_value(d + seq![c]) == decimal_value(d) * 10 + ((c as int) - ('0' as int)),
        decimal_value(seq![c]) == (c as int) - ('0' as int),
{
    assert((d + seq![c]).drop_last() =~= d);
    assert(seq![c].drop_last() =~= Seq::<char>::empty());
    assert(decimal_value(Seq::<char>::empty()) == 0);
}

} // verus!
