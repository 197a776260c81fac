//! The decision logic of the favicon collaborator: which declared icon link
//! to prefer, which fallback sources to try when a page yields none, and
//! which file extension a downloaded icon gets.  The network work itself is
//! the platform layer's; everything here is a function of the values it
//! hands over.

use vstd::prelude::*;
use vstd::string::{StrSliceExecFns, StringExecFns};
use crate::strutil::{contains_sub, has_substring, str_eq};

verus! {

/// A fetched icon: its bytes and the file extension chosen for it.
#[derive(Debug)]
pub struct FaviconResult {
    pub bytes: Vec<u8>,
    pub extension: String,
}

/// What `str::to_lowercase` returns for a string: a function of its
/// characters alone.
pub uninterp spec fn lower_of(s: Seq<char>) -> Seq<char>;

/// Relies on `str::to_lowercase`: the result depends on the characters
/// alone.
#[verifier::external_body]
pub(crate) fn lowercase(s: &str) -> (r: String)
    ensures
        r@ == lower_of(s@),
{
    s.to_lowercase()
}

/// The registrable host of a URL string, when it parses as an absolute URL
/// whose host is a domain name: a function of the string alone.
pub uninterp spec fn url_host(s: Seq<char>) -> Option<Seq<char>>;

/// Relies on `url::Url::parse` and `url::Url::domain`: the host component
/// of a valid absolute URL, None where the string does not parse or the
/// host is not a domain name.  Both depend on the string alone.
#[verifier::external_body]
pub(crate) fn host_of(s: &str) -> (r: Option<String>)
    ensures
        match r {
            Some(h) => url_host(s@) == Some(h@),
            None => url_host(s@) is None,
        },
{
    match url::Url::parse(s) {
        Ok(u) => u.domain().map(|d| d.to_owned()),
        Err(_) => None,
    }
}

/// The index of the last occurrence of the character, or -1.
pub open spec fn last_index_of(s: Seq<char>, c: char) -> int
    decreases s.len(),
{
    if s.len() == 0 {
        -1
    } else if s.last() == c {
        s.len() - 1
    } else {
        last_index_of(s.drop_last(), c)
    }
}

/// `last_index_of` finds exactly the last occurrence.
pub proof fn lemma_last_index_of(s: Seq<char>, c: char)
    ensures
        last_index_of(s, c) >= 0 ==> {
            &&& last_index_of(s, c) < s.len()
            &&& s[last_index_of(s, c)] == c
            &&& forall|j: int| last_index_of(s, c) < j < s.len() ==> s[j] != c
        },
        last_index_of(s, c) < 0 ==> forall|j: int| 0 <= j < s.len() ==> s[j] != c,
    decreases s.len(),
{
    if s.len() > 0 && s.last() != c {
        lemma_last_index_of(s.drop_last(), c);
        let idx = last_index_of(s, c);
        if idx >= 0 {
            assert(s[idx] == s.drop_last()[idx]);
            assert forall|j: int| idx < j < s.len() implies s[j] != c by {
                if j < s.len() - 1 {
                    assert(s[j] == s.drop_last()[j]);
                }
            }
        } else {
            assert forall|j: int| 0 <= j < s.len() implies s[j] != c by {
                if j < s.len() - 1 {
                    assert(s[j] == s.drop_last()[j]);
                }
            }
        }
    }
}

/// Finds the last occurrence of the character, as `last_index_of` says.
pub fn find_last(s: &str, c: char) -> (r: Option<usize>)
    ensures
        match r {
            Some(i) => i == last_index_of(s@, c),
            None => last_index_of(s@, c) == -1,
        },
{
    let n = s.unicode_len();
    proof {
        assert(s@.subrange(0, n as int) =~= s@);
    }
    let mut i: usize = n;
    while i > 0
        invariant
            n == s@.len(),
            i <= n,
            last_index_of(s@, c) == last_index_of(s@.subrange(0, i as int), c),
        decreases i,
    {
        proof {
            let cur = s@.subrange(0, i as int);
            assert(cur.drop_last() =~= s@.subrange(0, i - 1 as int));
            assert(cur.last() == s@[i - 1]);
        }
        if s.get_char(i - 1) == c {
            return Some(i - 1);
        }
        i = i - 1;
    }
    proof {
        assert(s@.subrange(0, 0) =~= Seq::<char>::empty());
    }
    None
}

/// The fallback sources tried when fetching a page's own icons fails: the
/// registrable root domain, when the host has at least three labels, then
/// a third-party icon service for the host — in that order; nothing when
/// the target is not a URL with a domain host.
pub open spec fn spec_fallback_sources(h: Option<Seq<char>>) -> Seq<Seq<char>> {
    match h {
        None => Seq::empty(),
        Some(host) => {
            let last = last_index_of(host, '.');
            let prev = if last >= 0 {
                last_index_of(host.subrange(0, last), '.')
            } else {
                -1
            };
            (if prev >= 0 {
                seq!["https://"@ + host.subrange(prev + 1, host.len() as int)]
            } else {
                Seq::<Seq<char>>::empty()
            }) + seq!["https://www.google.com/s2/favicons?domain="@ + host + "&sz=128"@]
        },
    }
}

/// The URLs to try, in order, after the page itself yielded no icon.
pub fn fallback_sources(target_url: &str) -> (r: Vec<String>)
    ensures
        r.deep_view() == spec_fallback_sources(url_host(target_url@)),
{
    let mut out: Vec<String> = Vec::new();
    let host = host_of(target_url);
    match host {
        None => {
            proof {
                assert(out.deep_view() =~= spec_fallback_sources(url_host(target_url@)));
            }
            out
        },
        Some(h) => {
            let n = h.as_str().unicode_len();
            match find_last(h.as_str(), '.') {
                Some(last) => {
                    proof {
                        lemma_last_index_of(h@, '.');
                    }
                    let head = h.as_str().substring_char(0, last);
                    match find_last(head, '.') {
                        Some(prev) => {
                            proof {
                                lemma_last_index_of(head@, '.');
                            }
                            let mut root = String::new();
                            root.append("https://");
                            root.append(h.as_str().substring_char(prev + 1, n));
                            proof {
                                assert(root@ =~= "https://"@ + h@.subrange(
                                    prev + 1,
                                    h@.len() as int,
                                ));
                            }
                            out.push(root);
                        },
                        None => {},
                    }
                },
                None => {},
            }
            let mut service = String::new();
            service.append("https://www.google.com/s2/favicons?domain=");
            service.append(h.as_str());
            service.append("&sz=128");
            proof {
                assert(service@ =~= "https://www.google.com/s2/favicons?domain="@ + h@
                    + "&sz=128"@);
            }
            out.push(service);
            proof {
                assert(out.deep_view() =~= spec_fallback_sources(url_host(target_url@)));
            }
            out
        },
    }
}

/// One declared icon link of a page: the raw `rel` and `href` attribute
/// values.
#[derive(Debug)]
pub struct IconLink {
    pub rel: String,
    pub href: String,
}

/// The preference score of an icon link's lowercased `rel` value.
pub open spec fn rel_score(rel_lower: Seq<char>) -> int {
    if has_substring(rel_lower, "apple-touch-icon"@) {
        3
    } else if rel_lower == "icon"@ {
        2
    } else if has_substring(rel_lower, "shortcut"@) {
        1
    } else {
        0
    }
}

/// A link counts as an icon candidate when its lowercased `rel` mentions
/// an icon at all.
pub open spec fn is_icon_candidate(link: IconLink) -> bool {
    has_substring(lower_of(link.rel@), "icon"@)
}

/// Picks the preferred icon: among the candidate links, the first one with
/// the highest score.  None when the page declares no icon.
pub fn pick_icon_href(links: &Vec<IconLink>) -> (r: Option<String>)
    ensures
        match r {
            None => forall|i: int| 0 <= i < links@.len() ==> !is_icon_candidate(#[trigger] links@[i]),
            Some(h) => exists|i: int|
                {
                    &&& 0 <= i < links@.len()
                    &&& is_icon_candidate(#[trigger] links@[i])
                    &&& h == links@[i].href
                    &&& forall|j: int|
                        0 <= j < links@.len() && is_icon_candidate(#[trigger] links@[j])
                            ==> rel_score(lower_of(links@[j].rel@)) <= rel_score(
                            lower_of(links@[i].rel@),
                        )
                    &&& forall|j: int|
                        0 <= j < i && is_icon_candidate(#[trigger] links@[j]) ==> rel_score(
                            lower_of(links@[j].rel@),
                        ) < rel_score(lower_of(links@[i].rel@))
                },
        },
{
    let n = links.len();
    let mut best: Option<usize> = None;
    let ghost mut best_score: int = 0;
    let mut best_score_e: i32 = 0;
    let mut i: usize = 0;
    while i < n
        invariant
            n == links@.len(),
            i <= n,
            best_score == best_score_e as int,
            match best {
                None => {
                    &&& forall|j: int| 0 <= j < i ==> !is_icon_candidate(#[trigger] links@[j])
                },
                Some(b) => {
                    &&& b < i
                    &&& is_icon_candidate(links@[b as int])
                    &&& best_score == rel_score(lower_of(links@[b as int].rel@))
                    &&& forall|j: int|
                        0 <= j < i && is_icon_candidate(#[trigger] links@[j]) ==> rel_score(
                            lower_of(links@[j].rel@),
                        ) <= best_score
                    &&& forall|j: int|
                        0 <= j < b && is_icon_candidate(#[trigger] links@[j]) ==> rel_score(
                            lower_of(links@[j].rel@),
                        ) < best_score
                },
            },
        decreases n - i,
    {
        let rel_lower = lowercase(links[i].rel.as_str());
        if contains_sub(rel_lower.as_str(), "icon") {
            let score: i32 = if contains_sub(rel_lower.as_str(), "apple-touch-icon") {
                3
            } else if str_eq(rel_lower.as_str(), "icon") {
                2
            } else if contains_sub(rel_lower.as_str(), "shortcut") {
                1
            } else {
                0
            };
            proof {
                assert(score as int == rel_score(lower_of(links@[i as int].rel@)));
            }
            let better = match best {
                None => true,
                Some(_) => score > best_score_e,
            };
            if better {
                best = Some(i);
                best_score_e = score;
                proof {
                    best_score = score as int;
                }
            }
        }
        i = i + 1;
    }
    match best {
        None => None,
        Some(b) => Some(links[b].href.clone()),
    }
}

/// The icon locations a page yields, in the order to try them, as
/// references for the platform layer to resolve against the page's URL:
/// the preferred declared icon first, then the root `/favicon.ico` as the
/// one retry.  A page that declares no icon, or declares one with an empty
/// reference, gets only the root attempt; a page whose best declared icon
/// is the root path itself gets no separate retry.
pub fn icon_hrefs_to_try(links: &Vec<IconLink>) -> (r: Vec<String>)
    ensures
        (forall|i: int| 0 <= i < links@.len() ==> !is_icon_candidate(#[trigger] links@[i]))
            ==> r.deep_view() == seq!["/favicon.ico"@],
        (exists|i: int| 0 <= i < links@.len() && is_icon_candidate(#[trigger] links@[i]))
            ==> exists|i: int|
            {
                &&& 0 <= i < links@.len()
                &&& #[trigger] is_icon_candidate(links@[i])
                &&& forall|j: int|
                    0 <= j < links@.len() && is_icon_candidate(#[trigger] links@[j]) ==> rel_score(
                        lower_of(links@[j].rel@),
                    ) <= rel_score(lower_of(links@[i].rel@))
                &&& forall|j: int|
                    0 <= j < i && is_icon_candidate(#[trigger] links@[j]) ==> rel_score(
                        lower_of(links@[j].rel@),
                    ) < rel_score(lower_of(links@[i].rel@))
                &&& r.deep_view() == (if links@[i].href@.len() == 0 {
                    seq!["/favicon.ico"@]
                } else if links@[i].href@ == "/favicon.ico"@ {
                    seq![links@[i].href@]
                } else {
                    seq![links@[i].href@, "/favicon.ico"@]
                })
            },
{
    let mut out: Vec<String> = Vec::new();
    match pick_icon_href(links) {
        None => {
            out.push("/favicon.ico".to_owned());
            proof {
                assert(out.deep_view() =~= seq!["/favicon.ico"@]);
            }
            out
        },
        Some(href) => {
            if href.as_str().unicode_len() == 0 {
                out.push("/favicon.ico".to_owned());
                proof {
                    assert(out.deep_view() =~= seq!["/favicon.ico"@]);
                }
            } else if str_eq(href.as_str(), "/favicon.ico") {
                let ghost h = href@;
                out.push(href);
                proof {
                    assert(out.deep_view() =~= seq![h]);
                }
            } else {
                let ghost h = href@;
                out.push(href);
                out.push("/favicon.ico".to_owned());
                proof {
                    assert(out.deep_view() =~= seq![h, "/favicon.ico"@]);
                }
            }
            out
        },
    }
}

/// The file-name extension of a path: what follows the last dot, or the
/// whole path when it has none.
pub open spec fn path_ext(p: Seq<char>) -> Seq<char> {
    let last = last_index_of(p, '.');
    if last >= 0 {
        p.subrange(last + 1, p.len() as int)
    } else {
        p
    }
}

/// The extension chosen for a downloaded icon from its content type, or
/// from its URL path when the content type decides nothing.
pub open spec fn spec_icon_extension(ct: Option<Seq<char>>, path: Seq<char>) -> Seq<char> {
    match ct {
        Some(c) => {
            if has_substring(c, "png"@) {
                "png"@
            } else if has_substring(c, "svg"@) {
                "svg"@
            } else if has_substring(c, "jpeg"@) || has_substring(c, "jpg"@) {
                "jpg"@
            } else if has_substring(c, "webp"@) {
                "webp"@
            } else if has_substring(c, "x-icon"@) || has_substring(c, "vnd.microsoft.icon"@) {
                "ico"@
            } else {
                path_ext(path)
            }
        },
        None => path_ext(path),
    }
}

/// Chooses the downloaded icon's extension, as `spec_icon_extension` says.
pub fn icon_extension(content_type: Option<&str>, url_path: &str) -> (r: String)
    ensures
        r@ == spec_icon_extension(
            match content_type {
                Some(c) => Some(c@),
                None => None,
            },
            url_path@,
        ),
{
    match content_type {
        Some(c) => {
            if contains_sub(c, "png") {
                "png".to_owned()
            } else if contains_sub(c, "svg") {
                "svg".to_owned()
            } else if contains_sub(c, "jpeg") || contains_sub(c, "jpg") {
                "jpg".to_owned()
            } else if contains_sub(c, "webp") {
                "webp".to_owned()
            } else if contains_sub(c, "x-icon") || contains_sub(c, "vnd.microsoft.icon") {
                "ico".to_owned()
            } else {
                extension_of_path(url_path)
            }
        },
        None => extension_of_path(url_path),
    }
}

/// What follows the last dot of the path, or the whole path when it has
/// none.
pub fn extension_of_path(url_path: &str) -> (r: String)
    ensures
        r@ == path_ext(url_path@),
{
    let n = url_path.unicode_len();
    match find_last(url_path, '.') {
        Some(last) => {
            proof {
                lemma_last_index_of(url_path@, '.');
            }
            url_path.substring_char(last + 1, n).to_owned()
        },
        None => url_path.to_owned(),
    }
}

} // verus!
