//! The parts of an absolute URL that the endpoint policies read, as parsed by
//! the `url` parser that `reqwest` re-exports.
use vstd::prelude::*;

verus! {

/// An absolute URL split into the components the policies check.
#[derive(Clone, Debug, PartialEq, Eq)]
pub struct UrlParts {
    /// The whole URL in its normalized form (`Url::as_str`).
    pub serialization: String,
    /// The lower-case scheme without `:`.
    pub scheme: String,
    /// The user name, empty when there is none.
    pub username: String,
    pub password: Option<String>,
    pub host: Option<String>,
    pub path: String,
    pub query: Option<String>,
    pub fragment: Option<String>,
}

/// What a parsed URL holds.
pub struct UrlView {
    pub serialization: Seq<char>,
    pub scheme: Seq<char>,
    pub username: Seq<char>,
    pub password: Option<Seq<char>>,
    pub host: Option<Seq<char>>,
    pub path: Seq<char>,
    pub query: Option<Seq<char>>,
    pub fragment: Option<Seq<char>>,
}

/// The view of an optional string.
pub open spec fn opt_view(o: Option<String>) -> Option<Seq<char>> {
    match o {
        Some(s) => Some(s@),
        None => None,
    }
}

impl View for UrlParts {
    type V = UrlView;

    open spec fn view(&self) -> UrlView {
        UrlView {
            serialization: self.serialization@,
            scheme: self.scheme@,
            username: self.username@,
            password: opt_view(self.password),
            host: opt_view(self.host),
            path: self.path@,
            query: opt_view(self.query),
            fragment: opt_view(self.fragment),
        }
    }
}

impl UrlParts {
    /// A copy of these parts.
    pub fn duplicate(&self) -> (r: UrlParts)
        ensures
            r@ == self@,
    {
        UrlParts {
            serialization: self.serialization.clone(),
            scheme: self.scheme.clone(),
            username: self.username.clone(),
            password: self.password.clone(),
            host: self.host.clone(),
            path: self.path.clone(),
            query: self.query.clone(),
            fragment: self.fragment.clone(),
        }
    }
}

/// What `Url::parse` gives for `input`: the components of the absolute URL,
/// or `None` when the text is not an absolute URL.
pub uninterp spec fn url_parse_result(input: Seq<char>) -> Option<UrlView>;

/// Parses an absolute URL with `reqwest::Url::parse` (the `url` crate) and
/// reads its components with `as_str`, `scheme`, `username`, `password`,
/// `host_str`, `path`, `query` and `fragment`. The contract claims only that
/// the result is a function of the input, named `url_parse_result`.
#[verifier::external_body]
pub(crate) fn parse_url(input: &str) -> (r: Option<UrlParts>)
    ensures
        match r {
            Some(p) => url_parse_result(input@) == Some(p@),
            None => url_parse_result(input@) is None,
        },
{
    let url = reqwest::Url::parse(input).ok()?;
    Some(UrlParts {
        serialization: url.as_str().to_string(),
        scheme: url.scheme().to_string(),
        username: url.username().to_string(),
        password: url.password().map(String::from),
        host: url.host_str().map(String::from),
        path: url.path().to_string(),
        query: url.query().map(String::from),
        fragment: url.fragment().map(String::from),
    })
}

/// The `/`-separated segments of a path after its leading `/`
/// (`Url::path_segments`), or `None` when the path does not start with `/`.
pub open spec fn path_segments(path: Seq<char>) -> Option<Seq<Seq<char>>> {
    if path.len() > 0 && path[0] == '/' {
        Some(split_on_slash(path.drop_first()))
    } else {
        None
    }
}

/// `s` split on every `/`; there is always at least one piece.
pub open spec fn split_on_slash(s: Seq<char>) -> Seq<Seq<char>>
    decreases s.len(),
{
    if s.len() == 0 {
        seq![Seq::empty()]
    } else {
        let r = split_on_slash(s.drop_last());
        if s.last() == '/' {
            r.push(Seq::empty())
        } else {
            r.update(r.len() - 1, r.last().push(s.last()))
        }
    }
}

/// Splitting never gives an empty list of pieces.
pub proof fn lemma_split_nonempty(s: Seq<char>)
    ensures
        split_on_slash(s).len() >= 1,
    decreases s.len(),
{
    if s.len() > 0 {
        lemma_split_nonempty(s.drop_last());
    }
}

/// The views of a list of strings.
pub open spec fn strings_view(v: Seq<String>) -> Seq<Seq<char>> {
    v.map_values(|s: String| s@)
}

/// The segment that follows the first segment `s`, if there is one.
pub open spec fn segment_after_s(segs: Seq<Seq<char>>) -> Option<Seq<char>>
    decreases segs.len(),
{
    if segs.len() == 0 {
        None
    } else if segs[0] == "s"@ {
        if segs.len() > 1 {
            Some(segs[1])
        } else {
            None
        }
    } else {
        segment_after_s(segs.drop_first())
    }
}

/// The Apps Script deployment identifier of a web-app path: the segment after
/// `s` in `/macros/s/<id>/exec`.
pub open spec fn deployment_id_of(path: Seq<char>) -> Option<Seq<char>> {
    match path_segments(path) {
        Some(segs) => segment_after_s(segs),
        None => None,
    }
}

/// The path segments of `path`.
pub fn split_path(path: &str) -> (r: Option<Vec<String>>)
    ensures
        match r {
            Some(v) => path_segments(path@) == Some(strings_view(v@)),
            None => path_segments(path@) is None,
        },
{
    let n = path.unicode_len();
    if n == 0 || path.get_char(0) != '/' {
        return None;
    }
    let ghost rest = path@.drop_first();
    let mut done: Vec<String> = Vec::new();
    let mut start: usize = 1;
    let mut i: usize = 1;
    assert(rest.subrange(0, 0) =~= Seq::<char>::empty());
    assert(path@.subrange(1, 1) =~= Seq::<char>::empty());
    assert(strings_view(done@) =~= Seq::<Seq<char>>::empty());
    while i < n
        invariant
            n == path@.len(),
            n >= 1,
            rest == path@.drop_first(),
            1 <= start <= i <= n,
            split_on_slash(rest.subrange(0, i - 1)) == strings_view(done@).push(
                path@.subrange(start as int, i as int),
            ),
        decreases n - i,
    {
        let ghost pre = rest.subrange(0, i - 1);
        let ghost next = rest.subrange(0, i as int);
        assert(next.drop_last() =~= pre);
        assert(next.last() == path@[i as int]);
        if path.get_char(i) == '/' {
            let piece = path.substring_char(start, i).to_owned();
            let ghost before = done@;
            done.push(piece);
            assert(done@ =~= before.push(piece));
            assert(strings_view(done@) =~= strings_view(before).push(piece@));
            start = i + 1;
            assert(path@.subrange(start as int, i + 1) =~= Seq::<char>::empty());
        } else {
            assert(path@.subrange(start as int, i + 1) =~= path@.subrange(
                start as int,
                i as int,
            ).push(path@[i as int]));
        }
        i = i + 1;
    }
    let piece = path.substring_char(start, n).to_owned();
    let ghost before = done@;
    done.push(piece);
    assert(done@ =~= before.push(piece));
    assert(strings_view(done@) =~= strings_view(before).push(piece@));
    assert(rest.subrange(0, n - 1) =~= rest);
    Some(done)
}

/// The deployment identifier in the path of an Apps Script web-app URL.
pub fn deployment_id(path: &str) -> (r: Option<String>)
    ensures
        opt_view(r) == deployment_id_of(path@),
{
    let segs = match split_path(path) {
        Some(v) => v,
        None => return None,
    };
    let ghost sv = strings_view(segs@);
    let marker = String::from_str("s");
    proof {
        reveal_strlit("s");
    }
    let mut i: usize = 0;
    assert(sv.subrange(0, sv.len() as int) =~= sv);
    while i < segs.len()
        invariant
            sv == strings_view(segs@),
            sv.len() == segs@.len(),
            path_segments(path@) == Some(sv),
            marker@ == "s"@,
            i <= segs.len(),
            segment_after_s(sv.subrange(i as int, sv.len() as int)) == segment_after_s(sv),
        decreases segs.len() - i,
    {
        let ghost tail = sv.subrange(i as int, sv.len() as int);
        assert(tail[0] == segs@[i as int]@);
        if segs[i] == marker {
            assert(tail[0] == "s"@);
            if i + 1 < segs.len() {
                assert(tail[1] == segs@[i + 1]@);
                return Some(segs[i + 1].clone());
            } else {
                return None;
            }
        }
        assert(tail.drop_first() =~= sv.subrange(i + 1, sv.len() as int));
        i = i + 1;
    }
    assert(sv.subrange(i as int, sv.len() as int) =~= Seq::<Seq<char>>::empty());
    None
}

} // verus!
