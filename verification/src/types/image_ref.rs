//! Container image references such as `nginx`, `nginx:1.25`,
//! `registry.example.com:5000/team/app:v2` or `app@sha256:...`.
use crate::text::{
    char_is_alnum, chars_of, find_in, first_index, has_in, is_alnum, join2, last_index, own, push_char,
    rfind_in, str_eq, substring, trim, trim_bounds,
};
use vstd::prelude::*;

verus! {

/// Why a text is not an image reference.
#[derive(Debug, Clone, PartialEq, Eq)]
pub enum ParseImageRefError {
    Empty,
    InvalidChar(char),
    InvalidFormat(String),
}

/// The message that `Display` writes for an image reference error.
pub open spec fn parse_error_text(e: ParseImageRefError) -> Seq<char> {
    match e {
        ParseImageRefError::Empty => "image reference cannot be empty"@,
        ParseImageRefError::InvalidChar(c) => "invalid character in image reference: "@ + seq![c],
        ParseImageRefError::InvalidFormat(f) => "invalid image reference format: "@ + f@,
    }
}

impl ParseImageRefError {
    /// The message that `Display` writes for this error.
    pub fn to_string(&self) -> (r: String)
        ensures
            r@ == parse_error_text(*self),
    {
        match self {
            ParseImageRefError::Empty => own("image reference cannot be empty"),
            ParseImageRefError::InvalidChar(c) => {
                let mut s = own("invalid character in image reference: ");
                push_char(&mut s, *c);
                s
            },
            ParseImageRefError::InvalidFormat(f) => join2(
                "invalid image reference format: ",
                f.as_str(),
            ),
        }
    }
}

/// The parts of an image reference, as text.
pub struct ImageRefView {
    pub registry: Option<Seq<char>>,
    pub name: Seq<char>,
    pub tag: Option<Seq<char>>,
    pub digest: Option<Seq<char>>,
}

pub open spec fn opt_view(o: Option<String>) -> Option<Seq<char>> {
    match o {
        Some(s) => Some(s@),
        None => None,
    }
}

/// A character that may stand in an image reference.
pub open spec fn is_ref_char(c: char) -> bool {
    is_alnum(c) || c == '/' || c == ':' || c == '.' || c == '-' || c == '_' || c == '@'
}

/// The first character of `s` that may not stand in an image reference.
pub open spec fn first_bad_ref_char(s: Seq<char>) -> Option<char>
    decreases s.len(),
{
    if s.len() == 0 {
        None
    } else if !is_ref_char(s[0]) {
        Some(s[0])
    } else {
        first_bad_ref_char(s.drop_first())
    }
}

/// Splits off the digest after the first `@`.
pub open spec fn split_digest(t: Seq<char>) -> (Seq<char>, Option<Seq<char>>) {
    match first_index(t, '@') {
        Some(p) => (t.take(p), Some(t.skip(p + 1))),
        None => (t, None),
    }
}

/// Splits off the tag after the last `:`, unless what follows it holds a `/`
/// (then the colon belongs to a registry port).
pub open spec fn split_tag(w: Seq<char>) -> (Seq<char>, Option<Seq<char>>) {
    match last_index(w, ':') {
        Some(q) => if w.skip(q + 1).contains('/') {
            (w, None)
        } else {
            (w.take(q), Some(w.skip(q + 1)))
        },
        None => (w, None),
    }
}

/// A first path component that names a registry: it holds a `.` or a `:`, or
/// is `localhost`.
pub open spec fn names_registry(first: Seq<char>) -> bool {
    first.contains('.') || first.contains(':') || first == "localhost"@
}

/// Splits off the registry before the first `/`, when that component names one.
pub open spec fn split_registry(w: Seq<char>) -> (Option<Seq<char>>, Seq<char>) {
    match first_index(w, '/') {
        Some(r) => if names_registry(w.take(r)) {
            (Some(w.take(r)), w.skip(r + 1))
        } else {
            (None, w)
        },
        None => (None, w),
    }
}

/// The parts of a reference text already trimmed and checked: digest after the
/// first `@`, tag after the last `:` (unless a `/` follows it), registry before a
/// first `/` that names one, and the tag `latest` when neither tag nor digest is
/// given.
pub open spec fn split_ref(t: Seq<char>) -> ImageRefView {
    let (wd, digest) = split_digest(t);
    let (wt, tag0) = split_tag(wd);
    let (registry, name) = split_registry(wt);
    let tag = if tag0 is None && digest is None {
        Some("latest"@)
    } else {
        tag0
    };
    ImageRefView { registry, name, tag, digest }
}

/// What `ImageRef::parse` makes of `s`.
pub open spec fn parse_image_ref(s: Seq<char>) -> Result<ImageRefView, ParseImageRefError> {
    let t = trim(s);
    if t.len() == 0 {
        Err(ParseImageRefError::Empty)
    } else {
        match first_bad_ref_char(t) {
            Some(c) => Err(ParseImageRefError::InvalidChar(c)),
            None => Ok(split_ref(t)),
        }
    }
}

/// How `Display` writes an image reference.
pub open spec fn display_image_ref(v: ImageRefView) -> Seq<char> {
    let r = match v.registry {
        Some(reg) => reg + seq!['/'],
        None => Seq::empty(),
    };
    let t = match v.tag {
        Some(tag) => seq![':'] + tag,
        None => Seq::empty(),
    };
    let d = match v.digest {
        Some(dig) => seq!['@'] + dig,
        None => Seq::empty(),
    };
    r + v.name + t + d
}

proof fn lemma_first_bad_ref_char(s: Seq<char>)
    ensures
        first_bad_ref_char(s) is None <==> forall|i: int| 0 <= i < s.len() ==> is_ref_char(
            #[trigger] s[i],
        ),
    decreases s.len(),
{
    if s.len() > 0 {
        lemma_first_bad_ref_char(s.drop_first());
        if first_bad_ref_char(s) is None {
            assert forall|i: int| 0 <= i < s.len() implies is_ref_char(#[trigger] s[i]) by {
                if i > 0 {
                    assert(s[i] == s.drop_first()[i - 1]);
                }
            }
        }
        if forall|i: int| 0 <= i < s.len() ==> is_ref_char(#[trigger] s[i]) {
            assert(is_ref_char(s[0]));
            assert forall|i: int| 0 <= i < s.drop_first().len() implies is_ref_char(
                #[trigger] s.drop_first()[i],
            ) by {
                assert(s.drop_first()[i] == s[i + 1]);
            }
        }
    }
}

/// No character of `s` is `c`.
pub open spec fn lacks(s: Seq<char>, c: char) -> bool {
    forall|i: int| 0 <= i < s.len() ==> s[i] != c
}

/// Every character of `s` may stand in an image reference.
pub open spec fn all_ref_chars(s: Seq<char>) -> bool {
    forall|i: int| 0 <= i < s.len() ==> is_ref_char(#[trigger] s[i])
}

proof fn lemma_first_at(a: Seq<char>, c: char, b: Seq<char>)
    requires
        lacks(a, c),
    ensures
        first_index(a + seq![c] + b, c) == Some(a.len() as int),
{
    let s = a + seq![c] + b;
    assert(s[a.len() as int] == c);
    assert forall|j: int| 0 <= j < a.len() implies s[j] != c by {
        assert(s[j] == a[j]);
    }
    crate::text::lemma_first_index(s, c, a.len() as int);
}

proof fn lemma_last_at(a: Seq<char>, c: char, b: Seq<char>)
    requires
        lacks(b, c),
    ensures
        last_index(a + seq![c] + b, c) == Some(a.len() as int),
{
    let s = a + seq![c] + b;
    assert(s[a.len() as int] == c);
    assert forall|j: int| a.len() < j < s.len() implies s[j] != c by {
        assert(s[j] == b[j - a.len() - 1]);
    }
    crate::text::lemma_last_index(s, c, a.len() as int);
}

/// The parts that `split_digest` gives of text without a bad character.
proof fn lemma_split_digest_parts(t: Seq<char>)
    requires
        all_ref_chars(t),
    ensures
        lacks(split_digest(t).0, '@'),
        all_ref_chars(split_digest(t).0),
        split_digest(t).1 matches Some(d) ==> all_ref_chars(d) && t == split_digest(t).0 + seq!['@'] + d,
        split_digest(t).1 is None ==> split_digest(t).0 == t,
{
    if exists|i: int| 0 <= i < t.len() && t[i] == '@' {
        crate::text::lemma_first_index_some(t, '@');
        let p = first_index(t, '@')->0;
        assert(t =~= t.take(p) + seq!['@'] + t.skip(p + 1));
        assert forall|i: int| 0 <= i < t.skip(p + 1).len() implies is_ref_char(
            #[trigger] t.skip(p + 1)[i],
        ) by {
            assert(t.skip(p + 1)[i] == t[p + 1 + i]);
        }
        assert forall|i: int| 0 <= i < t.take(p).len() implies is_ref_char(
            #[trigger] t.take(p)[i],
        ) by {
            assert(t.take(p)[i] == t[i]);
        }
    }
}

/// The parts that `split_tag` gives: the tag holds neither `:` nor `/`.
proof fn lemma_split_tag_parts(w: Seq<char>)
    requires
        all_ref_chars(w),
        lacks(w, '@'),
    ensures
        lacks(split_tag(w).0, '@'),
        all_ref_chars(split_tag(w).0),
        split_tag(w).1 matches Some(g) ==> lacks(g, ':') && lacks(g, '/') && lacks(g, '@')
            && all_ref_chars(g) && w == split_tag(w).0 + seq![':'] + g,
        split_tag(w).1 is None ==> split_tag(w).0 == w,
{
    if exists|i: int| 0 <= i < w.len() && w[i] == ':' {
        crate::text::lemma_last_index_some(w, ':');
        let q = last_index(w, ':')->0;
        let g = w.skip(q + 1);
        if !g.contains('/') {
            assert(w =~= w.take(q) + seq![':'] + g);
            assert forall|i: int| 0 <= i < g.len() implies g[i] != ':' && g[i] != '/' && g[i] != '@'
                && is_ref_char(#[trigger] g[i]) by {
                assert(g[i] == w[q + 1 + i]);
                if g[i] == '/' {
                    assert(g.contains('/'));
                }
            }
            assert forall|i: int| 0 <= i < w.take(q).len() implies w.take(q)[i] != '@'
                && is_ref_char(#[trigger] w.take(q)[i]) by {
                assert(w.take(q)[i] == w[i]);
            }
        }
    }
}

/// What `split_registry` splits it joins back.
proof fn lemma_split_registry_parts(w: Seq<char>)
    ensures
        match split_registry(w) {
            (Some(reg), name) => w == reg + seq!['/'] + name,
            (None, name) => w == name,
        },
{
    match first_index(w, '/') {
        Some(r) => {
            if names_registry(w.take(r)) {
                crate::text::lemma_first_index_some(w, '/');
                assert(w =~= w.take(r) + seq!['/'] + w.skip(r + 1));
            }
        },
        None => {},
    }
}

/// Text of reference characters is its own trimmed text.
proof fn lemma_ref_text_trimmed(full: Seq<char>)
    requires
        all_ref_chars(full),
    ensures
        trim(full) == full,
{
    assert forall|i: int| 0 <= i < full.len() implies !crate::text::is_ws(#[trigger] full[i]) by {
        assert(is_ref_char(full[i]));
    }
    crate::text::lemma_trim_plain(full);
}

/// `w`, then `c`, then `d` is made of reference characters when its parts are.
proof fn lemma_joined_ref_chars(w: Seq<char>, c: char, d: Seq<char>)
    requires
        all_ref_chars(w),
        all_ref_chars(d),
        is_ref_char(c),
    ensures
        all_ref_chars(w + seq![c] + d),
{
    let full = w + seq![c] + d;
    assert forall|i: int| 0 <= i < full.len() implies is_ref_char(#[trigger] full[i]) by {
        if i < w.len() {
            assert(full[i] == w[i]);
        } else if i > w.len() {
            assert(full[i] == d[i - w.len() - 1]);
        }
    }
}

/// A digest joined on with `@` splits off again.
#[verifier::rlimit(30)]
proof fn lemma_rejoin_digest(w: Seq<char>, d: Seq<char>)
    requires
        lacks(w, '@'),
    ensures
        split_digest(w + seq!['@'] + d) == (w, Some(d)),
{
    let full = w + seq!['@'] + d;
    lemma_first_at(w, '@', d);
    assert(full.take(w.len() as int) =~= w);
    assert(full.skip(w.len() as int + 1) =~= d);
}

/// A tag without `:` or `/` joined on with `:` splits off again.
#[verifier::rlimit(30)]
proof fn lemma_rejoin_tag(w: Seq<char>, g: Seq<char>)
    requires
        lacks(g, ':'),
        lacks(g, '/'),
    ensures
        split_tag(w + seq![':'] + g) == (w, Some(g)),
{
    let full = w + seq![':'] + g;
    lemma_last_at(w, ':', g);
    assert(full.skip(w.len() as int + 1) =~= g);
    assert(full.take(w.len() as int) =~= w);
    if g.contains('/') {
        let k = choose|k: int| 0 <= k < g.len() && g[k] == '/';
        assert(g[k] != '/');
    }
}

/// Text without `@` splits off no digest.
proof fn lemma_no_digest(w: Seq<char>)
    requires
        lacks(w, '@'),
    ensures
        split_digest(w) == (w, None::<Seq<char>>),
{
}

/// Joining `c` between two texts without `@` gives text without `@` when `c`
/// is not `@`.
proof fn lemma_joined_lacks(w: Seq<char>, c: char, g: Seq<char>, x: char)
    requires
        lacks(w, x),
        lacks(g, x),
        c != x,
    ensures
        lacks(w + seq![c] + g, x),
{
    let full = w + seq![c] + g;
    assert forall|i: int| 0 <= i < full.len() implies full[i] != x by {
        if i < w.len() {
            assert(full[i] == w[i]);
        } else if i > w.len() {
            assert(full[i] == g[i - w.len() - 1]);
        }
    }
}

/// A first path component `localhost` names the registry (Podman's name for
/// locally built images): `localhost/<name>` and `localhost/<name>:<tag>`, for
/// a name and tag of reference characters without `/`, `:` or `@`, have
/// registry `localhost`, that name, and that tag (`latest` when none is given).
#[verifier::spinoff_prover]
pub proof fn lemma_localhost_is_registry(name: Seq<char>, tag: Seq<char>)
    requires
        all_ref_chars(name),
        lacks(name, '/'),
        lacks(name, ':'),
        lacks(name, '@'),
        all_ref_chars(tag),
        lacks(tag, '/'),
        lacks(tag, ':'),
        lacks(tag, '@'),
    ensures
        parse_image_ref("localhost/"@ + name) == Ok::<ImageRefView, ParseImageRefError>(
            ImageRefView { registry: Some("localhost"@), name, tag: Some("latest"@), digest: None },
        ),
        parse_image_ref("localhost/"@ + name + ":"@ + tag) == Ok::<ImageRefView, ParseImageRefError>(
            ImageRefView { registry: Some("localhost"@), name, tag: Some(tag), digest: None },
        ),
{
    reveal_strlit("localhost/");
    reveal_strlit("localhost");
    reveal_strlit("latest");
    reveal_strlit(":");
    let host = "localhost"@;
    assert(all_ref_chars(host)) by {
        assert forall|i: int| 0 <= i < host.len() implies is_ref_char(#[trigger] host[i]) by {
            assert(crate::text::is_lower(host[i]));
        }
    }
    assert(lacks(host, '/'));
    assert(lacks(host, ':'));
    assert(lacks(host, '@'));
    let w = host + seq!['/'] + name;
    assert(w =~= "localhost/"@ + name);
    lemma_joined_ref_chars(host, '/', name);
    lemma_joined_lacks(host, '/', name, '@');
    lemma_joined_lacks(host, '/', name, ':');
    lemma_first_at(host, '/', name);
    assert(w.take(9) =~= host);
    assert(w.skip(10) =~= name);
    assert(names_registry(host));
    assert(split_registry(w) == (Some(host), name));

    // Without a tag.
    lemma_ref_text_trimmed(w);
    lemma_first_bad_ref_char(w);
    lemma_no_digest(w);
    assert(last_index(w, ':') is None);
    assert(split_tag(w) == (w, None::<Seq<char>>));

    // With a tag.
    let full = w + seq![':'] + tag;
    assert(full =~= "localhost/"@ + name + ":"@ + tag);
    lemma_joined_ref_chars(w, ':', tag);
    lemma_joined_lacks(w, ':', tag, '@');
    lemma_ref_text_trimmed(full);
    lemma_first_bad_ref_char(full);
    lemma_no_digest(full);
    lemma_rejoin_tag(w, tag);
}

/// An image reference written out by `Display` and read back by `parse` is the
/// same reference: `peleka init` writes the image this way into the
/// configuration that deployments read.
/// `w` with an optional `:tag` after it.
pub open spec fn join_tag(w: Seq<char>, tag: Option<Seq<char>>) -> Seq<char> {
    match tag {
        Some(g) => w + seq![':'] + g,
        None => w,
    }
}

/// `w` with an optional `@digest` after it.
pub open spec fn join_digest(w: Seq<char>, digest: Option<Seq<char>>) -> Seq<char> {
    match digest {
        Some(d) => w + seq!['@'] + d,
        None => w,
    }
}

proof fn lemma_display_joins(v: ImageRefView)
    ensures
        display_image_ref(v) == join_digest(
            join_tag(
                match v.registry {
                    Some(reg) => reg + seq!['/'] + v.name,
                    None => v.name,
                },
                v.tag,
            ),
            v.digest,
        ),
{
    let r = match v.registry {
        Some(reg) => reg + seq!['/'],
        None => Seq::<char>::empty(),
    };
    let w = match v.registry {
        Some(reg) => reg + seq!['/'] + v.name,
        None => v.name,
    };
    assert(r + v.name =~= w);
    assert(display_image_ref(v) =~= join_digest(join_tag(w, v.tag), v.digest));
}

/// The tag part: joined back on, it splits off again.
#[verifier::rlimit(30)]
proof fn lemma_tag_part(wd: Seq<char>, tag: Option<Seq<char>>)
    requires
        all_ref_chars(wd),
        lacks(wd, '@'),
        tag == (if split_tag(wd).1 is None && tag is Some {
            Some("latest"@)
        } else {
            split_tag(wd).1
        }),
    ensures
        split_tag(join_tag(split_tag(wd).0, tag)) == (split_tag(wd).0, tag),
        lacks(join_tag(split_tag(wd).0, tag), '@'),
        all_ref_chars(join_tag(split_tag(wd).0, tag)),
{
    lemma_split_tag_parts(wd);
    reveal_strlit("latest");
    let wt = split_tag(wd).0;
    match tag {
        Some(g) => {
            assert(lacks(g, ':') && lacks(g, '/') && lacks(g, '@') && all_ref_chars(g));
            lemma_rejoin_tag(wt, g);
            lemma_joined_lacks(wt, ':', g, '@');
            lemma_joined_ref_chars(wt, ':', g);
        },
        None => {},
    }
}

/// The digest part: joined back on, it splits off again.
proof fn lemma_digest_part(w: Seq<char>, digest: Option<Seq<char>>)
    requires
        all_ref_chars(w),
        lacks(w, '@'),
        digest matches Some(d) ==> all_ref_chars(d),
    ensures
        split_digest(join_digest(w, digest)) == (w, digest),
        all_ref_chars(join_digest(w, digest)),
        digest is Some ==> join_digest(w, digest).len() > 0,
        join_digest(w, digest).len() >= w.len(),
{
    match digest {
        Some(d) => {
            lemma_rejoin_digest(w, d);
            lemma_joined_ref_chars(w, '@', d);
        },
        None => {
            lemma_no_digest(w);
        },
    }
}

/// A displayed reference splits into the parts it was displayed from.
#[verifier::spinoff_prover]
#[verifier::rlimit(40)]
proof fn lemma_split_displayed(t: Seq<char>)
    requires
        all_ref_chars(t),
    ensures
        all_ref_chars(display_image_ref(split_ref(t))),
        display_image_ref(split_ref(t)).len() > 0,
        split_ref(display_image_ref(split_ref(t))) == split_ref(t),
{
    let v = split_ref(t);
    let (wd, digest) = split_digest(t);
    lemma_split_digest_parts(t);
    let (wt, tag0) = split_tag(wd);
    lemma_split_registry_parts(wt);
    lemma_tag_part(wd, v.tag);
    let w2 = join_tag(wt, v.tag);
    lemma_digest_part(w2, digest);
    lemma_display_joins(v);
    assert(v.tag is Some ==> w2.len() > 0);
}

/// A non-empty text of reference characters parses by its parts.
proof fn lemma_parse_ref_text(x: Seq<char>)
    requires
        all_ref_chars(x),
        x.len() > 0,
    ensures
        parse_image_ref(x) == Ok::<ImageRefView, ParseImageRefError>(split_ref(x)),
{
    lemma_ref_text_trimmed(x);
    lemma_first_bad_ref_char(x);
}

/// An image reference written out by `Display` and read back by `parse` is the
/// same reference: `peleka init` writes the image this way into the
/// configuration that deployments read.
pub proof fn lemma_display_parses_back(s: Seq<char>)
    requires
        parse_image_ref(s) is Ok,
    ensures
        parse_image_ref(display_image_ref(parse_image_ref(s)->Ok_0)) == parse_image_ref(s),
{
    let t = trim(s);
    lemma_first_bad_ref_char(t);
    assert(parse_image_ref(s) == Ok::<ImageRefView, ParseImageRefError>(split_ref(t)));
    lemma_split_displayed(t);
    lemma_parse_ref_text(display_image_ref(split_ref(t)));
}

/// A parsed, validated container image reference.
#[derive(Debug, PartialEq, Eq)]
pub struct ImageRef {
    registry: Option<String>,
    name: String,
    tag: Option<String>,
    digest: Option<String>,
}

fn dup_opt(o: &Option<String>) -> (r: Option<String>)
    ensures
        r == *o,
{
    match o {
        Some(s) => Some(s.clone()),
        None => None,
    }
}

impl crate::strmap::Duplicate for ImageRef {
    fn duplicate(&self) -> (r: Self) {
        ImageRef {
            registry: dup_opt(&self.registry),
            name: self.name.clone(),
            tag: dup_opt(&self.tag),
            digest: dup_opt(&self.digest),
        }
    }
}

impl View for ImageRef {
    type V = ImageRefView;

    closed spec fn view(&self) -> ImageRefView {
        ImageRefView {
            registry: opt_view(self.registry),
            name: self.name@,
            tag: opt_view(self.tag),
            digest: opt_view(self.digest),
        }
    }
}

fn opt_str(o: &Option<String>) -> (r: Option<&str>)
    ensures
        match r {
            Some(s) => o is Some && s@ == o->0@,
            None => o is None,
        },
{
    match o {
        Some(s) => Some(s.as_str()),
        None => None,
    }
}

/// The first character of `v[a..b]` that may not stand in an image reference.
fn first_bad_in(v: &Vec<char>, a: usize, b: usize) -> (r: Option<char>)
    requires
        a <= b <= v@.len(),
    ensures
        r == first_bad_ref_char(v@.subrange(a as int, b as int)),
{
    let ghost t = v@.subrange(a as int, b as int);
    let mut i = a;
    while i < b
        invariant
            a <= i <= b <= v@.len(),
            t == v@.subrange(a as int, b as int),
            first_bad_ref_char(t) == first_bad_ref_char(v@.subrange(i as int, b as int)),
        decreases b - i,
    {
        let c = v[i];
        let ghost u = v@.subrange(i as int, b as int);
        assert(u[0] == c);
        assert(u.len() > 0);
        if !(char_is_alnum(c) || c == '/' || c == ':' || c == '.' || c == '-' || c == '_' || c
            == '@') {
            return Some(c);
        }
        assert(u.drop_first() =~= v@.subrange(i + 1, b as int));
        i = i + 1;
    }
    None
}

/// `split_digest` over `v[a..b]`: where the part before the digest ends, and the digest.
#[verifier::spinoff_prover]
#[verifier::rlimit(30)]
fn digest_in(input: &str, v: &Vec<char>, a: usize, b: usize) -> (r: (usize, Option<String>))
    requires
        v@ == input@,
        a <= b <= v@.len(),
    ensures
        a <= r.0 <= b,
        v@.subrange(a as int, r.0 as int) == split_digest(v@.subrange(a as int, b as int)).0,
        opt_view(r.1) == split_digest(v@.subrange(a as int, b as int)).1,
{
    let ghost t = v@.subrange(a as int, b as int);
    match find_in(v, a, b, '@') {
        Some(p) => {
            assert(t.take(p - a) =~= v@.subrange(a as int, p as int));
            assert(t.skip(p - a + 1) =~= v@.subrange(p + 1, b as int));
            (p, Some(substring(input, p + 1, b)))
        },
        None => (b, None),
    }
}

/// `split_tag` over `v[a..e]`: where the part before the tag ends, and the tag.
#[verifier::spinoff_prover]
#[verifier::rlimit(30)]
fn tag_in(input: &str, v: &Vec<char>, a: usize, e: usize) -> (r: (usize, Option<String>))
    requires
        v@ == input@,
        a <= e <= v@.len(),
    ensures
        a <= r.0 <= e,
        v@.subrange(a as int, r.0 as int) == split_tag(v@.subrange(a as int, e as int)).0,
        opt_view(r.1) == split_tag(v@.subrange(a as int, e as int)).1,
{
    let ghost w = v@.subrange(a as int, e as int);
    match rfind_in(v, a, e, ':') {
        Some(q) => {
            let slash_after = has_in(v, q + 1, e, '/');
            assert(w.skip(q - a + 1) =~= v@.subrange(q + 1, e as int));
            if slash_after {
                (e, None)
            } else {
                assert(w.take(q - a) =~= v@.subrange(a as int, q as int));
                (q, Some(substring(input, q + 1, e)))
            }
        },
        None => (e, None),
    }
}

/// `split_registry` over `v[a..e]`.
#[verifier::spinoff_prover]
#[verifier::rlimit(40)]
fn registry_in(input: &str, v: &Vec<char>, a: usize, e: usize) -> (r: (Option<String>, String))
    requires
        v@ == input@,
        a <= e <= v@.len(),
    ensures
        opt_view(r.0) == split_registry(v@.subrange(a as int, e as int)).0,
        r.1@ == split_registry(v@.subrange(a as int, e as int)).1,
{
    let ghost w = v@.subrange(a as int, e as int);
    match find_in(v, a, e, '/') {
        Some(r) => {
            let first = substring(input, a, r);
            assert(first@ =~= w.take(r - a));
            let dot = has_in(v, a, r, '.');
            let colon = has_in(v, a, r, ':');
            let local = str_eq(first.as_str(), "localhost");
            if dot || colon || local {
                assert(w.skip(r - a + 1) =~= v@.subrange(r + 1, e as int));
                (Some(first), substring(input, r + 1, e))
            } else {
                (None, substring(input, a, e))
            }
        },
        None => (None, substring(input, a, e)),
    }
}

impl ImageRef {
    /// Parses an image reference: `[registry/]name[:tag][@digest]`, with the tag
    /// `latest` when neither tag nor digest is given.
    pub fn parse(input: &str) -> (r: Result<Self, ParseImageRefError>)
        ensures
            match parse_image_ref(input@) {
                Ok(v) => r is Ok && r->Ok_0@ == v,
                Err(e) => r == Err::<ImageRef, ParseImageRefError>(e),
            },
    {
        let v = chars_of(input);
        let (a, b) = trim_bounds(&v);
        if a == b {
            return Err(ParseImageRefError::Empty);
        }
        match first_bad_in(&v, a, b) {
            Some(c) => {
                return Err(ParseImageRefError::InvalidChar(c));
            },
            None => {},
        }
        let (wd_end, digest) = digest_in(input, &v, a, b);
        let (wt_end, tag0) = tag_in(input, &v, a, wd_end);
        let (registry, name) = registry_in(input, &v, a, wt_end);
        let tag = if tag0.is_none() && digest.is_none() {
            Some(own("latest"))
        } else {
            tag0
        };
        Ok(ImageRef { registry, name, tag, digest })
    }

    /// The reference with these parts, as `parse` gives them.
    pub(crate) fn from_parts(
        registry: Option<String>,
        name: String,
        tag: Option<String>,
        digest: Option<String>,
    ) -> (r: Self)
        ensures
            r@ == (ImageRefView {
                registry: opt_view(registry),
                name: name@,
                tag: opt_view(tag),
                digest: opt_view(digest),
            }),
    {
        ImageRef { registry, name, tag, digest }
    }

    pub fn registry(&self) -> (r: Option<&str>)
        ensures
            match r {
                Some(s) => self@.registry == Some(s@),
                None => self@.registry is None,
            },
    {
        opt_str(&self.registry)
    }

    pub fn name(&self) -> (r: &str)
        ensures
            r@ == self@.name,
    {
        self.name.as_str()
    }

    pub fn tag(&self) -> (r: Option<&str>)
        ensures
            match r {
                Some(s) => self@.tag == Some(s@),
                None => self@.tag is None,
            },
    {
        opt_str(&self.tag)
    }

    pub fn digest(&self) -> (r: Option<&str>)
        ensures
            match r {
                Some(s) => self@.digest == Some(s@),
                None => self@.digest is None,
            },
    {
        opt_str(&self.digest)
    }

    /// The reference, as `Display` writes it: `[registry/]name[:tag][@digest]`.
    pub fn to_string(&self) -> (r: String)
        ensures
            r@ == display_image_ref(self@),
    {
        let mut s = String::new();
        match &self.registry {
            Some(reg) => {
                s.append(reg.as_str());
                s.append("/");
            },
            None => {},
        }
        s.append(self.name.as_str());
        match &self.tag {
            Some(tag) => {
                s.append(":");
                s.append(tag.as_str());
            },
            None => {},
        }
        match &self.digest {
            Some(d) => {
                s.append("@");
                s.append(d.as_str());
            },
            None => {},
        }
        proof {
            reveal_strlit("/");
            reveal_strlit(":");
            reveal_strlit("@");
        }
        assert(s@ =~= display_image_ref(self@));
        s
    }
}

} // verus!
