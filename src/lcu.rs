use vstd::prelude::*;
use vstd::string::*;
use base64::Engine;
use crate::error::LcuError;
use crate::text::text_eq;

verus! {

/// Where the running client listens, and the token it accepts.
#[derive(Debug, Clone)]
pub struct LcuInfo {
    pub port: String,
    pub token: String,
}

impl View for LcuInfo {
    type V = (Seq<char>, Seq<char>);

    open spec fn view(&self) -> (Seq<char>, Seq<char>) {
        (self.port@, self.token@)
    }
}

/// The pieces of `s` between occurrences of `d`, as `str::split` gives them:
/// always at least one, and one more than there are `d`s.
pub open spec fn split_on(s: Seq<char>, d: char) -> Seq<Seq<char>>
    decreases s.len(),
{
    if s.len() == 0 {
        seq![Seq::empty()]
    } else {
        let rest = split_on(s.drop_last(), d);
        if s.last() == d {
            rest.push(Seq::empty())
        } else {
            rest.update(rest.len() - 1, rest.last().push(s.last()))
        }
    }
}

/// The port and token that a lockfile's text gives: its fields are
/// `name:pid:port:token:protocol`, and a text of fewer than five fields, or
/// with an empty port or token, gives none.
pub open spec fn lockfile_credential(s: Seq<char>) -> Option<(Seq<char>, Seq<char>)> {
    let f = split_on(s, ':');
    if f.len() >= 5 && f[2].len() > 0 && f[3].len() > 0 {
        Some((f[2], f[3]))
    } else {
        None
    }
}

/// The port and token of a credential, if there is one.
pub open spec fn info_view(r: Option<LcuInfo>) -> Option<(Seq<char>, Seq<char>)> {
    match r {
        Some(i) => Some(i@),
        None => None,
    }
}

/// The characters of a text, if there is one.
pub open spec fn text_view(s: Option<String>) -> Option<Seq<char>> {
    match s {
        Some(t) => Some(t@),
        None => None,
    }
}

/// What discovery finds: the credential of the lockfile beside the running
/// client when it yields one, else that of the lockfile at the default path.
pub open spec fn discovered(primary: Option<Seq<char>>, fallback: Option<Seq<char>>) -> Option<
    (Seq<char>, Seq<char>),
> {
    let first = match primary {
        Some(p) => lockfile_credential(p),
        None => None,
    };
    if first is Some {
        first
    } else {
        match fallback {
            Some(f) => lockfile_credential(f),
            None => None,
        }
    }
}

/// The executable names under which the client runs, in lower case.
pub open spec fn is_client_name(lower: Seq<char>) -> bool {
    lower == "leagueclientux.exe"@ || lower == "leagueclient.exe"@
}

/// What `str::to_lowercase` makes of a text.
pub uninterp spec fn lower_of(s: Seq<char>) -> Seq<char>;

/// What the `base64` crate's standard engine (with padding) makes of the
/// UTF-8 bytes of a text.
pub uninterp spec fn base64_of(s: Seq<char>) -> Seq<char>;

/// The value of an HTTP Basic `Authorization` header for user `riot`.
pub open spec fn auth_header_of(token: Seq<char>) -> Seq<char> {
    "Basic "@ + base64_of("riot:"@ + token)
}

proof fn lemma_split_nonempty(s: Seq<char>, d: char)
    ensures
        split_on(s, d).len() >= 1,
    decreases s.len(),
{
    if s.len() > 0 {
        lemma_split_nonempty(s.drop_last(), d);
    }
}

/// The views of a list of strings.
pub open spec fn views(v: Seq<String>) -> Seq<Seq<char>> {
    v.map_values(|f: String| f@)
}

/// A lockfile text of fewer than five fields yields no credential, whether
/// it is the one beside the client or the one at the default path.
pub proof fn lemma_short_lockfile_yields_nothing(s: Seq<char>, other: Option<Seq<char>>)
    requires
        split_on(s, ':').len() < 5,
    ensures
        lockfile_credential(s) is None,
        discovered(Some(s), None) is None,
        discovered(other, Some(s)) == (match other {
            Some(p) => lockfile_credential(p),
            None => None,
        }),
{
}

/// Splits `s` at every `:`.
pub fn split_fields(s: &str) -> (r: Vec<String>)
    ensures
        views(r@) == split_on(s@, ':'),
{
    let n = s.unicode_len();
    let mut fields: Vec<String> = Vec::new();
    let mut start: usize = 0;
    let mut i: usize = 0;
    assert(s@.subrange(0, 0) =~= Seq::<char>::empty());
    assert(views(fields@).push(s@.subrange(0, 0)) =~= seq![Seq::<char>::empty()]);
    while i < n
        invariant
            n == s@.len(),
            start <= i <= n,
            split_on(s@.subrange(0, i as int), ':') == views(fields@).push(
                s@.subrange(start as int, i as int),
            ),
        decreases n - i,
    {
        let c = s.get_char(i);
        let ghost before = s@.subrange(0, i as int);
        let ghost after = s@.subrange(0, i + 1);
        assert(after.drop_last() =~= before);
        assert(after.last() == c);
        if c == ':' {
            let piece = String::from_str(s.substring_char(start, i));
            let ghost prev = fields@;
            fields.push(piece);
            assert(views(fields@) =~= views(prev).push(s@.subrange(start as int, i as int)));
            start = i + 1;
            assert(s@.subrange(start as int, i + 1) =~= Seq::<char>::empty());
            assert(split_on(after, ':') =~= views(fields@).push(s@.subrange(start as int, i + 1)));
        } else {
            assert(s@.subrange(start as int, i + 1) =~= s@.subrange(start as int, i as int).push(c));
            assert(split_on(after, ':') =~= views(fields@).push(s@.subrange(start as int, i + 1)));
        }
        i = i + 1;
    }
    let last = String::from_str(s.substring_char(start, n));
    let ghost prev = fields@;
    fields.push(last);
    assert(s@.subrange(0, n as int) =~= s@);
    assert(views(fields@) =~= views(prev).push(s@.subrange(start as int, n as int)));
    fields
}

/// Relies on `str::to_lowercase`: the result depends on the characters alone.
#[verifier::external_body]
fn lowercase(s: &str) -> (r: String)
    ensures
        r@ == lower_of(s@),
{
    s.to_lowercase()
}

/// Relies on `base64::engine::general_purpose::STANDARD.encode`: the padded
/// standard encoding of the text's UTF-8 bytes.
#[verifier::external_body]
fn encode_base64(s: &str) -> (r: String)
    ensures
        r@ == base64_of(s@),
{
    base64::engine::general_purpose::STANDARD.encode(s)
}

/// Reads the port (third field) and token (fourth field) out of a lockfile's text.
pub fn parse_lockfile(contents: &str) -> (r: Option<LcuInfo>)
    ensures
        info_view(r) == lockfile_credential(contents@),
        split_on(contents@, ':').len() < 5 ==> r is None,
{
    let fields = split_fields(contents);
    proof {
        lemma_split_nonempty(contents@, ':');
    }
    if fields.len() < 5 {
        return None;
    }
    assert(fields[2]@ == views(fields@)[2]);
    assert(fields[3]@ == views(fields@)[3]);
    if fields[2].as_str().unicode_len() == 0 || fields[3].as_str().unicode_len() == 0 {
        return None;
    }
    let port = fields[2].clone();
    let token = fields[3].clone();
    Some(LcuInfo { port, token })
}

/// The credential of the first lockfile text that yields one: the one found
/// beside the running client, else the one at the default install path.
pub fn discover(primary: Option<String>, fallback: Option<String>) -> (r: Option<LcuInfo>)
    ensures
        info_view(r) == discovered(text_view(primary), text_view(fallback)),
{
    if let Some(p) = primary {
        let found = parse_lockfile(p.as_str());
        if found.is_some() {
            return found;
        }
    }
    match fallback {
        Some(f) => parse_lockfile(f.as_str()),
        None => None,
    }
}

/// The connection to the running client, or `NotFound` when neither
/// lockfile text yields a credential.
pub fn get_lcu_connection(primary: Option<String>, fallback: Option<String>) -> (r: Result<
    LcuInfo,
    LcuError,
>)
    ensures
        match discovered(text_view(primary), text_view(fallback)) {
            Some(c) => r matches Ok(info) && info@ == c,
            None => r matches Err(LcuError::NotFound),
        },
{
    match discover(primary, fallback) {
        Some(info) => Ok(info),
        None => Err(LcuError::NotFound),
    }
}

/// Whether a process name is one of the client's executables, in any case.
pub fn is_client_process_name(name: &str) -> (r: bool)
    ensures
        r == is_client_name(lower_of(name@)),
{
    let lower = lowercase(name);
    text_eq(lower.as_str(), "leagueclientux.exe") || text_eq(lower.as_str(), "leagueclient.exe")
}

/// The position of the first process name that is the client's.
pub fn find_client_process(names: &Vec<String>) -> (r: Option<usize>)
    ensures
        match r {
            Some(i) => i < names@.len() && is_client_name(lower_of(names@[i as int]@)) && forall|
                j: int,
            | 0 <= j < i ==> !is_client_name(lower_of(#[trigger] names@[j]@)),
            None => forall|j: int|
                0 <= j < names@.len() ==> !is_client_name(lower_of(#[trigger] names@[j]@)),
        },
{
    let mut i: usize = 0;
    while i < names.len()
        invariant
            i <= names@.len(),
            forall|j: int| 0 <= j < i ==> !is_client_name(lower_of(#[trigger] names@[j]@)),
        decreases names@.len() - i,
    {
        if is_client_process_name(names[i].as_str()) {
            return Some(i);
        }
        i = i + 1;
    }
    None
}

/// The HTTP Basic `Authorization` value for user `riot` and the given token.
pub fn get_auth_header(token: &str) -> (r: String)
    ensures
        r@ == auth_header_of(token@),
{
    let mut credentials = String::from_str("riot:");
    credentials.append(token);
    let encoded = encode_base64(credentials.as_str());
    let mut header = String::from_str("Basic ");
    header.append(encoded.as_str());
    header
}

} // verus!
