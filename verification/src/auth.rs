//! Reading credentials out of a request's headers, and building the identity
//! that an authentication hands back.

use crate::error::{VtxError, VtxResult};
use crate::json::{entries, json_text, new_object, object_insert, object_text, object_to_string, JsonObject};
use crate::text::{
    after_prefix_ignoring_case, ascii_lower, ascii_upper, lemma_lowercase_of_ascii_upper,
    lemma_lowercase_of_case_variants, lowercase, strip_prefix_ignoring_case, to_lowercase,
};
use vstd::prelude::*;
use vstd::string::StringExecFns;
use vstd::utf8::is_ascii_chars;

verus! {

/// A header list as contracts see it: names and values in order. A name may
/// occur more than once.
pub type Headers = Seq<(Seq<char>, Seq<char>)>;

/// The contents of a header list.
pub open spec fn pairs(headers: Seq<(String, String)>) -> Headers {
    Seq::new(headers.len(), |i: int| (headers[i].0@, headers[i].1@))
}

/// The value of the first header from position `from` on whose name equals
/// `key` without regard to case.
pub open spec fn lookup_from(headers: Headers, key: Seq<char>, from: int) -> Option<Seq<char>>
    decreases headers.len() - from,
{
    if from < 0 || from >= headers.len() {
        None
    } else if lowercase(headers[from].0) == lowercase(key) {
        Some(headers[from].1)
    } else {
        lookup_from(headers, key, from + 1)
    }
}

/// The value of the first header whose name equals `key` without regard to
/// case.
pub open spec fn lookup(headers: Headers, key: Seq<char>) -> Option<Seq<char>> {
    lookup_from(headers, key, 0)
}

/// The credentials that the `Authorization` header carries under `scheme`:
/// what follows the scheme, written in any case, and the blank after it.
/// Nothing is trimmed.
pub open spec fn credentials(headers: Headers, scheme: Seq<char>) -> Option<Seq<char>> {
    match lookup(headers, "Authorization"@) {
        Some(value) => after_prefix_ignoring_case(value, scheme),
        None => None,
    }
}

/// The contents of an optional string slice.
pub open spec fn text_of(found: Option<&str>) -> Option<Seq<char>> {
    match found {
        Some(s) => Some(s@),
        None => None,
    }
}

/// What a required lookup gives: the value found, or the one error that
/// stands for missing credentials.
pub open spec fn required(found: Option<Seq<char>>, r: VtxResult<&str>) -> bool {
    match r {
        Ok(v) => found == Some(v@),
        Err(e) => found is None && e == VtxError::AuthDenied(401),
    }
}

/// The status that stands for missing credentials.
pub const UNAUTHENTICATED: u16 = 401;

/// A view of a request's headers for reading credentials.
pub struct AuthRequest<'a> {
    headers: &'a [(String, String)],
}

impl<'a> View for AuthRequest<'a> {
    type V = Headers;

    closed spec fn view(&self) -> Headers {
        pairs(self.headers@)
    }
}

impl<'a> AuthRequest<'a> {
    /// Wraps a header list.
    pub fn new(headers: &'a [(String, String)]) -> (req: Self)
        ensures
            req@ == pairs(headers@),
    {
        AuthRequest { headers }
    }

    /// The value of the first header named `key`, in any case.
    pub fn header(&self, key: &str) -> (found: Option<&'a str>)
        ensures
            text_of(found) == lookup(self@, key@),
    {
        let search_key = to_lowercase(key);
        let mut i: usize = 0;
        while i < self.headers.len()
            invariant
                i <= self.headers@.len(),
                search_key@ == lowercase(key@),
                lookup(self@, key@) == lookup_from(self@, key@, i as int),
            decreases self.headers@.len() - i,
        {
            let name = to_lowercase(self.headers[i].0.as_str());
            if name == search_key {
                return Some(self.headers[i].1.as_str());
            }
            i = i + 1;
        }
        None
    }

    /// The value of the first header named `key`, in any case; where there
    /// is none, the error for missing credentials.
    pub fn require_header(&self, key: &str) -> (r: VtxResult<&'a str>)
        ensures
            required(lookup(self@, key@), r),
    {
        match self.header(key) {
            Some(value) => Ok(value),
            None => Err(VtxError::AuthDenied(UNAUTHENTICATED)),
        }
    }

    /// The token of an `Authorization: Bearer <token>` header, where the
    /// word `Bearer` may be written in any case.
    pub fn bearer_token(&self) -> (found: Option<&'a str>)
        ensures
            text_of(found) == credentials(self@, "Bearer "@),
    {
        match self.header("Authorization") {
            Some(value) => strip_prefix_ignoring_case(value, "Bearer "),
            None => None,
        }
    }

    /// The bearer token; where there is none, the error for missing
    /// credentials.
    pub fn require_bearer_token(&self) -> (r: VtxResult<&'a str>)
        ensures
            required(credentials(self@, "Bearer "@), r),
    {
        match self.bearer_token() {
            Some(token) => Ok(token),
            None => Err(VtxError::AuthDenied(UNAUTHENTICATED)),
        }
    }

    /// The credentials of an `Authorization: Basic <credentials>` header,
    /// where the word `Basic` may be written in any case.
    pub fn basic_auth(&self) -> (found: Option<&'a str>)
        ensures
            text_of(found) == credentials(self@, "Basic "@),
    {
        match self.header("Authorization") {
            Some(value) => strip_prefix_ignoring_case(value, "Basic "),
            None => None,
        }
    }
}

/// A lookup depends on the key only through its lower-case form.
pub proof fn lemma_lookup_from_ignores_case(headers: Headers, a: Seq<char>, b: Seq<char>, from: int)
    requires
        lowercase(a) == lowercase(b),
    ensures
        lookup_from(headers, a, from) == lookup_from(headers, b, from),
    decreases headers.len() - from,
{
    if 0 <= from < headers.len() && lowercase(headers[from].0) != lowercase(a) {
        lemma_lookup_from_ignores_case(headers, a, b, from + 1);
    }
}

/// Header names are matched without regard to case: two keys with the same
/// lower-case form find the same value in every header list.
pub proof fn lemma_header_ignores_case(headers: Headers, a: Seq<char>, b: Seq<char>)
    requires
        lowercase(a) == lowercase(b),
    ensures
        lookup(headers, a) == lookup(headers, b),
{
    lemma_lookup_from_ignores_case(headers, a, b, 0);
}

/// Nothing else is ignored: two keys whose lower-case forms differ are told
/// apart by some header list.
pub proof fn lemma_header_tells_other_keys_apart(a: Seq<char>, b: Seq<char>)
    requires
        lowercase(a) != lowercase(b),
    ensures
        exists|headers: Headers| lookup(headers, a) != lookup(headers, b),
{
    let headers: Headers = seq![(a, Seq::<char>::empty())];
    assert(lookup_from(headers, b, 1) is None);
    assert(lookup(headers, a) is Some);
    assert(lookup(headers, b) is None);
}

/// Any respelling of an ASCII header name in other letter cases finds the
/// same value as the name itself.
pub proof fn lemma_header_case_variants(headers: Headers, name: Seq<char>, variant: Seq<char>)
    requires
        is_ascii_chars(name),
        is_ascii_chars(variant),
        ascii_lower(name) == ascii_lower(variant),
    ensures
        lookup(headers, variant) == lookup(headers, name),
{
    lemma_lowercase_of_case_variants(name, variant);
    lemma_header_ignores_case(headers, variant, name);
}

/// An ASCII header name written in upper case finds the same value as the
/// name itself.
pub proof fn lemma_header_upper_case(headers: Headers, name: Seq<char>)
    requires
        is_ascii_chars(name),
    ensures
        lookup(headers, ascii_upper(name)) == lookup(headers, name),
{
    lemma_lowercase_of_ascii_upper(name);
    lemma_header_ignores_case(headers, ascii_upper(name), name);
}

/// The first match wins: a lookup gives the value at position `i` exactly
/// when the name there matches and no name before it does.
pub proof fn lemma_lookup_finds_first(headers: Headers, key: Seq<char>, i: int)
    requires
        0 <= i < headers.len(),
        lowercase(headers[i].0) == lowercase(key),
        forall|j: int| 0 <= j < i ==> lowercase(#[trigger] headers[j].0) != lowercase(key),
    ensures
        lookup(headers, key) == Some(headers[i].1),
{
    lemma_lookup_skips(headers, key, 0, i);
}

/// A lookup passes over headers whose names do not match.
proof fn lemma_lookup_skips(headers: Headers, key: Seq<char>, from: int, to: int)
    requires
        0 <= from <= to <= headers.len(),
        forall|j: int| from <= j < to ==> lowercase(#[trigger] headers[j].0) != lowercase(key),
    ensures
        lookup_from(headers, key, from) == lookup_from(headers, key, to),
    decreases to - from,
{
    if from < to {
        lemma_lookup_skips(headers, key, from + 1, to);
    }
}

/// A lookup finds nothing exactly when no name matches.
pub proof fn lemma_lookup_none(headers: Headers, key: Seq<char>)
    ensures
        lookup(headers, key) is None <==> forall|j: int|
            0 <= j < headers.len() ==> lowercase(#[trigger] headers[j].0) != lowercase(key),
{
    lemma_lookup_none_from(headers, key, 0);
}

proof fn lemma_lookup_none_from(headers: Headers, key: Seq<char>, from: int)
    requires
        0 <= from,
    ensures
        lookup_from(headers, key, from) is None <==> forall|j: int|
            from <= j < headers.len() ==> lowercase(#[trigger] headers[j].0) != lowercase(key),
    decreases headers.len() - from,
{
    if from < headers.len() {
        lemma_lookup_none_from(headers, key, from + 1);
        if lowercase(headers[from].0) == lowercase(key) {
            assert(lookup_from(headers, key, from) is Some);
        }
    }
}

/// A request without headers carries no credentials, whatever the scheme.
pub proof fn lemma_no_headers_no_credentials(scheme: Seq<char>)
    ensures
        credentials(Seq::empty(), scheme) is None,
{
}

/// The identity that a successful authentication hands to the host.
pub struct UserContext {
    pub user_id: String,
    pub username: String,
    pub groups: Vec<String>,
    /// A JSON object, as text.
    pub metadata: String,
}

/// The contents of a list of strings.
pub open spec fn texts(strings: Seq<String>) -> Seq<Seq<char>> {
    Seq::new(strings.len(), |i: int| strings[i]@)
}

/// What a builder has been given so far.
pub struct Identity {
    pub user_id: Seq<char>,
    pub username: Seq<char>,
    pub groups: Seq<Seq<char>>,
    /// For each metadata key, the JSON text of its value.
    pub metadata: Map<Seq<char>, Seq<char>>,
}

/// Builds a `UserContext` step by step.
pub struct UserBuilder {
    user_id: String,
    username: String,
    groups: Vec<String>,
    metadata: JsonObject,
}

impl View for UserBuilder {
    type V = Identity;

    closed spec fn view(&self) -> Identity {
        Identity {
            user_id: self.user_id@,
            username: self.username@,
            groups: texts(self.groups@),
            metadata: entries(self.metadata),
        }
    }
}

/// The text of a JSON object without entries.
pub open spec fn empty_object_text() -> Seq<char> {
    "{}"@
}

/// The metadata text of an identity with the given metadata fields: their
/// JSON text, or the empty object where they could not be serialized.
pub open spec fn finished_metadata(metadata: Map<Seq<char>, Seq<char>>) -> Seq<char> {
    match object_text(metadata) {
        Some(text) => text,
        None => empty_object_text(),
    }
}

/// The metadata text that a finished identity carries: the serialized
/// metadata, or the empty object where serializing failed.
pub open spec fn metadata_text(serialized: Result<String, serde_json::Error>) -> Seq<char> {
    match serialized {
        Ok(text) => text@,
        Err(_) => empty_object_text(),
    }
}

impl UserBuilder {
    /// A builder for the user with the given id and name, in no group and
    /// without metadata.
    pub fn new(id: &str, name: &str) -> (builder: Self)
        ensures
            builder@ == (Identity {
                user_id: id@,
                username: name@,
                groups: Seq::empty(),
                metadata: Map::empty(),
            }),
    {
        let builder = UserBuilder {
            user_id: String::from_str(id),
            username: String::from_str(name),
            groups: Vec::new(),
            metadata: new_object(),
        };
        assert(texts(builder.groups@) =~= Seq::<Seq<char>>::empty());
        builder
    }

    /// Adds a group after those already given.
    pub fn group(self, group: &str) -> (builder: Self)
        ensures
            builder@ == (Identity { groups: self@.groups.push(group@), ..self@ }),
    {
        let mut builder = self;
        builder.groups.push(String::from_str(group));
        assert(texts(builder.groups@) =~= texts(self.groups@).push(group@));
        builder
    }

    /// Sets a metadata field to a value that was converted to JSON. Where
    /// the conversion failed, the field is left out and nothing else
    /// happens: the builder stays as it was.
    pub fn meta(self, key: &str, value: Result<serde_json::Value, serde_json::Error>) -> (builder:
        Self)
        ensures
            match value {
                Ok(v) => builder@ == (Identity {
                    metadata: self@.metadata.insert(key@, json_text(v)),
                    ..self@
                }),
                Err(_) => builder@ == self@,
            },
    {
        let mut builder = self;
        match value {
            Ok(v) => {
                object_insert(&mut builder.metadata, String::from_str(key), v);
            },
            Err(_) => {},
        }
        builder
    }

    /// Finishes the identity with metadata that was serialized beforehand.
    pub fn build_with(self, serialized: Result<String, serde_json::Error>) -> (ctx: UserContext)
        ensures
            ctx.user_id@ == self@.user_id,
            ctx.username@ == self@.username,
            texts(ctx.groups@) == self@.groups,
            ctx.metadata@ == metadata_text(serialized),
    {
        let metadata = match serialized {
            Ok(text) => text,
            Err(_) => String::from_str("{}"),
        };
        UserContext {
            user_id: self.user_id,
            username: self.username,
            groups: self.groups,
            metadata,
        }
    }

    /// Finishes the identity. Its metadata is the JSON text of the fields
    /// set, or `{}` where they could not be serialized.
    pub fn build(self) -> (ctx: UserContext)
        ensures
            ctx.user_id@ == self@.user_id,
            ctx.username@ == self@.username,
            texts(ctx.groups@) == self@.groups,
            ctx.metadata@ == finished_metadata(self@.metadata),
    {
        let serialized = object_to_string(&self.metadata);
        self.build_with(serialized)
    }
}

/// Lowers the result of an authentication to what crosses the boundary.
pub trait IntoAuthResult {
    /// The identity, or the bare status that stands for the error.
    spec fn lowered(self) -> Result<UserContext, u16>;

    /// Keeps the identity and replaces an error by its status.
    fn into_auth_result(self) -> (r: Result<UserContext, u16>)
        ensures
            r == self.lowered(),
    ;
}

impl IntoAuthResult for VtxResult<UserContext> {
    open spec fn lowered(self) -> Result<UserContext, u16> {
        match self {
            Ok(ctx) => Ok(ctx),
            Err(e) => Err(e.status()),
        }
    }

    fn into_auth_result(self) -> (r: Result<UserContext, u16>) {
        match self {
            Ok(ctx) => Ok(ctx),
            Err(e) => Err(e.status_code()),
        }
    }
}

/// Membership in a list of groups.
pub open spec fn has_group(groups: Seq<Seq<char>>, group: Seq<char>) -> bool {
    exists|i: int| 0 <= i < groups.len() && groups[i] == group
}

/// Whether `group` is one of `groups`, by a scan from the front.
pub fn in_groups(groups: &Vec<String>, group: &str) -> (found: bool)
    ensures
        found == has_group(texts(groups@), group@),
{
    let wanted = String::from_str(group);
    let mut i: usize = 0;
    while i < groups.len()
        invariant
            i <= groups@.len(),
            wanted@ == group@,
            forall|j: int| 0 <= j < i ==> texts(groups@)[j] != group@,
        decreases groups@.len() - i,
    {
        if groups[i] == wanted {
            assert(texts(groups@)[i as int] == group@);
            return true;
        }
        i = i + 1;
    }
    false
}

} // verus!
