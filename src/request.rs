//! Building request URLs for an OAI-PMH repository.
use vstd::prelude::*;
use vstd::string::*;

verus! {

/// Names what `urlencoding::encode` makes of a text: every byte of its UTF-8
/// form is percent-encoded except ASCII alphanumerics and `-`, `_`, `.`, `~`.
pub uninterp spec fn percent_encoded(s: Seq<char>) -> Seq<char>;

/// Names whether `iri_string` accepts a text as an IRI.
pub uninterp spec fn is_iri(s: Seq<char>) -> bool;

/// A character that survives percent-encoding unchanged, or the `%` that
/// introduces an escaped byte.
pub open spec fn is_encoded_char(c: char) -> bool {
    ('a' <= c && c <= 'z') || ('A' <= c && c <= 'Z') || ('0' <= c && c <= '9') || c == '-'
        || c == '_' || c == '.' || c == '~' || c == '%'
}

/// A character that percent-encoding leaves as it is: an ASCII letter or
/// digit, or one of `-`, `_`, `.`, `~`.
pub open spec fn is_unreserved(c: char) -> bool {
    ('a' <= c && c <= 'z') || ('A' <= c && c <= 'Z') || ('0' <= c && c <= '9') || c == '-'
        || c == '_' || c == '.' || c == '~'
}

/// Every character of the text is produced by percent-encoding.
pub open spec fn all_encoded_chars(s: Seq<char>) -> bool {
    forall|i: int| 0 <= i < s.len() ==> is_encoded_char(#[trigger] s[i])
}

/// Relies on `urlencoding::encode`, which escapes every byte but the unreserved
/// characters, writing an escaped byte as `%` and two hexadecimal digits, and
/// hands back a text of unreserved characters as it is.
#[verifier::external_body]
fn encode_component(s: &str) -> (r: String)
    ensures
        r@ == percent_encoded(s@),
        all_encoded_chars(r@),
        (forall|i: int| 0 <= i < s@.len() ==> is_unreserved(#[trigger] s@[i])) ==> r@ == s@,
{
    urlencoding::encode(s).into_owned()
}

/// Relies on `iri_string::types::IriStr::new`, which validates a text against
/// the IRI grammar of RFC 3987.
#[verifier::external_body]
fn check_iri(s: &str) -> (r: bool)
    ensures
        r == is_iri(s@),
{
    iri_string::types::IriStr::new(s).is_ok()
}

/// What a harvest asks the repository for. Created once and never changed;
/// a restart builds a copy with another `from` date.
#[derive(Clone, Debug)]
pub struct HarvestSpec {
    /// The repository's base URL, without a query.
    pub repository: String,
    pub metadata_prefix: String,
    pub set: Option<String>,
    pub from: Option<String>,
    pub until: Option<String>,
}

/// The mathematical model of a `HarvestSpec`.
pub struct SpecModel {
    pub repository: Seq<char>,
    pub metadata_prefix: Seq<char>,
    pub set: Option<Seq<char>>,
    pub from: Option<Seq<char>>,
    pub until: Option<Seq<char>>,
}

/// The view of an optional text.
pub open spec fn opt_view(o: Option<String>) -> Option<Seq<char>> {
    match o {
        Some(s) => Some(s@),
        None => None,
    }
}

impl View for HarvestSpec {
    type V = SpecModel;

    open spec fn view(&self) -> SpecModel {
        SpecModel {
            repository: self.repository@,
            metadata_prefix: self.metadata_prefix@,
            set: opt_view(self.set),
            from: opt_view(self.from),
            until: opt_view(self.until),
        }
    }
}

/// A query parameter: its name and its value.
pub type Param = (Seq<char>, Seq<char>);

/// `name=value`.
pub open spec fn param_text(p: Param) -> Seq<char> {
    p.0 + "="@ + p.1
}

/// The parameters joined with `&`, in order.
#[verifier::opaque]
pub open spec fn query_text(ps: Seq<Param>) -> Seq<char>
    decreases ps.len(),
{
    if ps.len() == 0 {
        Seq::empty()
    } else if ps.len() == 1 {
        param_text(ps[0])
    } else {
        query_text(ps.drop_last()) + "&"@ + param_text(ps.last())
    }
}

/// A base URL followed by a query.
pub open spec fn url_text(base: Seq<char>, ps: Seq<Param>) -> Seq<char> {
    base + "?"@ + query_text(ps)
}

/// An optional value that is given and not empty; an empty value counts as
/// absent.
pub open spec fn is_present(value: Option<Seq<char>>) -> bool {
    value matches Some(v) && v.len() > 0
}

/// One parameter if the value is present, none otherwise.
pub open spec fn optional_param(name: Seq<char>, value: Option<Seq<char>>) -> Seq<Param> {
    if is_present(value) {
        seq![(name, value->Some_0)]
    } else {
        Seq::empty()
    }
}

/// The parameters of a ListRecords request: the resumption token alone once
/// paging has begun, else the prefix and the optional set, from and until.
pub open spec fn list_records_params(spec: SpecModel, token: Option<Seq<char>>) -> Seq<Param> {
    match token {
        Some(t) => seq![("verb"@, "ListRecords"@), ("resumptionToken"@, percent_encoded(t))],
        None => seq![("verb"@, "ListRecords"@), ("metadataPrefix"@, spec.metadata_prefix)]
            + optional_param("set"@, spec.set) + optional_param("from"@, spec.from)
            + optional_param("until"@, spec.until),
    }
}

/// The URL of a ListRecords request.
pub open spec fn list_records_url(spec: SpecModel, token: Option<Seq<char>>) -> Seq<char> {
    url_text(spec.repository, list_records_params(spec, token))
}

/// The names of a sequence of parameters, in order.
pub open spec fn param_names(ps: Seq<Param>) -> Seq<Seq<char>> {
    ps.map_values(|p: Param| p.0)
}

/// Why a request could not be built.
#[derive(Clone, Copy, Debug, PartialEq, Eq, Structural)]
pub enum ConfigError {
    /// The repository's base URL is not a valid IRI.
    InvalidRepository,
}

proof fn lemma_query_push(ps: Seq<Param>, p: Param)
    requires
        ps.len() >= 1,
    ensures
        query_text(ps.push(p)) == query_text(ps) + "&"@ + param_text(p),
{
    reveal(query_text);
    assert(ps.push(p).drop_last() =~= ps);
}

/// Appends `&name=value` to a URL under construction.
fn push_param(url: &mut String, name: &str, value: &str, ps: Ghost<Seq<Param>>, base: Ghost<Seq<char>>)
    requires
        ps@.len() >= 1,
        old(url)@ == url_text(base@, ps@),
    ensures
        final(url)@ == url_text(base@, ps@.push((name@, value@))),
{
    proof {
        lemma_query_push(ps@, (name@, value@));
        reveal_strlit("&");
        reveal_strlit("=");
    }
    url.append("&");
    url.append(name);
    url.append("=");
    url.append(value);
    assert(url@ =~= url_text(base@, ps@.push((name@, value@))));
}


/// The view of an optional borrowed text.
pub open spec fn opt_str_view(o: Option<&str>) -> Option<Seq<char>> {
    match o {
        Some(s) => Some(s@),
        None => None,
    }
}

/// The single parameter `verb=<verb>`.
pub open spec fn verb_params(verb: Seq<char>) -> Seq<Param> {
    seq![("verb"@, verb)]
}

/// Starts a URL: the base and the `verb` parameter.
fn start_url(base: &str, verb: &str) -> (r: String)
    ensures
        r@ == url_text(base@, verb_params(verb@)),
{
    proof {
        reveal_strlit("?verb=");
        reveal_strlit("?");
        reveal_strlit("verb");
        reveal_strlit("=");
    }
    let mut url = String::from_str(base);
    url.append("?verb=");
    url.append(verb);
    reveal(query_text);
    assert(query_text(verb_params(verb@)) =~= "verb"@ + "="@ + verb@);
    assert(url@ =~= url_text(base@, verb_params(verb@)));
    url
}

/// Checks that a repository's base URL is a valid IRI, as every request to
/// it needs.
pub fn validate_repository(repository: &str) -> (r: Result<(), ConfigError>)
    ensures
        r is Ok <==> is_iri(repository@),
        r matches Err(e) ==> e == ConfigError::InvalidRepository,
{
    if check_iri(repository) {
        Ok(())
    } else {
        Err(ConfigError::InvalidRepository)
    }
}

/// Builds the URL of a ListRecords request. With a resumption token the
/// query holds the verb and the percent-encoded token alone, and the encoded
/// token holds only unreserved characters and `%` escapes; without one it
/// holds the metadata prefix, then the set, from and until values that are
/// present and not empty, in that order and unescaped. A token made only of
/// unreserved characters is sent as it is.
pub fn build_url(spec: &HarvestSpec, resumption_token: Option<&str>) -> (r: String)
    ensures
        r@ == list_records_url(spec@, opt_str_view(resumption_token)),
        resumption_token matches Some(t) ==> all_encoded_chars(percent_encoded(t@)),
        resumption_token matches Some(t) ==> ((forall|i: int|
            0 <= i < t@.len() ==> is_unreserved(#[trigger] t@[i])) ==> percent_encoded(t@) == t@),
{
    let ghost base = spec.repository@;
    let mut url = start_url(spec.repository.as_str(), "ListRecords");
    let ghost mut ps = verb_params("ListRecords"@);
    match resumption_token {
        Some(token) => {
            let encoded = encode_component(token);
            push_param(&mut url, "resumptionToken", encoded.as_str(), Ghost(ps), Ghost(base));
            proof {
                ps = ps.push(("resumptionToken"@, encoded@));
            }
        },
        None => {
            push_param(&mut url, "metadataPrefix", spec.metadata_prefix.as_str(), Ghost(ps), Ghost(base));
            proof {
                ps = ps.push(("metadataPrefix"@, spec.metadata_prefix@));
            }
            if let Some(set) = &spec.set {
                if !set.as_str().is_empty() {
                    push_param(&mut url, "set", set.as_str(), Ghost(ps), Ghost(base));
                    proof {
                        ps = ps.push(("set"@, set@));
                    }
                }
            }
            if let Some(from) = &spec.from {
                if !from.as_str().is_empty() {
                    push_param(&mut url, "from", from.as_str(), Ghost(ps), Ghost(base));
                    proof {
                        ps = ps.push(("from"@, from@));
                    }
                }
            }
            if let Some(until) = &spec.until {
                if !until.as_str().is_empty() {
                    push_param(&mut url, "until", until.as_str(), Ghost(ps), Ghost(base));
                    proof {
                        ps = ps.push(("until"@, until@));
                    }
                }
            }
        },
    }
    assert(ps =~= list_records_params(spec@, opt_str_view(resumption_token)));
    url
}

/// The URL of a ListMetadataFormats request.
pub fn formats_url(repository: &str) -> (r: String)
    ensures
        r@ == url_text(repository@, verb_params("ListMetadataFormats"@)),
{
    start_url(repository, "ListMetadataFormats")
}

/// The URL of a ListSets request.
pub fn sets_url(repository: &str) -> (r: String)
    ensures
        r@ == url_text(repository@, verb_params("ListSets"@)),
{
    start_url(repository, "ListSets")
}

/// The name, if the value is present.
pub open spec fn optional_name(name: Seq<char>, value: Option<Seq<char>>) -> Seq<Seq<char>> {
    if is_present(value) {
        seq![name]
    } else {
        Seq::empty()
    }
}

proof fn lemma_names_distinct()
    ensures
        "verb"@ != "metadataPrefix"@,
        "verb"@ != "resumptionToken"@,
        "verb"@ != "set"@,
        "verb"@ != "from"@,
        "verb"@ != "until"@,
        "metadataPrefix"@ != "resumptionToken"@,
        "metadataPrefix"@ != "set"@,
        "metadataPrefix"@ != "from"@,
        "metadataPrefix"@ != "until"@,
        "resumptionToken"@ != "set"@,
        "resumptionToken"@ != "from"@,
        "resumptionToken"@ != "until"@,
        "set"@ != "from"@,
        "set"@ != "until"@,
        "from"@ != "until"@,
{
    reveal_strlit("verb");
    reveal_strlit("metadataPrefix");
    reveal_strlit("resumptionToken");
    reveal_strlit("set");
    reveal_strlit("from");
    reveal_strlit("until");
    assert("verb"@[0] != "metadataPrefix"@[0]);
    assert("verb"@[0] != "resumptionToken"@[0]);
    assert("verb"@[0] != "set"@[0]);
    assert("verb"@[0] != "from"@[0]);
    assert("verb"@[0] != "until"@[0]);
    assert("metadataPrefix"@[0] != "resumptionToken"@[0]);
    assert("resumptionToken"@[0] != "set"@[0]);
    assert("resumptionToken"@[0] != "from"@[0]);
    assert("resumptionToken"@[0] != "until"@[0]);
    assert("set"@[0] != "from"@[0]);
    assert("set"@[0] != "until"@[0]);
    assert("from"@[0] != "until"@[0]);
}

/// Once paging has begun, a request carries the resumption token and none of
/// the parameters of the first page: its parameters are exactly the verb and
/// the token, so it names `resumptionToken` and never `metadataPrefix`.
pub proof fn lemma_token_request_params(spec: SpecModel, token: Seq<char>)
    ensures
        param_names(list_records_params(spec, Some(token))) == seq!["verb"@, "resumptionToken"@],
        param_names(list_records_params(spec, Some(token))).contains("resumptionToken"@),
        !param_names(list_records_params(spec, Some(token))).contains("metadataPrefix"@),
{
    lemma_names_distinct();
    let names = param_names(list_records_params(spec, Some(token)));
    assert(names =~= seq!["verb"@, "resumptionToken"@]);
    assert(names[1] == "resumptionToken"@);
}

/// The first request names its parameters in the order verb, metadataPrefix,
/// set, from, until, and names an optional one exactly when its value is
/// given and not empty; it never names `resumptionToken`.
pub proof fn lemma_first_request_params(spec: SpecModel)
    ensures
        param_names(list_records_params(spec, None)) == seq!["verb"@, "metadataPrefix"@]
            + optional_name("set"@, spec.set) + optional_name("from"@, spec.from)
            + optional_name("until"@, spec.until),
        param_names(list_records_params(spec, None)).contains("set"@) <==> is_present(spec.set),
        param_names(list_records_params(spec, None)).contains("from"@) <==> is_present(spec.from),
        param_names(list_records_params(spec, None)).contains("until"@) <==> is_present(spec.until),
        !param_names(list_records_params(spec, None)).contains("resumptionToken"@),
{
    lemma_names_distinct();
    let names = param_names(list_records_params(spec, None));
    let expected = seq!["verb"@, "metadataPrefix"@] + optional_name("set"@, spec.set)
        + optional_name("from"@, spec.from) + optional_name("until"@, spec.until);
    assert(names =~= expected);
    if is_present(spec.set) {
        assert(names[2] == "set"@);
    }
    if is_present(spec.from) {
        let i = if is_present(spec.set) { 3int } else { 2int };
        assert(names[i] == "from"@);
    }
    if is_present(spec.until) {
        assert(names[names.len() - 1] == "until"@);
    }
}

/// `{key}{value}` if the value is present, nothing otherwise.
pub open spec fn optional_piece(key: Seq<char>, value: Option<Seq<char>>) -> Seq<char> {
    if is_present(value) {
        key + value->Some_0
    } else {
        Seq::empty()
    }
}

proof fn lemma_push_optional(ps: Seq<Param>, name: Seq<char>, value: Option<Seq<char>>)
    requires
        ps.len() >= 1,
    ensures
        (ps + optional_param(name, value)).len() >= 1,
        query_text(ps + optional_param(name, value)) == query_text(ps) + optional_piece(
            "&"@ + name + "="@,
            value,
        ),
{
    if is_present(value) {
        let v = value->Some_0;
        assert(ps + optional_param(name, value) =~= ps.push((name, v)));
        lemma_query_push(ps, (name, v));
        assert(query_text(ps) + "&"@ + param_text((name, v)) =~= query_text(ps) + optional_piece(
            "&"@ + name + "="@,
            value,
        ));
    } else {
        assert(ps + optional_param(name, value) =~= ps);
        assert(query_text(ps) =~= query_text(ps) + optional_piece("&"@ + name + "="@, value));
    }
}

/// The URL of a request that carries a resumption token is the base, then
/// `?verb=ListRecords&resumptionToken=` and the encoded token, and nothing
/// else.
pub proof fn lemma_token_url_text(spec: SpecModel, token: Seq<char>)
    ensures
        list_records_url(spec, Some(token)) == spec.repository + "?verb=ListRecords&resumptionToken="@
            + percent_encoded(token),
{
    reveal_strlit("?verb=ListRecords&resumptionToken=");
    reveal_strlit("?");
    reveal_strlit("&");
    reveal_strlit("=");
    reveal_strlit("verb");
    reveal_strlit("ListRecords");
    reveal_strlit("resumptionToken");
    let ps = list_records_params(spec, Some(token));
    reveal(query_text);
    assert(ps.drop_last() =~= seq![("verb"@, "ListRecords"@)]);
    assert(query_text(ps.drop_last()) == param_text(("verb"@, "ListRecords"@)));
    assert(ps.last() == ("resumptionToken"@, percent_encoded(token)));
    assert(query_text(ps) == query_text(ps.drop_last()) + "&"@ + param_text(ps.last()));
    assert(query_text(ps) =~= "verb"@ + "="@ + "ListRecords"@ + "&"@ + "resumptionToken"@ + "="@
        + percent_encoded(token));
    assert(list_records_url(spec, Some(token)) =~= spec.repository
        + "?verb=ListRecords&resumptionToken="@ + percent_encoded(token));
}

/// A percent-encoded text holds no `&`, `=` or `?`, so an encoded token can
/// neither end its parameter nor start another.
pub proof fn lemma_encoded_has_no_separators(e: Seq<char>)
    requires
        all_encoded_chars(e),
    ensures
        !e.contains('&'),
        !e.contains('='),
        !e.contains('?'),
{
    assert forall|i: int| 0 <= i < e.len() implies e[i] != '&' && e[i] != '=' && e[i] != '?' by {
        assert(is_encoded_char(e[i]));
    }
}

proof fn lemma_first_url_literals()
    ensures
        "?"@ + ("verb"@ + "="@ + "ListRecords"@) + "&"@ + ("metadataPrefix"@ + "="@)
            == "?verb=ListRecords&metadataPrefix="@,
        "&"@ + "set"@ + "="@ == "&set="@,
        "&"@ + "from"@ + "="@ == "&from="@,
        "&"@ + "until"@ + "="@ == "&until="@,
{
    reveal_strlit("?verb=ListRecords&metadataPrefix=");
    reveal_strlit("?");
    reveal_strlit("&");
    reveal_strlit("=");
    reveal_strlit("verb");
    reveal_strlit("ListRecords");
    reveal_strlit("metadataPrefix");
    reveal_strlit("&set=");
    reveal_strlit("&from=");
    reveal_strlit("&until=");
    reveal_strlit("set");
    reveal_strlit("from");
    reveal_strlit("until");
    assert("?"@ + ("verb"@ + "="@ + "ListRecords"@) + "&"@ + ("metadataPrefix"@ + "="@)
        =~= "?verb=ListRecords&metadataPrefix="@);
    assert("&"@ + "set"@ + "="@ =~= "&set="@);
    assert("&"@ + "from"@ + "="@ =~= "&from="@);
    assert("&"@ + "until"@ + "="@ =~= "&until="@);
}

/// The URL of a first request is the base, then
/// `?verb=ListRecords&metadataPrefix=` and the prefix, then `&set=`,
/// `&from=` and `&until=` with their values, each only where the value is
/// given and not empty, in that order.
#[verifier::rlimit(60)]
pub proof fn lemma_first_url_text(spec: SpecModel)
    ensures
        list_records_url(spec, None) == spec.repository + "?verb=ListRecords&metadataPrefix="@
            + spec.metadata_prefix + optional_piece("&set="@, spec.set) + optional_piece(
            "&from="@,
            spec.from,
        ) + optional_piece("&until="@, spec.until),
{
    lemma_first_url_literals();
    let p1 = verb_params("ListRecords"@);
    let q1 = query_text(p1);
    assert(q1 == "verb"@ + "="@ + "ListRecords"@) by {
        reveal(query_text);
    }
    let p2 = p1.push(("metadataPrefix"@, spec.metadata_prefix));
    lemma_query_push(p1, ("metadataPrefix"@, spec.metadata_prefix));
    let p3 = p2 + optional_param("set"@, spec.set);
    lemma_push_optional(p2, "set"@, spec.set);
    let p4 = p3 + optional_param("from"@, spec.from);
    lemma_push_optional(p3, "from"@, spec.from);
    let p5 = p4 + optional_param("until"@, spec.until);
    lemma_push_optional(p4, "until"@, spec.until);
    assert(p5 =~= list_records_params(spec, None));
    let head = "?verb=ListRecords&metadataPrefix="@;
    let a = optional_piece("&set="@, spec.set);
    let b = optional_piece("&from="@, spec.from);
    let c = optional_piece("&until="@, spec.until);
    let q2 = query_text(p2);
    let q3 = query_text(p3);
    let q4 = query_text(p4);
    let q5 = query_text(p5);
    assert(q2 == q1 + "&"@ + ("metadataPrefix"@ + "="@ + spec.metadata_prefix));
    assert("?"@ + q2 == head + spec.metadata_prefix) by {
        assert("?"@ + q2 =~= head + spec.metadata_prefix);
    }
    assert("?"@ + q3 == ("?"@ + q2) + a) by {
        assert("?"@ + q3 =~= ("?"@ + q2) + a);
    }
    assert("?"@ + q4 == ("?"@ + q3) + b) by {
        assert("?"@ + q4 =~= ("?"@ + q3) + b);
    }
    assert("?"@ + q5 == ("?"@ + q4) + c) by {
        assert("?"@ + q5 =~= ("?"@ + q4) + c);
    }
    assert(url_text(spec.repository, p5) =~= spec.repository + ("?"@ + q5));
    lemma_concat_regroup(spec.repository, head, spec.metadata_prefix, a, b, c);
}

proof fn lemma_concat_regroup(
    r: Seq<char>,
    h: Seq<char>,
    p: Seq<char>,
    a: Seq<char>,
    b: Seq<char>,
    c: Seq<char>,
)
    ensures
        r + ((((h + p) + a) + b) + c) == r + h + p + a + b + c,
{
    assert(r + ((((h + p) + a) + b) + c) =~= r + h + p + a + b + c);
}

} // verus!
