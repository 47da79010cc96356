//! The marketplace lookup: request building, response decoding, and
//! the enrichment of key records.
//!
//! The marketplace's search endpoint and key are scraped from its
//! bootstrap script; a search request carries one form-encoded query;
//! the response's first hit, when there is one, gives a page, a user
//! score and a price. A record of the marketplace-tracked platform
//! gets all three fields set as a unit; a lookup without a match
//! leaves the record unchanged, and records of other platforms are
//! never looked up at all.

use vstd::prelude::*;
use vstd::string::StringExecFns;
use crate::json::{DecodeError, JsonValue, json_doc, json_key};
use crate::json::{obj_field, parse_json};
use crate::pipeline::KeyRecord;

verus! {

/// The marketplace search service: its application identifier, query
/// endpoint, and API key.
#[derive(Debug, Clone, PartialEq)]
pub struct SteamDB {
    pub id: String,
    pub url: String,
    pub api_key: String,
}

/// The body of one search request.
#[derive(Debug, Clone, PartialEq)]
pub struct SearchBody {
    pub requests: Vec<SearchBodyInner>,
}

/// One search of a request body: an index name and the form-encoded
/// parameters.
#[derive(Debug, Clone, PartialEq)]
pub struct SearchBodyInner {
    pub index_name: String,
    pub params: String,
}

/// The first hit of a search response, as reported: the score and the
/// price are carried as decimal text, which the library never
/// computes with.
#[derive(Debug, Clone, PartialEq)]
pub struct SearchOutputInnerHit {
    pub price_us: String,
    pub user_score: Option<String>,
    pub object_id: String,
}

/// One marketplace match: the page of the object that was hit, and
/// its score and price as reported.
#[derive(Debug, Clone, PartialEq)]
pub struct SearchResult {
    pub url: String,
    pub user_score: Option<String>,
    pub price_us: String,
}

/// What the bootstrap script of a given page yields: the application
/// identifier and API key it calls the search library with, a
/// function of the page text alone.
pub uninterp spec fn algolia_creds(page: Seq<char>) -> Option<(Seq<char>, Seq<char>)>;

/// Relies on `regex::Regex::captures` with the fixed pattern
/// `t=algoliasearch\("(.+)","(.+)"\);`: the two capture groups of the
/// first match in the page, if the page matches at all.
#[verifier::external_body]
fn algolia_credentials(page: &str) -> (r: Option<(String, String)>)
    ensures
        match r {
            Some(p) => algolia_creds(page@) == Some((p.0@, p.1@)),
            None => algolia_creds(page@) is None,
        },
{
    let re = match regex::Regex::new(r#"t=algoliasearch\("(.+)","(.+)"\);"#) {
        Ok(re) => re,
        Err(_) => {
            return None;
        },
    };
    let caps = re.captures(page)?;
    let id = caps.get(1)?.as_str().to_string();
    let key = caps.get(2)?.as_str().to_string();
    Some((id, key))
}

/// What form-encoding a list of name/value pairs yields, a function
/// of the pairs alone.
pub uninterp spec fn form_encoded(pairs: Seq<(Seq<char>, Seq<char>)>) -> Seq<char>;

/// Relies on `url::UrlQuery`'s `append_pair`: percent-encodes each
/// name/value pair and joins them as a query string.
#[verifier::external_body]
fn form_urlencode(pairs: &Vec<(String, String)>) -> (r: String)
    ensures
        r@ == form_encoded(pairs@.map_values(|p: (String, String)| (p.0@, p.1@))),
{
    let mut url = match url::Url::parse("https://example.net") {
        Ok(u) => u,
        Err(_) => {
            return String::new();
        },
    };
    let mut q = url.query_pairs_mut();
    q.clear();
    for p in pairs.iter() {
        q.append_pair(&p.0, &p.1);
    }
    q.finish().query().unwrap_or("").to_string()
}

impl SteamDB {
    /// The query endpoint that belongs to an application identifier.
    pub open spec fn spec_endpoint(id: Seq<char>) -> Seq<char> {
        "https://"@ + id + "-dsn.algolia.net/1/indexes/*/queries"@
    }

    /// Assembles the service from the scraped identifier and key.
    pub fn from_parts(id: String, api_key: String) -> (r: SteamDB)
        ensures
            r.id == id,
            r.api_key == api_key,
            r.url@ == SteamDB::spec_endpoint(id@),
    {
        let mut url: String = "https://".to_owned();
        url.append(id.as_str());
        url.append("-dsn.algolia.net/1/indexes/*/queries");
        SteamDB { id, url, api_key }
    }

    /// Reads the service's identifier and key out of its bootstrap
    /// script; a page without them yields nothing.
    pub fn from_page(page: &str) -> (r: Option<SteamDB>)
        ensures
            match algolia_creds(page@) {
                Some(c) => r matches Some(s) && s.id@ == c.0 && s.api_key@ == c.1 && s.url@
                    == SteamDB::spec_endpoint(c.0),
                None => r is None,
            },
    {
        match algolia_credentials(page) {
            Some(p) => Some(SteamDB::from_parts(p.0, p.1)),
            None => None,
        }
    }
}

/// The fixed name/value pairs of one search: page size, page, the
/// query itself, facet cap, and the retrieved attributes.
pub open spec fn search_pairs(query: Seq<char>) -> Seq<(Seq<char>, Seq<char>)> {
    seq![
        ("hitsPerPage"@, "40"@),
        ("page"@, "0"@),
        ("query"@, query),
        ("maxValuesPerFacet"@, "200"@),
        ("attributesToRetrieve"@, "[\"price_us\",\"userScore\"]"@),
    ]
}

/// Form-encodes the parameters of one search for a query.
pub fn search_params(query: &str) -> (r: String)
    ensures
        r@ == form_encoded(search_pairs(query@)),
{
    let mut pairs: Vec<(String, String)> = Vec::new();
    pairs.push(("hitsPerPage".to_owned(), "40".to_owned()));
    pairs.push(("page".to_owned(), "0".to_owned()));
    pairs.push(("query".to_owned(), query.to_owned()));
    pairs.push(("maxValuesPerFacet".to_owned(), "200".to_owned()));
    pairs.push(("attributesToRetrieve".to_owned(), "[\"price_us\",\"userScore\"]".to_owned()));
    proof {
        assert(pairs@.map_values(|p: (String, String)| (p.0@, p.1@)) =~= search_pairs(query@));
    }
    form_urlencode(&pairs)
}

impl SearchBody {
    /// Builds the body of one search request: a single search of the
    /// marketplace index with the query's form-encoded parameters.
    pub fn new(query: &str) -> (r: SearchBody)
        ensures
            r.requests@.len() == 1,
            r.requests@[0].index_name@ == "steamdb"@,
            r.requests@[0].params@ == form_encoded(search_pairs(query@)),
    {
        let params = search_params(query);
        let mut requests: Vec<SearchBodyInner> = Vec::new();
        requests.push(SearchBodyInner { index_name: "steamdb".to_owned(), params });
        SearchBody { requests }
    }
}

/// A member read as the decimal text of a number.
pub open spec fn spec_req_number(v: Option<JsonValue>) -> Result<String, DecodeError> {
    match v {
        None => Err(DecodeError::MissingField),
        Some(JsonValue::Number(t)) => Ok(t),
        Some(_) => Err(DecodeError::WrongType),
    }
}

/// A member read as an optional number's decimal text: absent and
/// null both mean "no value".
pub open spec fn spec_opt_number(v: Option<JsonValue>) -> Result<Option<String>, DecodeError> {
    match v {
        None => Ok(None),
        Some(JsonValue::Null) => Ok(None),
        Some(JsonValue::Number(t)) => Ok(Some(t)),
        Some(_) => Err(DecodeError::WrongType),
    }
}

/// What decoding one hit yields: its price, optional user score, and
/// object identifier.
pub open spec fn spec_hit(v: JsonValue) -> Result<SearchOutputInnerHit, DecodeError> {
    match v {
        JsonValue::Obj(es) => match spec_req_number(json_key(es@, "price_us"@)) {
            Err(e) => Err(e),
            Ok(price_us) => match spec_opt_number(json_key(es@, "userScore"@)) {
                Err(e) => Err(e),
                Ok(user_score) => match json_key(es@, "objectID"@) {
                    Some(JsonValue::Str(object_id)) => Ok(
                        SearchOutputInnerHit { price_us, user_score, object_id },
                    ),
                    Some(_) => Err(DecodeError::WrongType),
                    None => Err(DecodeError::MissingField),
                },
            },
        },
        _ => Err(DecodeError::WrongType),
    }
}

/// What decoding a search response yields: the first hit of the first
/// result, or nothing when either list is empty — no match is not an
/// error.
pub open spec fn spec_first_hit(v: JsonValue) -> Result<Option<SearchOutputInnerHit>, DecodeError> {
    match v {
        JsonValue::Obj(es) => match json_key(es@, "results"@) {
            Some(JsonValue::Arr(rs)) => if rs@.len() == 0 {
                Ok(None)
            } else {
                match rs@[0] {
                    JsonValue::Obj(res) => match json_key(res@, "hits"@) {
                        Some(JsonValue::Arr(hs)) => if hs@.len() == 0 {
                            Ok(None)
                        } else {
                            match spec_hit(hs@[0]) {
                                Ok(h) => Ok(Some(h)),
                                Err(e) => Err(e),
                            }
                        },
                        Some(_) => Err(DecodeError::WrongType),
                        None => Err(DecodeError::MissingField),
                    },
                    _ => Err(DecodeError::WrongType),
                }
            },
            Some(_) => Err(DecodeError::WrongType),
            None => Err(DecodeError::MissingField),
        },
        _ => Err(DecodeError::WrongType),
    }
}

/// The marketplace page of an object identifier.
pub open spec fn spec_hit_url(object_id: Seq<char>) -> Seq<char> {
    "https://steamdb.info/app/"@ + object_id + "/"@
}

/// Decodes a search response into at most one match: the first hit,
/// with its page address built from its object identifier. Empty
/// results are no error.
pub fn decode_search_result(v: &JsonValue) -> (r: Result<Option<SearchResult>, DecodeError>)
    ensures
        match spec_first_hit(*v) {
            Ok(Some(h)) => r matches Ok(Some(sr)) && sr.user_score == h.user_score && sr.price_us
                == h.price_us && sr.url@ == spec_hit_url(h.object_id@),
            Ok(None) => r == Ok::<Option<SearchResult>, DecodeError>(None),
            Err(e) => r == Err::<Option<SearchResult>, DecodeError>(e),
        },
{
    match v {
        JsonValue::Obj(es) => match obj_field(es, &"results".to_owned()) {
            Some(JsonValue::Arr(rs)) => {
                if rs.len() == 0 {
                    return Ok(None);
                }
                match &rs[0] {
                    JsonValue::Obj(res) => match obj_field(res, &"hits".to_owned()) {
                        Some(JsonValue::Arr(hs)) => {
                            if hs.len() == 0 {
                                return Ok(None);
                            }
                            match &hs[0] {
                                JsonValue::Obj(hes) => {
                                    let price_us = match obj_field(hes, &"price_us".to_owned()) {
                                        Some(JsonValue::Number(t)) => t.clone(),
                                        Some(_) => {
                                            return Err(DecodeError::WrongType);
                                        },
                                        None => {
                                            return Err(DecodeError::MissingField);
                                        },
                                    };
                                    let user_score = match obj_field(hes, &"userScore".to_owned())
                                        {
                                        None => None,
                                        Some(JsonValue::Null) => None,
                                        Some(JsonValue::Number(t)) => Some(t.clone()),
                                        Some(_) => {
                                            return Err(DecodeError::WrongType);
                                        },
                                    };
                                    let object_id = match obj_field(hes, &"objectID".to_owned()) {
                                        Some(JsonValue::Str(s)) => s.clone(),
                                        Some(_) => {
                                            return Err(DecodeError::WrongType);
                                        },
                                        None => {
                                            return Err(DecodeError::MissingField);
                                        },
                                    };
                                    let mut url: String = "https://steamdb.info/app/".to_owned();
                                    url.append(object_id.as_str());
                                    url.append("/");
                                    Ok(Some(SearchResult { url, user_score, price_us }))
                                },
                                _ => Err(DecodeError::WrongType),
                            }
                        },
                        Some(_) => Err(DecodeError::WrongType),
                        None => Err(DecodeError::MissingField),
                    },
                    _ => Err(DecodeError::WrongType),
                }
            },
            Some(_) => Err(DecodeError::WrongType),
            None => Err(DecodeError::MissingField),
        },
        _ => Err(DecodeError::WrongType),
    }
}

/// Decodes a search response from its body text.
pub fn search_result_from_text(s: &str) -> (r: Result<Option<SearchResult>, DecodeError>)
    ensures
        json_doc(s@) is None ==> r == Err::<Option<SearchResult>, DecodeError>(
            DecodeError::Syntax,
        ),
        json_doc(s@) matches Some(t) ==> match spec_first_hit(t) {
            Ok(Some(h)) => r matches Ok(Some(sr)) && sr.user_score == h.user_score && sr.price_us
                == h.price_us && sr.url@ == spec_hit_url(h.object_id@),
            Ok(None) => r == Ok::<Option<SearchResult>, DecodeError>(None),
            Err(e) => r == Err::<Option<SearchResult>, DecodeError>(e),
        },
{
    match parse_json(s) {
        Some(t) => decode_search_result(&t),
        None => Err(DecodeError::Syntax),
    }
}

/// The platform whose records the enrichment pass looks up.
pub open spec fn spec_tracked(r: KeyRecord) -> bool {
    r.platform@ == "steam"@
}

/// Whether a record belongs to the marketplace-tracked platform and
/// so is to be looked up; records of other platforms are left alone.
pub fn needs_lookup(r: &KeyRecord) -> (b: bool)
    ensures
        b == spec_tracked(*r),
{
    let steam: String = "steam".to_owned();
    r.platform == steam
}

/// What enriching a record with a lookup outcome yields: a match sets
/// the three marketplace fields as a unit and touches nothing else;
/// no match leaves the record exactly as it was.
pub open spec fn spec_enriched(rec: KeyRecord, found: Option<SearchResult>) -> KeyRecord {
    match found {
        Some(s) => KeyRecord {
            key: rec.key,
            choice_url: rec.choice_url,
            platform: rec.platform,
            url: Some(s.url),
            user_score: s.user_score,
            price_us: Some(s.price_us),
        },
        None => rec,
    }
}

/// Applies one lookup outcome to one record.
pub fn enriched(rec: KeyRecord, found: Option<SearchResult>) -> (r: KeyRecord)
    ensures
        r == spec_enriched(rec, found),
        found is None ==> r == rec,
{
    match found {
        Some(s) => KeyRecord {
            key: rec.key,
            choice_url: rec.choice_url,
            platform: rec.platform,
            url: Some(s.url),
            user_score: s.user_score,
            price_us: Some(s.price_us),
        },
        None => rec,
    }
}

} // verus!
