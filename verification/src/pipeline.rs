//! From orders to the canonical key records.
//!
//! The canonical record carries a key's name and platform, the choice
//! page it must be redeemed through (for keys of choice-bearing
//! orders), and three optional marketplace fields that only the
//! enrichment pass fills. Every valid raw key entry yields exactly one
//! record; redeemed and expired entries are dropped. Order
//! identifiers are fetched in batches of forty, and the per-batch
//! results are merged by concatenation, whose length does not depend
//! on the order the batches came back in.

use vstd::prelude::*;
use vstd::seq_lib::group_seq_properties;
use vstd::string::StringExecFns;
use crate::api::AllTpks;
use crate::json::{DecodeError, JsonValue, json_doc, json_key};
use crate::json::{obj_field, parse_json};
use crate::month::{MonthPage, spec_resolve_choice_data};
use crate::month::resolve_choice_data;

verus! {

/// How many order identifiers one batched orders request may carry:
/// an upstream constraint.
pub const ORDERS_PER_REQUEST: usize = 40;

/// The canonical output record for one unclaimed key.
#[derive(Debug, Clone, PartialEq)]
pub struct KeyRecord {
    /// The key's human-readable name.
    pub key: String,
    /// The page the key must be chosen on, for keys of choice-bearing
    /// orders; direct orders' keys carry none.
    pub choice_url: Option<String>,
    /// The platform the key redeems on.
    pub platform: String,
    /// Marketplace page, set only by the enrichment pass.
    pub url: Option<String>,
    /// Marketplace user score as reported, in decimal text; set only
    /// by the enrichment pass, and absent when the marketplace gives
    /// none.
    pub user_score: Option<String>,
    /// Marketplace price as reported, in decimal text; set only by
    /// the enrichment pass.
    pub price_us: Option<String>,
}

/// The record one valid raw key entry becomes.
pub open spec fn record_of(t: AllTpks, ctx: Option<String>) -> KeyRecord {
    KeyRecord {
        key: t.human_name,
        choice_url: ctx,
        platform: t.key_type,
        url: None,
        user_score: None,
        price_us: None,
    }
}

/// The records a list of raw key entries yields: one per valid entry,
/// in order; redeemed and expired entries are dropped.
pub open spec fn records_of(ts: Seq<AllTpks>, ctx: Option<String>) -> Seq<KeyRecord>
    decreases ts.len(),
{
    if ts.len() == 0 {
        Seq::empty()
    } else if ts[0].spec_valid() {
        seq![record_of(ts[0], ctx)] + records_of(ts.drop_first(), ctx)
    } else {
        records_of(ts.drop_first(), ctx)
    }
}

/// Every record a list of entries yields carries the given redemption
/// context, and there are never more records than entries.
pub proof fn lemma_records_ctx(ts: Seq<AllTpks>, ctx: Option<String>)
    ensures
        forall|i: int|
            0 <= i < records_of(ts, ctx).len() ==> (#[trigger] records_of(ts, ctx)[i]).choice_url
                == ctx,
        records_of(ts, ctx).len() <= ts.len(),
    decreases ts.len(),
{
    if ts.len() > 0 {
        lemma_records_ctx(ts.drop_first(), ctx);
    }
}

/// How many of a list's entries are valid.
pub open spec fn count_valid(ts: Seq<AllTpks>) -> nat
    decreases ts.len(),
{
    if ts.len() == 0 {
        0
    } else {
        (if ts[0].spec_valid() {
            1nat
        } else {
            0nat
        }) + count_valid(ts.drop_first())
    }
}

/// A list of entries yields exactly one record per valid entry.
pub proof fn lemma_records_count(ts: Seq<AllTpks>, ctx: Option<String>)
    ensures
        records_of(ts, ctx).len() == count_valid(ts),
    decreases ts.len(),
{
    if ts.len() > 0 {
        lemma_records_count(ts.drop_first(), ctx);
    }
}

/// Turns raw key entries into records, dropping invalid entries and
/// attaching the given redemption context to each record.
pub fn normalize_keys(entries: Vec<AllTpks>, ctx: &Option<String>) -> (r: Vec<KeyRecord>)
    ensures
        r@ == records_of(entries@, *ctx),
{
    let ghost full = entries@;
    let mut entries = entries;
    let mut out: Vec<KeyRecord> = Vec::new();
    proof {
        assert(out@ + records_of(entries@, *ctx) =~= records_of(full, *ctx));
    }
    while entries.len() > 0
        invariant
            out@ + records_of(entries@, *ctx) == records_of(full, *ctx),
        decreases entries@.len(),
    {
        let ghost before = entries@;
        let t = entries.remove(0);
        proof {
            assert(entries@ =~= before.drop_first());
            assert(before[0] == t);
        }
        if t.is_valid() {
            let c = match ctx {
                Some(s) => Some(s.clone()),
                None => None,
            };
            let ghost prev = out@;
            out.push(
                KeyRecord {
                    key: t.human_name,
                    choice_url: c,
                    platform: t.key_type,
                    url: None,
                    user_score: None,
                    price_us: None,
                },
            );
            proof {
                assert(out@.last() == record_of(before[0], *ctx));
                assert((prev + seq![record_of(before[0], *ctx)]) + records_of(
                    before.drop_first(),
                    *ctx,
                ) =~= prev + (seq![record_of(before[0], *ctx)] + records_of(
                    before.drop_first(),
                    *ctx,
                )));
                assert(out@ =~= prev + seq![record_of(before[0], *ctx)]);
            }
        }
    }
    proof {
        assert(out@ + Seq::<KeyRecord>::empty() =~= out@);
    }
    out
}

/// The first key list stored under the given name, if any.
pub open spec fn spec_dict_get(d: Seq<(String, Vec<AllTpks>)>, key: Seq<char>) -> Option<
    Vec<AllTpks>,
>
    decreases d.len(),
{
    if d.len() == 0 {
        None
    } else if d[0].0@ == key {
        Some(d[0].1)
    } else {
        spec_dict_get(d.drop_first(), key)
    }
}

/// Normalizes a direct order: its keys are the dictionary's `all_tpks`
/// list, each valid entry becomes a record without a redemption
/// context, and an order without that list yields nothing.
pub fn normalize_direct(dict: Vec<(String, Vec<AllTpks>)>) -> (r: Option<Vec<KeyRecord>>)
    ensures
        match spec_dict_get(dict@, "all_tpks"@) {
            Some(ts) => r matches Some(out) && out@ == records_of(ts@, None),
            None => r is None,
        },
{
    let key: String = "all_tpks".to_owned();
    let mut i: usize = 0;
    proof {
        assert(dict@.skip(0) =~= dict@);
    }
    while i < dict.len()
        invariant
            i <= dict@.len(),
            key@ == "all_tpks"@,
            spec_dict_get(dict@, key@) == spec_dict_get(dict@.skip(i as int), key@),
        decreases dict@.len() - i,
    {
        proof {
            assert(dict@.skip(i as int)[0] == dict@[i as int]);
        }
        if dict[i].0 == key {
            let mut d = dict;
            let p = d.remove(i);
            return Some(normalize_keys(p.1, &None));
        }
        proof {
            assert(dict@.skip(i as int).drop_first() =~= dict@.skip(i + 1 as int));
        }
        i = i + 1;
    }
    proof {
        assert(dict@.skip(i as int).len() == 0);
    }
    None
}

/// Normalizes the resolved keys of a choice-bearing order: each valid
/// entry becomes a record whose redemption context is the given choice
/// page address.
pub fn normalize_choice(entries: Vec<AllTpks>, ctx: String) -> (r: Vec<KeyRecord>)
    ensures
        r@ == records_of(entries@, Some(ctx)),
        forall|i: int|
            0 <= i < r@.len() ==> (#[trigger] r@[i]).choice_url == Some(ctx),
{
    proof {
        lemma_records_ctx(entries@, Some(ctx));
    }
    normalize_keys(entries, &Some(ctx))
}

/// Normalizes a whole choice-bearing order's page: resolves the
/// page's choice data to raw key entries, and turns each valid entry
/// into a record whose redemption context is the fixed template
/// applied to the order's choice endpoint.
pub fn normalize_choice_page(page: MonthPage, endpoint: &String) -> (r: Vec<KeyRecord>)
    ensures
        (exists|ctx: String|
            ctx@ == membership_url_spec(endpoint@) && r@ == records_of(
                spec_resolve_choice_data(page@),
                Some(ctx),
            )),
        forall|i: int|
            0 <= i < r@.len() ==> (#[trigger] r@[i]).choice_url is Some
                && r@[i].choice_url->0@ == membership_url_spec(endpoint@),
{
    let ctx = membership_url(endpoint);
    let ghost c = ctx;
    let entries = resolve_choice_data(page.content_choice_options.content_choice_data);
    let r = normalize_choice(entries, ctx);
    proof {
        assert(c@ == membership_url_spec(endpoint@) && r@ == records_of(
            spec_resolve_choice_data(page@),
            Some(c),
        ));
    }
    r
}

/// The fixed template a choice endpoint is substituted into to form
/// the redemption page address.
pub open spec fn membership_url_spec(endpoint: Seq<char>) -> Seq<char> {
    "https://www.humblebundle.com/membership/"@ + endpoint
}

/// Builds the redemption page address for a choice endpoint.
pub fn membership_url(endpoint: &String) -> (r: String)
    ensures
        r@ == membership_url_spec(endpoint@),
{
    let mut r: String = "https://www.humblebundle.com/membership/".to_owned();
    r.append(endpoint.as_str());
    r
}

/// The batches a list of order identifiers is fetched in: full
/// batches of forty, then whatever remains.
pub open spec fn spec_chunks(s: Seq<String>) -> Seq<Seq<String>>
    decreases s.len(),
{
    if s.len() == 0 {
        Seq::empty()
    } else if s.len() <= 40 {
        seq![s]
    } else {
        seq![s.take(40)] + spec_chunks(s.skip(40))
    }
}

/// Concatenating the batches gives back the identifiers in order:
/// batching loses and reorders nothing.
pub proof fn lemma_chunks_flatten(s: Seq<String>)
    ensures
        spec_chunks(s).flatten() == s,
    decreases s.len(),
{
    broadcast use group_seq_properties;

    if s.len() == 0 {
        assert(spec_chunks(s).flatten() =~= s);
    } else if s.len() <= 40 {
        assert(seq![s].drop_first() =~= Seq::<Seq<String>>::empty());
        assert(Seq::<Seq<String>>::empty().flatten() =~= Seq::<String>::empty());
        assert(seq![s].flatten() =~= s + Seq::<String>::empty());
        assert(s + Seq::<String>::empty() =~= s);
    } else {
        lemma_chunks_flatten(s.skip(40));
        assert(spec_chunks(s).drop_first() =~= spec_chunks(s.skip(40)));
        assert(spec_chunks(s).flatten() =~= s.take(40) + spec_chunks(s.skip(40)).flatten());
        assert(s.take(40) + s.skip(40) =~= s);
    }
}

/// No batch exceeds forty identifiers, every batch but the last holds
/// exactly forty, and the batch count is the least number of batches
/// of forty that covers the identifiers.
pub proof fn lemma_chunks_sizes(s: Seq<String>)
    ensures
        forall|i: int|
            0 <= i < spec_chunks(s).len() ==> (#[trigger] spec_chunks(s)[i]).len() <= 40,
        forall|i: int|
            0 <= i < spec_chunks(s).len() - 1 ==> (#[trigger] spec_chunks(s)[i]).len() == 40,
        spec_chunks(s).len() == (s.len() + 39) / 40,
    decreases s.len(),
{
    if s.len() > 40 {
        lemma_chunks_sizes(s.skip(40));
    }
}

/// Splits order identifiers into fetch batches of at most forty.
pub fn chunk_gamekeys(ids: Vec<String>) -> (r: Vec<Vec<String>>)
    ensures
        r@.map_values(|c: Vec<String>| c@) == spec_chunks(ids@),
{
    let ghost f = |c: Vec<String>| c@;
    let ghost full = ids@;
    let mut ids = ids;
    let mut out: Vec<Vec<String>> = Vec::new();
    proof {
        assert(out@.map_values(f) + spec_chunks(ids@) =~= spec_chunks(full));
    }
    while ids.len() > ORDERS_PER_REQUEST
        invariant
            f == (|c: Vec<String>| c@),
            out@.map_values(f) + spec_chunks(ids@) == spec_chunks(full),
        decreases ids@.len(),
    {
        let ghost before = ids@;
        let ghost prev = out@;
        let rest = ids.split_off(ORDERS_PER_REQUEST);
        proof {
            assert(ids@ =~= before.take(40));
            assert(rest@ =~= before.skip(40));
        }
        out.push(ids);
        ids = rest;
        proof {
            assert(out@.map_values(f) =~= prev.map_values(f) + seq![before.take(40)]);
            assert((prev.map_values(f) + seq![before.take(40)]) + spec_chunks(before.skip(40))
                =~= prev.map_values(f) + (seq![before.take(40)] + spec_chunks(before.skip(40))));
        }
    }
    if ids.len() > 0 {
        let ghost prev = out@;
        let ghost before = ids@;
        out.push(ids);
        proof {
            assert(out@.map_values(f) =~= prev.map_values(f) + seq![before]);
            assert(spec_chunks(before) =~= seq![before]);
        }
        out
    } else {
        proof {
            assert(spec_chunks(ids@) =~= Seq::<Seq<String>>::empty());
            assert(out@.map_values(f) + Seq::<Seq<String>>::empty() =~= out@.map_values(f));
        }
        out
    }
}

/// The total number of records across a list of per-batch results.
pub open spec fn total_records(bs: Seq<Seq<KeyRecord>>) -> nat
    decreases bs.len(),
{
    if bs.len() == 0 {
        0
    } else {
        bs[0].len() + total_records(bs.drop_first())
    }
}

/// Merging concatenates exactly the per-batch records: the merged
/// count is the sum of the per-batch counts.
pub proof fn lemma_flatten_count(bs: Seq<Seq<KeyRecord>>)
    ensures
        bs.flatten().len() == total_records(bs),
    decreases bs.len(),
{
    if bs.len() > 0 {
        lemma_flatten_count(bs.drop_first());
    }
}

proof fn lemma_total_records_remove(bs: Seq<Seq<KeyRecord>>, j: int)
    requires
        0 <= j < bs.len(),
    ensures
        total_records(bs) == bs[j].len() + total_records(bs.remove(j)),
    decreases j,
{
    if j == 0 {
        assert(bs.remove(0) =~= bs.drop_first());
    } else {
        lemma_total_records_remove(bs.drop_first(), j - 1);
        assert(bs.remove(j).drop_first() =~= bs.drop_first().remove(j - 1));
        assert(bs.remove(j)[0] == bs[0]);
    }
}

/// The merged record count does not depend on the order the batches
/// came back in: any two arrangements of the same batches yield the
/// same total.
pub proof fn lemma_merge_order_insensitive(bs1: Seq<Seq<KeyRecord>>, bs2: Seq<Seq<KeyRecord>>)
    requires
        bs1.to_multiset() == bs2.to_multiset(),
    ensures
        total_records(bs1) == total_records(bs2),
    decreases bs1.len(),
{
    bs1.to_multiset_ensures();
    bs2.to_multiset_ensures();
    if bs1.len() == 0 {
        assert(bs2.to_multiset().len() == 0);
        assert(bs2.len() == 0);
    } else {
        let x = bs1[0];
        assert(bs1.contains(x));
        assert(bs2.to_multiset().count(x) > 0);
        assert(bs2.contains(x));
        let j = choose|j: int| 0 <= j < bs2.len() && bs2[j] == x;
        assert(bs1.remove(0).to_multiset() =~= bs1.to_multiset().remove(x));
        assert(bs2.remove(j).to_multiset() =~= bs2.to_multiset().remove(x));
        assert(bs1.remove(0) =~= bs1.drop_first());
        lemma_merge_order_insensitive(bs1.drop_first(), bs2.remove(j));
        lemma_total_records_remove(bs2, j);
    }
}

/// Merges per-batch record lists into one output collection by
/// concatenation, batches in the order given.
pub fn merge_records(batches: Vec<Vec<KeyRecord>>) -> (r: Vec<KeyRecord>)
    ensures
        r@ == batches@.map_values(|b: Vec<KeyRecord>| b@).flatten(),
        r@.len() == total_records(batches@.map_values(|b: Vec<KeyRecord>| b@)),
{
    let ghost f = |b: Vec<KeyRecord>| b@;
    let ghost full = batches@.map_values(f);
    proof {
        lemma_flatten_count(full);
    }
    let mut batches = batches;
    let mut out: Vec<KeyRecord> = Vec::new();
    proof {
        assert(out@ + batches@.map_values(f).flatten() =~= full.flatten());
    }
    while batches.len() > 0
        invariant
            f == (|b: Vec<KeyRecord>| b@),
            out@ + batches@.map_values(f).flatten() == full.flatten(),
        decreases batches@.len(),
    {
        let ghost before = batches@.map_values(f);
        let mut b = batches.remove(0);
        proof {
            assert(batches@.map_values(f) =~= before.drop_first());
            assert(before[0] == b@);
        }
        let ghost prev = out@;
        out.append(&mut b);
        proof {
            assert((prev + before[0]) + before.drop_first().flatten() =~= prev + (before[0]
                + before.drop_first().flatten()));
        }
    }
    proof {
        assert(out@ + Seq::<KeyRecord>::empty() =~= out@);
    }
    out
}

/// What decoding the keys page's embedded data yields: the list of
/// order identifiers under `gamekeys`.
pub open spec fn spec_gamekeys_seq(elems: Seq<JsonValue>) -> Result<Seq<String>, DecodeError>
    decreases elems.len(),
{
    if elems.len() == 0 {
        Ok(Seq::empty())
    } else {
        match elems[0] {
            JsonValue::Str(s) => match spec_gamekeys_seq(elems.drop_first()) {
                Err(e) => Err(e),
                Ok(rest) => Ok(seq![s] + rest),
            },
            _ => Err(DecodeError::WrongType),
        }
    }
}

/// What decoding the keys page yields.
pub open spec fn spec_gamekeys(v: JsonValue) -> Result<Seq<String>, DecodeError> {
    match v {
        JsonValue::Obj(es) => match json_key(es@, "gamekeys"@) {
            Some(JsonValue::Arr(elems)) => spec_gamekeys_seq(elems@),
            Some(_) => Err(DecodeError::WrongType),
            None => Err(DecodeError::MissingField),
        },
        _ => Err(DecodeError::WrongType),
    }
}

/// Decodes the order identifier list from the keys page's data node.
pub fn decode_gamekeys(v: &JsonValue) -> (r: Result<Vec<String>, DecodeError>)
    ensures
        match spec_gamekeys(*v) {
            Ok(ks) => r matches Ok(out) && out@ == ks,
            Err(e) => r == Err::<Vec<String>, DecodeError>(e),
        },
{
    match v {
        JsonValue::Obj(es) => match obj_field(es, &"gamekeys".to_owned()) {
            Some(arr) => match arr {
                JsonValue::Arr(elems) => {
                    let mut out: Vec<String> = Vec::new();
                    let mut i: usize = 0;
                    proof {
                        assert(elems@.skip(0) =~= elems@);
                    }
                    while i < elems.len()
                        invariant
                            i <= elems@.len(),
                            json_key(es@, "gamekeys"@) == Some(JsonValue::Arr(*elems)),
                            *v == JsonValue::Obj(*es),
                            match spec_gamekeys_seq(elems@.skip(i as int)) {
                                Ok(rest) => spec_gamekeys_seq(elems@) == Ok::<
                                    Seq<String>,
                                    DecodeError,
                                >(out@ + rest),
                                Err(e) => spec_gamekeys_seq(elems@) == Err::<
                                    Seq<String>,
                                    DecodeError,
                                >(e),
                            },
                        decreases elems@.len() - i,
                    {
                        proof {
                            assert(elems@.skip(i as int)[0] == elems@[i as int]);
                            assert(elems@.skip(i as int).drop_first() =~= elems@.skip(
                                i + 1 as int,
                            ));
                        }
                        match &elems[i] {
                            JsonValue::Str(s) => {
                                let ghost prev = out@;
                                out.push(s.clone());
                                proof {
                                    if spec_gamekeys_seq(elems@.skip(i + 1 as int)) is Ok {
                                        let rest = spec_gamekeys_seq(
                                            elems@.skip(i + 1 as int),
                                        )->Ok_0;
                                        assert(prev + (seq![elems@[i as int]->Str_0] + rest)
                                            =~= out@ + rest);
                                    }
                                }
                            },
                            _ => {
                                return Err(DecodeError::WrongType);
                            },
                        }
                        i = i + 1;
                    }
                    proof {
                        assert(elems@.skip(i as int).len() == 0);
                        assert(out@ + Seq::<String>::empty() =~= out@);
                    }
                    Ok(out)
                },
                _ => Err(DecodeError::WrongType),
            },
            None => Err(DecodeError::MissingField),
        },
        _ => Err(DecodeError::WrongType),
    }
}

/// Decodes the order identifier list from the keys page's embedded
/// JSON text.
pub fn gamekeys_from_text(s: &str) -> (r: Result<Vec<String>, DecodeError>)
    ensures
        json_doc(s@) is None ==> r == Err::<Vec<String>, DecodeError>(DecodeError::Syntax),
        json_doc(s@) matches Some(t) ==> match spec_gamekeys(t) {
            Ok(ks) => r matches Ok(out) && out@ == ks,
            Err(e) => r == Err::<Vec<String>, DecodeError>(e),
        },
{
    match parse_json(s) {
        Some(t) => decode_gamekeys(&t),
        None => Err(DecodeError::Syntax),
    }
}

} // verus!


