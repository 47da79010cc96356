//! Orders and raw key entries as the storefront reports them.
//!
//! An order carries a product description and a dictionary of raw key
//! entries. A raw key entry is *valid* exactly when it has not been
//! redeemed and has not expired; only valid entries ever become key
//! records. An order is *choice-bearing* when it is subscription
//! content with choices remaining and a choice page to fetch; all
//! other orders are direct orders whose keys sit in the dictionary
//! under `all_tpks`.

use vstd::prelude::*;
use crate::json::{DecodeError, JsonValue, json_doc, json_key, parse_u16_spec};
use crate::json::{obj_field, parse_json, parse_u16};

verus! {

/// One key as the storefront reports it, before the validity filter.
#[derive(Debug, Clone, PartialEq)]
pub struct AllTpks {
    /// The redeemed key's value; present exactly when the key was
    /// already redeemed.
    pub redeemed_key_val: Option<String>,
    pub human_name: String,
    pub is_expired: bool,
    pub key_type: String,
}

impl AllTpks {
    /// The entry was already redeemed.
    pub open spec fn spec_already_redeemed(self) -> bool {
        self.redeemed_key_val is Some
    }

    /// The validity rule: an entry is valid exactly when it was not
    /// already redeemed and has not expired.
    pub open spec fn spec_valid(self) -> bool {
        !self.spec_already_redeemed() && !self.is_expired
    }

    pub fn is_valid(&self) -> (r: bool)
        ensures
            r == self.spec_valid(),
            r == (!self.spec_already_redeemed() && !self.is_expired),
    {
        self.redeemed_key_val.is_none() && !self.is_expired
    }
}

#[derive(Debug, Clone, PartialEq)]
pub struct OrderProduct {
    pub category: String,
    pub human_name: String,
    pub choice_url: Option<String>,
}

#[derive(Debug, Clone, PartialEq)]
pub struct Order {
    pub product: OrderProduct,
    pub choices_remaining: u16,
    /// Key lists by kind; direct orders keep theirs under `all_tpks`.
    pub tpkd_dict: Vec<(String, Vec<AllTpks>)>,
}

/// An order with its key dictionary at the sequence level.
pub struct OrderView {
    pub product: OrderProduct,
    pub choices_remaining: u16,
    pub tpkd_dict: Seq<(String, Seq<AllTpks>)>,
}

impl View for Order {
    type V = OrderView;

    open spec fn view(&self) -> OrderView {
        OrderView {
            product: self.product,
            choices_remaining: self.choices_remaining,
            tpkd_dict: self.tpkd_dict@.map_values(
                |p: (String, Vec<AllTpks>)| (p.0, p.1@),
            ),
        }
    }
}

impl Order {
    /// An order is choice-bearing when it is subscription content,
    /// still has choices to make, and names a choice page.
    pub open spec fn spec_choice_bearing(self) -> bool {
        &&& self.product.category@ == "subscriptioncontent"@
        &&& self.choices_remaining > 0
        &&& self.product.choice_url is Some
    }

    pub fn is_choice_bearing(&self) -> (r: bool)
        ensures
            r == self.spec_choice_bearing(),
    {
        let subscription: String = "subscriptioncontent".to_owned();
        self.product.category == subscription && self.choices_remaining > 0
            && self.product.choice_url.is_some()
    }
}

/// A member read as a required string.
pub open spec fn spec_req_str(v: Option<JsonValue>) -> Result<String, DecodeError> {
    match v {
        None => Err(DecodeError::MissingField),
        Some(JsonValue::Str(s)) => Ok(s),
        Some(_) => Err(DecodeError::WrongType),
    }
}

/// A member read as a required boolean.
pub open spec fn spec_req_bool(v: Option<JsonValue>) -> Result<bool, DecodeError> {
    match v {
        None => Err(DecodeError::MissingField),
        Some(JsonValue::Bool(b)) => Ok(b),
        Some(_) => Err(DecodeError::WrongType),
    }
}

/// A member read as an optional string: absent and null both mean
/// "no value".
pub open spec fn spec_opt_str(v: Option<JsonValue>) -> Result<Option<String>, DecodeError> {
    match v {
        None => Ok(None),
        Some(JsonValue::Null) => Ok(None),
        Some(JsonValue::Str(s)) => Ok(Some(s)),
        Some(_) => Err(DecodeError::WrongType),
    }
}

/// A member read as a small non-negative counter.
pub open spec fn spec_req_u16(v: Option<JsonValue>) -> Result<u16, DecodeError> {
    match v {
        None => Err(DecodeError::MissingField),
        Some(JsonValue::Number(t)) => match parse_u16_spec(t@) {
            Some(n) => Ok(n),
            None => Err(DecodeError::BadNumber),
        },
        Some(_) => Err(DecodeError::WrongType),
    }
}

/// What decoding one raw key entry from a document node yields.
/// A missing required field is an error, never a silent default.
pub open spec fn spec_tpk(v: JsonValue) -> Result<AllTpks, DecodeError> {
    match v {
        JsonValue::Obj(es) => match spec_req_str(json_key(es@, "human_name"@)) {
            Err(e) => Err(e),
            Ok(human_name) => match spec_req_str(json_key(es@, "key_type"@)) {
                Err(e) => Err(e),
                Ok(key_type) => match spec_req_bool(json_key(es@, "is_expired"@)) {
                    Err(e) => Err(e),
                    Ok(is_expired) => match spec_opt_str(
                        json_key(es@, "redeemed_key_val"@),
                    ) {
                        Err(e) => Err(e),
                        Ok(redeemed_key_val) => Ok(
                            AllTpks { redeemed_key_val, human_name, is_expired, key_type },
                        ),
                    },
                },
            },
        },
        _ => Err(DecodeError::WrongType),
    }
}

/// Decodes one raw key entry.
pub fn decode_tpk(v: &JsonValue) -> (r: Result<AllTpks, DecodeError>)
    ensures
        r == spec_tpk(*v),
{
    match v {
        JsonValue::Obj(es) => {
            let human_name = match obj_field(es, &"human_name".to_owned()) {
                Some(JsonValue::Str(s)) => s.clone(),
                Some(_) => {
                    return Err(DecodeError::WrongType);
                },
                None => {
                    return Err(DecodeError::MissingField);
                },
            };
            let key_type = match obj_field(es, &"key_type".to_owned()) {
                Some(JsonValue::Str(s)) => s.clone(),
                Some(_) => {
                    return Err(DecodeError::WrongType);
                },
                None => {
                    return Err(DecodeError::MissingField);
                },
            };
            let is_expired = match obj_field(es, &"is_expired".to_owned()) {
                Some(JsonValue::Bool(b)) => *b,
                Some(_) => {
                    return Err(DecodeError::WrongType);
                },
                None => {
                    return Err(DecodeError::MissingField);
                },
            };
            let redeemed_key_val = match obj_field(es, &"redeemed_key_val".to_owned()) {
                None => None,
                Some(JsonValue::Null) => None,
                Some(JsonValue::Str(s)) => Some(s.clone()),
                Some(_) => {
                    return Err(DecodeError::WrongType);
                },
            };
            Ok(AllTpks { redeemed_key_val, human_name, is_expired, key_type })
        },
        _ => Err(DecodeError::WrongType),
    }
}

/// What decoding a list of raw key entries yields: every element must
/// decode, and the first failure is the result.
pub open spec fn spec_tpk_seq(elems: Seq<JsonValue>) -> Result<Seq<AllTpks>, DecodeError>
    decreases elems.len(),
{
    if elems.len() == 0 {
        Ok(Seq::empty())
    } else {
        match spec_tpk(elems[0]) {
            Err(e) => Err(e),
            Ok(t) => match spec_tpk_seq(elems.drop_first()) {
                Err(e) => Err(e),
                Ok(ts) => Ok(seq![t] + ts),
            },
        }
    }
}

/// A node read as a list of raw key entries.
pub open spec fn spec_tpks(v: JsonValue) -> Result<Seq<AllTpks>, DecodeError> {
    match v {
        JsonValue::Arr(elems) => spec_tpk_seq(elems@),
        _ => Err(DecodeError::WrongType),
    }
}

/// Decodes a list of raw key entries from an array node.
pub fn decode_tpks(v: &JsonValue) -> (r: Result<Vec<AllTpks>, DecodeError>)
    ensures
        match spec_tpks(*v) {
            Ok(ts) => r matches Ok(out) && out@ == ts,
            Err(e) => r == Err::<Vec<AllTpks>, DecodeError>(e),
        },
{
    match v {
        JsonValue::Arr(elems) => {
            let mut out: Vec<AllTpks> = Vec::new();
            let mut i: usize = 0;
            proof {
                assert(elems@.skip(0) =~= elems@);
            }
            while i < elems.len()
                invariant
                    i <= elems@.len(),
                    *v == JsonValue::Arr(*elems),
                    match spec_tpk_seq(elems@.skip(i as int)) {
                        Ok(rest) => spec_tpk_seq(elems@) == Ok::<Seq<AllTpks>, DecodeError>(out@ + rest),
                        Err(e) => spec_tpk_seq(elems@) == Err::<Seq<AllTpks>, DecodeError>(e),
                    },
                decreases elems@.len() - i,
            {
                proof {
                    assert(elems@.skip(i as int)[0] == elems@[i as int]);
                    assert(elems@.skip(i as int).drop_first() =~= elems@.skip(i + 1 as int));
                }
                match decode_tpk(&elems[i]) {
                    Ok(t) => {
                        let ghost prev = out@;
                        out.push(t);
                        proof {
                            if spec_tpk_seq(elems@.skip(i + 1 as int)) is Ok {
                                let rest = spec_tpk_seq(elems@.skip(i + 1 as int))->Ok_0;
                                assert(prev + (seq![spec_tpk(elems@[i as int])->Ok_0] + rest)
                                    =~= out@ + rest);
                            }
                        }
                    },
                    Err(e) => {
                        return Err(e);
                    },
                }
                i = i + 1;
            }
            proof {
                assert(elems@.skip(i as int).len() == 0);
                assert(out@ + Seq::<AllTpks>::empty() =~= out@);
            }
            Ok(out)
        },
        _ => Err(DecodeError::WrongType),
    }
}

/// What decoding a key dictionary yields: a name to key-list mapping,
/// members in document order.
pub open spec fn spec_tpk_dict(es: Seq<(String, JsonValue)>) -> Result<
    Seq<(String, Seq<AllTpks>)>,
    DecodeError,
>
    decreases es.len(),
{
    if es.len() == 0 {
        Ok(Seq::empty())
    } else {
        match spec_tpks(es[0].1) {
            Err(e) => Err(e),
            Ok(ts) => match spec_tpk_dict(es.drop_first()) {
                Err(e) => Err(e),
                Ok(rest) => Ok(seq![(es[0].0, ts)] + rest),
            },
        }
    }
}

/// What decoding a whole order yields.
pub open spec fn spec_order(v: JsonValue) -> Result<OrderView, DecodeError> {
    match v {
        JsonValue::Obj(es) => match json_key(es@, "product"@) {
            None => Err(DecodeError::MissingField),
            Some(JsonValue::Obj(pes)) => match spec_req_str(json_key(pes@, "category"@)) {
                Err(e) => Err(e),
                Ok(category) => match spec_req_str(json_key(pes@, "human_name"@)) {
                    Err(e) => Err(e),
                    Ok(human_name) => match spec_opt_str(json_key(pes@, "choice_url"@)) {
                        Err(e) => Err(e),
                        Ok(choice_url) => match spec_req_u16(
                            json_key(es@, "choices_remaining"@),
                        ) {
                            Err(e) => Err(e),
                            Ok(choices_remaining) => match json_key(es@, "tpkd_dict"@) {
                                None => Err(DecodeError::MissingField),
                                Some(JsonValue::Obj(des)) => match spec_tpk_dict(des@) {
                                    Err(e) => Err(e),
                                    Ok(tpkd_dict) => Ok(
                                        OrderView {
                                            product: OrderProduct {
                                                category,
                                                human_name,
                                                choice_url,
                                            },
                                            choices_remaining,
                                            tpkd_dict,
                                        },
                                    ),
                                },
                                Some(_) => Err(DecodeError::WrongType),
                            },
                        },
                    },
                },
            },
            Some(_) => Err(DecodeError::WrongType),
        },
        _ => Err(DecodeError::WrongType),
    }
}

/// Decodes the key dictionary of an order.
pub(crate) fn decode_tpk_dict(des: &Vec<(String, JsonValue)>) -> (r: Result<
    Vec<(String, Vec<AllTpks>)>,
    DecodeError,
>)
    ensures
        match spec_tpk_dict(des@) {
            Ok(d) => r matches Ok(out) && out@.map_values(
                (|p: (String, Vec<AllTpks>)| (p.0, p.1@)),
            ) == d,
            Err(e) => r == Err::<Vec<(String, Vec<AllTpks>)>, DecodeError>(e),
        },
{
    let ghost f = |p: (String, Vec<AllTpks>)| (p.0, p.1@);
    let mut out: Vec<(String, Vec<AllTpks>)> = Vec::new();
    let mut i: usize = 0;
    proof {
        assert(des@.skip(0) =~= des@);
        assert(out@.map_values(f) =~= Seq::<(String, Seq<AllTpks>)>::empty());
    }
    while i < des.len()
        invariant
            i <= des@.len(),
            f == (|p: (String, Vec<AllTpks>)| (p.0, p.1@)),
            match spec_tpk_dict(des@.skip(i as int)) {
                Ok(rest) => spec_tpk_dict(des@) == Ok::<Seq<(String, Seq<AllTpks>)>, DecodeError>(out@.map_values(f) + rest),
                Err(e) => spec_tpk_dict(des@) == Err::<Seq<(String, Seq<AllTpks>)>, DecodeError>(
                    e,
                ),
            },
        decreases des@.len() - i,
    {
        proof {
            assert(des@.skip(i as int)[0] == des@[i as int]);
            assert(des@.skip(i as int).drop_first() =~= des@.skip(i + 1 as int));
        }
        match decode_tpks(&des[i].1) {
            Ok(ts) => {
                let ghost prev = out@;
                let name = des[i].0.clone();
                out.push((name, ts));
                proof {
                    assert(out@.map_values(f) =~= prev.map_values(f) + seq![
                        (des@[i as int].0, spec_tpks(des@[i as int].1)->Ok_0),
                    ]);
                    if spec_tpk_dict(des@.skip(i + 1 as int)) is Ok {
                        let rest = spec_tpk_dict(des@.skip(i + 1 as int))->Ok_0;
                        assert(prev.map_values(f) + (seq![
                            (des@[i as int].0, spec_tpks(des@[i as int].1)->Ok_0),
                        ] + rest) =~= out@.map_values(f) + rest);
                    }
                }
            },
            Err(e) => {
                return Err(e);
            },
        }
        i = i + 1;
    }
    proof {
        assert(des@.skip(i as int).len() == 0);
        assert(out@.map_values(f) + Seq::<(String, Seq<AllTpks>)>::empty() =~= out@.map_values(
            f,
        ));
    }
    Ok(out)
}

/// Decodes one order from a document node.
pub fn decode_order(v: &JsonValue) -> (r: Result<Order, DecodeError>)
    ensures
        match spec_order(*v) {
            Ok(ov) => r matches Ok(o) && o@ == ov,
            Err(e) => r == Err::<Order, DecodeError>(e),
        },
{
    match v {
        JsonValue::Obj(es) => {
            let pes = match obj_field(es, &"product".to_owned()) {
                Some(JsonValue::Obj(pes)) => pes,
                Some(_) => {
                    return Err(DecodeError::WrongType);
                },
                None => {
                    return Err(DecodeError::MissingField);
                },
            };
            let category = match obj_field(pes, &"category".to_owned()) {
                Some(JsonValue::Str(s)) => s.clone(),
                Some(_) => {
                    return Err(DecodeError::WrongType);
                },
                None => {
                    return Err(DecodeError::MissingField);
                },
            };
            let human_name = match obj_field(pes, &"human_name".to_owned()) {
                Some(JsonValue::Str(s)) => s.clone(),
                Some(_) => {
                    return Err(DecodeError::WrongType);
                },
                None => {
                    return Err(DecodeError::MissingField);
                },
            };
            let choice_url = match obj_field(pes, &"choice_url".to_owned()) {
                None => None,
                Some(JsonValue::Null) => None,
                Some(JsonValue::Str(s)) => Some(s.clone()),
                Some(_) => {
                    return Err(DecodeError::WrongType);
                },
            };
            let choices_remaining = match obj_field(es, &"choices_remaining".to_owned()) {
                Some(JsonValue::Number(t)) => match parse_u16(t.as_str()) {
                    Some(n) => n,
                    None => {
                        return Err(DecodeError::BadNumber);
                    },
                },
                Some(_) => {
                    return Err(DecodeError::WrongType);
                },
                None => {
                    return Err(DecodeError::MissingField);
                },
            };
            let tpkd_dict = match obj_field(es, &"tpkd_dict".to_owned()) {
                Some(JsonValue::Obj(des)) => match decode_tpk_dict(des) {
                    Ok(d) => d,
                    Err(e) => {
                        return Err(e);
                    },
                },
                Some(_) => {
                    return Err(DecodeError::WrongType);
                },
                None => {
                    return Err(DecodeError::MissingField);
                },
            };
            Ok(
                Order {
                    product: OrderProduct { category, human_name, choice_url },
                    choices_remaining,
                    tpkd_dict,
                },
            )
        },
        _ => Err(DecodeError::WrongType),
    }
}

/// What decoding the batch response yields: the orders of the
/// identifier-to-order mapping, in document order; the identifiers
/// themselves are discarded.
pub open spec fn spec_orders(es: Seq<(String, JsonValue)>) -> Result<Seq<OrderView>, DecodeError>
    decreases es.len(),
{
    if es.len() == 0 {
        Ok(Seq::empty())
    } else {
        match spec_order(es[0].1) {
            Err(e) => Err(e),
            Ok(o) => match spec_orders(es.drop_first()) {
                Err(e) => Err(e),
                Ok(rest) => Ok(seq![o] + rest),
            },
        }
    }
}

/// Decodes a batch response: a mapping from order identifier to order.
pub fn decode_orders(v: &JsonValue) -> (r: Result<Vec<Order>, DecodeError>)
    ensures
        match *v {
            JsonValue::Obj(es) => match spec_orders(es@) {
                Ok(ovs) => r matches Ok(out) && out@.map_values((|o: Order| o@)) == ovs,
                Err(e) => r == Err::<Vec<Order>, DecodeError>(e),
            },
            _ => r == Err::<Vec<Order>, DecodeError>(DecodeError::WrongType),
        },
{
    let ghost f = |o: Order| o@;
    match v {
        JsonValue::Obj(es) => {
            let mut out: Vec<Order> = Vec::new();
            let mut i: usize = 0;
            proof {
                assert(es@.skip(0) =~= es@);
                assert(out@.map_values(f) =~= Seq::<OrderView>::empty());
            }
            while i < es.len()
                invariant
                    i <= es@.len(),
                    *v == JsonValue::Obj(*es),
                    f == (|o: Order| o@),
                    match spec_orders(es@.skip(i as int)) {
                        Ok(rest) => spec_orders(es@) == Ok::<Seq<OrderView>, DecodeError>(out@.map_values(f) + rest),
                        Err(e) => spec_orders(es@) == Err::<Seq<OrderView>, DecodeError>(e),
                    },
                decreases es@.len() - i,
            {
                proof {
                    assert(es@.skip(i as int)[0] == es@[i as int]);
                    assert(es@.skip(i as int).drop_first() =~= es@.skip(i + 1 as int));
                }
                match decode_order(&es[i].1) {
                    Ok(o) => {
                        let ghost prev = out@;
                        out.push(o);
                        proof {
                            assert(out@.map_values(f) =~= prev.map_values(f) + seq![
                                spec_order(es@[i as int].1)->Ok_0,
                            ]);
                            if spec_orders(es@.skip(i + 1 as int)) is Ok {
                                let rest = spec_orders(es@.skip(i + 1 as int))->Ok_0;
                                assert(prev.map_values(f) + (seq![
                                    spec_order(es@[i as int].1)->Ok_0,
                                ] + rest) =~= out@.map_values(f) + rest);
                            }
                        }
                    },
                    Err(e) => {
                        return Err(e);
                    },
                }
                i = i + 1;
            }
            proof {
                assert(es@.skip(i as int).len() == 0);
                assert(out@.map_values(f) + Seq::<OrderView>::empty() =~= out@.map_values(f));
            }
            Ok(out)
        },
        _ => Err(DecodeError::WrongType),
    }
}

/// Decodes a batch response from its body text.
pub fn orders_from_text(s: &str) -> (r: Result<Vec<Order>, DecodeError>)
    ensures
        json_doc(s@) is None ==> r == Err::<Vec<Order>, DecodeError>(DecodeError::Syntax),
        json_doc(s@) matches Some(t) ==> match t {
            JsonValue::Obj(es) => match spec_orders(es@) {
                Ok(ovs) => r matches Ok(out) && out@.map_values((|o: Order| o@)) == ovs,
                Err(e) => r == Err::<Vec<Order>, DecodeError>(e),
            },
            _ => r == Err::<Vec<Order>, DecodeError>(DecodeError::WrongType),
        },
{
    match parse_json(s) {
        Some(t) => decode_orders(&t),
        None => Err(DecodeError::Syntax),
    }
}

/// Builds the query-string pairs of one batched orders request: one
/// `gamekeys` pair per identifier, then the flag asking for all keys.
pub fn order_batch_query(ids: &Vec<String>) -> (r: Vec<(String, String)>)
    ensures
        r@.len() == ids@.len() + 1,
        forall|i: int|
            0 <= i < ids@.len() ==> (#[trigger] r@[i]).0@ == "gamekeys"@ && r@[i].1@ == ids@[i]@,
        r@[ids@.len() as int].0@ == "all_tpkds"@,
        r@[ids@.len() as int].1@ == "true"@,
{
    let mut r: Vec<(String, String)> = Vec::new();
    let mut i: usize = 0;
    while i < ids.len()
        invariant
            i <= ids@.len(),
            r@.len() == i,
            forall|j: int|
                0 <= j < i ==> (#[trigger] r@[j]).0@ == "gamekeys"@ && r@[j].1@ == ids@[j]@,
        decreases ids@.len() - i,
    {
        r.push(("gamekeys".to_owned(), ids[i].clone()));
        i = i + 1;
    }
    r.push(("all_tpkds".to_owned(), "true".to_owned()));
    r
}

} // verus!
