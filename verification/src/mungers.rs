//! Parameter normalization ("munging"): the deterministic, pure
//! transformation from the caller-facing option types to the canonical
//! key-value structure the wire protocol expects. Every function's exact
//! output is stated over the JSON model.

use vstd::prelude::*;
use vstd::string::StringExecFns;

use crate::error::MatchmakerError;
use crate::hex::hex_str;
use crate::hex::{u128_to_hex, u64_to_hex};
use crate::interface::{
    BodyType, BundleParams, HintPreferences, Inclusion, ParentBlock, Privacy, Refund,
    RefundConfig, SimBundleOptions, TransactionOptions, Validity,
};
use crate::json::{
    entries_get, entry_models, json_models, lemma_entry_models, lemma_json_models_push, obj_get,
    JsonModel, JsonVal,
};
use crate::text::{dec_rep, u64_to_dec};

verus! {

broadcast use vstd::string::group_string_axioms;

/// The effective value of an optional hint flag: unset means `false`.
pub open spec fn flag_or_false(f: Option<bool>) -> bool {
    match f {
        Some(b) => b,
        None => false,
    }
}

/// The five hint names with their effective values, in lexical order. The
/// hash hint is always on: the service cannot match or cancel a submission
/// without its hash, so full privacy is every other hint off, never an
/// empty hint set.
pub open spec fn hint_flags(h: HintPreferences) -> Seq<(Seq<char>, bool)> {
    seq![
        ("calldata"@, flag_or_false(h.calldata)),
        ("contract_address"@, flag_or_false(h.contract_address)),
        ("function_selector"@, flag_or_false(h.function_selector)),
        ("hash"@, true),
        ("logs"@, flag_or_false(h.logs)),
    ]
}

/// The hint names whose effective value is `true`, in lexical order;
/// `"hash"` is always among them.
pub open spec fn spec_extract_hints(h: HintPreferences) -> Seq<Seq<char>> {
    (if flag_or_false(h.calldata) {
        seq!["calldata"@]
    } else {
        Seq::<Seq<char>>::empty()
    }) + (if flag_or_false(h.contract_address) {
        seq!["contract_address"@]
    } else {
        Seq::<Seq<char>>::empty()
    }) + (if flag_or_false(h.function_selector) {
        seq!["function_selector"@]
    } else {
        Seq::<Seq<char>>::empty()
    }) + seq!["hash"@] + (if flag_or_false(h.logs) {
        seq!["logs"@]
    } else {
        Seq::<Seq<char>>::empty()
    })
}

fn flag_value(f: Option<bool>) -> (b: bool)
    ensures
        b == flag_or_false(f),
{
    match f {
        Some(b) => b,
        None => false,
    }
}

/// Resolves hint preferences to the five name-value pairs, in lexical
/// order, with `hash` forced to `true` and unset flags to `false`.
pub fn munge_hint_preferences(hints: HintPreferences) -> (r: Vec<(String, bool)>)
    ensures
        r@.len() == 5,
        forall|i: int|
            0 <= i < 5 ==> (#[trigger] r@[i]).0@ == hint_flags(hints)[i].0 && r@[i].1
                == hint_flags(hints)[i].1,
{
    let mut r: Vec<(String, bool)> = Vec::new();
    r.push((String::from_str("calldata"), flag_value(hints.calldata)));
    r.push((String::from_str("contract_address"), flag_value(hints.contract_address)));
    r.push((String::from_str("function_selector"), flag_value(hints.function_selector)));
    r.push((String::from_str("hash"), true));
    r.push((String::from_str("logs"), flag_value(hints.logs)));
    r
}

/// Flattens hint preferences to the names whose effective value is
/// `true`, sorted lexically for a reproducible wire shape.
pub fn extract_specified_hints(hints: HintPreferences) -> (r: Vec<String>)
    ensures
        r.deep_view() == spec_extract_hints(hints),
{
    let mut r: Vec<String> = Vec::new();
    if flag_value(hints.calldata) {
        r.push(String::from_str("calldata"));
    }
    if flag_value(hints.contract_address) {
        r.push(String::from_str("contract_address"));
    }
    if flag_value(hints.function_selector) {
        r.push(String::from_str("function_selector"));
    }
    r.push(String::from_str("hash"));
    if flag_value(hints.logs) {
        r.push(String::from_str("logs"));
    }
    proof {
        assert(r.deep_view() =~~= spec_extract_hints(hints));
    }
    r
}

/// With every hint unset, flattening yields exactly the hash hint.
pub proof fn lemma_hints_default_private(h: HintPreferences)
    requires
        h.calldata is None,
        h.contract_address is None,
        h.function_selector is None,
        h.logs is None,
    ensures
        spec_extract_hints(h) == seq!["hash"@],
{
    assert(spec_extract_hints(h) =~= seq!["hash"@]);
}

/// With every hint set `true`, flattening yields all five names.
pub proof fn lemma_hints_all_shared(h: HintPreferences)
    requires
        h.calldata == Some(true),
        h.contract_address == Some(true),
        h.function_selector == Some(true),
        h.logs == Some(true),
    ensures
        spec_extract_hints(h) == seq![
            "calldata"@,
            "contract_address"@,
            "function_selector"@,
            "hash"@,
            "logs"@,
        ],
{
    assert(spec_extract_hints(h) =~= seq![
        "calldata"@,
        "contract_address"@,
        "function_selector"@,
        "hash"@,
        "logs"@,
    ]);
}

/// String values for an array of names.
pub open spec fn str_models(ss: Seq<Seq<char>>) -> Seq<JsonModel> {
    ss.map_values(|s: Seq<char>| JsonModel::Str(s))
}

fn strings_to_json_array(items: Vec<String>) -> (r: JsonVal)
    ensures
        r@ == JsonModel::Arr(str_models(items.deep_view())),
{
    let ghost d = items.deep_view();
    let mut out: Vec<JsonVal> = Vec::new();
    let mut i: usize = 0;
    while i < items.len()
        invariant
            i <= items@.len(),
            d == items.deep_view(),
            d.len() == items@.len(),
            json_models(out@) == str_models(d.take(i as int)),
        decreases items@.len() - i,
    {
        let s = items[i].clone();
        let ghost prev = out@;
        out.push(JsonVal::Str(s));
        proof {
            lemma_json_models_push(prev, JsonVal::Str(s));
            assert(d[i as int] == items@[i as int]@);
            assert(d.take(i + 1) =~= d.take(i as int).push(d[i as int]));
            assert(str_models(d.take(i + 1)) =~~= str_models(d.take(i as int)).push(
                JsonModel::Str(d[i as int]),
            ));
            assert(json_models(out@) =~~= str_models(d.take(i + 1)));
        }
        i = i + 1;
    }
    proof {
        assert(d.take(d.len() as int) =~= d);
    }
    JsonVal::Arr(out)
}

/// The parameter-object entries for a private transaction: the signed
/// transaction, `fast: true` always, and the optional fields only when
/// they were specified (a missing option omits its key entirely).
pub open spec fn spec_private_tx_entries(tx: Seq<char>, options: Option<TransactionOptions>) -> Seq<
    (Seq<char>, JsonModel),
> {
    let base = seq![("tx"@, JsonModel::Str(tx)), ("fast"@, JsonModel::Bool(true))];
    match options {
        None => base,
        Some(o) => base + (match o.max_block_number {
            Some(m) => seq![("maxBlockNumber"@, JsonModel::Str(hex_str(m as nat)))],
            None => Seq::empty(),
        }) + (match o.hints {
            Some(h) => seq![
                ("hints"@, JsonModel::Arr(str_models(spec_extract_hints(h)))),
            ],
            None => Seq::empty(),
        }) + (match o.builders {
            Some(b) => seq![("builders"@, JsonModel::Arr(str_models(b.deep_view())))],
            None => Seq::empty(),
        }),
    }
}

/// Builds the single-element parameter array for submitting a private
/// transaction.
pub fn munge_private_tx_params(signed_tx: String, options: Option<TransactionOptions>) -> (r: Vec<
    JsonVal,
>)
    ensures
        r@.len() == 1,
        r@[0]@ == JsonModel::Obj(spec_private_tx_entries(signed_tx@, options)),
{
    let ghost tx_view = signed_tx@;
    let mut entries: Vec<(String, JsonVal)> = Vec::new();
    entries.push((String::from_str("tx"), JsonVal::Str(signed_tx)));
    entries.push((String::from_str("fast"), JsonVal::Bool(true)));
    match options {
        None => {},
        Some(o) => {
            match o.max_block_number {
                Some(m) => {
                    entries.push((String::from_str("maxBlockNumber"), JsonVal::Str(u64_to_hex(m))));
                },
                None => {},
            }
            match o.hints {
                Some(h) => {
                    let names = extract_specified_hints(h);
                    entries.push((String::from_str("hints"), strings_to_json_array(names)));
                },
                None => {},
            }
            match o.builders {
                Some(b) => {
                    entries.push((String::from_str("builders"), strings_to_json_array(b)));
                },
                None => {},
            }
        },
    }
    proof {
        lemma_entry_models(entries@);
        assert(entry_models(entries@) =~~= spec_private_tx_entries(tx_view, options));
    }
    let mut out: Vec<JsonVal> = Vec::new();
    out.push(JsonVal::Obj(entries));
    out
}

/// The version string to emit: the caller's, or the default `"v0.1"`.
pub open spec fn version_or_default(v: Option<String>) -> Seq<char> {
    match v {
        Some(s) => s@,
        None => "v0.1"@,
    }
}

/// The entries of the normalized inclusion object: the target block in
/// hex, and `maxBlock` only when an upper bound was given.
pub open spec fn spec_inclusion_entries(inc: Inclusion) -> Seq<(Seq<char>, JsonModel)> {
    seq![("block"@, JsonModel::Str(hex_str(inc.block as nat)))] + (match inc.max_block {
        Some(m) => seq![("maxBlock"@, JsonModel::Str(hex_str(m as nat)))],
        None => Seq::empty(),
    })
}

/// The normalized inclusion object.
pub open spec fn spec_inclusion(inc: Inclusion) -> JsonModel {
    JsonModel::Obj(spec_inclusion_entries(inc))
}

/// The wire object for one refund entry: plain numbers, no hex.
pub open spec fn refund_model(r: Refund) -> JsonModel {
    JsonModel::Obj(
        seq![
            ("body_idx"@, JsonModel::Num(r.body_idx as nat)),
            ("percent"@, JsonModel::Num(r.percent as nat)),
        ],
    )
}

/// The wire objects for a list of refunds, in order.
pub open spec fn refund_models(rs: Seq<Refund>) -> Seq<JsonModel> {
    rs.map_values(|r: Refund| refund_model(r))
}

/// The wire object for one refund-config entry: plain fields, no hex.
pub open spec fn refund_config_model(c: RefundConfig) -> JsonModel {
    JsonModel::Obj(
        seq![
            ("address"@, JsonModel::Str(c.address@)),
            ("percent"@, JsonModel::Num(c.percent as nat)),
        ],
    )
}

/// The wire objects for a list of refund configs, in order.
pub open spec fn refund_config_models(cs: Seq<RefundConfig>) -> Seq<JsonModel> {
    cs.map_values(|c: RefundConfig| refund_config_model(c))
}

/// The refund list of a bundle: empty when validity or the list is absent.
pub open spec fn spec_refund_list(v: Option<Validity>) -> Seq<JsonModel> {
    match v {
        Some(val) => match val.refund {
            Some(rs) => refund_models(rs@),
            None => Seq::empty(),
        },
        None => Seq::empty(),
    }
}

/// The refund-config list of a bundle: empty when absent.
pub open spec fn spec_refund_config_list(v: Option<Validity>) -> Seq<JsonModel> {
    match v {
        Some(val) => match val.refund_config {
            Some(cs) => refund_config_models(cs@),
            None => Seq::empty(),
        },
        None => Seq::empty(),
    }
}

/// The entries of the validity object. Unlike the optional keys above,
/// `validity` is always emitted, its two lists defaulting to empty.
pub open spec fn spec_validity_entries(v: Option<Validity>) -> Seq<(Seq<char>, JsonModel)> {
    seq![
        ("refund"@, JsonModel::Arr(spec_refund_list(v))),
        ("refundConfig"@, JsonModel::Arr(spec_refund_config_list(v))),
    ]
}

/// The normalized validity object.
pub open spec fn spec_validity(v: Option<Validity>) -> JsonModel {
    JsonModel::Obj(spec_validity_entries(v))
}

/// The bundle-level hints entry, present only when privacy hints were
/// specified.
pub open spec fn spec_privacy_hints(p: Option<Privacy>) -> Seq<(Seq<char>, JsonModel)> {
    match p {
        Some(pr) => match pr.hints {
            Some(h) => seq![
                ("hints"@, JsonModel::Arr(str_models(spec_extract_hints(h)))),
            ],
            None => Seq::empty(),
        },
        None => Seq::empty(),
    }
}

/// The normalized form of one body element: `{hash}` for a hash
/// reference, `{tx, can_revert}` for an inline transaction, and the fully
/// normalized bundle object for a nested bundle.
pub open spec fn spec_munge_body(b: BodyType) -> JsonModel
    decreases b,
{
    match b {
        BodyType::Hash(h) => JsonModel::Obj(seq![("hash"@, JsonModel::Str(h@))]),
        BodyType::Tx { tx, can_revert } => JsonModel::Obj(
            seq![("tx"@, JsonModel::Str(tx@)), ("canRevert"@, JsonModel::Bool(can_revert))],
        ),
        BodyType::Bundle(bp) => spec_munge_bundle(bp),
    }
}

/// The normalized body elements of a bundle, in their on-chain order.
pub open spec fn spec_munge_bodies(body: Seq<BodyType>) -> Seq<JsonModel>
    decreases body,
{
    if body.len() == 0 {
        Seq::empty()
    } else {
        spec_munge_bodies(body.drop_last()).push(spec_munge_body(body.last()))
    }
}

/// The canonical wire object for a bundle: version (defaulted), inclusion,
/// the normalized body array, the always-present validity object, and the
/// privacy hints entry only when given.
pub open spec fn spec_munge_bundle(p: BundleParams) -> JsonModel
    decreases p,
{
    JsonModel::Obj(
        seq![
            ("version"@, JsonModel::Str(version_or_default(p.version))),
            ("inclusion"@, spec_inclusion(p.inclusion)),
            ("body"@, JsonModel::Arr(spec_munge_bodies(p.body@))),
            ("validity"@, spec_validity(p.validity)),
        ] + spec_privacy_hints(p.privacy),
    )
}

pub proof fn lemma_munge_bodies_push(s: Seq<BodyType>, x: BodyType)
    ensures
        spec_munge_bodies(s.push(x)) == spec_munge_bodies(s).push(spec_munge_body(x)),
{
    assert(s.push(x).drop_last() =~= s);
    assert(s.push(x).last() == x);
}

fn refunds_to_json(rs: &Vec<Refund>) -> (r: JsonVal)
    ensures
        r@ == JsonModel::Arr(refund_models(rs@)),
{
    let mut out: Vec<JsonVal> = Vec::new();
    let mut i: usize = 0;
    while i < rs.len()
        invariant
            i <= rs@.len(),
            json_models(out@) == refund_models(rs@.take(i as int)),
        decreases rs@.len() - i,
    {
        let rf = rs[i];
        let mut e: Vec<(String, JsonVal)> = Vec::new();
        e.push((String::from_str("body_idx"), JsonVal::Num(rf.body_idx)));
        e.push((String::from_str("percent"), JsonVal::Num(rf.percent)));
        proof {
            lemma_entry_models(e@);
            assert(entry_models(e@) =~~= seq![
                ("body_idx"@, JsonModel::Num(rf.body_idx as nat)),
                ("percent"@, JsonModel::Num(rf.percent as nat)),
            ]);
        }
        let item = JsonVal::Obj(e);
        let ghost prev = out@;
        let ghost gitem = item;
        out.push(item);
        proof {
            lemma_json_models_push(prev, gitem);
            assert(rs@.take(i + 1) =~= rs@.take(i as int).push(rs@[i as int]));
            assert(refund_models(rs@.take(i + 1)) =~~= refund_models(rs@.take(i as int)).push(
                refund_model(rs@[i as int]),
            ));
            assert(json_models(out@) =~~= refund_models(rs@.take(i + 1)));
        }
        i = i + 1;
    }
    proof {
        assert(rs@.take(rs@.len() as int) =~= rs@);
    }
    JsonVal::Arr(out)
}

fn refund_configs_to_json(cs: &Vec<RefundConfig>) -> (r: JsonVal)
    ensures
        r@ == JsonModel::Arr(refund_config_models(cs@)),
{
    let mut out: Vec<JsonVal> = Vec::new();
    let mut i: usize = 0;
    while i < cs.len()
        invariant
            i <= cs@.len(),
            json_models(out@) == refund_config_models(cs@.take(i as int)),
        decreases cs@.len() - i,
    {
        let address = cs[i].address.clone();
        let percent = cs[i].percent;
        let mut e: Vec<(String, JsonVal)> = Vec::new();
        e.push((String::from_str("address"), JsonVal::Str(address)));
        e.push((String::from_str("percent"), JsonVal::Num(percent)));
        proof {
            lemma_entry_models(e@);
            assert(entry_models(e@) =~~= seq![
                ("address"@, JsonModel::Str(cs@[i as int].address@)),
                ("percent"@, JsonModel::Num(cs@[i as int].percent as nat)),
            ]);
        }
        let item = JsonVal::Obj(e);
        let ghost prev = out@;
        let ghost gitem = item;
        out.push(item);
        proof {
            lemma_json_models_push(prev, gitem);
            assert(cs@.take(i + 1) =~= cs@.take(i as int).push(cs@[i as int]));
            assert(refund_config_models(cs@.take(i + 1)) =~~= refund_config_models(
                cs@.take(i as int),
            ).push(refund_config_model(cs@[i as int])));
            assert(json_models(out@) =~~= refund_config_models(cs@.take(i + 1)));
        }
        i = i + 1;
    }
    proof {
        assert(cs@.take(cs@.len() as int) =~= cs@);
    }
    JsonVal::Arr(out)
}

fn munge_validity(v: &Option<Validity>) -> (r: JsonVal)
    ensures
        r@ == spec_validity(*v),
{
    let refund_arr: JsonVal = match v {
        Some(val) => match &val.refund {
            Some(rs) => refunds_to_json(rs),
            None => JsonVal::Arr(Vec::new()),
        },
        None => JsonVal::Arr(Vec::new()),
    };
    let config_arr: JsonVal = match v {
        Some(val) => match &val.refund_config {
            Some(cs) => refund_configs_to_json(cs),
            None => JsonVal::Arr(Vec::new()),
        },
        None => JsonVal::Arr(Vec::new()),
    };
    let mut e: Vec<(String, JsonVal)> = Vec::new();
    e.push((String::from_str("refund"), refund_arr));
    e.push((String::from_str("refundConfig"), config_arr));
    proof {
        lemma_entry_models(e@);
        assert(entry_models(e@) =~~= spec_validity_entries(*v));
    }
    JsonVal::Obj(e)
}

fn munge_inclusion(inc: &Inclusion) -> (r: JsonVal)
    ensures
        r@ == spec_inclusion(*inc),
{
    let mut e: Vec<(String, JsonVal)> = Vec::new();
    e.push((String::from_str("block"), JsonVal::Str(u64_to_hex(inc.block))));
    match inc.max_block {
        Some(m) => {
            e.push((String::from_str("maxBlock"), JsonVal::Str(u64_to_hex(m))));
        },
        None => {},
    }
    proof {
        lemma_entry_models(e@);
        assert(entry_models(e@) =~~= spec_inclusion_entries(*inc));
    }
    JsonVal::Obj(e)
}

#[verifier::loop_isolation(false)]
fn munge_bundle_ref(params: &BundleParams) -> (r: JsonVal)
    ensures
        r@ == spec_munge_bundle(*params),
    decreases *params,
{
    let mut body_items: Vec<JsonVal> = Vec::new();
    let mut i: usize = 0;
    while i < params.body.len()
        invariant
            i <= params.body@.len(),
            json_models(body_items@) == spec_munge_bodies(params.body@.take(i as int)),
        decreases params.body@.len() - i,
    {
        let item: JsonVal = match &params.body[i] {
            BodyType::Hash(h) => {
                let mut e: Vec<(String, JsonVal)> = Vec::new();
                e.push((String::from_str("hash"), JsonVal::Str(h.clone())));
                proof {
                    lemma_entry_models(e@);
                    assert(entry_models(e@) =~~= seq![("hash"@, JsonModel::Str(h@))]);
                }
                JsonVal::Obj(e)
            },
            BodyType::Tx { tx, can_revert } => {
                let mut e: Vec<(String, JsonVal)> = Vec::new();
                e.push((String::from_str("tx"), JsonVal::Str(tx.clone())));
                e.push((String::from_str("canRevert"), JsonVal::Bool(*can_revert)));
                proof {
                    lemma_entry_models(e@);
                    assert(entry_models(e@) =~~= seq![
                        ("tx"@, JsonModel::Str(tx@)),
                        ("canRevert"@, JsonModel::Bool(*can_revert)),
                    ]);
                }
                JsonVal::Obj(e)
            },
            BodyType::Bundle(bp) => {
                proof {
                    assert(params.body@[i as int] == BodyType::Bundle(*bp));
                    assert(decreases_to!(*params => params.body));
                    assert(decreases_to!(params.body => params.body@));
                    assert(decreases_to!(params.body@ => params.body@[i as int]));
                    assert(decreases_to!(params.body@[i as int] => *bp));
                    assert(decreases_to!(*params => *bp));
                }
                munge_bundle_ref(bp)
            },
        };
        proof {
            assert(item@ == spec_munge_body(params.body@[i as int]));
        }
        let ghost prev = body_items@;
        let ghost gitem = item;
        body_items.push(item);
        proof {
            lemma_json_models_push(prev, gitem);
            lemma_munge_bodies_push(params.body@.take(i as int), params.body@[i as int]);
            assert(params.body@.take(i + 1) =~= params.body@.take(i as int).push(
                params.body@[i as int],
            ));
            assert(json_models(body_items@) =~~= spec_munge_bodies(params.body@.take(i + 1)));
        }
        i = i + 1;
    }
    proof {
        assert(params.body@.take(params.body@.len() as int) =~= params.body@);
    }
    let mut entries: Vec<(String, JsonVal)> = Vec::new();
    let version: String = match &params.version {
        Some(v) => v.clone(),
        None => String::from_str("v0.1"),
    };
    entries.push((String::from_str("version"), JsonVal::Str(version)));
    entries.push((String::from_str("inclusion"), munge_inclusion(&params.inclusion)));
    entries.push((String::from_str("body"), JsonVal::Arr(body_items)));
    entries.push((String::from_str("validity"), munge_validity(&params.validity)));
    match &params.privacy {
        Some(privacy) => match privacy.hints {
            Some(h) => {
                let names = extract_specified_hints(h);
                entries.push((String::from_str("hints"), strings_to_json_array(names)));
            },
            None => {},
        },
        None => {},
    }
    proof {
        lemma_entry_models(entries@);
        assert(entry_models(entries@) =~~= seq![
            ("version"@, JsonModel::Str(version_or_default(params.version))),
            ("inclusion"@, spec_inclusion(params.inclusion)),
            ("body"@, JsonModel::Arr(spec_munge_bodies(params.body@))),
            ("validity"@, spec_validity(params.validity)),
        ] + spec_privacy_hints(params.privacy));
    }
    JsonVal::Obj(entries)
}

/// Normalizes a bundle to its canonical wire object. Nested bundles in the
/// body are normalized by the same rules, to arbitrary depth.
pub fn munge_bundle_params(params: BundleParams) -> (r: JsonVal)
    ensures
        r@ == spec_munge_bundle(params),
{
    munge_bundle_ref(&params)
}

/// The nesting depth of a bundle: one more than the deepest nested bundle
/// among its body elements.
pub open spec fn bundle_depth(p: BundleParams) -> nat
    decreases p, 0int,
{
    1 + bodies_depth(p.body@, p.body@.len() as int)
}

/// The deepest bundle among the first `n` body elements; zero when none
/// of them is a nested bundle.
pub open spec fn bodies_depth(body: Seq<BodyType>, n: int) -> nat
    decreases body, n,
        when 0 <= n <= body.len()
{
    if n <= 0 {
        0
    } else {
        let rest = bodies_depth(body, n - 1);
        let this: nat = match body[n - 1] {
            BodyType::Bundle(bp) => bundle_depth(bp),
            _ => 0,
        };
        if rest >= this {
            rest
        } else {
            this
        }
    }
}

/// The bundle-nesting depth of a normalized value: an object counts one
/// level for its `"body"` array and nests through that array's elements;
/// anything else has depth zero.
pub open spec fn wire_depth(v: JsonModel) -> nat
    decreases v, 1int, 0int,
{
    match v {
        JsonModel::Obj(entries) => wire_entries_depth(entries, entries.len() as int),
        _ => 0,
    }
}

/// The depth contributed by the first `n` entries of an object: a `"body"`
/// entry holding an array contributes one more than the deepest element.
pub open spec fn wire_entries_depth(entries: Seq<(Seq<char>, JsonModel)>, n: int) -> nat
    decreases entries, 0int, n,
        when 0 <= n <= entries.len()
{
    if n <= 0 {
        0
    } else {
        let rest = wire_entries_depth(entries, n - 1);
        let this: nat = if entries[n - 1].0 == "body"@ {
            match entries[n - 1].1 {
                JsonModel::Arr(items) => 1 + wire_items_depth(items, items.len() as int),
                _ => 0,
            }
        } else {
            0
        };
        if rest >= this {
            rest
        } else {
            this
        }
    }
}

/// The deepest of the first `m` elements of a body array.
pub open spec fn wire_items_depth(items: Seq<JsonModel>, m: int) -> nat
    decreases items, 0int, m,
        when 0 <= m <= items.len()
{
    if m <= 0 {
        0
    } else {
        let rest = wire_items_depth(items, m - 1);
        let this = wire_depth(items[m - 1]);
        if rest >= this {
            rest
        } else {
            this
        }
    }
}

pub proof fn lemma_munge_bodies_index(body: Seq<BodyType>)
    ensures
        spec_munge_bodies(body).len() == body.len(),
        forall|i: int|
            0 <= i < body.len() ==> #[trigger] spec_munge_bodies(body)[i] == spec_munge_body(
                body[i],
            ),
    decreases body.len(),
{
    if body.len() > 0 {
        lemma_munge_bodies_index(body.drop_last());
    }
}

proof fn lemma_body_elem_wire_depth(b: BodyType)
    ensures
        wire_depth(spec_munge_body(b)) == (match b {
            BodyType::Bundle(bp) => bundle_depth(bp),
            _ => 0,
        }),
    decreases b, 1int,
{
    reveal_strlit("body");
    assert("body"@.len() == 4);
    match b {
        BodyType::Hash(h) => {
            reveal_strlit("hash");
            assert("hash"@.len() == 4);
            assert("hash"@[0] == 'h' && "body"@[0] == 'b');
            let es = seq![("hash"@, JsonModel::Str(h@))];
            assert(wire_entries_depth(es, 0) == 0);
            assert(wire_entries_depth(es, 1) == 0);
        },
        BodyType::Tx { tx, can_revert } => {
            reveal_strlit("tx");
            reveal_strlit("canRevert");
            assert("tx"@.len() == 2);
            assert("canRevert"@.len() == 9);
            let es = seq![
                ("tx"@, JsonModel::Str(tx@)),
                ("canRevert"@, JsonModel::Bool(can_revert)),
            ];
            assert(wire_entries_depth(es, 0) == 0);
            assert(wire_entries_depth(es, 1) == 0);
            assert(wire_entries_depth(es, 2) == 0);
        },
        BodyType::Bundle(bp) => {
            lemma_munge_preserves_depth(bp);
        },
    }
}

proof fn lemma_bodies_wire_depth(body: Seq<BodyType>, m: int)
    requires
        0 <= m <= body.len(),
    ensures
        wire_items_depth(spec_munge_bodies(body), m) == bodies_depth(body, m),
    decreases body, m,
{
    lemma_munge_bodies_index(body);
    if m > 0 {
        lemma_bodies_wire_depth(body, m - 1);
        assert(decreases_to!(body => body[m - 1]));
        lemma_body_elem_wire_depth(body[m - 1]);
    }
}

/// Normalization preserves nesting: a bundle whose deepest nested bundle
/// sits `k` levels down produces a normalized object whose `"body"` arrays
/// nest exactly `k` levels down as well.
pub proof fn lemma_munge_preserves_depth(p: BundleParams)
    ensures
        wire_depth(spec_munge_bundle(p)) == bundle_depth(p),
    decreases p, 0int,
{
    reveal_strlit("version");
    reveal_strlit("inclusion");
    reveal_strlit("body");
    reveal_strlit("validity");
    reveal_strlit("hints");
    assert("version"@.len() == 7);
    assert("inclusion"@.len() == 9);
    assert("body"@.len() == 4);
    assert("validity"@.len() == 8);
    assert("hints"@.len() == 5);
    assert(decreases_to!(p => p.body));
    lemma_bodies_wire_depth(p.body@, p.body@.len() as int);
    let base = seq![
        ("version"@, JsonModel::Str(version_or_default(p.version))),
        ("inclusion"@, spec_inclusion(p.inclusion)),
        ("body"@, JsonModel::Arr(spec_munge_bodies(p.body@))),
        ("validity"@, spec_validity(p.validity)),
    ];
    let es = base + spec_privacy_hints(p.privacy);
    let items = spec_munge_bodies(p.body@);
    lemma_munge_bodies_index(p.body@);
    assert(es[0] == base[0]);
    assert(es[1] == base[1]);
    assert(es[2] == base[2]);
    assert(es[3] == base[3]);
    assert(es[0].0 != "body"@);
    assert(es[1].0 != "body"@);
    assert(es[3].0 != "body"@);
    assert(wire_entries_depth(es, 0) == 0);
    assert(wire_entries_depth(es, 1) == 0);
    assert(wire_entries_depth(es, 2) == 0);
    assert(wire_entries_depth(es, 3) == 1 + wire_items_depth(items, items.len() as int));
    assert(wire_entries_depth(es, 4) == 1 + wire_items_depth(items, items.len() as int));
    match p.privacy {
        Some(pr) => match pr.hints {
            Some(h) => {
                assert(es.len() == 5);
                assert(es[4].0 == "hints"@);
                assert(es[4].0 != "body"@);
                assert(wire_entries_depth(es, 5) == 1 + wire_items_depth(
                    items,
                    items.len() as int,
                ));
            },
            None => {
                assert(es =~= base);
            },
        },
        None => {
            assert(es =~= base);
        },
    }
}

/// With no validity given, the normalized bundle still carries a
/// `validity` object whose `refund` and `refundConfig` arrays are empty:
/// the key is never absent.
pub proof fn lemma_validity_always_present(p: BundleParams)
    requires
        p.validity is None,
    ensures
        obj_get(spec_munge_bundle(p), "validity"@) == Some(
            JsonModel::Obj(
                seq![
                    ("refund"@, JsonModel::Arr(Seq::<JsonModel>::empty())),
                    ("refundConfig"@, JsonModel::Arr(Seq::<JsonModel>::empty())),
                ],
            ),
        ),
{
    reveal_strlit("version");
    reveal_strlit("inclusion");
    reveal_strlit("body");
    reveal_strlit("validity");
    assert("version"@.len() == 7);
    assert("inclusion"@.len() == 9);
    assert("body"@.len() == 4);
    assert("validity"@.len() == 8);
    let base = seq![
        ("version"@, JsonModel::Str(version_or_default(p.version))),
        ("inclusion"@, spec_inclusion(p.inclusion)),
        ("body"@, JsonModel::Arr(spec_munge_bodies(p.body@))),
        ("validity"@, spec_validity(p.validity)),
    ];
    let es = base + spec_privacy_hints(p.privacy);
    assert(es[0] == base[0]);
    assert(es[0].0 != "validity"@);
    let es1 = es.drop_first();
    assert(es1[0] == base[1]);
    assert(es1[0].0 != "validity"@);
    let es2 = es1.drop_first();
    assert(es2[0] == base[2]);
    assert(es2[0].0 != "validity"@);
    let es3 = es2.drop_first();
    assert(es3[0] == base[3]);
    assert(es3[0].0 == "validity"@);
    assert(entries_get(es3, "validity"@) == Some(spec_validity(p.validity)));
    assert(entries_get(es2, "validity"@) == entries_get(es3, "validity"@));
    assert(entries_get(es1, "validity"@) == entries_get(es2, "validity"@));
    assert(entries_get(es, "validity"@) == entries_get(es1, "validity"@));
    assert(entries_get(es, "validity"@) == Some(spec_validity(p.validity)));
    assert(spec_validity(p.validity) == JsonModel::Obj(
        seq![
            ("refund"@, JsonModel::Arr(Seq::<JsonModel>::empty())),
            ("refundConfig"@, JsonModel::Arr(Seq::<JsonModel>::empty())),
        ],
    )) by {
        assert(spec_refund_list(p.validity) =~= Seq::<JsonModel>::empty());
        assert(spec_refund_config_list(p.validity) =~= Seq::<JsonModel>::empty());
        assert(spec_validity_entries(p.validity) =~~= seq![
            ("refund"@, JsonModel::Arr(Seq::<JsonModel>::empty())),
            ("refundConfig"@, JsonModel::Arr(Seq::<JsonModel>::empty())),
        ]);
    }
}

/// Whether every required simulation field is present: the parent block
/// and all four numeric fields.
pub open spec fn sim_options_complete(p: SimBundleOptions) -> bool {
    p.parent_block is Some && p.block_number is Some && p.timestamp is Some && p.gas_limit is Some
        && p.base_fee is Some
}

/// The wire value of the parent block: a number is hex-encoded, a literal
/// block-hash string passes through unchanged.
pub open spec fn spec_parent_block(p: ParentBlock) -> JsonModel {
    match p {
        ParentBlock::Number(n) => JsonModel::Str(hex_str(n as nat)),
        ParentBlock::Hash(h) => JsonModel::Str(h@),
    }
}

/// The entries of the normalized simulation object, defined when all
/// required fields are present. `coinbase` and `timeout` default to empty
/// strings; `timeout` is decimal, the numeric fields hex.
pub open spec fn spec_sim_entries(p: SimBundleOptions) -> Seq<(Seq<char>, JsonModel)> {
    seq![
        ("parentBlock"@, spec_parent_block(p.parent_block->0)),
        ("blockNumber"@, JsonModel::Str(hex_str(p.block_number->0 as nat))),
        ("timestamp"@, JsonModel::Str(hex_str(p.timestamp->0 as nat))),
        ("gasLimit"@, JsonModel::Str(hex_str(p.gas_limit->0 as nat))),
        ("baseFee"@, JsonModel::Str(hex_str(p.base_fee->0 as nat))),
        (
            "coinbase"@,
            JsonModel::Str(
                match p.coinbase {
                    Some(c) => c@,
                    None => Seq::empty(),
                },
            ),
        ),
        (
            "timeout"@,
            JsonModel::Str(
                match p.timeout {
                    Some(t) => dec_rep(t as nat),
                    None => Seq::empty(),
                },
            ),
        ),
    ]
}

/// The name of the first missing required numeric field, given that the
/// parent block is present but the options are incomplete.
pub open spec fn sim_first_missing(p: SimBundleOptions) -> Seq<char> {
    if p.block_number is None {
        "blockNumber"@
    } else if p.timestamp is None {
        "timestamp"@
    } else if p.gas_limit is None {
        "gasLimit"@
    } else {
        "baseFee"@
    }
}

/// Normalizes simulation options. Fails fast, before any network
/// interaction: with `MissingParentBlock` when neither parent-block
/// variant is set, and with `MissingRequiredField` naming the first absent
/// numeric field otherwise; succeeds exactly when the options are
/// complete.
pub fn munge_sim_bundle_options(params: SimBundleOptions) -> (r: Result<
    JsonVal,
    MatchmakerError,
>)
    ensures
        r is Ok <==> sim_options_complete(params),
        r matches Ok(v) ==> v@ == JsonModel::Obj(spec_sim_entries(params)),
        params.parent_block is None ==> (r matches Err(e) && e is MissingParentBlock),
        params.parent_block is Some && !sim_options_complete(params) ==> (r matches Err(e) && (
        e matches MatchmakerError::MissingRequiredField { field } && field@ == sim_first_missing(
            params,
        ))),
{
    let parent: JsonVal = match &params.parent_block {
        Some(ParentBlock::Number(n)) => JsonVal::Str(u64_to_hex(*n)),
        Some(ParentBlock::Hash(h)) => JsonVal::Str(h.clone()),
        None => {
            return Err(MatchmakerError::MissingParentBlock);
        },
    };
    let block_number: u64 = match params.block_number {
        Some(b) => b,
        None => {
            return Err(
                MatchmakerError::MissingRequiredField { field: String::from_str("blockNumber") },
            );
        },
    };
    let timestamp: u64 = match params.timestamp {
        Some(t) => t,
        None => {
            return Err(
                MatchmakerError::MissingRequiredField { field: String::from_str("timestamp") },
            );
        },
    };
    let gas_limit: u64 = match params.gas_limit {
        Some(g) => g,
        None => {
            return Err(
                MatchmakerError::MissingRequiredField { field: String::from_str("gasLimit") },
            );
        },
    };
    let base_fee: u128 = match params.base_fee {
        Some(f) => f,
        None => {
            return Err(
                MatchmakerError::MissingRequiredField { field: String::from_str("baseFee") },
            );
        },
    };
    let coinbase: String = match params.coinbase {
        Some(c) => c,
        None => String::new(),
    };
    let timeout: String = match params.timeout {
        Some(t) => u64_to_dec(t),
        None => String::new(),
    };
    let mut entries: Vec<(String, JsonVal)> = Vec::new();
    entries.push((String::from_str("parentBlock"), parent));
    entries.push((String::from_str("blockNumber"), JsonVal::Str(u64_to_hex(block_number))));
    entries.push((String::from_str("timestamp"), JsonVal::Str(u64_to_hex(timestamp))));
    entries.push((String::from_str("gasLimit"), JsonVal::Str(u64_to_hex(gas_limit))));
    entries.push((String::from_str("baseFee"), JsonVal::Str(u128_to_hex(base_fee))));
    entries.push((String::from_str("coinbase"), JsonVal::Str(coinbase)));
    entries.push((String::from_str("timeout"), JsonVal::Str(timeout)));
    proof {
        lemma_entry_models(entries@);
        assert(entry_models(entries@) =~~= spec_sim_entries(params));
    }
    Ok(JsonVal::Obj(entries))
}

} // verus!
