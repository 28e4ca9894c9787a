//! Projection of raw matchmaker stream events into the two caller-facing
//! views: a single-transaction view using only the first revealed fragment,
//! and a whole-bundle view retaining the full fragment list. Hash, logs and
//! the MEV gas price / gas used figures pass through unchanged, still as
//! hexadecimal strings.

use vstd::prelude::*;

use crate::interface::{IMatchmakerEvent, Log, TxData};

verus! {

/// Whether two log records carry the same values.
pub open spec fn log_eq(a: Log, b: Log) -> bool {
    a.address@ == b.address@ && a.data@ == b.data@ && a.topics.deep_view() == b.topics.deep_view()
}

/// Whether two optional log lists carry the same values, elementwise.
pub open spec fn logs_eq(a: Option<Vec<Log>>, b: Option<Vec<Log>>) -> bool {
    match (a, b) {
        (Option::None, Option::None) => true,
        (Option::Some(x), Option::Some(y)) => x@.len() == y@.len() && (forall|i: int|
            0 <= i < x@.len() ==> log_eq(#[trigger] x@[i], y@[i])),
        _ => false,
    }
}

/// Whether two transaction fragments carry the same values.
pub open spec fn tx_data_eq(a: TxData, b: TxData) -> bool {
    a.to@ == b.to@ && a.function_selector@ == b.function_selector@ && a.call_data@ == b.call_data@
}

/// Whether two optional fragment lists carry the same values, elementwise.
pub open spec fn txs_eq(a: Option<Vec<TxData>>, b: Option<Vec<TxData>>) -> bool {
    match (a, b) {
        (Option::None, Option::None) => true,
        (Option::Some(x), Option::Some(y)) => x@.len() == y@.len() && (forall|i: int|
            0 <= i < x@.len() ==> tx_data_eq(#[trigger] x@[i], y@[i])),
        _ => false,
    }
}

/// Whether two optional strings carry the same characters.
pub open spec fn opt_str_eq(a: Option<String>, b: Option<String>) -> bool {
    match (a, b) {
        (Option::None, Option::None) => true,
        (Option::Some(x), Option::Some(y)) => x@ == y@,
        _ => false,
    }
}

fn clone_strings(v: &Vec<String>) -> (r: Vec<String>)
    ensures
        r.deep_view() == v.deep_view(),
{
    let mut r: Vec<String> = Vec::new();
    let mut i: usize = 0;
    while i < v.len()
        invariant
            i <= v@.len(),
            r@.len() == i,
            forall|j: int| 0 <= j < i ==> #[trigger] r@[j]@ == v@[j]@,
        decreases v@.len() - i,
    {
        r.push(v[i].clone());
        i = i + 1;
    }
    proof {
        assert(r.deep_view() =~~= v.deep_view());
    }
    r
}

fn clone_log(l: &Log) -> (r: Log)
    ensures
        log_eq(r, *l),
{
    Log { address: l.address.clone(), topics: clone_strings(&l.topics), data: l.data.clone() }
}

fn clone_opt_logs(v: &Option<Vec<Log>>) -> (r: Option<Vec<Log>>)
    ensures
        logs_eq(r, *v),
{
    match v {
        None => None,
        Some(logs) => {
            let mut r: Vec<Log> = Vec::new();
            let mut i: usize = 0;
            while i < logs.len()
                invariant
                    i <= logs@.len(),
                    r@.len() == i,
                    forall|j: int| 0 <= j < i ==> log_eq(#[trigger] r@[j], logs@[j]),
                decreases logs@.len() - i,
            {
                r.push(clone_log(&logs[i]));
                i = i + 1;
            }
            Some(r)
        },
    }
}

fn clone_tx_data(t: &TxData) -> (r: TxData)
    ensures
        tx_data_eq(r, *t),
{
    TxData {
        to: t.to.clone(),
        function_selector: t.function_selector.clone(),
        call_data: t.call_data.clone(),
    }
}

fn clone_opt_txs(v: &Option<Vec<TxData>>) -> (r: Option<Vec<TxData>>)
    ensures
        txs_eq(r, *v),
{
    match v {
        None => None,
        Some(txs) => {
            let mut r: Vec<TxData> = Vec::new();
            let mut i: usize = 0;
            while i < txs.len()
                invariant
                    i <= txs@.len(),
                    r@.len() == i,
                    forall|j: int| 0 <= j < i ==> tx_data_eq(#[trigger] r@[j], txs@[j]),
                decreases txs@.len() - i,
            {
                r.push(clone_tx_data(&txs[i]));
                i = i + 1;
            }
            Some(r)
        },
    }
}

fn clone_opt_string(v: &Option<String>) -> (r: Option<String>)
    ensures
        opt_str_eq(r, *v),
{
    match v {
        None => None,
        Some(s) => Some(s.clone()),
    }
}

/// The single-transaction view of a stream event.
#[derive(Debug)]
pub struct PendingTransaction {
    pub hash: String,
    pub logs: Option<Vec<Log>>,
    pub to: Option<String>,
    pub function_selector: Option<String>,
    pub call_data: Option<String>,
    pub mev_gas_price: Option<String>,
    pub gas_used: Option<String>,
}

impl PendingTransaction {
    /// Projects an event into its single-transaction view, reading only the
    /// first revealed transaction fragment, if there is one; everything
    /// else passes through unchanged.
    pub fn new(event: &IMatchmakerEvent) -> (r: Self)
        ensures
            r.hash@ == event.hash@,
            logs_eq(r.logs, event.logs),
            opt_str_eq(r.mev_gas_price, event.mev_gas_price),
            opt_str_eq(r.gas_used, event.gas_used),
            event.txs is Some && event.txs->0@.len() > 0 ==> {
                &&& r.to matches Some(t) && t@ == event.txs->0@[0].to@
                &&& r.function_selector matches Some(f) && f@
                    == event.txs->0@[0].function_selector@
                &&& r.call_data matches Some(c) && c@ == event.txs->0@[0].call_data@
            },
            event.txs is None || (event.txs is Some && event.txs->0@.len() == 0) ==> {
                &&& r.to is None
                &&& r.function_selector is None
                &&& r.call_data is None
            },
    {
        let first: Option<&TxData> = match &event.txs {
            Some(txs) => if txs.len() > 0 {
                Some(&txs[0])
            } else {
                None
            },
            None => None,
        };
        let (to, function_selector, call_data) = match first {
            Some(t) => (
                Some(t.to.clone()),
                Some(t.function_selector.clone()),
                Some(t.call_data.clone()),
            ),
            None => (None, None, None),
        };
        Self {
            hash: event.hash.clone(),
            logs: clone_opt_logs(&event.logs),
            to,
            function_selector,
            call_data,
            mev_gas_price: clone_opt_string(&event.mev_gas_price),
            gas_used: clone_opt_string(&event.gas_used),
        }
    }
}

/// The whole-bundle view of a stream event.
#[derive(Debug)]
pub struct PendingBundle {
    pub hash: String,
    pub logs: Option<Vec<Log>>,
    pub txs: Option<Vec<TxData>>,
    pub mev_gas_price: Option<String>,
    pub gas_used: Option<String>,
}

impl PendingBundle {
    /// Projects an event into its bundle view, retaining the full fragment
    /// list; everything passes through unchanged.
    pub fn new(event: &IMatchmakerEvent) -> (r: Self)
        ensures
            r.hash@ == event.hash@,
            logs_eq(r.logs, event.logs),
            txs_eq(r.txs, event.txs),
            opt_str_eq(r.mev_gas_price, event.mev_gas_price),
            opt_str_eq(r.gas_used, event.gas_used),
    {
        Self {
            hash: event.hash.clone(),
            logs: clone_opt_logs(&event.logs),
            txs: clone_opt_txs(&event.txs),
            mev_gas_price: clone_opt_string(&event.mev_gas_price),
            gas_used: clone_opt_string(&event.gas_used),
        }
    }
}

} // verus!
