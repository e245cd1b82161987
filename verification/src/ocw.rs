//! An off-chain price feed: every fourth block an off-chain worker fetches the DOT price
//! from a web service, reads the `data.priceUsd` field of the JSON reply, and submits it
//! in a signed transaction; the on-chain module keeps the last `NUM_VEC_LEN` prices.
//!
//! The HTTP request and the signing of the transaction are done by the caller; this module
//! decides which task runs, reads the reply, and keeps the prices.

use vstd::prelude::*;
use std::collections::VecDeque;
use vstd::utf8::{valid_utf8, decode_utf8, encode_utf8};
use vstd::string::StrSliceExecFns;
use crate::json::{JsonValue, json_parse, json_field, spec_json_parse, spec_json_field, lemma_json_field_object};
use crate::origin::{AccountId, Origin, ensure_signed, signer_of};
use crate::poe::copy_bytes;

verus! {

/// How many prices the module keeps.
pub const NUM_VEC_LEN: usize = 10;

/// How long the worker waits for the web service, in milliseconds.
pub const FETCH_TIMEOUT_PERIOD: u64 = 3000;

/// The number of kinds of off-chain transactions the worker chooses among.
pub const TX_TYPES: u32 = 4;

/// The errors of the price feed.
#[derive(Clone, Copy, PartialEq, Eq, Debug)]
pub enum OcwError {
    /// The call is not signed.
    BadOrigin,
    /// The worker has nothing to do in this block.
    UnknownOffchainMux,
    /// No local account can sign the transaction.
    NoLocalAcctForSigning,
    /// Sending the signed transaction failed.
    OffchainSignedTxError,
    /// Sending an unsigned transaction failed.
    OffchainUnsignedTxError,
    /// Sending an unsigned transaction with a signed payload failed.
    OffchainUnsignedTxSignedPayloadError,
    /// The HTTP request failed, the reply's status was not 200, or its body is not JSON.
    HttpFetchingError,
    /// The reply's body is not UTF-8.
    FetchInfoError,
    /// Fetching the price failed.
    FetchPriceError,
}

/// The events of the price feed.
#[derive(PartialEq, Eq, Debug)]
pub enum OcwEvent {
    /// An account submitted a price.
    NewPrices(AccountId, Vec<u8>),
}

/// The task the off-chain worker runs in a block.
#[derive(Clone, Copy, PartialEq, Eq, Debug)]
pub enum OffchainTask {
    /// Fetch the price and submit it in a signed transaction.
    Signed,
}

/// The view of a stored price.
pub open spec fn price_view(p: Option<Vec<u8>>) -> Option<Seq<u8>> {
    match p {
        Some(v) => Some(v@),
        None => None,
    }
}

/// The prices after `price` was submitted to `prices`: the oldest is dropped where
/// `NUM_VEC_LEN` are kept, and `price` is appended.
pub open spec fn spec_submit(prices: Seq<Option<Seq<u8>>>, price: Seq<u8>) -> Seq<Option<Seq<u8>>> {
    let kept = if prices.len() == NUM_VEC_LEN { prices.drop_first() } else { prices };
    kept.push(Some(price))
}

/// The storage of the price feed.
pub struct OcwModule {
    dot_prices: VecDeque<Option<Vec<u8>>>,
}

impl View for OcwModule {
    type V = Seq<Option<Seq<u8>>>;

    closed spec fn view(&self) -> Seq<Option<Seq<u8>>> {
        self.dot_prices@.map_values(|p: Option<Vec<u8>>| price_view(p))
    }
}

impl OcwModule {
    /// The storage at genesis: no prices.
    pub fn new() -> (m: Self)
        ensures
            m@ == Seq::<Option<Seq<u8>>>::empty(),
    {
        let m = OcwModule { dot_prices: VecDeque::new() };
        assert(m@ =~= Seq::<Option<Seq<u8>>>::empty());
        m
    }

    /// The number of prices kept.
    pub fn len(&self) -> (r: usize)
        ensures
            r == self@.len(),
    {
        self.dot_prices.len()
    }

    /// The price kept at position `i`, the oldest first.
    pub fn price_at(&self, i: usize) -> (r: Option<Vec<u8>>)
        requires
            i < self@.len(),
        ensures
            price_view(r) == self@[i as int],
    {
        match &self.dot_prices[i] {
            Some(v) => Some(copy_bytes(v)),
            None => None,
        }
    }

    /// A signed account submits a price; the module keeps the last `NUM_VEC_LEN` prices.
    pub fn submit_dot_price(&mut self, origin: Origin, price: Vec<u8>) -> (r: Result<OcwEvent, OcwError>)
        ensures
            match signer_of(origin) {
                None => r == Err::<OcwEvent, OcwError>(OcwError::BadOrigin) && final(self)@ == old(self)@,
                Some(sender) => {
                    &&& final(self)@ == spec_submit(old(self)@, price@)
                    &&& r matches Ok(OcwEvent::NewPrices(who, p)) && who == sender && p@ == price@
                },
            },
    {
        let sender = match ensure_signed(origin) {
            Ok(s) => s,
            Err(_) => return Err(OcwError::BadOrigin),
        };
        let ghost pre = self.dot_prices@;
        if self.dot_prices.len() == NUM_VEC_LEN {
            let _ = self.dot_prices.pop_front();
        }
        let ghost mid = self.dot_prices@;
        self.dot_prices.push_back(Some(copy_bytes(&price)));
        proof {
            let f = |p: Option<Vec<u8>>| price_view(p);
            if pre.len() == NUM_VEC_LEN {
                assert(mid =~= pre.drop_first());
                assert(mid.map_values(f) =~= pre.map_values(f).drop_first());
            }
            assert(self.dot_prices@ =~= mid.push(self.dot_prices@.last()));
            assert(self.dot_prices@.map_values(f) =~= mid.map_values(f).push(Some(price@)));
        }
        Ok(OcwEvent::NewPrices(sender, price))
    }
}

/// The prices after each of `ps` was submitted in turn, starting from `prices`.
pub open spec fn submit_all(prices: Seq<Option<Seq<u8>>>, ps: Seq<Seq<u8>>) -> Seq<Option<Seq<u8>>>
    decreases ps.len(),
{
    if ps.len() == 0 {
        prices
    } else {
        spec_submit(submit_all(prices, ps.drop_last()), ps.last())
    }
}

/// The number of the oldest of `n` submissions that are no longer kept.
pub open spec fn dropped(n: nat) -> int {
    if n > NUM_VEC_LEN { n - NUM_VEC_LEN } else { 0 }
}

/// A submission keeps at most `NUM_VEC_LEN` prices, and the submitted price is the newest.
pub proof fn lemma_submit_bounded(prices: Seq<Option<Seq<u8>>>, price: Seq<u8>)
    requires
        prices.len() <= NUM_VEC_LEN,
    ensures
        spec_submit(prices, price).len() <= NUM_VEC_LEN,
        spec_submit(prices, price).last() == Some(price),
        spec_submit(prices, price) == prices.push(Some(price)).skip(dropped(prices.len() + 1)),
{
    assert(spec_submit(prices, price) =~= prices.push(Some(price)).skip(dropped(prices.len() + 1)));
}

/// From genesis, the module keeps the last `NUM_VEC_LEN` submitted prices, oldest first.
pub proof fn lemma_keeps_latest_prices(ps: Seq<Seq<u8>>)
    ensures
        submit_all(Seq::empty(), ps) == ps.map_values(|p: Seq<u8>| Some(p)).skip(dropped(ps.len())),
    decreases ps.len(),
{
    let f = |p: Seq<u8>| Some(p);
    if ps.len() > 0 {
        let q = ps.drop_last();
        lemma_keeps_latest_prices(q);
        let before = submit_all(Seq::empty(), q);
        assert(before == q.map_values(f).skip(dropped(q.len())));
        assert(ps.map_values(f) =~= q.map_values(f).push(Some(ps.last())));
        assert(submit_all(Seq::empty(), ps) =~= ps.map_values(f).skip(dropped(ps.len())));
    } else {
        assert(ps.map_values(f).skip(0) =~= Seq::<Option<Seq<u8>>>::empty());
    }
}

/// The worker submits the price exactly in the blocks whose number is 3 modulo 4 (and
/// fits in a `usize`).
pub proof fn lemma_signed_task_blocks(block_number: u64)
    ensures
        spec_offchain_mux(block_number) == 3 <==> (block_number <= usize::MAX && block_number % 4 == 3),
{
    assert((block_number as u32) % 4 == (block_number % 4) as u32) by (bit_vector);
}

/// Which kind of transaction the worker sends in block `block_number`: the block number
/// modulo `TX_TYPES` where it fits in a `usize`, else `TX_TYPES`.
pub open spec fn spec_offchain_mux(block_number: u64) -> u32 {
    if block_number <= usize::MAX {
        ((block_number as u32) % TX_TYPES) as u32
    } else {
        TX_TYPES
    }
}

/// Which kind of transaction the worker sends in block `block_number`.
pub fn offchain_mux(block_number: u64) -> (r: u32)
    ensures
        r == spec_offchain_mux(block_number),
{
    if block_number <= usize::MAX as u64 {
        let bn = block_number as usize;
        (bn as u32) % TX_TYPES
    } else {
        TX_TYPES
    }
}

/// The task the off-chain worker runs in block `block_number`: the signed submission
/// where the kind is 3, none otherwise.
pub fn offchain_task(block_number: u64) -> (r: Result<OffchainTask, OcwError>)
    ensures
        spec_offchain_mux(block_number) == 3 ==> r == Ok::<OffchainTask, OcwError>(OffchainTask::Signed),
        spec_offchain_mux(block_number) != 3 ==> r == Err::<OffchainTask, OcwError>(OcwError::UnknownOffchainMux),
{
    let modu = offchain_mux(block_number);
    match modu {
        3 => Ok(OffchainTask::Signed),
        _ => Err(OcwError::UnknownOffchainMux),
    }
}

/// The body of an HTTP reply, where its status code is 200.
pub fn response_body(code: u16, body: Vec<u8>) -> (r: Result<Vec<u8>, OcwError>)
    ensures
        code != 200 ==> r == Err::<Vec<u8>, OcwError>(OcwError::HttpFetchingError),
        code == 200 ==> (r matches Ok(b) && b@ == body@),
{
    if code != 200 {
        return Err(OcwError::HttpFetchingError);
    }
    Ok(body)
}

/// Calls `std::str::from_utf8`. Claimed, as its documentation says: the bytes are read as a
/// string exactly where they are valid UTF-8, and the string is the one they encode.
#[verifier::external_body]
fn utf8_str(bytes: &[u8]) -> (r: Option<&str>)
    ensures
        r is Some <==> valid_utf8(bytes@),
        r matches Some(s) ==> s@ == decode_utf8(bytes@),
{
    std::str::from_utf8(bytes).ok()
}

/// The view of a fetch outcome.
pub open spec fn fetch_view(r: Result<Vec<u8>, OcwError>) -> Result<Seq<u8>, OcwError> {
    match r {
        Ok(v) => Ok(v@),
        Err(e) => Err(e),
    }
}

/// The name of the reply's member that holds the quote.
pub open spec fn data_key() -> Seq<char> {
    seq!['d', 'a', 't', 'a']
}

/// The name of the quote's member that holds the price in US dollars.
pub open spec fn price_usd_key() -> Seq<char> {
    seq!['p', 'r', 'i', 'c', 'e', 'U', 's', 'd']
}

/// The price text of a reply: its field `data.priceUsd`, where that is a string.
pub open spec fn spec_price_text(asset: JsonValue) -> Option<Seq<char>> {
    match spec_json_field(asset, data_key()) {
        Some(data) => match spec_json_field(data, price_usd_key()) {
            Some(JsonValue::Str(s)) => Some(s@),
            _ => None,
        },
        None => None,
    }
}

/// The price of a quote is its string member `priceUsd` inside its member `data`, whatever
/// the other members of either object hold.
pub proof fn lemma_price_found(
    members: Vec<(String, JsonValue)>,
    i: int,
    data_members: Vec<(String, JsonValue)>,
    k: int,
    price: String,
)
    requires
        0 <= i < members@.len(),
        members@[i].0@ == data_key(),
        forall|j: int| 0 <= j < i ==> (#[trigger] members@[j]).0@ != data_key(),
        members@[i].1 == JsonValue::Object(data_members),
        0 <= k < data_members@.len(),
        data_members@[k].0@ == price_usd_key(),
        forall|j: int| 0 <= j < k ==> (#[trigger] data_members@[j]).0@ != price_usd_key(),
        data_members@[k].1 == JsonValue::Str(price),
    ensures
        spec_price_text(JsonValue::Object(members)) == Some(price@),
{
    lemma_json_field_object(members, data_key(), i);
    lemma_json_field_object(data_members, price_usd_key(), k);
}

/// The price the worker submits, given the outcome of the fetch: the UTF-8 bytes of the
/// reply's string field `data.priceUsd`; `None` where the reply is JSON without that field
/// (there the worker stops without a price).
pub open spec fn spec_signed_price(fetched: Result<Seq<u8>, OcwError>) -> Option<Result<Seq<u8>, OcwError>> {
    match fetched {
        Err(_) => Some(Err(OcwError::FetchPriceError)),
        Ok(body) => {
            if !valid_utf8(body) {
                Some(Err(OcwError::FetchInfoError))
            } else {
                match spec_json_parse(decode_utf8(body)) {
                    None => Some(Err(OcwError::HttpFetchingError)),
                    Some(asset) => match spec_price_text(asset) {
                        Some(text) => Some(Ok(encode_utf8(text))),
                        None => None,
                    },
                }
            }
        },
    }
}

/// The UTF-8 bytes of the price in a quote: its string field `data.priceUsd`, if any.
pub fn price_usd_bytes(asset: &JsonValue) -> (r: Option<Vec<u8>>)
    ensures
        match spec_price_text(*asset) {
            Some(text) => r matches Some(b) && b@ == encode_utf8(text),
            None => r is None,
        },
{
    proof {
        reveal_strlit("data");
        reveal_strlit("priceUsd");
        assert("data"@ =~= data_key());
        assert("priceUsd"@ =~= price_usd_key());
    }
    let data = match json_field(asset, "data") {
        Some(d) => d,
        None => return None,
    };
    match json_field(data, "priceUsd") {
        Some(JsonValue::Str(price)) => {
            let text: &str = price.as_str();
            Some(text.as_bytes_vec())
        },
        _ => None,
    }
}

/// The price the worker submits in its signed transaction, given the outcome of the fetch:
/// the fetch's failure, a body that is not UTF-8 and a body that is not JSON each give their
/// error; `None` where the reply holds no string field `data.priceUsd` (the worker stops
/// there without a result). This is the worker's step between the fetch and the submission;
/// the outcome of the submission does not change the worker's result.
pub fn try_offchain_signed_price(fetched: Result<Vec<u8>, OcwError>) -> (r: Option<Result<Vec<u8>, OcwError>>)
    ensures
        match (r, spec_signed_price(fetch_view(fetched))) {
            (None, None) => true,
            (Some(x), Some(y)) => fetch_view(x) == y,
            _ => false,
        },
{
    let price_data = match fetched {
        Ok(d) => d,
        Err(_) => return Some(Err(OcwError::FetchPriceError)),
    };
    let info_str = match utf8_str(price_data.as_slice()) {
        Some(s) => s,
        None => return Some(Err(OcwError::FetchInfoError)),
    };
    let asset = match json_parse(info_str) {
        Ok(a) => a,
        Err(_) => return Some(Err(OcwError::HttpFetchingError)),
    };
    match price_usd_bytes(&asset) {
        Some(price) => Some(Ok(price)),
        None => None,
    }
}

} // verus!
