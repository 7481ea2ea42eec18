//! The live data source: classification of the remote provider's
//! responses, with one fallback hop.
//!
//! The surrounding binary issues the HTTP calls and reports each answer
//! as a [`TransportEvent`]; everything after that — the decision to fall
//! back, the error taxonomy, and the payload checks — is verified here.
//! A forbidden status on the primary endpoint, and nothing else, sends
//! the fetch to the cheaper single-quote endpoint; its result is tagged
//! as degraded so no caller can mistake it for a full series. There is
//! exactly one fallback hop: no retry, no backoff.

use vstd::prelude::*;
use crate::num::{
    is_price_bytes, price_value, is_i64_bytes, i64_value, is_u64_bytes, dec_value,
    parse_price, parse_i64, parse_u64, bytes_eq, views_of,
};

verus! {

/// One outbound call's answer, as the transport layer saw it: the body
/// of a success response, the provider's forbidden signal, a transport
/// failure (connection error or timeout), or any other non-success
/// status with its code.
#[derive(Clone, Debug, PartialEq, Eq)]
pub enum TransportEvent {
    Success(Vec<u8>),
    Forbidden,
    TransportError,
    OtherStatus(u16),
}

/// Which of the two endpoints an error came from, so a caller can tell
/// "both endpoints failed" from "primary failed, no fallback attempted".
#[derive(Clone, Copy, Debug, PartialEq, Eq, Structural)]
pub enum FetchPhase {
    Primary,
    Fallback,
}

/// The classified ways a live fetch can fail. Every failure is terminal
/// for the call that produced it: nothing is retried beyond the one
/// documented fallback hop.
#[derive(Clone, Copy, Debug, PartialEq, Eq, Structural)]
pub enum FetchError {
    /// The API key was absent, detected before any outbound call.
    MissingCredential,
    /// The endpoint could not be reached at the transport level.
    ProviderUnreachable(FetchPhase),
    /// The endpoint answered with a non-success, non-forbidden status.
    ProviderError(FetchPhase, u16),
    /// The transport succeeded but the payload's status token was not
    /// the provider's "ok" sentinel: no usable data.
    NoData,
    /// The body could not be decoded into the expected shape.
    SchemaError,
}

/// The mathematical content of a candle series: four price arrays in
/// ten-thousandths, the status token bytes, timestamps and volumes.
pub struct CandleModel {
    pub c: Seq<int>,
    pub h: Seq<int>,
    pub l: Seq<int>,
    pub o: Seq<int>,
    pub s: Seq<u8>,
    pub t: Seq<int>,
    pub v: Seq<int>,
}

/// The primary endpoint's time-series body: parallel arrays of close,
/// high, low and open prices, a status token, timestamps and volumes.
/// Valid only when all arrays have the same length.
#[derive(Clone, Debug, PartialEq, Eq)]
pub struct FinnhubCandle {
    pub c: Vec<i64>,
    pub h: Vec<i64>,
    pub l: Vec<i64>,
    pub o: Vec<i64>,
    pub s: Vec<u8>,
    pub t: Vec<i64>,
    pub v: Vec<u64>,
}

pub open spec fn ints_of(s: Seq<i64>) -> Seq<int> {
    s.map_values(|x: i64| x as int)
}

pub open spec fn uints_of(s: Seq<u64>) -> Seq<int> {
    s.map_values(|x: u64| x as int)
}

impl View for FinnhubCandle {
    type V = CandleModel;

    open spec fn view(&self) -> CandleModel {
        CandleModel {
            c: ints_of(self.c@),
            h: ints_of(self.h@),
            l: ints_of(self.l@),
            o: ints_of(self.o@),
            s: self.s@,
            t: ints_of(self.t@),
            v: uints_of(self.v@),
        }
    }
}

impl FinnhubCandle {
    /// All parallel arrays have the same length.
    pub open spec fn well_formed(&self) -> bool {
        &&& self@.h.len() == self@.c.len()
        &&& self@.l.len() == self@.c.len()
        &&& self@.o.len() == self@.c.len()
        &&& self@.t.len() == self@.c.len()
        &&& self@.v.len() == self@.c.len()
    }
}

/// The mathematical content of a fallback quote.
pub struct QuoteModel {
    pub c: int,
    pub h: int,
    pub l: int,
    pub o: int,
    pub pc: int,
}

/// The fallback endpoint's body: one point-in-time observation with
/// current, high, low, open and previous-close prices. No series, no
/// volume, no timestamps — structurally different from a candle series
/// and never convertible to one.
#[derive(Clone, Copy, Debug, PartialEq, Eq, Structural)]
pub struct QuoteSnapshot {
    pub c: i64,
    pub h: i64,
    pub l: i64,
    pub o: i64,
    pub pc: i64,
}

impl View for QuoteSnapshot {
    type V = QuoteModel;

    open spec fn view(&self) -> QuoteModel {
        QuoteModel {
            c: self.c as int,
            h: self.h as int,
            l: self.l as int,
            o: self.o as int,
            pc: self.pc as int,
        }
    }
}

/// The textual content of the candle fields as the JSON layer hands
/// them out: each number as its decimal text.
pub struct RawCandleModel {
    pub c: Seq<Seq<u8>>,
    pub h: Seq<Seq<u8>>,
    pub l: Seq<Seq<u8>>,
    pub o: Seq<Seq<u8>>,
    pub s: Seq<u8>,
    pub t: Seq<Seq<u8>>,
    pub v: Seq<Seq<u8>>,
}

/// The candle body's fields as decimal text, straight out of the JSON
/// layer and not yet checked.
#[derive(Clone, Debug, PartialEq, Eq)]
pub struct RawCandle {
    pub c: Vec<Vec<u8>>,
    pub h: Vec<Vec<u8>>,
    pub l: Vec<Vec<u8>>,
    pub o: Vec<Vec<u8>>,
    pub s: Vec<u8>,
    pub t: Vec<Vec<u8>>,
    pub v: Vec<Vec<u8>>,
}

impl View for RawCandle {
    type V = RawCandleModel;

    open spec fn view(&self) -> RawCandleModel {
        RawCandleModel {
            c: views_of(self.c@),
            h: views_of(self.h@),
            l: views_of(self.l@),
            o: views_of(self.o@),
            s: self.s@,
            t: views_of(self.t@),
            v: views_of(self.v@),
        }
    }
}

/// The textual content of the quote fields.
pub struct RawQuoteModel {
    pub c: Seq<u8>,
    pub h: Seq<u8>,
    pub l: Seq<u8>,
    pub o: Seq<u8>,
    pub pc: Seq<u8>,
}

/// The quote body's five fields as decimal text, straight out of the
/// JSON layer and not yet checked.
#[derive(Clone, Debug, PartialEq, Eq)]
pub struct RawQuote {
    pub c: Vec<u8>,
    pub h: Vec<u8>,
    pub l: Vec<u8>,
    pub o: Vec<u8>,
    pub pc: Vec<u8>,
}

impl View for RawQuote {
    type V = RawQuoteModel;

    open spec fn view(&self) -> RawQuoteModel {
        RawQuoteModel {
            c: self.c@,
            h: self.h@,
            l: self.l@,
            o: self.o@,
            pc: self.pc@,
        }
    }
}

/// What the candle body's bytes decode to: the fields as decimal text,
/// or nothing when the body is not a JSON object of that shape.
pub uninterp spec fn candle_fields_of(body: Seq<u8>) -> Option<RawCandle>;

/// What the quote body's bytes decode to.
pub uninterp spec fn quote_fields_of(body: Seq<u8>) -> Option<RawQuote>;

/// Relies on serde_json::from_slice and the Display form of
/// serde_json::Value: both are functions of the bytes alone, so the
/// extracted fields are named by `candle_fields_of`. Returns the
/// candle body's seven fields, each number as its decimal text.
#[verifier::external_body]
fn parse_candle_fields(body: &[u8]) -> (r: Option<RawCandle>)
    ensures
        r == candle_fields_of(body@),
{
    let v: serde_json::Value = serde_json::from_slice(body).ok()?;
    let arr = |k: &str| -> Option<Vec<Vec<u8>>> {
        Some(v.get(k)?.as_array()?.iter().map(|x| x.to_string().into_bytes()).collect())
    };
    Some(RawCandle {
        c: arr("c")?,
        h: arr("h")?,
        l: arr("l")?,
        o: arr("o")?,
        s: v.get("s")?.as_str()?.as_bytes().to_vec(),
        t: arr("t")?,
        v: arr("v")?,
    })
}

/// Relies on serde_json::from_slice and the Display form of
/// serde_json::Value, as `parse_candle_fields` does; the extracted
/// fields are named by `quote_fields_of`.
#[verifier::external_body]
fn parse_quote_fields(body: &[u8]) -> (r: Option<RawQuote>)
    ensures
        r == quote_fields_of(body@),
{
    let v: serde_json::Value = serde_json::from_slice(body).ok()?;
    let num = |k: &str| -> Option<Vec<u8>> { Some(v.get(k)?.to_string().into_bytes()) };
    Some(RawQuote { c: num("c")?, h: num("h")?, l: num("l")?, o: num("o")?, pc: num("pc")? })
}

/// The provider's "ok" status sentinel.
pub open spec fn ok_token() -> Seq<u8> {
    seq![111u8, 107u8]
}

pub open spec fn all_price_fields(xs: Seq<Seq<u8>>) -> bool {
    forall|k: int| 0 <= k < xs.len() ==> is_price_bytes(#[trigger] xs[k])
}

pub open spec fn price_values(xs: Seq<Seq<u8>>) -> Seq<int> {
    Seq::new(xs.len(), |k: int| price_value(xs[k]))
}

pub open spec fn all_i64_fields(xs: Seq<Seq<u8>>) -> bool {
    forall|k: int| 0 <= k < xs.len() ==> is_i64_bytes(#[trigger] xs[k])
}

pub open spec fn i64_values(xs: Seq<Seq<u8>>) -> Seq<int> {
    Seq::new(xs.len(), |k: int| i64_value(xs[k]))
}

pub open spec fn all_u64_fields(xs: Seq<Seq<u8>>) -> bool {
    forall|k: int| 0 <= k < xs.len() ==> is_u64_bytes(#[trigger] xs[k])
}

pub open spec fn u64_values(xs: Seq<Seq<u8>>) -> Seq<int> {
    Seq::new(xs.len(), |k: int| dec_value(xs[k]))
}

/// What a raw candle's text denotes: the parsed series, or nothing when
/// any field is malformed or the arrays disagree in length.
pub open spec fn candle_of_raw(m: RawCandleModel) -> Option<CandleModel> {
    if all_price_fields(m.c) && all_price_fields(m.h) && all_price_fields(m.l)
        && all_price_fields(m.o) && all_i64_fields(m.t) && all_u64_fields(m.v)
        && m.h.len() == m.c.len() && m.l.len() == m.c.len() && m.o.len() == m.c.len()
        && m.t.len() == m.c.len() && m.v.len() == m.c.len() {
        Some(
            CandleModel {
                c: price_values(m.c),
                h: price_values(m.h),
                l: price_values(m.l),
                o: price_values(m.o),
                s: m.s,
                t: i64_values(m.t),
                v: u64_values(m.v),
            },
        )
    } else {
        None
    }
}

/// What a raw quote's text denotes.
pub open spec fn quote_of_raw(m: RawQuoteModel) -> Option<QuoteModel> {
    if is_price_bytes(m.c) && is_price_bytes(m.h) && is_price_bytes(m.l) && is_price_bytes(m.o)
        && is_price_bytes(m.pc) {
        Some(
            QuoteModel {
                c: price_value(m.c),
                h: price_value(m.h),
                l: price_value(m.l),
                o: price_value(m.o),
                pc: price_value(m.pc),
            },
        )
    } else {
        None
    }
}

/// The step the fetch takes after the primary endpoint's answer:
/// either it is done, or exactly one fallback call is owed.
#[derive(Debug, PartialEq, Eq)]
pub enum FetchStep {
    /// The provider's forbidden signal arrived: try the quote endpoint.
    NeedFallback,
    /// The fetch is over, with a tagged result or a classified failure.
    Done(Result<FetchOutcome, FetchError>),
}

/// The one normalized result of a fetch: a full candle series from the
/// primary endpoint, or — with its own discriminant that every consumer
/// must inspect — a degraded single quote from the fallback endpoint.
#[derive(Clone, Debug, PartialEq, Eq)]
pub enum FetchOutcome {
    Candle(FinnhubCandle),
    FallbackQuote(QuoteSnapshot),
}

/// How the fetch answers a decoded candle payload: a schema failure for
/// an undecodable body, no-data for a status token other than "ok", and
/// the well-formed series otherwise.
pub open spec fn candle_outcome_rel(raw: Option<RawCandle>, r: FetchStep) -> bool {
    match raw {
        Option::None => r == FetchStep::Done(Result::<FetchOutcome, FetchError>::Err(
            FetchError::SchemaError,
        )),
        Option::Some(rc) => match candle_of_raw(rc@) {
            Option::None => r == FetchStep::Done(Result::<FetchOutcome, FetchError>::Err(
                FetchError::SchemaError,
            )),
            Option::Some(cm) => if cm.s == ok_token() {
                &&& r matches FetchStep::Done(res)
                &&& res matches Result::Ok(out)
                &&& out matches FetchOutcome::Candle(c)
                &&& c@ == cm
            } else {
                r == FetchStep::Done(Result::<FetchOutcome, FetchError>::Err(FetchError::NoData))
            },
        },
    }
}

/// How the fetch reacts to the primary endpoint's transport event.
pub open spec fn primary_step_rel(e: TransportEvent, r: FetchStep) -> bool {
    match e {
        TransportEvent::TransportError => r == FetchStep::Done(
            Result::<FetchOutcome, FetchError>::Err(
                FetchError::ProviderUnreachable(FetchPhase::Primary),
            ),
        ),
        TransportEvent::Forbidden => r == FetchStep::NeedFallback,
        TransportEvent::OtherStatus(code) => r == FetchStep::Done(
            Result::<FetchOutcome, FetchError>::Err(
                FetchError::ProviderError(FetchPhase::Primary, code),
            ),
        ),
        TransportEvent::Success(body) => candle_outcome_rel(candle_fields_of(body@), r),
    }
}

/// How the fetch answers a decoded quote payload.
pub open spec fn quote_outcome_rel(raw: Option<RawQuote>, r: Result<FetchOutcome, FetchError>) -> bool {
    match raw {
        Option::None => r == Result::<FetchOutcome, FetchError>::Err(FetchError::SchemaError),
        Option::Some(rq) => match quote_of_raw(rq@) {
            Option::None => r == Result::<FetchOutcome, FetchError>::Err(FetchError::SchemaError),
            Option::Some(qm) => {
                &&& r matches Result::Ok(out)
                &&& out matches FetchOutcome::FallbackQuote(q)
                &&& q@ == qm
            },
        },
    }
}

/// How the fetch reacts to the fallback endpoint's transport event.
/// Every failure here is classified as in the primary phase but tagged
/// as happening during fallback; the forbidden status is no signal any
/// more, only the non-success status it is.
pub open spec fn fallback_step_rel(e: TransportEvent, r: Result<FetchOutcome, FetchError>) -> bool {
    match e {
        TransportEvent::TransportError => r == Result::<FetchOutcome, FetchError>::Err(
            FetchError::ProviderUnreachable(FetchPhase::Fallback),
        ),
        TransportEvent::Forbidden => r == Result::<FetchOutcome, FetchError>::Err(
            FetchError::ProviderError(FetchPhase::Fallback, 403),
        ),
        TransportEvent::OtherStatus(code) => r == Result::<FetchOutcome, FetchError>::Err(
            FetchError::ProviderError(FetchPhase::Fallback, code),
        ),
        TransportEvent::Success(body) => quote_outcome_rel(quote_fields_of(body@), r),
    }
}

/// Classifies one completed HTTP answer into the event the state
/// machine reacts to. The standard forbidden code, 403, is recognized
/// on its own — it is the sole fallback trigger — a success status
/// carries the body through, and every other status keeps its code.
/// A transport failure never reaches this function: the caller reports
/// it as `TransportError` directly.
pub fn classify_response(status: u16, body: Vec<u8>) -> (e: TransportEvent)
    ensures
        status == 403 ==> e == TransportEvent::Forbidden,
        200 <= status < 300 ==> e == TransportEvent::Success(body),
        status != 403 && !(200 <= status < 300) ==> e == TransportEvent::OtherStatus(status),
{
    if status == 403 {
        TransportEvent::Forbidden
    } else if 200 <= status && status < 300 {
        TransportEvent::Success(body)
    } else {
        TransportEvent::OtherStatus(status)
    }
}

/// Rejects an absent API key before any outbound call is attempted.
pub fn check_credential(api_key: &[u8]) -> (r: Result<(), FetchError>)
    ensures
        r is Ok <==> api_key@.len() > 0,
        r matches Err(e) ==> e == FetchError::MissingCredential,
{
    if api_key.len() == 0 {
        Err(FetchError::MissingCredential)
    } else {
        Ok(())
    }
}

/// Parses every price field of a candle array, exactly when all of them
/// are well-formed decimal text.
fn parse_price_list(xs: &Vec<Vec<u8>>) -> (r: Option<Vec<i64>>)
    ensures
        r is Some <==> all_price_fields(views_of(xs@)),
        r matches Some(v) ==> ints_of(v@) == price_values(views_of(xs@)),
{
    let mut out: Vec<i64> = Vec::new();
    let mut i: usize = 0;
    while i < xs.len()
        invariant
            0 <= i <= xs@.len(),
            out@.len() == i,
            forall|k: int| 0 <= k < i ==> is_price_bytes(#[trigger] views_of(xs@)[k]),
            forall|k: int| 0 <= k < i ==> (#[trigger] out@[k]) == price_value(views_of(xs@)[k]),
        decreases xs@.len() - i,
    {
        proof {
            assert(views_of(xs@)[i as int] == xs@[i as int]@);
        }
        match parse_price(xs[i].as_slice()) {
            None => {
                assert(!is_price_bytes(views_of(xs@)[i as int]));
                return None;
            },
            Some(v) => out.push(v),
        }
        i += 1;
    }
    proof {
        assert(ints_of(out@) =~= price_values(views_of(xs@)));
    }
    Some(out)
}

/// Parses every timestamp field of a candle array.
fn parse_i64_list(xs: &Vec<Vec<u8>>) -> (r: Option<Vec<i64>>)
    ensures
        r is Some <==> all_i64_fields(views_of(xs@)),
        r matches Some(v) ==> ints_of(v@) == i64_values(views_of(xs@)),
{
    let mut out: Vec<i64> = Vec::new();
    let mut i: usize = 0;
    while i < xs.len()
        invariant
            0 <= i <= xs@.len(),
            out@.len() == i,
            forall|k: int| 0 <= k < i ==> is_i64_bytes(#[trigger] views_of(xs@)[k]),
            forall|k: int| 0 <= k < i ==> (#[trigger] out@[k]) == i64_value(views_of(xs@)[k]),
        decreases xs@.len() - i,
    {
        proof {
            assert(views_of(xs@)[i as int] == xs@[i as int]@);
        }
        match parse_i64(xs[i].as_slice()) {
            None => {
                assert(!is_i64_bytes(views_of(xs@)[i as int]));
                return None;
            },
            Some(v) => out.push(v),
        }
        i += 1;
    }
    proof {
        assert(ints_of(out@) =~= i64_values(views_of(xs@)));
    }
    Some(out)
}

/// Parses every volume field of a candle array.
fn parse_u64_list(xs: &Vec<Vec<u8>>) -> (r: Option<Vec<u64>>)
    ensures
        r is Some <==> all_u64_fields(views_of(xs@)),
        r matches Some(v) ==> uints_of(v@) == u64_values(views_of(xs@)),
{
    let mut out: Vec<u64> = Vec::new();
    let mut i: usize = 0;
    while i < xs.len()
        invariant
            0 <= i <= xs@.len(),
            out@.len() == i,
            forall|k: int| 0 <= k < i ==> is_u64_bytes(#[trigger] views_of(xs@)[k]),
            forall|k: int| 0 <= k < i ==> (#[trigger] out@[k]) == dec_value(views_of(xs@)[k]),
        decreases xs@.len() - i,
    {
        proof {
            assert(views_of(xs@)[i as int] == xs@[i as int]@);
        }
        match parse_u64(xs[i].as_slice()) {
            None => {
                assert(!is_u64_bytes(views_of(xs@)[i as int]));
                return None;
            },
            Some(v) => out.push(v),
        }
        i += 1;
    }
    proof {
        assert(uints_of(out@) =~= u64_values(views_of(xs@)));
    }
    Some(out)
}

/// Turns the candle body's textual fields into the fetch's answer:
/// a schema error when a field is malformed or the arrays disagree,
/// no-data when the status token is not "ok", and otherwise the
/// well-formed series. Success of the transport layer and success of
/// the payload are independent: this function never falls back.
pub fn candle_payload_result(raw: RawCandle) -> (r: Result<FetchOutcome, FetchError>)
    ensures
        candle_outcome_rel(Some(raw), FetchStep::Done(r)),
        r matches Ok(out) ==> out matches FetchOutcome::Candle(c) && c.well_formed(),
{
    let c = match parse_price_list(&raw.c) {
        Some(v) => v,
        None => {
            return Err(FetchError::SchemaError);
        },
    };
    let h = match parse_price_list(&raw.h) {
        Some(v) => v,
        None => {
            return Err(FetchError::SchemaError);
        },
    };
    let l = match parse_price_list(&raw.l) {
        Some(v) => v,
        None => {
            return Err(FetchError::SchemaError);
        },
    };
    let o = match parse_price_list(&raw.o) {
        Some(v) => v,
        None => {
            return Err(FetchError::SchemaError);
        },
    };
    let t = match parse_i64_list(&raw.t) {
        Some(v) => v,
        None => {
            return Err(FetchError::SchemaError);
        },
    };
    let vol = match parse_u64_list(&raw.v) {
        Some(v) => v,
        None => {
            return Err(FetchError::SchemaError);
        },
    };
    proof {
        assert(ints_of(c@).len() == c@.len());
        assert(ints_of(h@).len() == h@.len());
        assert(ints_of(l@).len() == l@.len());
        assert(ints_of(o@).len() == o@.len());
        assert(ints_of(t@).len() == t@.len());
        assert(uints_of(vol@).len() == vol@.len());
        assert(c@.len() == raw@.c.len());
        assert(h@.len() == raw@.h.len());
        assert(l@.len() == raw@.l.len());
        assert(o@.len() == raw@.o.len());
        assert(t@.len() == raw@.t.len());
        assert(vol@.len() == raw@.v.len());
    }
    if h.len() != c.len() || l.len() != c.len() || o.len() != c.len() || t.len() != c.len()
        || vol.len() != c.len() {
        return Err(FetchError::SchemaError);
    }
    let ok_sentinel: Vec<u8> = vec![111u8, 107u8];
    proof {
        assert(ok_sentinel@ =~= ok_token());
    }
    if !bytes_eq(raw.s.as_slice(), ok_sentinel.as_slice()) {
        return Err(FetchError::NoData);
    }
    let candle = FinnhubCandle { c, h, l, o, s: raw.s, t, v: vol };
    Ok(FetchOutcome::Candle(candle))
}

/// Turns the quote body's textual fields into the fetch's answer: the
/// degraded single observation, or a schema error.
pub fn quote_payload_result(raw: RawQuote) -> (r: Result<FetchOutcome, FetchError>)
    ensures
        quote_outcome_rel(Some(raw), r),
{
    let c = match parse_price(raw.c.as_slice()) {
        Some(v) => v,
        None => {
            return Err(FetchError::SchemaError);
        },
    };
    let h = match parse_price(raw.h.as_slice()) {
        Some(v) => v,
        None => {
            return Err(FetchError::SchemaError);
        },
    };
    let l = match parse_price(raw.l.as_slice()) {
        Some(v) => v,
        None => {
            return Err(FetchError::SchemaError);
        },
    };
    let o = match parse_price(raw.o.as_slice()) {
        Some(v) => v,
        None => {
            return Err(FetchError::SchemaError);
        },
    };
    let pc = match parse_price(raw.pc.as_slice()) {
        Some(v) => v,
        None => {
            return Err(FetchError::SchemaError);
        },
    };
    Ok(FetchOutcome::FallbackQuote(QuoteSnapshot { c, h, l, o, pc }))
}

/// Classifies the primary endpoint's answer. A transport failure and
/// any non-success status other than forbidden are terminal failures;
/// the forbidden status — and nothing else — asks for the one fallback
/// call; a success body is decoded and checked. The caller issues the
/// fallback call only when `NeedFallback` is returned.
pub fn fetch_live_data(event: TransportEvent) -> (r: FetchStep)
    ensures
        primary_step_rel(event, r),
{
    match event {
        TransportEvent::TransportError => FetchStep::Done(
            Err(FetchError::ProviderUnreachable(FetchPhase::Primary)),
        ),
        TransportEvent::Forbidden => FetchStep::NeedFallback,
        TransportEvent::OtherStatus(code) => FetchStep::Done(
            Err(FetchError::ProviderError(FetchPhase::Primary, code)),
        ),
        TransportEvent::Success(body) => match parse_candle_fields(body.as_slice()) {
            None => FetchStep::Done(Err(FetchError::SchemaError)),
            Some(raw) => FetchStep::Done(candle_payload_result(raw)),
        },
    }
}

/// Classifies the fallback endpoint's answer. Failures mirror the
/// primary classification but are tagged as happening during fallback;
/// a success body becomes the degraded quote result.
pub fn fetch_fallback_data(event: TransportEvent) -> (r: Result<FetchOutcome, FetchError>)
    ensures
        fallback_step_rel(event, r),
{
    match event {
        TransportEvent::TransportError => Err(
            FetchError::ProviderUnreachable(FetchPhase::Fallback),
        ),
        TransportEvent::Forbidden => Err(FetchError::ProviderError(FetchPhase::Fallback, 403)),
        TransportEvent::OtherStatus(code) => Err(
            FetchError::ProviderError(FetchPhase::Fallback, code),
        ),
        TransportEvent::Success(body) => match parse_quote_fields(body.as_slice()) {
            None => Err(FetchError::SchemaError),
            Some(raw) => quote_payload_result(raw),
        },
    }
}

/// The forbidden status is the sole fallback trigger: a primary-phase
/// answer asks for the fallback call exactly when it was the provider's
/// forbidden signal, and then exactly one such call is owed.
pub proof fn lemma_forbidden_is_sole_fallback_trigger(e: TransportEvent, r: FetchStep)
    requires
        primary_step_rel(e, r),
    ensures
        r is NeedFallback <==> e is Forbidden,
{
    match e {
        TransportEvent::Success(body) => {
            match candle_fields_of(body@) {
                Option::None => {},
                Option::Some(rc) => {
                    match candle_of_raw(rc@) {
                        Option::None => {},
                        Option::Some(cm) => {},
                    }
                },
            }
        },
        _ => {},
    }
}

/// A successful fallback answer is always tagged as degraded: it is a
/// `FallbackQuote`, never a `Candle`, so no caller can silently treat
/// the single observation as a full series.
pub proof fn lemma_fallback_result_is_degraded(e: TransportEvent, r: Result<FetchOutcome, FetchError>)
    requires
        fallback_step_rel(e, r),
    ensures
        r matches Ok(out) ==> out is FallbackQuote && !(out is Candle),
{
    match e {
        TransportEvent::Success(body) => {
            match quote_fields_of(body@) {
                Option::None => {},
                Option::Some(rq) => {
                    match quote_of_raw(rq@) {
                        Option::None => {},
                        Option::Some(qm) => {},
                    }
                },
            }
        },
        _ => {},
    }
}

/// A payload whose status token is not the "ok" sentinel is a terminal
/// `NoData` failure even though the transport succeeded: the fetch is
/// done, and in particular no fallback call is made — fallback answers
/// only the forbidden status, never a data-quality failure.
pub proof fn lemma_no_data_is_terminal(
    e: TransportEvent,
    r: FetchStep,
    rc: RawCandle,
    cm: CandleModel,
)
    requires
        primary_step_rel(e, r),
        e matches TransportEvent::Success(body) && candle_fields_of(body@) == Some(rc),
        candle_of_raw(rc@) == Some(cm),
        cm.s != ok_token(),
    ensures
        r == FetchStep::Done(Result::<FetchOutcome, FetchError>::Err(FetchError::NoData)),
        !(r is NeedFallback),
{
}

/// A transport failure on the primary endpoint is a terminal
/// `ProviderUnreachable` failure: the fetch is done and no fallback
/// call is attempted.
pub proof fn lemma_unreachable_is_terminal(e: TransportEvent, r: FetchStep)
    requires
        primary_step_rel(e, r),
        e is TransportError,
    ensures
        r == FetchStep::Done(Result::<FetchOutcome, FetchError>::Err(
            FetchError::ProviderUnreachable(FetchPhase::Primary),
        )),
        !(r is NeedFallback),
{
}

} // verus!
