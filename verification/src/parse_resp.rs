//! Extraction of the validated quote snapshot from a classified response.

use vstd::prelude::*;
use crate::decimal::milli_to_string_dec;
use crate::decimal::spec_centi_chars_trim;
use crate::decimal::spec_milli_chars_dec;
use crate::error::YahooError;
use crate::error::spec_error_detail;
use crate::json::JsonValue;
use crate::json::spec_as_milli;
use crate::json::spec_as_text;
use crate::json::spec_as_u64;
use crate::json::spec_at;
use crate::json::spec_get;
use crate::stock_price::StockPrice;
use crate::stock_price::price_in_range;
use crate::stock_price::round_half_centi;
use crate::stock_price::spec_reject_msg;
use crate::time::CHRONO_TIMESTAMP_MAX;
use crate::time::chrono_accepts_timestamp;
use crate::time::format_tokyo;
use crate::time::spec_tokyo_day_index;
use crate::time::spec_tokyo_display;
use crate::time::tokyo_day_index;
use crate::yahoo_finance_resp::YahooFinanceResp;

verus! {

/// The mathematical content of one parsed quote: every field the
/// snapshot holds, as plain values (prices in thousandths).
#[verifier::ext_equal]
pub ghost struct QuoteModel {
    pub currency: Seq<char>,
    pub present_milli: int,
    pub high_milli: int,
    pub low_milli: int,
    pub previous_milli: int,
    pub updated: int,
    pub name: Seq<char>,
}

/// The provider metadata object at the fixed path `chart.result[0].meta`.
pub open spec fn spec_meta(doc: JsonValue) -> Option<JsonValue> {
    match spec_get(doc, "chart"@) {
        Some(chart) => match spec_get(chart, "result"@) {
            Some(result) => match spec_at(result, 0) {
                Some(first) => spec_get(first, "meta"@),
                None => None,
            },
            None => None,
        },
        None => None,
    }
}

/// The detail message for a metadata field that is missing or has the
/// wrong type.
pub open spec fn spec_field_err(key: Seq<char>) -> Seq<char> {
    "Failed to access parsed data: "@ + key
}

/// Extraction of one required string field.
pub open spec fn spec_text_field(meta: JsonValue, key: Seq<char>) -> Result<Seq<char>, Seq<char>> {
    match spec_get(meta, key) {
        Some(v) => match spec_as_text(v) {
            Some(s) => Ok(s),
            None => Err(spec_field_err(key)),
        },
        None => Err(spec_field_err(key)),
    }
}

/// Extraction of one required price field, validated against the
/// accepted price range.
pub open spec fn spec_price_field(meta: JsonValue, key: Seq<char>) -> Result<int, Seq<char>> {
    match spec_get(meta, key) {
        Some(v) => match spec_as_milli(v) {
            Some(m) => if price_in_range(m) {
                Ok(m)
            } else {
                Err(key + ": "@ + spec_reject_msg(m))
            },
            None => Err(spec_field_err(key)),
        },
        None => Err(spec_field_err(key)),
    }
}

/// Extraction of the update timestamp: a non-negative integer number of
/// Unix seconds that chrono can represent as an instant.
pub open spec fn spec_time_field(meta: JsonValue) -> Result<int, Seq<char>> {
    match spec_get(meta, "regularMarketTime"@) {
        Some(v) => match spec_as_u64(v) {
            Some(t) => if t <= CHRONO_TIMESTAMP_MAX {
                Ok(t)
            } else {
                Err("regularMarketTime: timestamp out of range"@)
            },
            None => Err(spec_field_err("regularMarketTime"@)),
        },
        None => Err(spec_field_err("regularMarketTime"@)),
    }
}

/// The whole parse: either every required field of the metadata object,
/// or the message of the first failure in extraction order.
pub open spec fn spec_parse(doc: JsonValue) -> Result<QuoteModel, Seq<char>> {
    match spec_meta(doc) {
        None => Err(spec_field_err("meta"@)),
        Some(meta) => match spec_text_field(meta, "currency"@) {
            Err(e) => Err(e),
            Ok(currency) => match spec_price_field(meta, "regularMarketPrice"@) {
                Err(e) => Err(e),
                Ok(present) => match spec_price_field(meta, "regularMarketDayHigh"@) {
                    Err(e) => Err(e),
                    Ok(high) => match spec_price_field(meta, "regularMarketDayLow"@) {
                        Err(e) => Err(e),
                        Ok(low) => match spec_price_field(meta, "chartPreviousClose"@) {
                            Err(e) => Err(e),
                            Ok(previous) => match spec_time_field(meta) {
                                Err(e) => Err(e),
                                Ok(updated) => match spec_text_field(meta, "longName"@) {
                                    Err(e) => Err(e),
                                    Ok(name) => Ok(
                                        QuoteModel {
                                            currency,
                                            present_milli: present,
                                            high_milli: high,
                                            low_milli: low,
                                            previous_milli: previous,
                                            updated,
                                            name,
                                        },
                                    ),
                                },
                            },
                        },
                    },
                },
            },
        },
    }
}

/// The signed rendering of a daily delta in hundredths: an explicit
/// leading '+' when positive, the fixed "±0" glyph when zero, the native
/// minus sign when negative.
pub open spec fn spec_signed_delta(c: int) -> Seq<char> {
    if c > 0 {
        seq!['+'] + spec_centi_chars_trim(c)
    } else if c == 0 {
        "±0"@
    } else {
        seq!['-'] + spec_centi_chars_trim(-c)
    }
}

/// The localized summary of a quote. `include_range` adds the day's
/// low-high range line.
pub open spec fn spec_summary(m: QuoteModel, include_range: bool) -> Seq<char> {
    "銘柄: "@ + m.name + "\n通貨: "@ + m.currency + "\n最終更新: "@ + spec_tokyo_display(m.updated)
        + "\n現在価格: "@ + spec_milli_chars_dec(m.present_milli) + (if include_range {
        "\n日次変動幅: "@ + spec_milli_chars_dec(m.low_milli) + " - "@ + spec_milli_chars_dec(
            m.high_milli,
        )
    } else {
        Seq::<char>::empty()
    }) + "\n前営業の終値: "@ + spec_milli_chars_dec(m.previous_milli) + "\n今日: "@
        + spec_signed_delta(round_half_centi(m.present_milli - m.previous_milli)) + "\n"@
}

/// The message one pipeline run delivers for a parsed quote, given the
/// current time: the full summary on the day the quote was updated
/// (Asia/Tokyo), the market-closed notice on any other day.
pub open spec fn spec_daily_message(m: QuoteModel, now: int) -> Seq<char> {
    if spec_tokyo_day_index(m.updated) == spec_tokyo_day_index(now) {
        spec_summary(m, true)
    } else {
        m.name + "\n本日はお休み"@
    }
}

/// The validated, immutable domain model of one point-in-time quote.
pub struct YahooFinanceInfo {
    currency: String,
    updated_date: u64,
    present: StockPrice,
    high_that_day: StockPrice,
    low_that_day: StockPrice,
    previous_closed: StockPrice,
    name: String,
}

/// A `ParseError` whose detail names the failing field.
fn field_err(key: &str) -> (e: YahooError)
    ensures
        e matches YahooError::ParseError(d) && d@ == spec_field_err(key@),
{
    let d = String::from_str("Failed to access parsed data: ").concat(key);
    proof {
        assert(d@ =~= spec_field_err(key@));
    }
    YahooError::ParseError(d)
}

/// Navigates to the metadata object.
fn meta_of<'a>(doc: &'a JsonValue) -> (r: Option<&'a JsonValue>)
    ensures
        match r {
            Some(m) => spec_meta(*doc) == Some(*m),
            None => spec_meta(*doc) is None,
        },
{
    match doc.get("chart") {
        Some(chart) => match chart.get("result") {
            Some(result) => match result.at(0) {
                Some(first) => first.get("meta"),
                None => None,
            },
            None => None,
        },
        None => None,
    }
}

/// Extracts one required string field.
fn text_field(meta: &JsonValue, key: &str) -> (r: Result<String, YahooError>)
    ensures
        r is Ok <==> spec_text_field(*meta, key@) is Ok,
        r matches Ok(s) ==> spec_text_field(*meta, key@) == Ok::<Seq<char>, Seq<char>>(s@),
        r matches Err(e) ==> (e is ParseError && (spec_text_field(*meta, key@) matches Err(m)
            && spec_error_detail(e) == m)),
{
    match meta.get(key) {
        Some(v) => match v.as_text() {
            Some(s) => Ok(s.clone()),
            None => Err(field_err(key)),
        },
        None => Err(field_err(key)),
    }
}

/// Extracts one required price field through the validating factory.
fn price_field(meta: &JsonValue, key: &str) -> (r: Result<StockPrice, YahooError>)
    ensures
        r is Ok <==> spec_price_field(*meta, key@) is Ok,
        r matches Ok(p) ==> (spec_price_field(*meta, key@) == Ok::<int, Seq<char>>(p.spec_milli())
            && p.wf()),
        r matches Err(e) ==> (e is ParseError && (spec_price_field(*meta, key@) matches Err(m)
            && spec_error_detail(e) == m)),
{
    match meta.get(key) {
        Some(v) => match v.as_milli() {
            Some(m) => match StockPrice::new(m) {
                Ok(p) => Ok(p),
                Err(msg) => {
                    let d = String::from_str(key).concat(": ").concat(msg.as_str());
                    proof {
                        assert(d@ =~= key@ + ": "@ + spec_reject_msg(m as int));
                    }
                    Err(YahooError::ParseError(d))
                },
            },
            None => Err(field_err(key)),
        },
        None => Err(field_err(key)),
    }
}

/// Extracts the update timestamp.
fn time_field(meta: &JsonValue) -> (r: Result<u64, YahooError>)
    ensures
        r is Ok <==> spec_time_field(*meta) is Ok,
        r matches Ok(t) ==> (spec_time_field(*meta) == Ok::<int, Seq<char>>(t as int) && t
            <= CHRONO_TIMESTAMP_MAX),
        r matches Err(e) ==> (e is ParseError && (spec_time_field(*meta) matches Err(m)
            && spec_error_detail(e) == m)),
{
    match meta.get("regularMarketTime") {
        Some(v) => match v.as_u64() {
            Some(t) => if chrono_accepts_timestamp(t) {
                Ok(t)
            } else {
                Err(YahooError::ParseError(String::from_str(
                    "regularMarketTime: timestamp out of range",
                )))
            },
            None => Err(field_err("regularMarketTime")),
        },
        None => Err(field_err("regularMarketTime")),
    }
}

impl YahooFinanceInfo {
    /// The mathematical content of this snapshot.
    pub closed spec fn model(self) -> QuoteModel {
        QuoteModel {
            currency: self.currency@,
            present_milli: self.present.spec_milli(),
            high_milli: self.high_that_day.spec_milli(),
            low_milli: self.low_that_day.spec_milli(),
            previous_milli: self.previous_closed.spec_milli(),
            updated: self.updated_date as int,
            name: self.name@,
        }
    }

    /// Every price field lies in the accepted range and the timestamp is
    /// representable as an instant.
    pub open spec fn wf(self) -> bool {
        &&& price_in_range(self.model().present_milli)
        &&& price_in_range(self.model().high_milli)
        &&& price_in_range(self.model().low_milli)
        &&& price_in_range(self.model().previous_milli)
        &&& 0 <= self.model().updated <= CHRONO_TIMESTAMP_MAX
    }

    /// The single entry point: consumes a classified response document
    /// and produces either a snapshot satisfying every invariant or a
    /// `ParseError` naming the first field that failed. It fails exactly
    /// when the extraction of some required field fails.
    pub fn new(resp: &YahooFinanceResp) -> (r: Result<Self, YahooError>)
        ensures
            r is Ok <==> spec_parse(resp.doc_view()) is Ok,
            r matches Ok(info) ==> (info.model() == spec_parse(resp.doc_view())->Ok_0
                && info.wf()),
            r matches Err(e) ==> (e is ParseError && (spec_parse(resp.doc_view()) matches Err(
                m,
            ) && spec_error_detail(e) == m)),
    {
        let doc = resp.inner();
        let meta = match meta_of(doc) {
            Some(m) => m,
            None => {
                return Err(field_err("meta"));
            },
        };
        let currency = match text_field(meta, "currency") {
            Ok(c) => c,
            Err(e) => {
                return Err(e);
            },
        };
        let present = match price_field(meta, "regularMarketPrice") {
            Ok(p) => p,
            Err(e) => {
                return Err(e);
            },
        };
        let high_that_day = match price_field(meta, "regularMarketDayHigh") {
            Ok(p) => p,
            Err(e) => {
                return Err(e);
            },
        };
        let low_that_day = match price_field(meta, "regularMarketDayLow") {
            Ok(p) => p,
            Err(e) => {
                return Err(e);
            },
        };
        let previous_closed = match price_field(meta, "chartPreviousClose") {
            Ok(p) => p,
            Err(e) => {
                return Err(e);
            },
        };
        let updated_date = match time_field(meta) {
            Ok(t) => t,
            Err(e) => {
                return Err(e);
            },
        };
        let name = match text_field(meta, "longName") {
            Ok(n) => n,
            Err(e) => {
                return Err(e);
            },
        };
        let info = YahooFinanceInfo {
            currency,
            updated_date,
            present,
            high_that_day,
            low_that_day,
            previous_closed,
            name,
        };
        proof {
            assert(info.model() =~= spec_parse(resp.doc_view())->Ok_0);
        }
        Ok(info)
    }

    /// This snapshot itself.
    pub fn inner(&self) -> (r: &Self)
        ensures
            r == self,
    {
        self
    }

    /// The instrument display name.
    pub fn get_name(&self) -> (r: &String)
        ensures
            r@ == self.model().name,
    {
        &self.name
    }

    /// The currency code.
    pub fn get_currency(&self) -> (r: &String)
        ensures
            r@ == self.model().currency,
    {
        &self.currency
    }

    /// The update instant, in Unix seconds (UTC).
    pub fn get_updated_date(&self) -> (r: u64)
        ensures
            r == self.model().updated,
    {
        self.updated_date
    }

    /// The current price.
    pub fn get_present(&self) -> (r: StockPrice)
        ensures
            r.spec_milli() == self.model().present_milli,
    {
        self.present
    }

    /// The day's high.
    pub fn get_high_that_day(&self) -> (r: StockPrice)
        ensures
            r.spec_milli() == self.model().high_milli,
    {
        self.high_that_day
    }

    /// The day's low.
    pub fn get_low_that_day(&self) -> (r: StockPrice)
        ensures
            r.spec_milli() == self.model().low_milli,
    {
        self.low_that_day
    }

    /// The previous business day's closing price.
    pub fn get_previous_closed(&self) -> (r: StockPrice)
        ensures
            r.spec_milli() == self.model().previous_milli,
    {
        self.previous_closed
    }

    /// Renders a signed daily delta given in hundredths: '+' when
    /// positive, "±0" when zero, the native minus sign when negative.
    pub fn to_string_gives_sign(c: i64) -> (r: String)
        requires
            c > i64::MIN,
        ensures
            r@ == spec_signed_delta(c as int),
    {
        proof {
            reveal_strlit("+");
            reveal_strlit("-");
        }
        if c > 0 {
            let r = String::from_str("+").concat(
                crate::decimal::centi_to_string_trim(c as u64).as_str(),
            );
            proof {
                assert(r@ =~= spec_signed_delta(c as int));
            }
            r
        } else if c == 0 {
            String::from_str("±0")
        } else {
            let r = String::from_str("-").concat(
                crate::decimal::centi_to_string_trim((-c) as u64).as_str(),
            );
            proof {
                assert(r@ =~= spec_signed_delta(c as int));
            }
            r
        }
    }

    /// Renders the localized summary; `include_range` adds the day's
    /// low-high range line.
    fn summary(&self, include_range: bool) -> (r: String)
        requires
            self.wf(),
        ensures
            r@ == spec_summary(self.model(), include_range),
    {
        let delta = self.present.sub(self.previous_closed);
        let mut s = String::from_str("銘柄: ");
        s.append(self.name.as_str());
        s.append("\n通貨: ");
        s.append(self.currency.as_str());
        s.append("\n最終更新: ");
        let tokyo = format_tokyo(self.updated_date);
        s.append(tokyo.as_str());
        s.append("\n現在価格: ");
        let present_str = milli_to_string_dec(self.present.milli() as u64);
        s.append(present_str.as_str());
        if include_range {
            s.append("\n日次変動幅: ");
            let low_str = milli_to_string_dec(self.low_that_day.milli() as u64);
            s.append(low_str.as_str());
            s.append(" - ");
            let high_str = milli_to_string_dec(self.high_that_day.milli() as u64);
            s.append(high_str.as_str());
        }
        s.append("\n前営業の終値: ");
        let prev_str = milli_to_string_dec(self.previous_closed.milli() as u64);
        s.append(prev_str.as_str());
        s.append("\n今日: ");
        let delta_str = Self::to_string_gives_sign(delta);
        s.append(delta_str.as_str());
        s.append("\n");
        proof {
            assert(s@ =~= spec_summary(self.model(), include_range));
        }
        s
    }

    /// The full localized summary: name, currency, update time in
    /// Asia/Tokyo, current price, the day's low-high range, the previous
    /// close and the signed daily delta.
    pub fn get_result_that_day_ja(&self) -> (r: String)
        requires
            self.wf(),
        ensures
            r@ == spec_summary(self.model(), true),
    {
        self.summary(true)
    }

    /// The brief localized summary: as the full one but without the
    /// low-high range line.
    pub fn get_present_ja(&self) -> (r: String)
        requires
            self.wf(),
        ensures
            r@ == spec_summary(self.model(), false),
    {
        self.summary(false)
    }

    /// The message one pipeline run delivers for this snapshot: the full
    /// summary when the quote was updated on the current Asia/Tokyo
    /// calendar day, otherwise the name with the market-closed notice.
    /// The caller supplies the clock reading.
    pub fn daily_message(&self, now_unix: u64) -> (r: String)
        requires
            self.wf(),
            now_unix <= CHRONO_TIMESTAMP_MAX,
        ensures
            r@ == spec_daily_message(self.model(), now_unix as int),
    {
        if self.updated_today_in_ja(now_unix) {
            self.get_result_that_day_ja()
        } else {
            let mut s = self.name.clone();
            s.append("\n本日はお休み");
            proof {
                assert(s@ =~= spec_daily_message(self.model(), now_unix as int));
            }
            s
        }
    }

    /// Whether the update instant falls on the same Asia/Tokyo calendar
    /// day as `now_unix`. The caller supplies the clock reading.
    pub fn updated_today_in_ja(&self, now_unix: u64) -> (r: bool)
        requires
            self.wf(),
            now_unix <= CHRONO_TIMESTAMP_MAX,
        ensures
            r == (spec_tokyo_day_index(self.model().updated) == spec_tokyo_day_index(
                now_unix as int,
            )),
    {
        tokyo_day_index(self.updated_date) == tokyo_day_index(now_unix)
    }
}

/// Sign-formatting law: a positive delta renders with a leading '+', a
/// zero delta as the fixed "±0" glyph, a negative one with the native
/// minus sign and nothing more.
pub proof fn lemma_sign_formatting(c: int)
    ensures
        c > 0 ==> spec_signed_delta(c).first() == '+',
        c == 0 ==> spec_signed_delta(c) == "±0"@,
        c < 0 ==> spec_signed_delta(c).first() == '-',
{
}

} // verus!
