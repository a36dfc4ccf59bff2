//! Decoding of the response envelope `{retCode, retMsg, result}` and of the
//! endpoint results inside it, and the outcome of each operation.

use vstd::prelude::*;
use crate::json::{member, member_of, opt_string_view, str_member, str_member_of, Json};

verus! {

/// An error of an operation: the transport failed or the response did not
/// have the expected shape, or the exchange reported a failure, with its
/// message.
#[derive(Debug)]
pub enum BybitError {
    Transport(String),
    Exchange(String),
}

/// An error in mathematical terms.
pub ghost enum ErrorView {
    Transport(Seq<char>),
    Exchange(Seq<char>),
}

impl View for BybitError {
    type V = ErrorView;

    open spec fn view(&self) -> ErrorView {
        match self {
            BybitError::Transport(m) => ErrorView::Transport(m@),
            BybitError::Exchange(m) => ErrorView::Exchange(m@),
        }
    }
}

impl BybitError {
    /// The error's message.
    pub fn message(&self) -> (r: String)
        ensures
            r@ == match self@ {
                ErrorView::Transport(m) => m,
                ErrorView::Exchange(m) => m,
            },
    {
        match self {
            BybitError::Transport(m) => m.clone(),
            BybitError::Exchange(m) => m.clone(),
        }
    }
}

/// An open position. The three first fields are required in the exchange's
/// record; the others read as empty when absent.
#[derive(Clone, Debug)]
pub struct Position {
    pub symbol: String,
    pub side: String,
    pub size: String,
    pub avg_price: String,
    pub mark_price: String,
    pub unrealised_pnl: String,
}

/// A position in mathematical terms.
pub ghost struct PositionView {
    pub symbol: Seq<char>,
    pub side: Seq<char>,
    pub size: Seq<char>,
    pub avg_price: Seq<char>,
    pub mark_price: Seq<char>,
    pub unrealised_pnl: Seq<char>,
}

impl View for Position {
    type V = PositionView;

    open spec fn view(&self) -> PositionView {
        PositionView {
            symbol: self.symbol@,
            side: self.side@,
            size: self.size@,
            avg_price: self.avg_price@,
            mark_price: self.mark_price@,
            unrealised_pnl: self.unrealised_pnl@,
        }
    }
}

pub open spec fn positions_view(ps: Seq<Position>) -> Seq<PositionView> {
    ps.map_values(|p: Position| p@)
}

/// An optional string member: empty when absent, its text when a string,
/// and nothing (a shape error) otherwise.
pub open spec fn opt_str_member_of(v: Json, key: Seq<char>) -> Option<Seq<char>> {
    match member_of(v, key) {
        None => Some(Seq::empty()),
        Some(Json::Str(s)) => Some(s@),
        _ => None,
    }
}

/// The position that a record of the list describes, if it has the shape
/// of one.
pub open spec fn position_of(v: Json) -> Option<PositionView> {
    let symbol = str_member_of(v, "symbol"@);
    let side = str_member_of(v, "side"@);
    let size = str_member_of(v, "size"@);
    let avg_price = opt_str_member_of(v, "avgPrice"@);
    let mark_price = opt_str_member_of(v, "markPrice"@);
    let unrealised_pnl = opt_str_member_of(v, "unrealisedPnl"@);
    if symbol is Some && side is Some && size is Some && avg_price is Some && mark_price is Some
        && unrealised_pnl is Some {
        Some(
            PositionView {
                symbol: symbol->0,
                side: side->0,
                size: size->0,
                avg_price: avg_price->0,
                mark_price: mark_price->0,
                unrealised_pnl: unrealised_pnl->0,
            },
        )
    } else {
        None
    }
}

/// The positions of a list, in its order, when it is an array of position
/// records.
pub open spec fn positions_of(list: Json) -> Option<Seq<PositionView>> {
    match list {
        Json::Array(items) => if forall|i: int|
            0 <= i < items@.len() ==> (#[trigger] position_of(items@[i])) is Some {
            Some(items@.map_values(|x: Json| position_of(x)->0))
        } else {
            None
        },
        _ => None,
    }
}

/// The status code and message of an envelope, when it has both.
pub open spec fn envelope_head(body: Json) -> Option<(int, Seq<char>)> {
    match (member_of(body, "retCode"@), member_of(body, "retMsg"@)) {
        (Some(Json::Int(code)), Some(Json::Str(msg))) => Some((code as int, msg@)),
        _ => None,
    }
}

/// The result payload of an envelope; null when absent.
pub open spec fn result_of(body: Json) -> Json {
    match member_of(body, "result"@) {
        Some(r) => r,
        None => Json::Null,
    }
}

/// The message of a response that is no envelope.
pub open spec fn malformed_envelope() -> Seq<char> {
    "malformed response envelope"@
}

/// The message of a position list that is no array of position records.
pub open spec fn malformed_positions() -> Seq<char> {
    "malformed position list"@
}

/// What cancelling all orders yields for a response: success exactly when
/// the result's `success` member is the string "1"; otherwise the
/// envelope's message as an exchange error. The status code is not read.
pub open spec fn cancel_all_outcome(body: Json) -> Result<(), ErrorView> {
    match envelope_head(body) {
        None => Err(ErrorView::Transport(malformed_envelope())),
        Some((_, msg)) => if str_member_of(result_of(body), "success"@) == Some("1"@) {
            Ok(())
        } else {
            Err(ErrorView::Exchange(msg))
        },
    }
}

/// What listing positions yields for a response: the envelope's message as
/// an exchange error when its status code is not zero, whatever the result
/// holds; else the positions of `result.list`, in order.
pub open spec fn position_list_outcome(body: Json) -> Result<Seq<PositionView>, ErrorView> {
    match envelope_head(body) {
        None => Err(ErrorView::Transport(malformed_envelope())),
        Some((code, msg)) => if code != 0 {
            Err(ErrorView::Exchange(msg))
        } else {
            let list = match member_of(result_of(body), "list"@) {
                Some(l) => l,
                None => Json::Null,
            };
            match positions_of(list) {
                Some(ps) => Ok(ps),
                None => Err(ErrorView::Transport(malformed_positions())),
            }
        },
    }
}

fn key(s: &str) -> (r: String)
    ensures
        r@ == s@,
{
    s.to_owned()
}

fn opt_str_member(v: &Json, k: &String) -> (r: Option<String>)
    ensures
        opt_string_view(r) == opt_str_member_of(*v, k@),
{
    match member(v, k) {
        None => Some(String::new()),
        Some(Json::Str(s)) => Some(s.clone()),
        _ => None,
    }
}

impl Position {
    /// Decodes a record of the position list.
    pub fn from_json(v: &Json) -> (r: Option<Position>)
        ensures
            match r {
                Some(p) => position_of(*v) == Some(p@),
                None => position_of(*v) is None,
            },
    {
        let symbol = str_member(v, &key("symbol"));
        let side = str_member(v, &key("side"));
        let size = str_member(v, &key("size"));
        let avg_price = opt_str_member(v, &key("avgPrice"));
        let mark_price = opt_str_member(v, &key("markPrice"));
        let unrealised_pnl = opt_str_member(v, &key("unrealisedPnl"));
        match (symbol, side, size, avg_price, mark_price, unrealised_pnl) {
            (Some(symbol), Some(side), Some(size), Some(avg_price), Some(mark_price), Some(unrealised_pnl)) => {
                Some(Position { symbol, side, size, avg_price, mark_price, unrealised_pnl })
            },
            _ => None,
        }
    }
}

/// Decodes the position list: an array of position records, kept in order.
pub fn decode_positions(list: &Json) -> (r: Option<Vec<Position>>)
    ensures
        match r {
            Some(ps) => positions_of(*list) == Some(positions_view(ps@)),
            None => positions_of(*list) is None,
        },
{
    match list {
        Json::Array(items) => {
            let mut out: Vec<Position> = Vec::new();
            let mut i: usize = 0;
            while i < items.len()
                invariant
                    0 <= i <= items.len(),
                    *list == Json::Array(*items),
                    out@.len() == i,
                    forall|j: int| 0 <= j < i ==> (#[trigger] position_of(items@[j])) is Some,
                    forall|j: int| 0 <= j < i ==> position_of(items@[j]) == Some(#[trigger] out@[j]@),
                decreases items.len() - i,
            {
                match Position::from_json(&items[i]) {
                    Some(p) => out.push(p),
                    None => {
                        assert(position_of(items@[i as int]) is None);
                        return None;
                    },
                }
                i = i + 1;
            }
            assert(positions_view(out@) =~= items@.map_values(|x: Json| position_of(x)->0));
            Some(out)
        },
        _ => None,
    }
}

/// Decodes the status code and message of an envelope.
pub fn decode_head(body: &Json) -> (r: Option<(i64, String)>)
    ensures
        match r {
            Some((code, msg)) => envelope_head(*body) == Some((code as int, msg@)),
            None => envelope_head(*body) is None,
        },
{
    let code = member(body, &key("retCode"));
    let msg = member(body, &key("retMsg"));
    match (code, msg) {
        (Some(Json::Int(c)), Some(Json::Str(m))) => Some((*c, m.clone())),
        _ => None,
    }
}

fn malformed(m: &str) -> (r: BybitError)
    ensures
        r@ == ErrorView::Transport(m@),
{
    BybitError::Transport(m.to_owned())
}

/// The outcome of cancelling all orders, from the decoded response body.
pub fn cancel_all_orders_outcome(body: &Json) -> (r: Result<(), BybitError>)
    ensures
        match r {
            Ok(()) => cancel_all_outcome(*body) == Ok::<(), ErrorView>(()),
            Err(e) => cancel_all_outcome(*body) == Err::<(), ErrorView>(e@),
        },
{
    match decode_head(body) {
        None => Err(malformed("malformed response envelope")),
        Some((_, msg)) => {
            let success = match member(body, &key("result")) {
                Some(result) => str_member(result, &key("success")),
                None => None,
            };
            proof {
                reveal_strlit("1");
            }
            let one = key("1");
            match success {
                Some(s) => if s == one {
                    Ok(())
                } else {
                    Err(BybitError::Exchange(msg))
                },
                None => Err(BybitError::Exchange(msg)),
            }
        },
    }
}

/// The outcome of listing positions, from the decoded response body.
pub fn position_list_result(body: &Json) -> (r: Result<Vec<Position>, BybitError>)
    ensures
        match r {
            Ok(ps) => position_list_outcome(*body) == Ok::<Seq<PositionView>, ErrorView>(
                positions_view(ps@),
            ),
            Err(e) => position_list_outcome(*body) == Err::<Seq<PositionView>, ErrorView>(e@),
        },
{
    match decode_head(body) {
        None => Err(malformed("malformed response envelope")),
        Some((code, msg)) => {
            if code != 0 {
                return Err(BybitError::Exchange(msg));
            }
            let list = match member(body, &key("result")) {
                Some(result) => member(result, &key("list")),
                None => None,
            };
            let decoded = match list {
                Some(l) => decode_positions(l),
                None => decode_positions(&Json::Null),
            };
            match decoded {
                Some(ps) => Ok(ps),
                None => Err(malformed("malformed position list")),
            }
        },
    }
}

/// For an envelope with status code zero whose `result.list` is an array of
/// position records, listing positions succeeds with one position per
/// record, in the order of the array (an empty array gives none).
pub proof fn lemma_positions_in_order(body: Json, items: Seq<Json>)
    requires
        envelope_head(body) matches Some((code, _)) && code == 0,
        member_of(result_of(body), "list"@) matches Some(Json::Array(a)) && a@ == items,
        forall|i: int| 0 <= i < items.len() ==> (#[trigger] position_of(items[i])) is Some,
    ensures
        position_list_outcome(body) is Ok,
        position_list_outcome(body)->Ok_0.len() == items.len(),
        forall|i: int|
            0 <= i < items.len() ==> position_list_outcome(body)->Ok_0[i] == (
            #[trigger] position_of(items[i]))->0,
{
}

/// A nonzero status code makes listing positions fail with the envelope's
/// message as an exchange error, whatever the result holds.
pub proof fn lemma_exchange_error_on_nonzero_code(body: Json)
    requires
        envelope_head(body) matches Some((code, _)) && code != 0,
    ensures
        position_list_outcome(body) == Err::<Seq<PositionView>, ErrorView>(
            ErrorView::Exchange((envelope_head(body)->0).1),
        ),
{
}

/// Cancelling all orders succeeds exactly when the result's `success`
/// member is the string "1"; any other value, or none, gives the envelope's
/// message as an exchange error.
pub proof fn lemma_cancel_all_success_flag(body: Json)
    requires
        envelope_head(body) is Some,
    ensures
        cancel_all_outcome(body) is Ok <==> str_member_of(result_of(body), "success"@) == Some(
            "1"@,
        ),
        cancel_all_outcome(body) !is Ok ==> cancel_all_outcome(body) == Err::<(), ErrorView>(
            ErrorView::Exchange((envelope_head(body)->0).1),
        ),
{
}

} // verus!
