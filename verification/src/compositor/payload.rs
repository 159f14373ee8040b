//! Reading the window list that the list script prints.
//!
//! The text is parsed by `serde_json`; what the parser hands back is turned
//! into the library's own [`Json`] value, and everything after that, which
//! shape is accepted and which window it stands for, is decided here.

use vstd::prelude::*;
use crate::compositor::{CompositorError, WindowInfo, WindowModel, window_models};
use crate::text::same_text;

verus! {

/// A JSON value.
#[derive(Debug)]
pub enum Json {
    Null,
    Bool(bool),
    /// A number: `Some` where it is an integer in the range of `i64`, `None`
    /// for every other number.
    Number(Option<i64>),
    Text(String),
    List(Vec<Json>),
    /// The members of an object, each key once.
    Object(Vec<(String, Json)>),
}

/// A value as `serde_json` holds it; nothing is known of its inside.
#[verifier::external_type_specification]
#[verifier::external_body]
pub struct ExValue(serde_json::Value);

/// The value that `serde_json` reads from `text`, or `None` where it rejects
/// the text.
pub uninterp spec fn parsed_json(text: Seq<char>) -> Option<Json>;

/// Trusted: turns a value of `serde_json` into a [`Json`], variant by variant;
/// a number becomes what `Number::as_i64` gives for it.
#[verifier::external_body]
fn json_of(value: serde_json::Value) -> Json {
    match value {
        serde_json::Value::Null => Json::Null,
        serde_json::Value::Bool(b) => Json::Bool(b),
        serde_json::Value::Number(n) => Json::Number(n.as_i64()),
        serde_json::Value::String(s) => Json::Text(s),
        serde_json::Value::Array(items) => Json::List(items.into_iter().map(json_of).collect()),
        serde_json::Value::Object(members) => Json::Object(
            members.into_iter().map(|(k, v)| (k, json_of(v))).collect(),
        ),
    }
}

/// Trusted: `serde_json::from_str` reads a value from the text or rejects it,
/// and which of the two, and which value, depends on the text alone.
#[verifier::external_body]
fn parse_json(text: &str) -> (r: Option<Json>)
    ensures
        r == parsed_json(text@),
{
    match serde_json::from_str::<serde_json::Value>(text) {
        Ok(value) => Some(json_of(value)),
        Err(_) => None,
    }
}

/// The value of the first member of `members` with the given key.
pub open spec fn member(members: Seq<(String, Json)>, key: Seq<char>) -> Option<Json>
    decreases members.len(),
{
    if members.len() == 0 {
        None
    } else if members[0].0@ == key {
        Some(members[0].1)
    } else {
        member(members.drop_first(), key)
    }
}

/// The text that the member `key` holds, if it holds one.
pub open spec fn text_member(members: Seq<(String, Json)>, key: Seq<char>) -> Option<Seq<char>> {
    match member(members, key) {
        Some(Json::Text(s)) => Some(s@),
        _ => None,
    }
}

/// The window that a JSON value stands for: an object with the texts `id`,
/// `title` and `class`, the integer `workspace` in the range of `i32` and the
/// boolean `focused`. Other members are passed over.
pub open spec fn window_of(j: Json) -> Option<WindowModel> {
    match j {
        Json::Object(members) => match (
            text_member(members@, "id"@),
            text_member(members@, "title"@),
            text_member(members@, "class"@),
            member(members@, "workspace"@),
            member(members@, "focused"@),
        ) {
            (
                Some(address),
                Some(title),
                Some(class),
                Some(Json::Number(Some(n))),
                Some(Json::Bool(focused)),
            ) => if i32::MIN <= n <= i32::MAX {
                Some(WindowModel { address, title, class, workspace: n as int, focused })
            } else {
                None
            },
            _ => None,
        },
        _ => None,
    }
}

/// The window list that a JSON value stands for: a list each of whose items
/// stands for a window.
pub open spec fn windows_of(j: Json) -> Option<Seq<WindowModel>> {
    match j {
        Json::List(items) => if forall|i: int|
            0 <= i < items@.len() ==> window_of(#[trigger] items@[i]) is Some {
            Some(Seq::new(items@.len(), |i: int| window_of(items@[i])->0))
        } else {
            None
        },
        _ => None,
    }
}

/// What a list request returns for the outcome of its exchange: the failure
/// of the exchange; a timeout where the script printed nothing in time; a
/// payload error where the text is no JSON or no window list; else the windows.
pub open spec fn listing_of(outcome: Result<Option<Seq<char>>, CompositorError>) -> Result<
    Seq<WindowModel>,
    CompositorError,
> {
    match outcome {
        Err(e) => Err(e),
        Ok(None) => Err(CompositorError::Timeout),
        Ok(Some(text)) => match parsed_json(text) {
            Some(j) => match windows_of(j) {
                Some(ws) => Ok(ws),
                None => Err(CompositorError::Payload),
            },
            None => Err(CompositorError::Payload),
        },
    }
}

fn find_member<'a>(members: &'a Vec<(String, Json)>, key: &str) -> (r: Option<&'a Json>)
    ensures
        match member(members@, key@) {
            Some(j) => r is Some && *(r->0) == j,
            None => r is None,
        },
{
    let mut i: usize = 0;
    proof {
        assert(members@.skip(0) =~= members@);
    }
    while i < members.len()
        invariant
            i <= members.len(),
            member(members@, key@) == member(members@.skip(i as int), key@),
        decreases members.len() - i,
    {
        proof {
            assert(members@.skip(i as int)[0] == members@[i as int]);
            assert(members@.skip(i as int).drop_first() =~= members@.skip(i + 1));
        }
        if same_text(members[i].0.as_str(), key) {
            return Some(&members[i].1);
        }
        i += 1;
    }
    None
}

fn find_text(members: &Vec<(String, Json)>, key: &str) -> (r: Option<String>)
    ensures
        match text_member(members@, key@) {
            Some(s) => r is Some && r->0@ == s,
            None => r is None,
        },
{
    match find_member(members, key) {
        Some(Json::Text(s)) => Some(s.clone()),
        _ => None,
    }
}

/// Reads one window from a JSON value.
pub fn decode_window(j: &Json) -> (r: Option<WindowInfo>)
    ensures
        match window_of(*j) {
            Some(w) => r is Some && r->0@ == w,
            None => r is None,
        },
{
    let members = match j {
        Json::Object(members) => members,
        _ => { return None; },
    };
    let address = match find_text(members, "id") {
        Some(s) => s,
        None => { return None; },
    };
    let title = match find_text(members, "title") {
        Some(s) => s,
        None => { return None; },
    };
    let class = match find_text(members, "class") {
        Some(s) => s,
        None => { return None; },
    };
    let n: i64 = match find_member(members, "workspace") {
        Some(Json::Number(Some(n))) => *n,
        _ => { return None; },
    };
    let focused = match find_member(members, "focused") {
        Some(Json::Bool(b)) => *b,
        _ => { return None; },
    };
    if n < -2147483648i64 || n > 2147483647i64 {
        return None;
    }
    Some(WindowInfo { address, title, class, workspace: n as i32, focused })
}

/// Reads the window list from a JSON value: the windows in the order of the
/// list, or a payload error where the value is not a list of windows.
pub fn decode_windows(j: &Json) -> (r: Result<Vec<WindowInfo>, CompositorError>)
    ensures
        match windows_of(*j) {
            Some(ws) => r is Ok && window_models(r->Ok_0@) == ws,
            None => r == Err::<Vec<WindowInfo>, CompositorError>(CompositorError::Payload),
        },
{
    let items = match j {
        Json::List(items) => items,
        _ => { return Err(CompositorError::Payload); },
    };
    let mut out: Vec<WindowInfo> = Vec::new();
    let mut i: usize = 0;
    while i < items.len()
        invariant
            i <= items.len(),
            out@.len() == i,
            *j matches Json::List(l) && l == *items,
            forall|k: int| 0 <= k < i ==> window_of(#[trigger] items@[k]) == Some(out@[k]@),
        decreases items.len() - i,
    {
        match decode_window(&items[i]) {
            Some(w) => {
                out.push(w);
            },
            None => {
                assert(window_of(items@[i as int]) is None);
                return Err(CompositorError::Payload);
            },
        }
        i += 1;
    }
    proof {
        assert(window_models(out@) =~= windows_of(*j)->0);
    }
    Ok(out)
}

/// Reads the window list from the text that the list script printed.
pub fn parse_windows(text: &str) -> (r: Result<Vec<WindowInfo>, CompositorError>)
    ensures
        match listing_of(Ok(Some(text@))) {
            Ok(ws) => r is Ok && window_models(r->Ok_0@) == ws,
            Err(e) => r == Err::<Vec<WindowInfo>, CompositorError>(e),
        },
{
    match parse_json(text) {
        Some(j) => decode_windows(&j),
        None => Err(CompositorError::Payload),
    }
}

/// Turns the outcome of a list exchange into the result of the list request.
/// An exchange that ended without output is a timeout, never an empty list.
pub fn list_result(outcome: Result<Option<String>, CompositorError>) -> (r: Result<
    Vec<WindowInfo>,
    CompositorError,
>)
    ensures
        match listing_of(
            match outcome {
                Ok(Some(text)) => Ok(Some(text@)),
                Ok(None) => Ok(None),
                Err(e) => Err(e),
            },
        ) {
            Ok(ws) => r is Ok && window_models(r->Ok_0@) == ws,
            Err(e) => r == Err::<Vec<WindowInfo>, CompositorError>(e),
        },
        outcome == Ok::<Option<String>, CompositorError>(None) ==> r == Err::<
            Vec<WindowInfo>,
            CompositorError,
        >(CompositorError::Timeout),
{
    match outcome {
        Err(e) => Err(e),
        Ok(None) => Err(CompositorError::Timeout),
        Ok(Some(text)) => parse_windows(text.as_str()),
    }
}

/// Turns the outcome of a focus exchange into the result of the focus
/// request: the failure of the exchange, else success, whether or not a
/// window bore the identity.
pub fn focus_result(outcome: Result<Option<String>, CompositorError>) -> (r: Result<
    (),
    CompositorError,
>)
    ensures
        match outcome {
            Ok(_) => r is Ok,
            Err(e) => r == Err::<(), CompositorError>(e),
        },
{
    match outcome {
        Ok(_) => Ok(()),
        Err(e) => Err(e),
    }
}

} // verus!
