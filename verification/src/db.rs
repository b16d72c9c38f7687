//! Parameters for SQL statements, and the two calls that run a statement.
//!
//! The statement text is passed through as it is; how placeholders are
//! written is the host's business.

use crate::error::{VtxError, VtxResult};
use crate::host::Host;
use crate::json::{parse_with, parsed_from};
use crate::text::{mentions, mentions_phrase};
use vstd::prelude::*;
use vstd::string::StringExecFns;

verus! {

/// A 64-bit floating-point number, held by its IEEE 754 bit pattern.
#[derive(Clone, Copy, Debug)]
pub struct RealBits(pub u64);

/// One parameter of a statement.
#[derive(Debug)]
pub enum DbValue {
    Text(String),
    Integer(i64),
    Real(RealBits),
    NullVal,
}

/// A parameter as contracts see it.
pub enum Param {
    Text(Seq<char>),
    Integer(i64),
    /// The bit pattern of the number.
    Real(u64),
    Null,
}

impl View for DbValue {
    type V = Param;

    open spec fn view(&self) -> Param {
        match self {
            DbValue::Text(s) => Param::Text(s@),
            DbValue::Integer(n) => Param::Integer(*n),
            DbValue::Real(bits) => Param::Real(bits.0),
            DbValue::NullVal => Param::Null,
        }
    }
}

/// The signed number with the same 64 bits as `n`.
pub open spec fn reinterpreted(n: u64) -> i64 {
    if n <= i64::MAX {
        n as i64
    } else {
        (n - 0x1_0000_0000_0000_0000) as i64
    }
}

/// A value that can be passed as a parameter of a statement. Every such value
/// stands for exactly one parameter.
pub trait ToDbValue {
    /// The parameter that this value stands for.
    spec fn param(&self) -> Param;

    /// The parameter that this value stands for.
    fn to_db_value(&self) -> (value: DbValue)
        ensures
            value@ == self.param(),
    ;
}

impl ToDbValue for String {
    open spec fn param(&self) -> Param {
        Param::Text(self@)
    }

    fn to_db_value(&self) -> (value: DbValue) {
        DbValue::Text(self.clone())
    }
}

impl<'a> ToDbValue for &'a str {
    open spec fn param(&self) -> Param {
        Param::Text(self@)
    }

    fn to_db_value(&self) -> (value: DbValue) {
        DbValue::Text(String::from_str(*self))
    }
}

impl ToDbValue for i64 {
    open spec fn param(&self) -> Param {
        Param::Integer(*self)
    }

    fn to_db_value(&self) -> (value: DbValue) {
        DbValue::Integer(*self)
    }
}

impl ToDbValue for i32 {
    open spec fn param(&self) -> Param {
        Param::Integer(*self as i64)
    }

    fn to_db_value(&self) -> (value: DbValue) {
        DbValue::Integer(*self as i64)
    }
}

impl ToDbValue for u64 {
    open spec fn param(&self) -> Param {
        Param::Integer(reinterpreted(*self))
    }

    fn to_db_value(&self) -> (value: DbValue) {
        let n: u64 = *self;
        if n <= 0x7fff_ffff_ffff_ffff {
            DbValue::Integer(n as i64)
        } else {
            let low: i64 = (n - 0x8000_0000_0000_0000) as i64;
            DbValue::Integer(low + i64::MIN)
        }
    }
}

impl ToDbValue for u32 {
    open spec fn param(&self) -> Param {
        Param::Integer(*self as i64)
    }

    fn to_db_value(&self) -> (value: DbValue) {
        DbValue::Integer(*self as i64)
    }
}

impl ToDbValue for bool {
    open spec fn param(&self) -> Param {
        Param::Integer(
            if *self {
                1
            } else {
                0
            },
        )
    }

    fn to_db_value(&self) -> (value: DbValue) {
        DbValue::Integer(
            if *self {
                1
            } else {
                0
            },
        )
    }
}

impl ToDbValue for RealBits {
    open spec fn param(&self) -> Param {
        Param::Real(self.0)
    }

    fn to_db_value(&self) -> (value: DbValue) {
        DbValue::Real(*self)
    }
}

impl ToDbValue for () {
    open spec fn param(&self) -> Param {
        Param::Null
    }

    fn to_db_value(&self) -> (value: DbValue) {
        DbValue::NullVal
    }
}

impl<T: ToDbValue> ToDbValue for Option<T> {
    open spec fn param(&self) -> Param {
        match self {
            Some(v) => v.param(),
            None => Param::Null,
        }
    }

    fn to_db_value(&self) -> (value: DbValue) {
        match self {
            Some(v) => v.to_db_value(),
            None => DbValue::NullVal,
        }
    }
}

/// The parameters that a list of values stands for, in order.
pub open spec fn params_of(values: Seq<&dyn ToDbValue>) -> Seq<Param> {
    Seq::new(values.len(), |i: int| values[i].param())
}

/// The contents of a list of parameters.
pub open spec fn params_in(bound: Seq<DbValue>) -> Seq<Param> {
    Seq::new(bound.len(), |i: int| bound[i]@)
}

/// Turns each value into the parameter it stands for.
pub fn bind(values: &[&dyn ToDbValue]) -> (bound: Vec<DbValue>)
    ensures
        params_in(bound@) == params_of(values@),
{
    let mut bound: Vec<DbValue> = Vec::new();
    let mut i: usize = 0;
    while i < values.len()
        invariant
            i <= values@.len(),
            bound@.len() == i,
            forall|j: int| 0 <= j < i ==> bound@[j]@ == values@[j].param(),
        decreases values@.len() - i,
    {
        let value = values[i].to_db_value();
        bound.push(value);
        i = i + 1;
    }
    assert(params_in(bound@) =~= params_of(values@));
    bound
}

/// The error that a failure message of the database stands for: a refusal
/// where the message says so, in any letter case, and a database error
/// otherwise. The message itself is kept.
pub open spec fn db_error(message: String) -> VtxError {
    if mentions(message@, "permission denied"@) {
        VtxError::PermissionDenied(message)
    } else {
        VtxError::DatabaseError(message)
    }
}

/// Classifies a failure message of the database.
pub fn classify(message: String) -> (err: VtxError)
    ensures
        err == db_error(message),
{
    if mentions_phrase(message.as_str(), "permission denied") {
        VtxError::PermissionDenied(message)
    } else {
        VtxError::DatabaseError(message)
    }
}

/// Runs a statement that returns no rows. The host receives the statement as
/// it is and the parameters that `params` stand for; its answer is the count
/// of rows changed, or a message that is classified by `db_error`.
pub fn execute<H: Host>(host: &H, sql: &str, params: &[&dyn ToDbValue]) -> (r: VtxResult<u64>)
    ensures
        exists|bound: &[DbValue], reply: Result<u64, String>|
            #![trigger call_ensures(H::execute, (host, sql, bound), reply)]
            {
                &&& params_in(bound@) == params_of(params@)
                &&& call_ensures(H::execute, (host, sql, bound), reply)
                &&& match reply {
                    Ok(rows) => r == Ok::<u64, VtxError>(rows),
                    Err(message) => r == Err::<u64, VtxError>(db_error(message)),
                }
            },
{
    let bound = bind(params);
    let handed = bound.as_slice();
    let reply = host.execute(sql, handed);
    let ghost seen = reply;
    let r = match reply {
        Ok(rows) => Ok(rows),
        Err(message) => Err(classify(message)),
    };
    assert(call_ensures(H::execute, (host, sql, handed), seen));
    r
}

/// Runs a query and hands the rows, which the host returns as the text of a
/// JSON array, to `parse`. A failure of the host is classified by `db_error`;
/// rows that the parser refuses give a serialization error.
pub fn query<H: Host, T, P: FnOnce(&str) -> Result<Vec<T>, serde_json::Error>>(
    host: &H,
    sql: &str,
    params: &[&dyn ToDbValue],
    parse: P,
) -> (r: VtxResult<Vec<T>>)
    requires
        forall|text: &str| call_requires(parse, (text,)),
    ensures
        exists|bound: &[DbValue], reply: Result<String, String>|
            #![trigger call_ensures(H::query_json, (host, sql, bound), reply)]
            {
                &&& params_in(bound@) == params_of(params@)
                &&& call_ensures(H::query_json, (host, sql, bound), reply)
                &&& match reply {
                    Ok(rows) => exists|text: &str|
                        text@ == rows@ && #[trigger] parsed_from(parse, text, r),
                    Err(message) => r == Err::<Vec<T>, VtxError>(db_error(message)),
                }
            },
{
    let bound = bind(params);
    let handed = bound.as_slice();
    let reply = host.query_json(sql, handed);
    let ghost seen = reply;
    let r = match reply {
        Ok(rows) => {
            let text = rows.as_str();
            let r = parse_with(text, parse);
            assert(text@ == rows@ && parsed_from(parse, text, r));
            r
        },
        Err(message) => Err(classify(message)),
    };
    assert(call_ensures(H::query_json, (host, sql, handed), seen));
    r
}

} // verus!
