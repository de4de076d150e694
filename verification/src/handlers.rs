use vstd::prelude::*;

use crate::numerals::dec_seq;
use crate::numerals::parse_u32;
use crate::numerals::parsed_u32;
use crate::numerals::parses_as_u32;
use crate::numerals::u32_to_dec;

verus! {

/// Why a request's extracted inputs were rejected; each case is surfaced to
/// the client as a client-error response.
#[derive(Clone, Copy, Debug, PartialEq, Eq, Structural)]
pub enum ExtractError {
    /// A required query field is absent.
    MissingField,
    /// A value that must be an unsigned integer does not parse as one.
    InvalidInteger,
}

/// The typed query for the predefined-parameters route: both fields are
/// required.
pub struct UserQuery {
    pub address: String,
    pub age: u32,
}

/// A money transfer, echoed back verbatim by its route.
pub struct Tx {
    pub amount: u128,
    pub address: String,
}

/// The fixed greeting served at the root route.
pub open spec fn hello_msg() -> Seq<char> {
    "Hello, World!"@
}

/// The reply for the transaction route.
pub open spec fn transaction_msg(id: nat) -> Seq<char> {
    "Id is "@ + dec_seq(id)
}

/// The reply for the generic query route: the `keyid` value, or a fixed
/// fallback when the key is absent.
pub open spec fn generic_query_msg(keyid: Option<Seq<char>>) -> Seq<char> {
    "The key id of x "@ + match keyid {
        Some(v) => v,
        None => "No keyid provided"@,
    }
}

/// The reply for the predefined query route.
pub open spec fn user_query_msg(age: nat, address: Seq<char>) -> Seq<char> {
    "The "@ + dec_seq(age) + " year old user with address "@ + address
}

/// The reply for the header route: the `sms` header's value, or a fixed
/// fallback when the header is absent or not readable as text.
pub open spec fn header_msg(sms: Option<Seq<char>>) -> Seq<char> {
    "The header value for key SMS is "@ + match sms {
        Some(v) => v,
        None => "No sms header provided"@,
    }
}

/// The root route: always the same greeting, whatever the request carried.
pub fn hello() -> (r: String)
    ensures
        r@ == hello_msg(),
{
    "Hello, World!".to_owned()
}

/// Formats the reply for a transaction id.
pub fn transaction_reply(id: u32) -> (r: String)
    ensures
        r@ == transaction_msg(id as nat),
{
    let mut s: String = "Id is ".to_owned();
    let digits = u32_to_dec(id);
    s.append(digits.as_str());
    s
}

/// The transaction route: parses the path segment as an unsigned 32-bit id
/// and answers with its reply, or rejects the request.
pub fn transaction_route(segment: &str) -> (r: Result<String, ExtractError>)
    ensures
        parses_as_u32(segment@) ==> (r matches Ok(m) && m@ == transaction_msg(
            parsed_u32(segment@),
        )),
        !parses_as_u32(segment@) ==> (r matches Err(e) && e == ExtractError::InvalidInteger),
{
    match parse_u32(segment) {
        Some(id) => Ok(transaction_reply(id)),
        None => Err(ExtractError::InvalidInteger),
    }
}

/// The generic query route: a missing `keyid` is not an error but a fixed
/// fallback text.
pub fn generic_query_reply(keyid: Option<&str>) -> (r: String)
    ensures
        r@ == generic_query_msg(keyid.deep_view()),
{
    let mut s: String = "The key id of x ".to_owned();
    match keyid {
        Some(v) => s.append(v),
        None => s.append("No keyid provided"),
    }
    s
}

/// Validates the raw query fields of the predefined route: both fields are
/// required and `age` must parse as an unsigned 32-bit integer.
pub fn parse_user_query(address: Option<&str>, age: Option<&str>) -> (r: Result<
    UserQuery,
    ExtractError,
>)
    ensures
        address is None || age is None ==> (r matches Err(e) && e == ExtractError::MissingField),
        address is Some && age is Some && !parses_as_u32(age->0@) ==> (r matches Err(e)
            && e == ExtractError::InvalidInteger),
        address is Some && age is Some && parses_as_u32(age->0@) ==> (r matches Ok(q)
            && q.address@ == address->0@ && q.age as nat == parsed_u32(age->0@)),
{
    match (address, age) {
        (Some(a), Some(g)) => match parse_u32(g) {
            Some(v) => Ok(UserQuery { address: a.to_owned(), age: v }),
            None => Err(ExtractError::InvalidInteger),
        },
        _ => Err(ExtractError::MissingField),
    }
}

/// Formats the reply for a validated user query.
pub fn user_query_reply(q: &UserQuery) -> (r: String)
    ensures
        r@ == user_query_msg(q.age as nat, q.address@),
{
    let mut s: String = "The ".to_owned();
    let digits = u32_to_dec(q.age);
    s.append(digits.as_str());
    s.append(" year old user with address ");
    s.append(q.address.as_str());
    proof {
        assert(s@ =~= user_query_msg(q.age as nat, q.address@));
    }
    s
}

/// The predefined query route: validation then formatting.
pub fn user_query_route(address: Option<&str>, age: Option<&str>) -> (r: Result<
    String,
    ExtractError,
>)
    ensures
        address is None || age is None ==> (r matches Err(e) && e == ExtractError::MissingField),
        address is Some && age is Some && !parses_as_u32(age->0@) ==> (r matches Err(e)
            && e == ExtractError::InvalidInteger),
        address is Some && age is Some && parses_as_u32(age->0@) ==> (r matches Ok(m)
            && m@ == user_query_msg(parsed_u32(age->0@), address->0@)),
{
    match parse_user_query(address, age) {
        Ok(q) => Ok(user_query_reply(&q)),
        Err(e) => Err(e),
    }
}

/// The header route: a missing or unreadable `sms` header is not an error
/// but a fixed fallback text.
pub fn header_reply(sms: Option<&str>) -> (r: String)
    ensures
        r@ == header_msg(sms.deep_view()),
{
    let mut s: String = "The header value for key SMS is ".to_owned();
    match sms {
        Some(v) => s.append(v),
        None => s.append("No sms header provided"),
    }
    s
}

/// The money route: the transfer is echoed back unchanged.
pub fn send_money(tx: Tx) -> (r: Tx)
    ensures
        r.amount == tx.amount,
        r.address@ == tx.address@,
{
    let amount = tx.amount;
    let address = tx.address;
    Tx { amount: amount, address: address }
}

} // verus!
