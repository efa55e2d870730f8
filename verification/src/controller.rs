use vstd::prelude::*;
use vstd::utf8::{decode_utf8, valid_utf8};

use crate::limits::Limits;
use crate::pricing::{calc_price_with_limits, price_for};
use crate::verdict::{Error, Verdict};

verus! {

/// How many of the ledger's smallest units make one unit of price.
pub const UNIT_MULTIPLIER: u64 = 100_000_000;

/// The name that the lock's argument bytes carry.
pub open spec fn decoded_identifier(args: Seq<u8>) -> Result<Seq<char>, Error> {
    if args.len() == 0 {
        Err(Error::MissingIdentifier)
    } else if !valid_utf8(args) {
        Err(Error::EncodingError)
    } else {
        Ok(decode_utf8(args))
    }
}

/// The rule text that the witness's lock field carries, if there is one.
pub open spec fn decoded_rule(lock: Option<Seq<u8>>) -> Result<Seq<char>, Error> {
    match lock {
        None => Err(Error::MissingRule),
        Some(bytes) => if valid_utf8(bytes) {
            Ok(decode_utf8(bytes))
        } else {
            Err(Error::EncodingError)
        },
    }
}

/// The capacity, in smallest units, that a price asks for.
pub open spec fn required_capacity(price: i64) -> int {
    price * UNIT_MULTIPLIER
}

/// The verdict on a computed price and a committed capacity.
///
/// A negative price is no price: the rule that produced it is unusable. A
/// price of zero asks for nothing and is always covered. A requirement that
/// exceeds every capacity is never covered.
pub open spec fn verdict_for(price: i64, capacity: u64) -> Verdict {
    if price < 0 {
        Verdict::Reject(Error::RuleError)
    } else if capacity >= required_capacity(price) {
        Verdict::Accept
    } else {
        Verdict::Reject(Error::InsufficientCapacity)
    }
}

/// The verdict of a whole run on the three values read from the transaction.
pub open spec fn verdict_of(args: Seq<u8>, lock: Option<Seq<u8>>, capacity: u64, limits: Limits) -> Verdict {
    match decoded_identifier(args) {
        Err(kind) => Verdict::Reject(kind),
        Ok(identifier) => match decoded_rule(lock) {
            Err(kind) => Verdict::Reject(kind),
            Ok(rule) => match price_for(identifier, rule, limits) {
                Err(kind) => Verdict::Reject(kind),
                Ok(price) => verdict_for(price, capacity),
            },
        },
    }
}

/// A decoding result with its text as a sequence of characters.
pub open spec fn text_of(r: Result<&str, Error>) -> Result<Seq<char>, Error> {
    match r {
        Ok(s) => Ok(s@),
        Err(kind) => Err(kind),
    }
}

/// An optional byte slice as an optional sequence of bytes.
pub open spec fn bytes_of(lock: Option<&[u8]>) -> Option<Seq<u8>> {
    match lock {
        Some(bytes) => Some(bytes@),
        None => None,
    }
}

/// Decodes the lock's argument bytes into the name.
pub fn load_args<'a>(args: &'a [u8]) -> (r: Result<&'a str, Error>)
    ensures
        text_of(r) == decoded_identifier(args@),
{
    if args.len() == 0 {
        return Err(Error::MissingIdentifier);
    }
    match core::str::from_utf8(args) {
        Ok(identifier) => Ok(identifier),
        Err(_) => Err(Error::EncodingError),
    }
}

/// Decodes the witness's lock field into the rule text.
pub fn load_witness<'a>(lock: Option<&'a [u8]>) -> (r: Result<&'a str, Error>)
    ensures
        text_of(r) == decoded_rule(bytes_of(lock)),
{
    match lock {
        None => Err(Error::MissingRule),
        Some(bytes) => match core::str::from_utf8(bytes) {
            Ok(rule) => Ok(rule),
            Err(_) => Err(Error::EncodingError),
        },
    }
}

/// Compares the committed capacity with what the price asks for.
pub fn judge(price: i64, capacity: u64) -> (v: Verdict)
    ensures
        v == verdict_for(price, capacity),
{
    if price < 0 {
        return Verdict::Reject(Error::RuleError);
    }
    assert(0 <= price * UNIT_MULTIPLIER <= 0x7fff_ffff_ffff_ffff * 100_000_000) by (nonlinear_arith)
        requires
            0 <= price <= 0x7fff_ffff_ffff_ffff,
            UNIT_MULTIPLIER == 100_000_000,
    ;
    let required: u128 = (price as u128) * (UNIT_MULTIPLIER as u128);
    if capacity as u128 >= required {
        Verdict::Accept
    } else {
        Verdict::Reject(Error::InsufficientCapacity)
    }
}

/// Runs one validation within `limits`, on the argument bytes, the witness's
/// lock field and the committed capacity.
pub fn validate_with_limits(args: &[u8], lock: Option<&[u8]>, capacity: u64, limits: &Limits) -> (v: Verdict)
    ensures
        v == verdict_of(args@, bytes_of(lock), capacity, *limits),
{
    let identifier = match load_args(args) {
        Ok(identifier) => identifier,
        Err(kind) => {
            return Verdict::Reject(kind);
        },
    };
    let rule = match load_witness(lock) {
        Ok(rule) => rule,
        Err(kind) => {
            return Verdict::Reject(kind);
        },
    };
    match calc_price_with_limits(identifier, rule, limits) {
        Ok(price) => judge(price, capacity),
        Err(kind) => Verdict::Reject(kind),
    }
}

/// Runs one validation within the standard limits.
pub fn validate(args: &[u8], lock: Option<&[u8]>, capacity: u64) -> (v: Verdict)
    ensures
        v == verdict_of(args@, bytes_of(lock), capacity, Limits::spec_standard()),
{
    let limits = Limits::standard();
    validate_with_limits(args, lock, capacity, &limits)
}

/// A name that is accepted has at least one character.
pub proof fn lemma_identifier_is_not_empty(args: Seq<u8>)
    ensures
        decoded_identifier(args) matches Ok(identifier) ==> identifier.len() > 0,
{
}

/// Bytes that are not UTF-8 end the run with `EncodingError`: argument bytes
/// that are present, and rule bytes that follow an accepted name.
pub proof fn lemma_bad_encoding_is_rejected(args: Seq<u8>, lock: Option<Seq<u8>>, capacity: u64, limits: Limits)
    ensures
        args.len() > 0 && !valid_utf8(args) ==> verdict_of(args, lock, capacity, limits) == Verdict::Reject(
            Error::EncodingError,
        ),
        decoded_identifier(args) is Ok && lock is Some && !valid_utf8(lock->0) ==> verdict_of(
            args,
            lock,
            capacity,
            limits,
        ) == Verdict::Reject(Error::EncodingError),
{
}

/// The capacity gate: a price that is not negative is accepted exactly when
/// the capacity reaches the price times the unit multiplier, and is refused
/// with `InsufficientCapacity` otherwise; a capacity that covers a price
/// covers it still when it grows.
pub proof fn lemma_capacity_gate(price: i64, capacity: u64, more: u64)
    requires
        price >= 0,
        capacity <= more,
    ensures
        verdict_for(price, capacity) == Verdict::Accept <==> capacity >= price * UNIT_MULTIPLIER,
        verdict_for(price, capacity) != Verdict::Accept ==> verdict_for(price, capacity) == Verdict::Reject(
            Error::InsufficientCapacity,
        ),
        verdict_for(price, capacity) == Verdict::Accept ==> verdict_for(price, more) == Verdict::Accept,
{
}

/// A run accepts only a name that was decoded, under a rule that was decoded
/// and gave a price that is not negative and is covered by the capacity.
pub proof fn lemma_accept_means_covered(args: Seq<u8>, lock: Option<Seq<u8>>, capacity: u64, limits: Limits)
    requires
        verdict_of(args, lock, capacity, limits) == Verdict::Accept,
    ensures
        decoded_identifier(args) is Ok,
        decoded_rule(lock) is Ok,
        price_for(decoded_identifier(args)->Ok_0, decoded_rule(lock)->Ok_0, limits) matches Ok(price) && 0 <= price
            && price * UNIT_MULTIPLIER <= capacity,
{
}

} // verus!
