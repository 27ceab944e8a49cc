//! Worker admission through remote attestation.
//!
//! The cryptographic verification itself is an opaque external verifier: it
//! takes a quote, a trust anchor, and the current time, and returns pass or
//! fail.  The engine decodes the hex-encoded quote, parses the trust-anchor
//! material, asks the verifier, and on a passing verdict records the worker.

use vstd::prelude::*;

use crate::contract::Contract;
use crate::contract::preserves_canceled;
use crate::contract::unchanged_but_workers;
use crate::models::Worker;
use crate::models::WorkerView;

verus! {

/// Whether `c` is a hexadecimal digit, of either case.
pub open spec fn is_hex_digit(c: char) -> bool {
    ||| '0' as int <= c as int <= '9' as int
    ||| 'a' as int <= c as int <= 'f' as int
    ||| 'A' as int <= c as int <= 'F' as int
}

/// The value of the hexadecimal digit `c`.
pub open spec fn hex_digit_val(c: char) -> int
    recommends
        is_hex_digit(c),
{
    if '0' as int <= c as int <= '9' as int {
        c as int - '0' as int
    } else if 'a' as int <= c as int <= 'f' as int {
        c as int - 'a' as int + 10
    } else {
        c as int - 'A' as int + 10
    }
}

/// Whether `s` is a well-formed hex encoding: an even number of
/// hexadecimal digits.
pub open spec fn is_hex_str(s: Seq<char>) -> bool {
    &&& s.len() % 2 == 0
    &&& forall|i: int| 0 <= i < s.len() ==> is_hex_digit(#[trigger] s[i])
}

/// The bytes a hex encoding spells, high nibble first.
pub open spec fn hex_bytes(s: Seq<char>) -> Seq<u8> {
    Seq::new(
        (s.len() / 2) as nat,
        |i: int| (hex_digit_val(s[2 * i]) * 16 + hex_digit_val(s[2 * i + 1])) as u8,
    )
}

/// Relies on `hex::decode`: an even-length string of hexadecimal digits of
/// either case decodes to the bytes its digit pairs spell, high nibble
/// first.
#[verifier::external_body]
fn hex_decode(s: &String) -> (r: Vec<u8>)
    requires
        is_hex_str(s@),
    ensures
        r@ == hex_bytes(s@),
{
    hex::decode(s.as_str()).unwrap_or_default()
}

pub uninterp spec fn attestation_verdict(quote: Seq<u8>, collateral: Seq<char>, now: u64) -> bool;

/// Relies on `serde_json::from_str` (turning the JSON trust-anchor document
/// into a `dcap_qvl::QuoteCollateralV3`) and on `dcap_qvl::verify::verify`
/// (verifying the quote against it at time `now`): the returned flag is the
/// verdict, `false` also when the string is no trust-anchor document.
/// Neither call panics on arbitrary input; the verifier is Result-based
/// throughout and uses no randomness or ambient clock, so the verdict
/// depends on the arguments alone.
#[verifier::external_body]
fn verify_attestation(quote: &Vec<u8>, collateral: &String, now: u64) -> (r: bool)
    ensures
        r == attestation_verdict(quote@, collateral@, now),
{
    match serde_json::from_str::<dcap_qvl::QuoteCollateralV3>(collateral.as_str()) {
        Ok(c) => dcap_qvl::verify::verify(quote.as_slice(), &c, now).is_ok(),
        Err(_) => false,
    }
}

impl Contract {
    /// Admits a worker after attestation verification.
    ///
    /// The hex-decoded quote and the trust-anchor material are handed to the
    /// external verifier with the current time; the returned flag is the
    /// verifier's verdict.  A passing verdict stores (insert-or-replace) the
    /// worker record under the calling principal; any failure — unparseable
    /// trust anchor or rejected quote — changes nothing.
    pub fn register_worker(
        &mut self,
        caller: &String,
        quote_hex: &String,
        collateral: &String,
        checksum: String,
        codehash: String,
        now: u64,
    ) -> (r: bool)
        requires
            old(self).wf(),
            is_hex_str(quote_hex@),
        ensures
            final(self).wf(),
            preserves_canceled(old(self), final(self)),
            r == attestation_verdict(hex_bytes(quote_hex@), collateral@, now),
            !r ==> *final(self) == *old(self),
            r ==> {
                &&& final(self).workers() =~= old(self).workers().insert(
                    caller@,
                    WorkerView { checksum: checksum@, codehash: codehash@ },
                )
                &&& unchanged_but_workers(old(self), final(self))
            },
    {
        let quote = hex_decode(quote_hex);
        if verify_attestation(&quote, collateral, now) {
            self.worker_by_account_id.insert(caller.clone(), Worker { checksum, codehash });
            true
        } else {
            false
        }
    }
}

} // verus!
