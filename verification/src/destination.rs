//! A phone number and carrier pair, reduced to the carrier's email-to-SMS
//! gateway address `<digits>@<domain>`.

use vstd::prelude::*;
use crate::carrier::{Carrier, CarrierModel, domain_of};

verus! {

use vstd::string::StrSliceExecFns;
use vstd::string::StringExecFns;

/// Whether a character is a decimal digit (ASCII `0`..`9`).
pub open spec fn is_digit(c: char) -> bool {
    48 <= c as u32 <= 57
}

/// The digits of a character sequence, in order, with every other character
/// removed.
pub open spec fn digits_of(s: Seq<char>) -> Seq<char>
    decreases s.len(),
{
    if s.len() == 0 {
        Seq::empty()
    } else if is_digit(s.last()) {
        digits_of(s.drop_last()).push(s.last())
    } else {
        digits_of(s.drop_last())
    }
}

/// Every character of `digits_of(s)` is a digit.
pub proof fn lemma_digits_of_all_digits(s: Seq<char>)
    ensures
        forall|j: int| 0 <= j < digits_of(s).len() ==> is_digit(#[trigger] digits_of(s)[j]),
    decreases s.len(),
{
    if s.len() > 0 {
        lemma_digits_of_all_digits(s.drop_last());
        let rest = digits_of(s.drop_last());
        assert forall|j: int| 0 <= j < digits_of(s).len() implies is_digit(
            #[trigger] digits_of(s)[j],
        ) by {
            if j < rest.len() {
                assert(digits_of(s)[j] == rest[j]);
            }
        }
    }
}

/// On a sequence of digits, `digits_of` removes nothing.
pub proof fn lemma_digits_of_identity(s: Seq<char>)
    requires
        forall|j: int| 0 <= j < s.len() ==> is_digit(#[trigger] s[j]),
    ensures
        digits_of(s) == s,
    decreases s.len(),
{
    if s.len() == 0 {
        assert(digits_of(s) =~= s);
    } else {
        lemma_digits_of_identity(s.drop_last());
        assert(digits_of(s) =~= s);
    }
}

/// Normalizing a number to its digits is idempotent: filtering twice yields
/// the same digit string as filtering once.
pub proof fn lemma_digits_of_idempotent(s: Seq<char>)
    ensures
        digits_of(digits_of(s)) == digits_of(s),
{
    lemma_digits_of_all_digits(s);
    lemma_digits_of_identity(digits_of(s));
}

/// The mathematical model of a [`Destination`].
pub struct DestinationModel {
    /// The normalized phone number: decimal digits only.
    pub number: Seq<char>,
    /// The carrier whose gateway the message is addressed to.
    pub carrier: CarrierModel,
}

/// The composed gateway address of a destination: `<digits>@<domain>`.
pub open spec fn address_of(d: DestinationModel) -> Seq<char> {
    d.number + seq!['@'] + domain_of(d.carrier)
}

/// A phone number and mobile carrier pair for sending a text message.
#[derive(Debug)]
pub struct Destination {
    /// The phone number, normalized to decimal digits.
    pub number: String,
    /// The carrier whose gateway the message goes through.
    pub carrier: Carrier,
}

impl View for Destination {
    type V = DestinationModel;

    open spec fn view(&self) -> DestinationModel {
        DestinationModel { number: self.number@, carrier: self.carrier@ }
    }
}

impl Destination {
    /// Creates a new destination with the provided phone number and carrier.
    /// Every character of the number that is not a decimal digit is stripped;
    /// the result is not validated in any way.
    pub fn new(number: &str, carrier: &Carrier) -> (d: Self)
        ensures
            d@.number == digits_of(number@),
            d@.carrier == carrier@,
    {
        let n = number.unicode_len();
        let mut digits = String::new();
        let mut i: usize = 0;
        while i < n
            invariant
                i <= n,
                n == number@.len(),
                digits@ == digits_of(number@.subrange(0, i as int)),
            decreases n - i,
        {
            let c = number.get_char(i);
            let code = c as u32;
            if 48 <= code && code <= 57 {
                let piece = number.substring_char(i, i + 1);
                digits.append(piece);
            }
            proof {
                let prefix = number@.subrange(0, i + 1 as int);
                assert(prefix.drop_last() =~= number@.subrange(0, i as int));
                assert(prefix.last() == number@[i as int]);
                if is_digit(number@[i as int]) {
                    assert(number@.subrange(i as int, i + 1 as int) =~= seq![number@[i as int]]);
                    assert(digits@ =~= digits_of(prefix.drop_last()).push(prefix.last()));
                }
            }
            i += 1;
        }
        proof {
            assert(number@.subrange(0, n as int) =~= number@);
        }
        Self { number: digits, carrier: carrier.clone() }
    }

    /// The composed gateway email address, `<digits>@<carrier-domain>`.
    pub fn address(&self) -> (r: String)
        ensures
            r@ == address_of(self@),
    {
        let mut out = self.number.clone();
        out.append("@");
        out.append(self.carrier.get_domain());
        proof {
            reveal_strlit("@");
            assert("@"@ =~= seq!['@']);
        }
        out
    }
}

/// The shape of every composed address: the digits of the number come first,
/// then a single `@`, then the carrier's domain — so the address always ends
/// with `"@" + domain` and its local part is exactly the normalized number.
pub proof fn lemma_address_parts(d: DestinationModel)
    ensures
        address_of(d).len() == d.number.len() + 1 + domain_of(d.carrier).len(),
        address_of(d).subrange(0, d.number.len() as int) == d.number,
        address_of(d)[d.number.len() as int] == '@',
        address_of(d).subrange(
            d.number.len() as int + 1,
            address_of(d).len() as int,
        ) == domain_of(d.carrier),
{
    assert(address_of(d).subrange(0, d.number.len() as int) =~= d.number);
    assert(address_of(d).subrange(d.number.len() as int + 1, address_of(d).len() as int)
        =~= domain_of(d.carrier));
}

} // verus!
