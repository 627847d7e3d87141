//! Authentication of a card number: its network, and whether it passes the
//! network's length rule and the Luhn check.
use vstd::prelude::*;

use crate::digits::{all_digits, all_digits_exec, char_is_digit, chars_of, digit_value_exec};
use crate::issuer::{
    lemma_amex_shape, lemma_discover_shape, lemma_mastercard_shape, lemma_visa_shape, Type,
};
use crate::luhn::{luhn_prefix_sum, luhn_sum, luhn_valid};

verus! {

/// The network of `s`: the first of Visa, Discover, Amex and MasterCard
/// whose format rule `s` matches, else `Other`.
pub open spec fn classify(s: Seq<char>) -> Type {
    if Type::Visa.prefix_rule(s) {
        Type::Visa
    } else if Type::Discover.prefix_rule(s) {
        Type::Discover
    } else if Type::Amex.prefix_rule(s) {
        Type::Amex
    } else if Type::MasterCard.prefix_rule(s) {
        Type::MasterCard
    } else {
        Type::Other
    }
}

/// The result of authenticating a card number.
#[derive(Debug, PartialEq, Eq, Structural)]
pub struct Authenticate {
    /// The network the number belongs to.
    pub card_type: Type,
    /// The number passes the length rule and the Luhn check, and its network
    /// is a known one.
    pub valid: bool,
    /// The number passes its network's length rule.
    pub length_valid: bool,
    /// The number passes the Luhn check.
    pub luhn_valid: bool,
}

/// What authenticating `s` gives.
pub open spec fn authentication_of(s: Seq<char>) -> Authenticate {
    let card_type = classify(s);
    let length_valid = card_type.length_rule(s);
    let luhn_ok = luhn_valid(s);
    Authenticate {
        card_type,
        valid: length_valid && luhn_ok && card_type.is_recognized(),
        length_valid,
        luhn_valid: luhn_ok,
    }
}

impl Authenticate {
    /// Authenticates `card_number`. Every string is accepted: one that is
    /// empty or holds anything but digits is classified `Other`, and fails
    /// the length rule and the Luhn check.
    pub fn new(card_number: &str) -> (r: Authenticate)
        ensures
            r == authentication_of(card_number@),
            r.card_type == classify(card_number@),
            r.length_valid == r.card_type.length_rule(card_number@),
            r.luhn_valid == luhn_valid(card_number@),
            r.valid == (r.length_valid && r.luhn_valid && r.card_type.is_recognized()),
    {
        let card_type = Authenticate::evaluate_type(card_number);
        let length_valid = Authenticate::is_length_valid(card_number, &card_type);
        let luhn_valid = Authenticate::is_luhn_valid(card_number);
        let valid = length_valid && luhn_valid && card_type.valid();

        Authenticate { card_type, valid, length_valid, luhn_valid }
    }

    /// The first known network whose format rule `card_number` matches, in
    /// the order of `Type::all`, else `Other`.
    pub fn evaluate_type(card_number: &str) -> (r: Type)
        ensures
            r == classify(card_number@),
    {
        let all = Type::all();
        let mut i: usize = 0;
        while i < all.len()
            invariant
                all@ == seq![Type::Visa, Type::Discover, Type::Amex, Type::MasterCard],
                i <= all.len(),
                forall|m: int| 0 <= m < i ==> !(#[trigger] all@[m]).prefix_rule(card_number@),
            decreases all.len() - i,
        {
            let card = all[i];
            if card.pattern(card_number) {
                return card;
            }
            i = i + 1;
        }
        Type::Other
    }

    /// Whether `card_number` passes the length rule of `card_type`.
    pub fn is_length_valid(card_number: &str, card_type: &Type) -> (r: bool)
        ensures
            r == card_type.length_rule(card_number@),
    {
        card_type.length(card_number)
    }

    /// Whether `card_number` is a non-empty string of digits whose Luhn sum
    /// is divisible by ten.
    pub fn is_luhn_valid(card_number: &str) -> (r: bool)
        ensures
            r == luhn_valid(card_number@),
    {
        let cs = chars_of(card_number);
        if cs.len() == 0 || !all_digits_exec(&cs) {
            return false;
        }
        Authenticate::calculate_luhn(card_number) % 10 == 0
    }

    /// The Luhn sum of `card_number`: each digit counted from the right,
    /// every second one doubled (less nine where the double exceeds nine).
    /// Characters other than digits count for nothing.
    pub fn calculate_luhn(card_number: &str) -> (r: u128)
        ensures
            r as int == luhn_sum(card_number@),
    {
        let cs = chars_of(card_number);
        let n = cs.len();
        let mut sum: u128 = 0;
        let mut i: usize = 0;
        while i < n
            invariant
                cs@ == card_number@,
                n == cs.len(),
                i <= n,
                sum as int == luhn_prefix_sum(cs@, i as int),
                sum <= 9 * i,
            decreases n - i,
        {
            let c = cs[i];
            let d: u32 = if char_is_digit(c) {
                digit_value_exec(c)
            } else {
                0
            };
            let term: u32 = if (n - i) % 2 == 0 {
                if 2 * d > 9 {
                    2 * d - 9
                } else {
                    2 * d
                }
            } else {
                d
            };
            sum = sum + term as u128;
            i = i + 1;
        }
        sum
    }
}

/// A Visa number (the Visa format rule, 13 or 16 digits) that passes the Luhn
/// check is classified as Visa, named `visa`, and valid.
pub proof fn lemma_visa_number_valid(s: Seq<char>)
    requires
        Type::Visa.prefix_rule(s),
        s.len() == 13 || s.len() == 16,
        luhn_valid(s),
    ensures
        authentication_of(s).card_type == Type::Visa,
        authentication_of(s).card_type.spec_name() == "visa"@,
        authentication_of(s).valid,
{
}

/// An Amex number (the Amex format rule, 15 digits) that passes the Luhn
/// check is classified as Amex, named `amex`, and valid.
pub proof fn lemma_amex_number_valid(s: Seq<char>)
    requires
        Type::Amex.prefix_rule(s),
        s.len() == 15,
        luhn_valid(s),
    ensures
        authentication_of(s).card_type == Type::Amex,
        authentication_of(s).card_type.spec_name() == "amex"@,
        authentication_of(s).valid,
{
    lemma_visa_shape(s);
    lemma_discover_shape(s);
    lemma_amex_shape(s);
}

/// A MasterCard number (the MasterCard format rule, 16 digits) that passes
/// the Luhn check is classified as MasterCard, named `mastercard`, and valid.
pub proof fn lemma_mastercard_number_valid(s: Seq<char>)
    requires
        Type::MasterCard.prefix_rule(s),
        s.len() == 16,
        luhn_valid(s),
    ensures
        authentication_of(s).card_type == Type::MasterCard,
        authentication_of(s).card_type.spec_name() == "mastercard"@,
        authentication_of(s).valid,
{
    lemma_visa_shape(s);
    lemma_discover_shape(s);
    lemma_amex_shape(s);
    lemma_mastercard_shape(s);
}

/// A Discover number (the Discover format rule, 16 digits) that passes the
/// Luhn check is classified as Discover, named `discover`, and valid.
pub proof fn lemma_discover_number_valid(s: Seq<char>)
    requires
        Type::Discover.prefix_rule(s),
        s.len() == 16,
        luhn_valid(s),
    ensures
        authentication_of(s).card_type == Type::Discover,
        authentication_of(s).card_type.spec_name() == "discover"@,
        authentication_of(s).valid,
{
    lemma_visa_shape(s);
    lemma_discover_shape(s);
}

/// Authentication keeps no state: any two results of authenticating the same
/// string are equal.
pub proof fn lemma_authenticate_deterministic(s: Seq<char>, a: Authenticate, b: Authenticate)
    requires
        a == authentication_of(s),
        b == authentication_of(s),
    ensures
        a == b,
{
}

/// A string of two or more `4`s is classified as Visa whatever its length;
/// it passes the length rule only with 13 or 16 characters.
pub proof fn lemma_fours_are_visa(s: Seq<char>)
    requires
        s.len() >= 2,
        forall|i: int| 0 <= i < s.len() ==> s[i] == '4',
    ensures
        authentication_of(s).card_type == Type::Visa,
        authentication_of(s).length_valid <==> (s.len() == 13 || s.len() == 16),
{
    lemma_visa_shape(s);
}

/// A string of digits that no known network's format rule matches is
/// classified as `Other`, named `other`, and never valid.
pub proof fn lemma_unmatched_is_other(s: Seq<char>)
    requires
        all_digits(s),
        !Type::Visa.prefix_rule(s),
        !Type::Discover.prefix_rule(s),
        !Type::Amex.prefix_rule(s),
        !Type::MasterCard.prefix_rule(s),
    ensures
        authentication_of(s).card_type == Type::Other,
        authentication_of(s).card_type.spec_name() == "other"@,
        !authentication_of(s).valid,
{
}

} // verus!
