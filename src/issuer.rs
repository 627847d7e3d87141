//! Card issuing networks and the format rules that recognise their numbers.
use vstd::prelude::*;

use crate::digits::{all_digits, all_digits_exec, chars_of, digits_in, is_digit};

verus! {

/// The issuing network of a card number. `Other` stands for any number that
/// no known network's format rule claims.
#[derive(Clone, Copy, Debug, PartialEq, Eq, Structural)]
pub enum Type {
    Visa,
    Discover,
    Amex,
    MasterCard,
    Other,
}

/// `s` is a run of `4`s over `0..k`, then at least one more digit.
pub open spec fn visa_split(s: Seq<char>, k: int) -> bool {
    &&& 1 <= k < s.len()
    &&& forall|i: int| 0 <= i < k ==> s[i] == '4'
    &&& digits_in(s, k, s.len() as int)
}

/// A character that may open a Discover number.
pub open spec fn discover_lead(c: char) -> bool {
    c == '6' || c == '0' || c == '1'
}

/// `s` is a run of `6`, `0` and `1` over `0..k`, then at least one more digit.
pub open spec fn discover_split(s: Seq<char>, k: int) -> bool {
    &&& 1 <= k < s.len()
    &&& forall|i: int| 0 <= i < k ==> discover_lead(#[trigger] s[i])
    &&& digits_in(s, k, s.len() as int)
}

/// A character that may open an Amex number.
pub open spec fn amex_lead(c: char) -> bool {
    c == '3' || c == '7'
}

/// `s` is a run of `3` and `7` over `0..k`, then at least one more digit.
pub open spec fn amex_split(s: Seq<char>, k: int) -> bool {
    &&& 1 <= k < s.len()
    &&& forall|i: int| 0 <= i < k ==> amex_lead(#[trigger] s[i])
    &&& digits_in(s, k, s.len() as int)
}

/// A digit from `1` to `5`.
pub open spec fn one_to_five(c: char) -> bool {
    '1' <= c <= '5'
}

/// `s` is a run of `5`s over `0..j`, a run of digits `1`..`5` over `j..k`,
/// then at least one more digit.
pub open spec fn mastercard_split(s: Seq<char>, j: int, k: int) -> bool {
    &&& 1 <= j < k < s.len()
    &&& forall|i: int| 0 <= i < j ==> s[i] == '5'
    &&& forall|i: int| j <= i < k ==> one_to_five(#[trigger] s[i])
    &&& digits_in(s, k, s.len() as int)
}

/// The Visa rule is: at least two characters, all digits, the first a `4`.
pub proof fn lemma_visa_shape(s: Seq<char>)
    ensures
        Type::Visa.prefix_rule(s) <==> (s.len() >= 2 && s[0] == '4' && all_digits(s)),
{
    if s.len() >= 2 && s[0] == '4' && all_digits(s) {
        assert(visa_split(s, 1));
    }
    if Type::Visa.prefix_rule(s) {
        let k = choose|k: int| visa_split(s, k);
        assert forall|i: int| 0 <= i < s.len() implies #[trigger] is_digit(s[i]) by {
            if i < k {
                assert(s[i] == '4');
            }
        }
    }
}

/// The Discover rule is: at least two characters, all digits, the first a
/// `6`, `0` or `1`.
pub proof fn lemma_discover_shape(s: Seq<char>)
    ensures
        Type::Discover.prefix_rule(s) <==> (s.len() >= 2 && discover_lead(s[0]) && all_digits(s)),
{
    if s.len() >= 2 && discover_lead(s[0]) && all_digits(s) {
        assert(discover_split(s, 1));
    }
    if Type::Discover.prefix_rule(s) {
        let k = choose|k: int| discover_split(s, k);
        assert forall|i: int| 0 <= i < s.len() implies #[trigger] is_digit(s[i]) by {
            if i < k {
                assert(discover_lead(s[i]));
            }
        }
    }
}

/// The Amex rule is: at least two characters, all digits, the first a `3`
/// or a `7`.
pub proof fn lemma_amex_shape(s: Seq<char>)
    ensures
        Type::Amex.prefix_rule(s) <==> (s.len() >= 2 && amex_lead(s[0]) && all_digits(s)),
{
    if s.len() >= 2 && amex_lead(s[0]) && all_digits(s) {
        assert(amex_split(s, 1));
    }
    if Type::Amex.prefix_rule(s) {
        let k = choose|k: int| amex_split(s, k);
        assert forall|i: int| 0 <= i < s.len() implies #[trigger] is_digit(s[i]) by {
            if i < k {
                assert(amex_lead(s[i]));
            }
        }
    }
}

/// The MasterCard rule is: at least three characters, all digits, the first
/// a `5` and the second from `1` to `5`.
pub proof fn lemma_mastercard_shape(s: Seq<char>)
    ensures
        Type::MasterCard.prefix_rule(s) <==> (s.len() >= 3 && s[0] == '5' && one_to_five(s[1])
            && all_digits(s)),
{
    if s.len() >= 3 && s[0] == '5' && one_to_five(s[1]) && all_digits(s) {
        assert(mastercard_split(s, 1, 2));
    }
    if Type::MasterCard.prefix_rule(s) {
        let (j, k) = choose|j: int, k: int| mastercard_split(s, j, k);
        assert(one_to_five(s[1])) by {
            if j > 1 {
                assert(s[1] == '5');
            }
        }
        assert forall|i: int| 0 <= i < s.len() implies #[trigger] is_digit(s[i]) by {
            if i < j {
                assert(s[i] == '5');
            } else if i < k {
                assert(one_to_five(s[i]));
            }
        }
    }
}

impl Type {
    /// The network's format rule, matched against the whole of `s`.
    pub open spec fn prefix_rule(self, s: Seq<char>) -> bool {
        match self {
            Type::Visa => exists|k: int| #[trigger] visa_split(s, k),
            Type::Discover => exists|k: int| #[trigger] discover_split(s, k),
            Type::Amex => exists|k: int| #[trigger] amex_split(s, k),
            Type::MasterCard => exists|j: int, k: int| #[trigger] mastercard_split(s, j, k),
            Type::Other => s.len() > 0 && all_digits(s),
        }
    }

    /// The numbers of digits the network accepts.
    pub open spec fn accepts_length(self, n: int) -> bool {
        match self {
            Type::Visa => n == 13 || n == 16,
            Type::Discover => n == 16,
            Type::Amex => n == 15,
            Type::MasterCard => n == 16,
            Type::Other => 12 <= n <= 19,
        }
    }

    /// The network's length rule: `s` is all digits, and as many as the
    /// network accepts.
    pub open spec fn length_rule(self, s: Seq<char>) -> bool {
        all_digits(s) && self.accepts_length(s.len() as int)
    }

    /// Whether the network is a known one.
    pub open spec fn is_recognized(self) -> bool {
        !(self is Other)
    }

    /// The network's lowercase name.
    pub open spec fn spec_name(self) -> Seq<char> {
        match self {
            Type::Visa => "visa"@,
            Type::Discover => "discover"@,
            Type::Amex => "amex"@,
            Type::MasterCard => "mastercard"@,
            Type::Other => "other"@,
        }
    }

    /// The network's lowercase name: `visa`, `discover`, `amex`,
    /// `mastercard` or `other`.
    pub fn name(&self) -> (r: String)
        ensures
            r@ == self.spec_name(),
    {
        match *self {
            Type::Visa => "visa",
            Type::Discover => "discover",
            Type::Amex => "amex",
            Type::MasterCard => "mastercard",
            Type::Other => "other",
        }.to_owned()
    }

    /// Whether `card_number`, as a whole, matches the network's format rule.
    pub fn pattern(&self, card_number: &str) -> (r: bool)
        ensures
            r == self.prefix_rule(card_number@),
    {
        let cs = chars_of(card_number);
        let digits = all_digits_exec(&cs);
        proof {
            lemma_visa_shape(cs@);
            lemma_discover_shape(cs@);
            lemma_amex_shape(cs@);
            lemma_mastercard_shape(cs@);
        }
        match *self {
            Type::Visa => cs.len() >= 2 && cs[0] == '4' && digits,
            Type::Discover => cs.len() >= 2 && (cs[0] == '6' || cs[0] == '0' || cs[0] == '1')
                && digits,
            Type::Amex => cs.len() >= 2 && (cs[0] == '3' || cs[0] == '7') && digits,
            Type::MasterCard => cs.len() >= 3 && cs[0] == '5' && '1' <= cs[1] && cs[1] <= '5'
                && digits,
            Type::Other => cs.len() >= 1 && digits,
        }
    }

    /// Whether `card_number` is all digits, and as many as the network
    /// accepts.
    pub fn length(&self, card_number: &str) -> (r: bool)
        ensures
            r == self.length_rule(card_number@),
    {
        let cs = chars_of(card_number);
        let n = cs.len();
        let fits = match *self {
            Type::Visa => n == 13 || n == 16,
            Type::Discover => n == 16,
            Type::Amex => n == 15,
            Type::MasterCard => n == 16,
            Type::Other => 12 <= n && n <= 19,
        };
        fits && all_digits_exec(&cs)
    }

    /// Whether the network is a known one: every network but `Other`.
    pub fn valid(&self) -> (r: bool)
        ensures
            r == self.is_recognized(),
    {
        match *self {
            Type::Other => false,
            _ => true,
        }
    }

    /// The known networks, in the order in which their rules are tried.
    pub fn all() -> (r: Vec<Type>)
        ensures
            r@ == seq![Type::Visa, Type::Discover, Type::Amex, Type::MasterCard],
    {
        let r = vec![Type::Visa, Type::Discover, Type::Amex, Type::MasterCard];
        assert(r@ =~= seq![Type::Visa, Type::Discover, Type::Amex, Type::MasterCard]);
        r
    }
}

} // verus!
