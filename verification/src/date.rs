//! A possibly-partial calendar date with a canonical fixed-width encoding.
//!
//! A date whose `year` is zero is the unknown date and encodes as the literal
//! token `"None"` whatever its month and day hold. Ordering and equality are
//! defined over the canonical encoding, not the raw fields.

use vstd::prelude::*;

use crate::text::{dec_chars, lemma_dec_chars_small_len, pad2_chars, push_dec, push_pad2};

verus! {

/// A date whose components may each be unset (zero). No calendar validation
/// is applied: out-of-range months and days encode as given.
#[derive(Clone, Copy, Debug)]
pub struct Date {
    pub year: u32,
    pub month: u32,
    pub day: u32,
}

/// The canonical encoding of a date: `"None"` for an unknown year, otherwise
/// the year widened to four digits by prefixing `"20"` to the zero-padded
/// two-digit form when below one hundred, followed by the zero-padded month
/// and day.
pub open spec fn fuzzy_chars(year: nat, month: nat, day: nat) -> Seq<char> {
    if year == 0 {
        seq!['N', 'o', 'n', 'e']
    } else if year < 100 {
        seq!['2', '0'] + pad2_chars(year) + pad2_chars(month) + pad2_chars(day)
    } else {
        dec_chars(year) + pad2_chars(month) + pad2_chars(day)
    }
}

/// Strict lexicographic order on character sequences, by code point.
pub open spec fn chars_lt(a: Seq<char>, b: Seq<char>) -> bool
    decreases a.len(),
{
    if b.len() == 0 {
        false
    } else if a.len() == 0 {
        true
    } else if a[0] == b[0] {
        chars_lt(a.skip(1), b.skip(1))
    } else {
        (a[0] as int) < (b[0] as int)
    }
}

/// Strict lexicographic order is asymmetric and irreflexive.
pub proof fn lemma_chars_lt_asymmetric(a: Seq<char>, b: Seq<char>)
    requires
        chars_lt(a, b),
    ensures
        !chars_lt(b, a),
        a != b,
    decreases a.len(),
{
    if b.len() == 0 {
    } else if a.len() == 0 {
        assert(a.len() != b.len());
    } else if a[0] == b[0] {
        lemma_chars_lt_asymmetric(a.skip(1), b.skip(1));
        if a == b {
            assert(a.skip(1) == b.skip(1));
        }
    }
}

/// Any two character sequences are ordered or equal.
pub proof fn lemma_chars_lt_total(a: Seq<char>, b: Seq<char>)
    ensures
        chars_lt(a, b) || chars_lt(b, a) || a == b,
    decreases a.len(),
{
    if b.len() == 0 {
        if a.len() == 0 {
            assert(a =~= b);
        } else {
            assert(chars_lt(b, a));
        }
    } else if a.len() == 0 {
        assert(chars_lt(a, b));
    } else if a[0] == b[0] {
        lemma_chars_lt_total(a.skip(1), b.skip(1));
        if a.skip(1) == b.skip(1) {
            assert(a.skip(1).len() == a.len() - 1);
            assert(b.skip(1).len() == b.len() - 1);
            assert(a.len() == b.len());
            assert forall|j: int| 0 <= j < a.len() implies a[j] == b[j] by {
                if j >= 1 {
                    assert(a.skip(1)[j - 1] == b.skip(1)[j - 1]);
                }
            }
            assert(a =~= b);
        }
    }
}

/// Sequences that agree up to `k` where `a` has the smaller character are ordered.
proof fn lemma_chars_lt_at(a: Seq<char>, b: Seq<char>, k: int)
    requires
        0 <= k < a.len(),
        k < b.len(),
        forall|j: int| 0 <= j < k ==> a[j] == b[j],
        (a[k] as int) < (b[k] as int),
    ensures
        chars_lt(a, b),
    decreases k,
{
    if k == 0 {
    } else {
        lemma_chars_lt_at(a.skip(1), b.skip(1), k - 1);
    }
}

/// A sequence precedes every sequence that strictly extends it.
proof fn lemma_chars_lt_prefix(a: Seq<char>, b: Seq<char>)
    requires
        a.len() < b.len(),
        forall|j: int| 0 <= j < a.len() ==> a[j] == b[j],
    ensures
        chars_lt(a, b),
    decreases a.len(),
{
    if a.len() > 0 {
        lemma_chars_lt_prefix(a.skip(1), b.skip(1));
    }
}

/// Three-way lexicographic comparison of two strings.
fn chars_cmp(a: &str, b: &str) -> (r: core::cmp::Ordering)
    ensures
        (r == core::cmp::Ordering::Less) == chars_lt(a@, b@),
        (r == core::cmp::Ordering::Greater) == chars_lt(b@, a@),
        (r == core::cmp::Ordering::Equal) == (a@ == b@),
{
    let alen = a.unicode_len();
    let blen = b.unicode_len();
    let mut i: usize = 0;
    while i < alen && i < blen
        invariant
            i <= alen,
            i <= blen,
            alen == a@.len(),
            blen == b@.len(),
            forall|j: int| 0 <= j < i ==> a@[j] == b@[j],
        decreases alen - i,
    {
        let ca = a.get_char(i);
        let cb = b.get_char(i);
        if ca != cb {
            if (ca as u32) < (cb as u32) {
                proof {
                    lemma_chars_lt_at(a@, b@, i as int);
                    lemma_chars_lt_asymmetric(a@, b@);
                }
                return core::cmp::Ordering::Less;
            } else {
                proof {
                    lemma_chars_lt_at(b@, a@, i as int);
                    lemma_chars_lt_asymmetric(b@, a@);
                }
                return core::cmp::Ordering::Greater;
            }
        }
        i += 1;
    }
    if alen < blen {
        proof {
            lemma_chars_lt_prefix(a@, b@);
            lemma_chars_lt_asymmetric(a@, b@);
        }
        core::cmp::Ordering::Less
    } else if blen < alen {
        proof {
            lemma_chars_lt_prefix(b@, a@);
            lemma_chars_lt_asymmetric(b@, a@);
        }
        core::cmp::Ordering::Greater
    } else {
        proof {
            assert(a@ =~= b@);
            if chars_lt(a@, b@) {
                lemma_chars_lt_asymmetric(a@, b@);
            }
        }
        core::cmp::Ordering::Equal
    }
}

impl Date {
    /// The canonical encoding of this date.
    pub open spec fn canonical(self) -> Seq<char> {
        fuzzy_chars(self.year as nat, self.month as nat, self.day as nat)
    }

    pub fn new(year: u32, month: u32, day: u32) -> (r: Self)
        ensures
            r.year == year,
            r.month == month,
            r.day == day,
    {
        Date { year, month, day }
    }

    /// Renders the canonical encoding: `"None"` when the year is unset,
    /// otherwise the widened year followed by the zero-padded month and day.
    pub fn as_fuzzy(&self) -> (r: String)
        ensures
            r@ == self.canonical(),
    {
        if self.year == 0 {
            proof {
                reveal_strlit("None");
            }
            let r = String::from_str("None");
            proof {
                assert(r@ =~= self.canonical());
            }
            return r;
        }
        let mut s = String::new();
        if self.year < 100 {
            proof {
                reveal_strlit("20");
            }
            s.append("20");
            push_pad2(&mut s, self.year);
        } else {
            push_dec(&mut s, self.year);
        }
        push_pad2(&mut s, self.month);
        push_pad2(&mut s, self.day);
        proof {
            assert(s@ =~= self.canonical());
        }
        s
    }

    pub fn get_year(&self) -> (r: u32)
        ensures
            r == self.year,
    {
        self.year
    }

    /// Three-way comparison by canonical encoding.
    pub fn cmp(&self, other: &Date) -> (r: core::cmp::Ordering)
        ensures
            (r == core::cmp::Ordering::Less) == chars_lt(self.canonical(), other.canonical()),
            (r == core::cmp::Ordering::Greater) == chars_lt(other.canonical(), self.canonical()),
            (r == core::cmp::Ordering::Equal) == (self.canonical() == other.canonical()),
    {
        let a = self.as_fuzzy();
        let b = other.as_fuzzy();
        chars_cmp(a.as_str(), b.as_str())
    }
}

impl PartialEq for Date {
    /// Dates are equal exactly when their canonical encodings are equal.
    fn eq(&self, other: &Date) -> (r: bool) {
        let a = self.as_fuzzy();
        let b = other.as_fuzzy();
        a.eq(&b)
    }
}

impl vstd::std_specs::cmp::PartialEqSpecImpl for Date {
    open spec fn obeys_eq_spec() -> bool {
        true
    }

    open spec fn eq_spec(&self, other: &Date) -> bool {
        self.canonical() == other.canonical()
    }
}

impl PartialOrd for Date {
    /// Dates are ordered by their canonical encodings, lexicographically.
    fn partial_cmp(&self, other: &Date) -> (r: Option<core::cmp::Ordering>) {
        proof {
            lemma_chars_lt_total(self.canonical(), other.canonical());
        }
        Some(self.cmp(other))
    }
}

impl vstd::std_specs::cmp::PartialOrdSpecImpl for Date {
    open spec fn obeys_partial_cmp_spec() -> bool {
        true
    }

    open spec fn partial_cmp_spec(&self, other: &Date) -> Option<core::cmp::Ordering> {
        if chars_lt(self.canonical(), other.canonical()) {
            Some(core::cmp::Ordering::Less)
        } else if chars_lt(other.canonical(), self.canonical()) {
            Some(core::cmp::Ordering::Greater)
        } else {
            Some(core::cmp::Ordering::Equal)
        }
    }
}

/// An unknown year encodes as the token `"None"` whatever the month and day.
pub proof fn lemma_canonical_unknown(month: nat, day: nat)
    ensures
        fuzzy_chars(0, month, day) == "None"@,
{
    reveal_strlit("None");
    assert(fuzzy_chars(0, month, day) =~= "None"@);
}

/// For a year of at least one hundred the canonical encoding starts with the
/// decimal digits of the year and ends with the zero-padded month, then the
/// zero-padded day.
pub proof fn lemma_canonical_full_year(year: nat, month: nat, day: nat)
    requires
        year >= 100,
    ensures
        fuzzy_chars(year, month, day) == dec_chars(year) + pad2_chars(month) + pad2_chars(day),
        fuzzy_chars(year, month, day).take(dec_chars(year).len() as int) == dec_chars(year),
        fuzzy_chars(year, month, day).skip(dec_chars(year).len() as int) == pad2_chars(month)
            + pad2_chars(day),
{
    assert(fuzzy_chars(year, month, day).take(dec_chars(year).len() as int) =~= dec_chars(year));
    assert(fuzzy_chars(year, month, day).skip(dec_chars(year).len() as int) =~= pad2_chars(month)
        + pad2_chars(day));
}

/// For a year between one and ninety-nine the canonical encoding starts with
/// `"20"` followed by the two-digit zero-padded year.
pub proof fn lemma_canonical_two_digit_year(year: nat, month: nat, day: nat)
    requires
        1 <= year <= 99,
    ensures
        fuzzy_chars(year, month, day) == seq!['2', '0'] + pad2_chars(year) + pad2_chars(month)
            + pad2_chars(day),
        pad2_chars(year).len() == 2,
        fuzzy_chars(year, month, day).take(4) == seq!['2', '0'] + pad2_chars(year),
{
    lemma_dec_chars_small_len(year);
    assert(fuzzy_chars(year, month, day).take(4) =~= seq!['2', '0'] + pad2_chars(year));
}

} // verus!
