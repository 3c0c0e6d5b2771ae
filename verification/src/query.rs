//! Building the search request: decimal rendering of the page size and
//! concatenation of the query text.

use vstd::prelude::*;
use vstd::arithmetic::div_mod::lemma_small_mod;

verus! {

/// The character of one decimal digit.
pub open spec fn digit_char(d: int) -> char {
    if d == 0 {
        '0'
    } else if d == 1 {
        '1'
    } else if d == 2 {
        '2'
    } else if d == 3 {
        '3'
    } else if d == 4 {
        '4'
    } else if d == 5 {
        '5'
    } else if d == 6 {
        '6'
    } else if d == 7 {
        '7'
    } else if d == 8 {
        '8'
    } else {
        '9'
    }
}

/// Decimal numeral of a number: its digits, most significant first, with
/// no leading zeros (a single zero for zero itself).
pub open spec fn spec_decimal(n: nat) -> Seq<char>
    decreases n,
{
    if n < 10 {
        seq![digit_char(n as int)]
    } else {
        spec_decimal(n / 10).push(digit_char((n % 10) as int))
    }
}

/// The characters of a digit list read back to front.
spec fn rev_chars(ds: Seq<u8>) -> Seq<char> {
    Seq::new(ds.len(), |i: int| digit_char(ds[ds.len() - 1 - i] as int))
}

/// The one-character string of a decimal digit.
fn digit_str(d: u8) -> (s: &'static str)
    requires
        d < 10,
    ensures
        s@ == seq![digit_char(d as int)],
{
    proof {
        reveal_strlit("0");
        reveal_strlit("1");
        reveal_strlit("2");
        reveal_strlit("3");
        reveal_strlit("4");
        reveal_strlit("5");
        reveal_strlit("6");
        reveal_strlit("7");
        reveal_strlit("8");
        reveal_strlit("9");
    }
    if d == 0 {
        "0"
    } else if d == 1 {
        "1"
    } else if d == 2 {
        "2"
    } else if d == 3 {
        "3"
    } else if d == 4 {
        "4"
    } else if d == 5 {
        "5"
    } else if d == 6 {
        "6"
    } else if d == 7 {
        "7"
    } else if d == 8 {
        "8"
    } else {
        "9"
    }
}

/// Renders a number as its decimal numeral.
pub fn decimal_string(n: usize) -> (s: String)
    ensures
        s@ == spec_decimal(n as nat),
{
    let mut digits: Vec<u8> = Vec::new();
    let mut cur: usize = n;
    let d0 = (cur % 10) as u8;
    proof {
        assert(rev_chars(seq![d0]) =~= seq![digit_char(d0 as int)]);
        if n < 10 {
            lemma_small_mod(n as nat, 10);
        } else {
            assert(spec_decimal(n as nat) == spec_decimal((n / 10) as nat).push(
                digit_char((n % 10) as int),
            ));
            assert(spec_decimal((n / 10) as nat).push(digit_char((n % 10) as int))
                =~= spec_decimal((n / 10) as nat) + rev_chars(seq![d0]));
        }
    }
    digits.push(d0);
    cur = cur / 10;
    while cur > 0
        invariant
            1 <= digits@.len(),
            forall|k: int| 0 <= k < digits@.len() ==> digits@[k] < 10,
            cur == 0 ==> spec_decimal(n as nat) == rev_chars(digits@),
            cur > 0 ==> spec_decimal(n as nat) == spec_decimal(cur as nat) + rev_chars(digits@),
        decreases cur,
    {
        let d = (cur % 10) as u8;
        proof {
            assert(rev_chars(digits@.push(d)) =~= seq![digit_char(d as int)] + rev_chars(
                digits@,
            ));
            if cur >= 10 {
                assert(spec_decimal(cur as nat) == spec_decimal((cur / 10) as nat).push(
                    digit_char((cur % 10) as int),
                ));
                assert((spec_decimal((cur / 10) as nat).push(digit_char((cur % 10) as int)))
                    + rev_chars(digits@) =~= spec_decimal((cur / 10) as nat) + rev_chars(
                    digits@.push(d),
                ));
            } else {
                lemma_small_mod(cur as nat, 10);
                assert(spec_decimal(cur as nat) + rev_chars(digits@) =~= rev_chars(
                    digits@.push(d),
                ));
            }
        }
        digits.push(d);
        cur = cur / 10;
    }
    let ghost ds = digits@;
    let mut s = String::new();
    let mut i: usize = digits.len();
    while i > 0
        invariant
            i <= ds.len(),
            ds == digits@,
            forall|k: int| 0 <= k < ds.len() ==> ds[k] < 10,
            s@ == rev_chars(ds).take(ds.len() - i),
        decreases i,
    {
        i = i - 1;
        let piece = digit_str(digits[i]);
        proof {
            assert(rev_chars(ds)[ds.len() - 1 - i] == digit_char(ds[i as int] as int));
            assert(rev_chars(ds).take(ds.len() - i) =~= rev_chars(ds).take(
                ds.len() - i - 1,
            ) + seq![digit_char(ds[i as int] as int)]);
        }
        s.append(piece);
    }
    proof {
        assert(rev_chars(ds).take(ds.len() as int) =~= rev_chars(ds));
    }
    s
}

/// The search query text for a language: the language filter.
pub fn build_language_filter(language: &str) -> (filter: String)
    ensures
        filter@ == "language:"@ + language@,
{
    let mut filter = String::from_str("language:");
    filter.append(language);
    filter
}

/// The search request locator for a query and a page size: the search
/// endpoint with the query, the page size and the sort-by-stars
/// directive.
pub fn build_search_url(query: &str, per_page: usize) -> (url: String)
    ensures
        url@ == "https://api.github.com/search/repositories?q="@ + query@ + "&per_page="@
            + spec_decimal(per_page as nat) + "&sort=stars"@,
{
    let mut url = String::from_str("https://api.github.com/search/repositories?q=");
    url.append(query);
    url.append("&per_page=");
    let count = decimal_string(per_page);
    url.append(count.as_str());
    url.append("&sort=stars");
    url
}

} // verus!
