//! Text helpers: whitespace trimming and decimal rendering of integers,
//! both specified exactly over sequences of characters.

use vstd::prelude::*;
use vstd::string::StrSliceExecFns;
use vstd::string::StringExecFns;

verus! {

/// The Unicode `White_Space` characters, the set that trimming removes.
pub open spec fn is_ws_char(c: char) -> bool {
    ||| c == '\u{0009}'
    ||| c == '\u{000a}'
    ||| c == '\u{000b}'
    ||| c == '\u{000c}'
    ||| c == '\u{000d}'
    ||| c == ' '
    ||| c == '\u{0085}'
    ||| c == '\u{00a0}'
    ||| c == '\u{1680}'
    ||| c == '\u{2000}'
    ||| c == '\u{2001}'
    ||| c == '\u{2002}'
    ||| c == '\u{2003}'
    ||| c == '\u{2004}'
    ||| c == '\u{2005}'
    ||| c == '\u{2006}'
    ||| c == '\u{2007}'
    ||| c == '\u{2008}'
    ||| c == '\u{2009}'
    ||| c == '\u{200a}'
    ||| c == '\u{2028}'
    ||| c == '\u{2029}'
    ||| c == '\u{202f}'
    ||| c == '\u{205f}'
    ||| c == '\u{3000}'
}

/// Runtime test for `is_ws_char`.
pub fn is_ws(c: char) -> (r: bool)
    ensures
        r == is_ws_char(c),
{
    c == '\u{0009}' || c == '\u{000a}' || c == '\u{000b}' || c == '\u{000c}' || c == '\u{000d}'
        || c == ' ' || c == '\u{0085}' || c == '\u{00a0}' || c == '\u{1680}' || c == '\u{2000}'
        || c == '\u{2001}' || c == '\u{2002}' || c == '\u{2003}' || c == '\u{2004}'
        || c == '\u{2005}' || c == '\u{2006}' || c == '\u{2007}' || c == '\u{2008}'
        || c == '\u{2009}' || c == '\u{200a}' || c == '\u{2028}' || c == '\u{2029}'
        || c == '\u{202f}' || c == '\u{205f}' || c == '\u{3000}'
}

/// What is left after the leading whitespace goes.
pub open spec fn trim_start_spec(s: Seq<char>) -> Seq<char>
    decreases s.len(),
{
    if s.len() > 0 && is_ws_char(s[0]) {
        trim_start_spec(s.drop_first())
    } else {
        s
    }
}

/// What is left after the trailing whitespace goes.
pub open spec fn trim_end_spec(s: Seq<char>) -> Seq<char>
    decreases s.len(),
{
    if s.len() > 0 && is_ws_char(s[s.len() - 1]) {
        trim_end_spec(s.drop_last())
    } else {
        s
    }
}

/// What is left after whitespace goes from both ends: the trimmed text.
pub open spec fn trim_spec(s: Seq<char>) -> Seq<char> {
    trim_end_spec(trim_start_spec(s))
}

proof fn lemma_trim_start_skip(s: Seq<char>, i: int)
    requires
        0 <= i <= s.len(),
        forall|k: int| 0 <= k < i ==> is_ws_char(s[k]),
    ensures
        trim_start_spec(s) == trim_start_spec(s.subrange(i, s.len() as int)),
    decreases i,
{
    if i > 0 {
        assert(s.drop_first() =~= s.subrange(1, s.len() as int));
        lemma_trim_start_skip(s.drop_first(), i - 1);
        assert(s.drop_first().subrange(i - 1, s.drop_first().len() as int) =~= s.subrange(
            i,
            s.len() as int,
        ));
    } else {
        assert(s.subrange(0, s.len() as int) =~= s);
    }
}

proof fn lemma_trim_end_skip(s: Seq<char>, j: int)
    requires
        0 <= j <= s.len(),
        forall|k: int| j <= k < s.len() ==> is_ws_char(s[k]),
    ensures
        trim_end_spec(s) == trim_end_spec(s.subrange(0, j)),
    decreases s.len() - j,
{
    if j < s.len() {
        assert(is_ws_char(s[s.len() - 1]));
        assert(s.drop_last() =~= s.subrange(0, s.len() - 1));
        lemma_trim_end_skip(s.drop_last(), j);
        assert(s.drop_last().subrange(0, j) =~= s.subrange(0, j));
    } else {
        assert(s.subrange(0, s.len() as int) =~= s);
    }
}

/// Removes leading and trailing whitespace, exactly as `trim_spec` says.
pub fn trim(s: &str) -> (r: String)
    ensures
        r@ == trim_spec(s@),
{
    let len = s.unicode_len();
    let mut i: usize = 0;
    loop
        invariant
            i <= len,
            len == s@.len(),
            forall|k: int| 0 <= k < i ==> is_ws_char(s@[k]),
        ensures
            i <= len,
            len == s@.len(),
            forall|k: int| 0 <= k < i ==> is_ws_char(s@[k]),
            i == len || !is_ws_char(s@[i as int]),
        decreases len - i,
    {
        if i >= len {
            break ;
        }
        if !is_ws(s.get_char(i)) {
            break ;
        }
        i = i + 1;
    }
    let mut j: usize = len;
    loop
        invariant
            i <= j <= len,
            len == s@.len(),
            forall|k: int| j <= k < len ==> is_ws_char(s@[k]),
        ensures
            i <= j <= len,
            len == s@.len(),
            forall|k: int| j <= k < len ==> is_ws_char(s@[k]),
            j == i || !is_ws_char(s@[j - 1]),
        decreases j,
    {
        if j <= i {
            break ;
        }
        if !is_ws(s.get_char(j - 1)) {
            break ;
        }
        j = j - 1;
    }
    let t = s.substring_char(i, j);
    proof {
        let view = s@;
        let n = view.len() as int;
        lemma_trim_start_skip(view, i as int);
        let mid = view.subrange(i as int, n);
        if i == len {
            assert(mid =~= Seq::<char>::empty());
            assert(trim_start_spec(view) =~= Seq::<char>::empty());
            assert(trim_spec(view) =~= t@);
        } else {
            assert(mid[0] == view[i as int]);
            assert(trim_start_spec(mid) == mid);
            assert(forall|k: int|
                j - i <= k < mid.len() ==> is_ws_char(#[trigger] mid[k]) && mid[k] == view[k + i]);
            lemma_trim_end_skip(mid, j - i);
            assert(mid.subrange(0, j - i) =~= view.subrange(i as int, j as int));
            if j == i {
                assert(trim_spec(view) =~= t@);
            } else {
                let core = view.subrange(i as int, j as int);
                assert(core[core.len() - 1] == view[j - 1]);
                assert(trim_end_spec(core) == core);
                assert(trim_spec(view) =~= t@);
            }
        }
    }
    String::from_str(t)
}

/// The ten decimal digit characters.
pub open spec fn digit_char_spec(d: nat) -> char {
    if d == 0 {
        '0'
    } else if d == 1 {
        '1'
    } else if d == 2 {
        '2'
    } else if d == 3 {
        '3'
    } else if d == 4 {
        '4'
    } else if d == 5 {
        '5'
    } else if d == 6 {
        '6'
    } else if d == 7 {
        '7'
    } else if d == 8 {
        '8'
    } else {
        '9'
    }
}

/// The usual base-ten rendering of `n`, most significant digit first,
/// without leading zeros (except for `n == 0` itself).
pub open spec fn dec_spec(n: nat) -> Seq<char>
    decreases n,
{
    if n < 10 {
        seq![digit_char_spec(n)]
    } else {
        dec_spec(n / 10).push(digit_char_spec(n % 10))
    }
}

/// Is `c` one of the ten decimal digit characters?
pub open spec fn is_digit_char(c: char) -> bool {
    ||| c == '0'
    ||| c == '1'
    ||| c == '2'
    ||| c == '3'
    ||| c == '4'
    ||| c == '5'
    ||| c == '6'
    ||| c == '7'
    ||| c == '8'
    ||| c == '9'
}

/// Every character of a decimal rendering is one of the ten digits.
pub proof fn lemma_dec_spec_digits(n: nat)
    ensures
        dec_spec(n).len() >= 1,
        forall|k: int| 0 <= k < dec_spec(n).len() ==> is_digit_char(#[trigger] dec_spec(n)[k]),
    decreases n,
{
    if n < 10 {
        assert(dec_spec(n)[0] == digit_char_spec(n));
    } else {
        lemma_dec_spec_digits(n / 10);
        assert(dec_spec(n) == dec_spec(n / 10).push(digit_char_spec(n % 10)));
        assert(forall|k: int|
            0 <= k < dec_spec(n / 10).len() ==> dec_spec(n)[k] == dec_spec(n / 10)[k]);
        assert(dec_spec(n)[dec_spec(n).len() - 1] == digit_char_spec(n % 10));
    }
}

fn digit_str(d: u64) -> (r: &'static str)
    requires
        d < 10,
    ensures
        r@ == seq![digit_char_spec(d as nat)],
{
    let r: &'static str = if d == 0 {
        "0"
    } else if d == 1 {
        "1"
    } else if d == 2 {
        "2"
    } else if d == 3 {
        "3"
    } else if d == 4 {
        "4"
    } else if d == 5 {
        "5"
    } else if d == 6 {
        "6"
    } else if d == 7 {
        "7"
    } else if d == 8 {
        "8"
    } else {
        "9"
    };
    proof {
        reveal_strlit("0");
        reveal_strlit("1");
        reveal_strlit("2");
        reveal_strlit("3");
        reveal_strlit("4");
        reveal_strlit("5");
        reveal_strlit("6");
        reveal_strlit("7");
        reveal_strlit("8");
        reveal_strlit("9");
        assert(r@ =~= seq![digit_char_spec(d as nat)]);
    }
    r
}

/// Renders `n` in base ten, exactly as `dec_spec` says.
pub fn dec_string(n: u64) -> (r: String)
    ensures
        r@ == dec_spec(n as nat),
    decreases n,
{
    if n < 10 {
        String::from_str(digit_str(n))
    } else {
        let prefix = dec_string(n / 10);
        let r = prefix.concat(digit_str(n % 10));
        proof {
            assert(r@ =~= dec_spec(n as nat));
        }
        r
    }
}

} // verus!
