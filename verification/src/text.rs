//! Text that commands build or read: numbers in decimal, process output.
use vstd::prelude::*;
use vstd::string::*;

verus! {

/// The decimal digit for `d` (below ten).
pub open spec fn digit(d: nat) -> char {
    ('0' as int + d) as char
}

/// `n` written in decimal, without leading zeros.
pub open spec fn decimal_text(n: nat) -> Seq<char>
    decreases n,
{
    if n < 10 {
        seq![digit(n)]
    } else {
        decimal_text(n / 10).push(digit(n % 10))
    }
}

/// `n` written in decimal, as `u64::to_string` writes it: no sign, no leading
/// zeros.
pub fn decimal(n: u64) -> (r: String)
    ensures
        r@ == decimal_text(n as nat),
    decreases n,
{
    let digits = "0123456789";
    proof {
        reveal_strlit("0123456789");
    }
    let d = (n % 10) as usize;
    let last = digits.substring_char(d, d + 1);
    assert(last@ =~= seq![digit((n % 10) as nat)]) by {
        assert(last@.len() == 1);
        assert(last@[0] == digits@[d as int]);
        assert(digits@ =~= seq!['0', '1', '2', '3', '4', '5', '6', '7', '8', '9']);
    }
    if n < 10 {
        String::from_str(last)
    } else {
        let head = decimal(n / 10);
        let r = head.concat(last);
        assert(r@ =~= decimal_text((n / 10) as nat).push(digit((n % 10) as nat)));
        r
    }
}

/// The message of the commit that push makes at time `ts`: "sync " and the time.
pub open spec fn commit_message(ts: u64) -> Seq<char> {
    "sync "@ + decimal_text(ts as nat)
}

pub fn commit_message_text(ts: u64) -> (r: String)
    ensures
        r@ == commit_message(ts),
{
    let head = String::from_str("sync ");
    let digits = decimal(ts);
    head.concat(digits.as_str())
}

/// What `String::from_utf8_lossy` makes of `bytes`.
pub uninterp spec fn utf8_lossy(bytes: Seq<u8>) -> Seq<char>;

/// `String::from_utf8_lossy`: the bytes decoded as UTF-8, each invalid sequence
/// replaced by U+FFFD. The result depends on the bytes alone; only that is stated.
#[verifier::external_body]
pub(crate) fn lossy_text(bytes: &Vec<u8>) -> (r: String)
    ensures
        r@ == utf8_lossy(bytes@),
{
    String::from_utf8_lossy(bytes.as_slice()).into_owned()
}

/// Whether `c` has the Unicode `White_Space` property (what `char::is_whitespace`
/// tests): the 25 code points of that property.
pub open spec fn is_white_space(c: char) -> bool {
    let n = c as int;
    ||| 0x9 <= n <= 0xD
    ||| n == 0x20
    ||| n == 0x85
    ||| n == 0xA0
    ||| n == 0x1680
    ||| 0x2000 <= n <= 0x200A
    ||| n == 0x2028
    ||| n == 0x2029
    ||| n == 0x202F
    ||| n == 0x205F
    ||| n == 0x3000
}

/// The number of white-space characters at the front of `s`.
pub open spec fn leading_white(s: Seq<char>) -> nat
    decreases s.len(),
{
    if s.len() > 0 && is_white_space(s[0]) {
        1 + leading_white(s.drop_first())
    } else {
        0
    }
}

/// The number of white-space characters at the end of `s`.
pub open spec fn trailing_white(s: Seq<char>) -> nat
    decreases s.len(),
{
    if s.len() > 0 && is_white_space(s.last()) {
        1 + trailing_white(s.drop_last())
    } else {
        0
    }
}

/// `s` without its leading and trailing white space.
pub open spec fn trimmed(s: Seq<char>) -> Seq<char> {
    let t = s.skip(leading_white(s) as int);
    t.take(t.len() - trailing_white(t))
}

/// `str::trim`: `s` without its leading and trailing whitespace, whitespace being
/// the Unicode `White_Space` property.
pub(crate) fn trim_text(s: &str) -> (r: String)
    ensures
        r@ == trimmed(s@),
{
    let n = s.unicode_len();
    let mut i: usize = 0;
    while i < n && white_space(s.get_char(i))
        invariant
            n == s@.len(),
            i <= n,
            forall|k: int| 0 <= k < i ==> is_white_space(#[trigger] s@[k]),
        decreases n - i,
    {
        i = i + 1;
    }
    let mut j: usize = n;
    while j > i && white_space(s.get_char(j - 1))
        invariant
            n == s@.len(),
            i <= j <= n,
            forall|k: int| j <= k < n ==> is_white_space(#[trigger] s@[k]),
        decreases j,
    {
        j = j - 1;
    }
    proof {
        lemma_leading_white(s@, i as nat);
        let t = s@.skip(i as int);
        assert forall|k: int| t.len() - (n - j) <= k < t.len() implies is_white_space(#[trigger] t[k]) by {
            assert(t[k] == s@[k + i]);
        }
        if j > i {
            assert(t[t.len() - (n - j) - 1] == s@[j - 1]);
        }
        lemma_trailing_white(t, (n - j) as nat);
        assert(t.take(t.len() - (n - j)) =~= s@.subrange(i as int, j as int));
    }
    String::from_str(s.substring_char(i, j))
}

/// Whether `c` has the Unicode `White_Space` property.
fn white_space(c: char) -> (r: bool)
    ensures
        r == is_white_space(c),
{
    let n = c as u32;
    (0x9 <= n && n <= 0xD) || n == 0x20 || n == 0x85 || n == 0xA0 || n == 0x1680 || (0x2000 <= n && n
        <= 0x200A) || n == 0x2028 || n == 0x2029 || n == 0x202F || n == 0x205F || n == 0x3000
}

proof fn lemma_leading_white(s: Seq<char>, k: nat)
    requires
        k <= s.len(),
        forall|j: int| 0 <= j < k ==> is_white_space(#[trigger] s[j]),
        k == s.len() || !is_white_space(s[k as int]),
    ensures
        leading_white(s) == k,
    decreases k,
{
    if k > 0 {
        let d = s.drop_first();
        assert forall|j: int| 0 <= j < k - 1 implies is_white_space(#[trigger] d[j]) by {
            assert(d[j] == s[j + 1]);
        }
        if k < s.len() {
            assert(d[k - 1] == s[k as int]);
        }
        lemma_leading_white(d, (k - 1) as nat);
    }
}

proof fn lemma_trailing_white(s: Seq<char>, m: nat)
    requires
        m <= s.len(),
        forall|j: int| s.len() - m <= j < s.len() ==> is_white_space(#[trigger] s[j]),
        m == s.len() || !is_white_space(s[s.len() - m - 1]),
    ensures
        trailing_white(s) == m,
    decreases m,
{
    if m > 0 {
        let d = s.drop_last();
        assert(is_white_space(s[s.len() - 1]));
        assert forall|j: int| d.len() - (m - 1) <= j < d.len() implies is_white_space(#[trigger] d[j]) by {
            assert(d[j] == s[j]);
        }
        if m < s.len() {
            assert(d[d.len() - (m - 1) - 1] == s[s.len() - m - 1]);
        }
        lemma_trailing_white(d, (m - 1) as nat);
    }
}

} // verus!
