use vstd::prelude::*;
use vstd::string::*;

verus! {

/// Concatenates two string slices into a new string.
pub fn concat_str(a: &str, b: &str) -> (r: String)
    ensures
        r@ == a@ + b@,
{
    let mut r = String::from_str(a);
    r.append(b);
    r
}

/// Concatenates three string slices into a new string.
pub fn concat3(a: &str, b: &str, c: &str) -> (r: String)
    ensures
        r@ == a@ + b@ + c@,
{
    let mut r = String::from_str(a);
    r.append(b);
    r.append(c);
    r
}

/// Compares two string slices by their characters.
pub fn str_eq(a: &str, b: &str) -> (r: bool)
    ensures
        r == (a@ == b@),
{
    let x = a.to_owned();
    let y = b.to_owned();
    x == y
}

pub open spec fn opt_str_view(o: Option<&str>) -> Option<Seq<char>> {
    match o {
        Some(s) => Some(s@),
        None => None,
    }
}

pub open spec fn opt_string_view(o: Option<String>) -> Option<Seq<char>> {
    match o {
        Some(s) => Some(s@),
        None => None,
    }
}

/// Borrows the text of an optional string.
pub fn opt_as_str(o: &Option<String>) -> (r: Option<&str>)
    ensures
        opt_str_view(r) == opt_string_view(*o),
{
    match o {
        Some(s) => Some(s.as_str()),
        None => None,
    }
}

/// Copies an optional string slice into an owned string.
pub fn opt_to_owned(o: Option<&str>) -> (r: Option<String>)
    ensures
        opt_string_view(r) == opt_str_view(o),
{
    match o {
        Some(s) => Some(s.to_owned()),
        None => None,
    }
}

/// Clones an optional string, keeping it identical.
pub fn clone_opt_string(o: &Option<String>) -> (r: Option<String>)
    ensures
        r == *o,
{
    match o {
        Some(s) => Some(s.clone()),
        None => None,
    }
}

/// The decimal digits of a natural number, most significant first.
pub open spec fn spec_decimal(n: nat) -> Seq<char>
    decreases n,
{
    if n < 10 {
        seq![spec_digit(n)]
    } else {
        spec_decimal(n / 10).push(spec_digit(n % 10))
    }
}

pub open spec fn spec_digit(d: nat) -> char {
    if d == 0 { '0' } else if d == 1 { '1' } else if d == 2 { '2' } else if d == 3 { '3' }
    else if d == 4 { '4' } else if d == 5 { '5' } else if d == 6 { '6' } else if d == 7 { '7' }
    else if d == 8 { '8' } else { '9' }
}

/// The decimal digits of `n`, left-padded with zeros to at least `width` characters.
pub open spec fn spec_zero_padded(n: nat, width: nat) -> Seq<char> {
    let digits = spec_decimal(n);
    if digits.len() >= width {
        digits
    } else {
        Seq::new((width - digits.len()) as nat, |i: int| '0') + digits
    }
}

fn digit_str(d: u128) -> (s: &'static str)
    requires
        d < 10,
    ensures
        s@ == seq![spec_digit(d as nat)],
{
    proof {
        reveal_strlit("0");
        reveal_strlit("1");
        reveal_strlit("2");
        reveal_strlit("3");
        reveal_strlit("4");
        reveal_strlit("5");
        reveal_strlit("6");
        reveal_strlit("7");
        reveal_strlit("8");
        reveal_strlit("9");
    }
    if d == 0 { "0" } else if d == 1 { "1" } else if d == 2 { "2" } else if d == 3 { "3" }
    else if d == 4 { "4" } else if d == 5 { "5" } else if d == 6 { "6" } else if d == 7 { "7" }
    else if d == 8 { "8" } else { "9" }
}

/// The decimal text of a number.
pub fn decimal_string(n: u128) -> (s: String)
    ensures
        s@ == spec_decimal(n as nat),
    decreases n,
{
    if n < 10 {
        String::from_str(digit_str(n))
    } else {
        let mut s = decimal_string(n / 10);
        s.append(digit_str(n % 10));
        s
    }
}

/// The decimal text of a number, left-padded with zeros to at least `width` characters.
pub fn zero_padded_string(n: u64, width: usize) -> (s: String)
    ensures
        s@ == spec_zero_padded(n as nat, width as nat),
{
    let digits = decimal_string(n as u128);
    let len = digits.as_str().unicode_len();
    if len >= width {
        return digits;
    }
    let mut s = String::new();
    let mut i: usize = 0;
    while i < width - len
        invariant
            i <= width - len,
            len == digits@.len(),
            len < width,
            s@ == Seq::new(i as nat, |k: int| '0'),
        decreases width - len - i,
    {
        proof { reveal_strlit("0"); }
        s.append("0");
        assert(s@ =~= Seq::new((i + 1) as nat, |k: int| '0'));
        i = i + 1;
    }
    s.append(digits.as_str());
    s
}

/// Lexicographic order of texts by character code.
pub open spec fn seq_char_lt(a: Seq<char>, b: Seq<char>) -> bool
    decreases a.len(),
{
    if a.len() == 0 {
        b.len() > 0
    } else if b.len() == 0 {
        false
    } else if a[0] != b[0] {
        (a[0] as u32) < (b[0] as u32)
    } else {
        seq_char_lt(a.drop_first(), b.drop_first())
    }
}

/// True when `a` sorts strictly before `b`, character by character.
pub fn str_lt(a: &str, b: &str) -> (r: bool)
    ensures
        r == seq_char_lt(a@, b@),
{
    let la = a.unicode_len();
    let lb = b.unicode_len();
    let mut i: usize = 0;
    assert(a@.skip(0) =~= a@);
    assert(b@.skip(0) =~= b@);
    while i < la && i < lb
        invariant
            la == a@.len(),
            lb == b@.len(),
            i <= la,
            i <= lb,
            seq_char_lt(a@, b@) == seq_char_lt(a@.skip(i as int), b@.skip(i as int)),
        decreases la - i,
    {
        let ca = a.get_char(i);
        let cb = b.get_char(i);
        if ca != cb {
            proof {
                assert(a@.skip(i as int)[0] == ca);
                assert(b@.skip(i as int)[0] == cb);
            }
            return (ca as u32) < (cb as u32);
        }
        proof {
            assert(a@.skip(i as int).drop_first() =~= a@.skip(i + 1));
            assert(b@.skip(i as int).drop_first() =~= b@.skip(i + 1));
        }
        i = i + 1;
    }
    proof {
        assert(a@.skip(i as int).len() == la - i);
        assert(b@.skip(i as int).len() == lb - i);
    }
    i < lb
}


/// The decimal text of an integer, with a leading minus sign when it is negative.
pub open spec fn spec_int_text(v: int) -> Seq<char> {
    if v < 0 {
        "-"@ + spec_decimal((-v) as nat)
    } else {
        spec_decimal(v as nat)
    }
}

/// The decimal text of an integer, with a leading minus sign when it is negative.
pub fn int_text(v: i128) -> (s: String)
    ensures
        s@ == spec_int_text(v as int),
{
    if v < 0 {
        let magnitude: u128 = (-(v + 1)) as u128 + 1;
        let digits = decimal_string(magnitude);
        concat_str("-", digits.as_str())
    } else {
        decimal_string(v as u128)
    }
}

/// The part of an id after its first underscore; the whole id when it has none.
pub open spec fn spec_id_suffix(id: Seq<char>) -> Seq<char> {
    if exists|k: int| 0 <= k < id.len() && id[k] == '_' {
        let k = choose|k: int| 0 <= k < id.len() && id[k] == '_' && forall|j: int| 0 <= j < k ==> id[j] != '_';
        id.skip(k + 1)
    } else {
        id
    }
}

/// The message id that answers or carries an id: `message_` and the id's suffix.
pub open spec fn spec_message_id(id: Seq<char>) -> Seq<char> {
    "message_"@ + spec_id_suffix(id)
}

/// The message id that answers or carries an id: `message_` and the id's suffix.
pub fn message_id_for(id: &str) -> (r: String)
    ensures
        r@ == spec_message_id(id@),
{
    let n = id.unicode_len();
    let mut i: usize = 0;
    while i < n
        invariant
            i <= n,
            n == id@.len(),
            forall|j: int| 0 <= j < i ==> id@[j] != '_',
        decreases n - i,
    {
        if id.get_char(i) == '_' {
            let suffix = id.substring_char(i + 1, n);
            proof {
                let k = choose|k: int| 0 <= k < id@.len() && id@[k] == '_' && forall|j: int| 0 <= j < k ==> id@[j] != '_';
                assert(0 <= i < id@.len() && id@[i as int] == '_' && forall|j: int| 0 <= j < i ==> id@[j] != '_');
                if k < i {
                    assert(id@[k] != '_');
                } else if k > i {
                    assert(id@[i as int] != '_');
                }
                assert(suffix@ =~= id@.skip(i + 1));
            }
            return concat_str("message_", suffix);
        }
        i = i + 1;
    }
    concat_str("message_", id)
}


/// `s` begins with `prefix`.
pub open spec fn spec_starts_with(s: Seq<char>, prefix: Seq<char>) -> bool {
    prefix.len() <= s.len() && s.subrange(0, prefix.len() as int) == prefix
}

/// `needle` occurs in `s`.
pub open spec fn spec_contains(s: Seq<char>, needle: Seq<char>) -> bool {
    exists|i: int| 0 <= i && i + needle.len() <= s.len() && #[trigger] s.subrange(i, i + needle.len()) == needle
}

fn matches_at(s: &str, n: usize, needle: &str, m: usize, at: usize) -> (r: bool)
    requires
        n == s@.len(),
        m == needle@.len(),
        at + m <= n,
    ensures
        r == (s@.subrange(at as int, at + m) == needle@),
{
    let mut j: usize = 0;
    while j < m
        invariant
            j <= m,
            n == s@.len(),
            m == needle@.len(),
            at + m <= n,
            forall|k: int| 0 <= k < j ==> s@[at + k] == needle@[k],
        decreases m - j,
    {
        if s.get_char(at + j) != needle.get_char(j) {
            assert(s@.subrange(at as int, at + m)[j as int] != needle@[j as int]);
            return false;
        }
        j = j + 1;
    }
    assert(s@.subrange(at as int, at + m) =~= needle@);
    true
}

/// True when `s` begins with `prefix`.
pub fn str_starts_with(s: &str, prefix: &str) -> (r: bool)
    ensures
        r == spec_starts_with(s@, prefix@),
{
    let n = s.unicode_len();
    let m = prefix.unicode_len();
    if m > n {
        return false;
    }
    matches_at(s, n, prefix, m, 0)
}

/// True when `needle` occurs in `s`.
pub fn str_contains(s: &str, needle: &str) -> (r: bool)
    ensures
        r == spec_contains(s@, needle@),
{
    let n = s.unicode_len();
    let m = needle.unicode_len();
    if m > n {
        assert(!spec_contains(s@, needle@));
        return false;
    }
    let mut at: usize = 0;
    while at < n - m
        invariant
            n == s@.len(),
            m == needle@.len(),
            m <= n,
            at <= n - m,
            forall|i: int| 0 <= i < at ==> #[trigger] s@.subrange(i, i + m) != needle@,
        decreases n - m - at,
    {
        if matches_at(s, n, needle, m, at) {
            return true;
        }
        at = at + 1;
    }
    if matches_at(s, n, needle, m, at) {
        return true;
    }
    assert(s@.subrange(at as int, at + m) != needle@);
    assert forall|i: int| 0 <= i && i + needle@.len() <= s@.len() implies #[trigger] s@.subrange(i, i + needle@.len())
        != needle@ by {
        assert(i <= at);
    }
    false
}

} // verus!
