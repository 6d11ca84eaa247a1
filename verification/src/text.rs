use vstd::prelude::*;
use vstd::string::StringSliceAdditionalSpecFns;

use crate::error::{Error, ErrorView};

verus! {

/// The character of a decimal digit.
pub open spec fn digit_char(d: int) -> char {
    if d == 0 { '0' }
    else if d == 1 { '1' }
    else if d == 2 { '2' }
    else if d == 3 { '3' }
    else if d == 4 { '4' }
    else if d == 5 { '5' }
    else if d == 6 { '6' }
    else if d == 7 { '7' }
    else if d == 8 { '8' }
    else { '9' }
}

/// The decimal digits of `n`, most significant first, without leading zeros.
pub open spec fn decimal_digits(n: nat) -> Seq<char>
    decreases n,
{
    if n < 10 {
        seq![digit_char(n as int)]
    } else {
        decimal_digits(n / 10).push(digit_char((n % 10) as int))
    }
}

/// How `{}` prints the integer `n`: a minus sign for negative values, then
/// the decimal digits of its magnitude.
pub open spec fn decimal(n: int) -> Seq<char> {
    if n < 0 {
        seq!['-'] + decimal_digits((-n) as nat)
    } else {
        decimal_digits(n as nat)
    }
}

fn digit_str(d: u64) -> (s: &'static str)
    requires
        d < 10,
    ensures
        s@ == seq![digit_char(d as int)],
{
    proof {
        reveal_strlit("0");
        reveal_strlit("1");
        reveal_strlit("2");
        reveal_strlit("3");
        reveal_strlit("4");
        reveal_strlit("5");
        reveal_strlit("6");
        reveal_strlit("7");
        reveal_strlit("8");
        reveal_strlit("9");
    }
    if d == 0 { "0" }
    else if d == 1 { "1" }
    else if d == 2 { "2" }
    else if d == 3 { "3" }
    else if d == 4 { "4" }
    else if d == 5 { "5" }
    else if d == 6 { "6" }
    else if d == 7 { "7" }
    else if d == 8 { "8" }
    else { "9" }
}

fn push_decimal_digits(s: &mut String, n: u64)
    ensures
        final(s)@ == old(s)@ + decimal_digits(n as nat),
    decreases n,
{
    if n >= 10 {
        push_decimal_digits(s, n / 10);
    }
    s.append(digit_str(n % 10));
}

/// Appends the decimal text of `n` to `s`.
pub fn push_decimal_i64(s: &mut String, n: i64)
    ensures
        final(s)@ == old(s)@ + decimal(n as int),
{
    if n < 0 {
        proof { reveal_strlit("-"); }
        s.append("-");
        let magnitude: u64 = if n == i64::MIN {
            9223372036854775808u64
        } else {
            (-n) as u64
        };
        push_decimal_digits(s, magnitude);
        assert(s@ =~= old(s)@ + decimal(n as int));
    } else {
        push_decimal_digits(s, n as u64);
    }
}

/// Appends the decimal text of `n` to `s`.
pub fn push_decimal_u64(s: &mut String, n: u64)
    ensures
        final(s)@ == old(s)@ + decimal(n as int),
{
    push_decimal_digits(s, n);
}

/// The message of a failed C string conversion: the index of the first NUL
/// byte in the input.
pub open spec fn nul_error_message(position: int) -> Seq<char> {
    "nul byte found in provided data at position: "@ + decimal(position)
}

/// Whether `bytes` holds a NUL byte.
pub open spec fn has_nul(bytes: Seq<u8>) -> bool {
    exists|i: int| 0 <= i < bytes.len() && bytes[i] == 0
}

/// The index of the first NUL byte of `bytes`.
pub open spec fn first_nul(bytes: Seq<u8>) -> int
    recommends
        has_nul(bytes),
{
    choose|i: int| 0 <= i < bytes.len() && bytes[i] == 0 && forall|j: int| 0 <= j < i ==> bytes[j] != 0
}

/// What converting `bytes` into a C string gives: the bytes followed by a
/// NUL terminator, or, where they hold a NUL byte themselves, an invalid
/// argument naming the first one.
pub open spec fn c_string(bytes: Seq<u8>) -> Result<Seq<u8>, ErrorView> {
    if has_nul(bytes) {
        Err(ErrorView::InvalidArgument(nul_error_message(first_nul(bytes))))
    } else {
        Ok(bytes.push(0u8))
    }
}

proof fn lemma_first_nul_is_first(bytes: Seq<u8>, k: int)
    requires
        0 <= k < bytes.len(),
        bytes[k] == 0,
    ensures
        0 <= first_nul(bytes) <= k,
        bytes[first_nul(bytes)] == 0,
        forall|j: int| 0 <= j < first_nul(bytes) ==> bytes[j] != 0,
    decreases k,
{
    if exists|j: int| 0 <= j < k && bytes[j] == 0 {
        let j = choose|j: int| 0 <= j < k && bytes[j] == 0;
        lemma_first_nul_is_first(bytes, j);
    } else {
        assert(0 <= k < bytes.len() && bytes[k] == 0 && forall|j: int| 0 <= j < k ==> bytes[j] != 0);
    }
}

/// Converting bytes into a C string succeeds exactly when they hold no NUL
/// byte; then it gives the bytes followed by a single NUL terminator, so that
/// dropping the terminator gives the bytes back. Otherwise the error names
/// the index of the first NUL byte.
pub proof fn lemma_c_string(bytes: Seq<u8>)
    ensures
        c_string(bytes) is Ok <==> !has_nul(bytes),
        c_string(bytes) matches Ok(c) ==> {
            &&& c.len() == bytes.len() + 1
            &&& c.last() == 0
            &&& c.drop_last() == bytes
            &&& forall|i: int| 0 <= i < c.len() - 1 ==> c[i] != 0
        },
        has_nul(bytes) ==> {
            &&& 0 <= first_nul(bytes) < bytes.len()
            &&& bytes[first_nul(bytes)] == 0
            &&& forall|j: int| 0 <= j < first_nul(bytes) ==> bytes[j] != 0
        },
{
    if has_nul(bytes) {
        let k = choose|i: int| 0 <= i < bytes.len() && bytes[i] == 0;
        lemma_first_nul_is_first(bytes, k);
    } else {
        assert(bytes.push(0u8).drop_last() =~= bytes);
    }
}

/// Converts bytes into a NUL-terminated C string, mapping an interior NUL
/// byte to [`Error::InvalidArgument`].
pub fn bytes_to_cstring(bytes: &[u8]) -> (r: Result<Vec<u8>, Error>)
    ensures
        match r {
            Ok(c) => c_string(bytes@) == Ok::<Seq<u8>, ErrorView>(c@),
            Err(e) => c_string(bytes@) == Err::<Seq<u8>, ErrorView>(e@),
        },
{
    let mut out: Vec<u8> = Vec::new();
    let mut i: usize = 0;
    while i < bytes.len()
        invariant
            i <= bytes@.len(),
            out@ == bytes@.subrange(0, i as int),
            forall|j: int| 0 <= j < i ==> bytes@[j] != 0,
        decreases bytes@.len() - i,
    {
        let b = bytes[i];
        if b == 0 {
            let ghost w = first_nul(bytes@);
            assert(0 <= i < bytes@.len() && bytes@[i as int] == 0 && forall|j: int| 0 <= j < i ==> bytes@[j] != 0);
            assert(w == i as int) by {
                if w < i as int {
                    assert(bytes@[w] != 0);
                } else if w > i as int {
                    assert(bytes@[i as int] != 0);
                }
            }
            let mut msg = String::from_str("nul byte found in provided data at position: ");
            push_decimal_u64(&mut msg, i as u64);
            return Err(Error::InvalidArgument(msg));
        }
        out.push(b);
        i = i + 1;
    }
    assert(out@ == bytes@);
    out.push(0u8);
    Ok(out)
}

/// Converts a string into a NUL-terminated C string (its UTF-8 bytes), mapping
/// an interior NUL to [`Error::InvalidArgument`].
pub fn to_cstring(value: &str) -> (r: Result<Vec<u8>, Error>)
    ensures
        match r {
            Ok(c) => c_string(value.spec_bytes()) == Ok::<Seq<u8>, ErrorView>(c@),
            Err(e) => c_string(value.spec_bytes()) == Err::<Seq<u8>, ErrorView>(e@),
        },
{
    bytes_to_cstring(value.as_bytes())
}

} // verus!
