use crate::response::IpcError;
use vstd::prelude::*;

verus! {

/// Whether `b` is an ASCII decimal digit.
pub open spec fn is_digit(b: u8) -> bool {
    48 <= b <= 57
}

/// The number that a string of decimal digits denotes.
pub open spec fn decimal_value(s: Seq<u8>) -> int
    decreases s.len(),
{
    if s.len() == 0 {
        0
    } else {
        decimal_value(s.drop_last()) * 10 + (s.last() - 48)
    }
}

/// Whether `s` is the decimal form of a `u32`: one or more digits whose value fits.
pub open spec fn is_decimal_u32(s: Seq<u8>) -> bool {
    &&& s.len() > 0
    &&& forall|i: int| 0 <= i < s.len() ==> is_digit(#[trigger] s[i])
    &&& decimal_value(s) <= u32::MAX
}

proof fn lemma_decimal_value_nonneg(s: Seq<u8>)
    requires
        forall|i: int| 0 <= i < s.len() ==> is_digit(#[trigger] s[i]),
    ensures
        decimal_value(s) >= 0,
    decreases s.len(),
{
    if s.len() > 0 {
        assert(is_digit(s[s.len() - 1]));
        lemma_decimal_value_nonneg(s.drop_last());
    }
}

proof fn lemma_decimal_value_grows(s: Seq<u8>, k: int)
    requires
        0 <= k <= s.len(),
        forall|i: int| 0 <= i < s.len() ==> is_digit(#[trigger] s[i]),
    ensures
        decimal_value(s.subrange(0, k)) <= decimal_value(s),
    decreases s.len() - k,
{
    if k < s.len() {
        lemma_decimal_value_grows(s, k + 1);
        let t = s.subrange(0, k + 1);
        assert(t.drop_last() == s.subrange(0, k));
        assert(is_digit(t[k]));
        lemma_decimal_value_nonneg(t.drop_last());
    } else {
        assert(s.subrange(0, k) == s);
    }
}

/// Reads the decimal form of a `u32`.
pub fn parse_u32(s: &[u8]) -> (r: Result<u32, IpcError>)
    ensures
        match r {
            Ok(v) => is_decimal_u32(s@) && v == decimal_value(s@),
            Err(e) => !is_decimal_u32(s@) && e == IpcError::NotNumber,
        },
{
    if s.len() == 0 {
        return Err(IpcError::NotNumber);
    }
    let mut acc: u32 = 0;
    let mut i: usize = 0;
    while i < s.len()
        invariant
            i <= s@.len(),
            forall|j: int| 0 <= j < i ==> is_digit(#[trigger] s@[j]),
            acc == decimal_value(s@.subrange(0, i as int)),
        decreases s@.len() - i,
    {
        let b = s[i];
        if b < 48 || b > 57 {
            return Err(IpcError::NotNumber);
        }
        let d = (b - 48) as u32;
        assert(s@.subrange(0, i + 1).drop_last() == s@.subrange(0, i as int));
        if acc > 429496729 || (acc == 429496729 && d > 5) {
            proof {
                assert forall|j: int| 0 <= j < i + 1 implies is_digit(#[trigger] s@[j]) by {}
                if is_decimal_u32(s@) {
                    lemma_decimal_value_grows(s@, i + 1);
                }
            }
            return Err(IpcError::NotNumber);
        }
        acc = acc * 10 + d;
        i = i + 1;
    }
    assert(s@.subrange(0, i as int) == s@);
    Ok(acc)
}

/// Relies on `std::str::from_utf8`: it succeeds exactly on valid UTF-8,
/// and then the text is the one those bytes encode.
#[verifier::external_body]
fn decode_utf8_text(b: &[u8]) -> (r: Option<String>)
    ensures
        r.is_some() == vstd::utf8::valid_utf8(b@),
        r matches Some(s) ==> s@ == vstd::utf8::decode_utf8(b@),
{
    match std::str::from_utf8(b) {
        Ok(s) => Some(s.to_string()),
        Err(_) => None,
    }
}

/// The argument at `i` of a request.
pub fn arg(args: &[Vec<u8>], i: usize) -> (r: Result<&Vec<u8>, IpcError>)
    ensures
        match r {
            Ok(a) => i < args@.len() && *a == args@[i as int],
            Err(e) => i >= args@.len() && e == IpcError::MissingArgument,
        },
{
    if i < args.len() {
        Ok(&args[i])
    } else {
        Err(IpcError::MissingArgument)
    }
}

/// The argument at `i` read as UTF-8 text.
pub fn text_arg(args: &[Vec<u8>], i: usize) -> (r: Result<String, IpcError>)
    ensures
        match r {
            Ok(s) => i < args@.len() && vstd::utf8::valid_utf8(args@[i as int]@)
                && s@ == vstd::utf8::decode_utf8(args@[i as int]@),
            Err(e) => if i >= args@.len() {
                e == IpcError::MissingArgument
            } else {
                !vstd::utf8::valid_utf8(args@[i as int]@) && e == IpcError::NotText
            },
        },
{
    let a = arg(args, i)?;
    match decode_utf8_text(a.as_slice()) {
        Some(s) => Ok(s),
        None => Err(IpcError::NotText),
    }
}

/// What the argument at `i` of a request denotes as a `u32`.
pub open spec fn parsed_u32(args: Seq<Vec<u8>>, i: int) -> Result<u32, IpcError> {
    if i >= args.len() {
        Err(IpcError::MissingArgument)
    } else if is_decimal_u32(args[i]@) {
        Ok(decimal_value(args[i]@) as u32)
    } else {
        Err(IpcError::NotNumber)
    }
}

/// The argument at `i` read as the decimal form of a `u32`.
pub fn u32_arg(args: &[Vec<u8>], i: usize) -> (r: Result<u32, IpcError>)
    ensures
        r == parsed_u32(args@, i as int),
{
    let a = arg(args, i)?;
    parse_u32(a.as_slice())
}


/// The canonical decimal text of `v`: no sign, no leading zeros.
pub open spec fn decimal_text(v: nat) -> Seq<u8>
    decreases v,
{
    if v < 10 {
        seq![(v + 48) as u8]
    } else {
        decimal_text(v / 10) + seq![((v % 10) + 48) as u8]
    }
}

/// Writes `v` as canonical decimal text.
pub fn format_u32(v: u32) -> (r: Vec<u8>)
    ensures
        r@ == decimal_text(v as nat),
    decreases v,
{
    if v < 10 {
        let mut r: Vec<u8> = Vec::new();
        r.push((v + 48) as u8);
        r
    } else {
        let mut r = format_u32(v / 10);
        r.push(((v % 10) + 48) as u8);
        r
    }
}

} // verus!
