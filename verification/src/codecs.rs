use vstd::prelude::*;

verus! {

/// What `ic_ledger_types::AccountIdentifier::from_hex` gives for a text: the
/// 32 bytes of the ledger account, or the text of its error.
pub uninterp spec fn account_id_from_hex(hex: Seq<char>) -> Result<Seq<u8>, Seq<char>>;

/// What `candid::Principal::from_text` gives for a text: the principal's
/// significant bytes, or `None` where the text is not a valid principal.
pub uninterp spec fn principal_from_text(text: Seq<char>) -> Option<Seq<u8>>;

/// The textual form (`Display`, `to_text`) of the principal with these bytes.
pub uninterp spec fn principal_text(bytes: Seq<u8>) -> Seq<char>;

/// A character with the ASCII capitals 'A'..='Z' mapped to 'a'..='z'.
pub open spec fn ascii_lower_char(c: char) -> char {
    if 65 <= (c as u32) <= 90 {
        ((c as u32) + 32) as char
    } else {
        c
    }
}

/// A text with every ASCII capital mapped to its lower case.
pub open spec fn ascii_lower(s: Seq<char>) -> Seq<char> {
    s.map_values(|c: char| ascii_lower_char(c))
}

/// The decimal digit for `d < 10`.
pub open spec fn digit_char(d: nat) -> char {
    seq!['0', '1', '2', '3', '4', '5', '6', '7', '8', '9'][d as int]
}

/// The decimal notation of `n`, without sign or leading zeros.
pub open spec fn decimal(n: nat) -> Seq<char>
    decreases n,
{
    if n < 10 {
        seq![digit_char(n)]
    } else {
        decimal(n / 10).push(digit_char(n % 10))
    }
}

/// Calls `ic_ledger_types::AccountIdentifier::from_hex`.  The source decodes
/// the hex text and checks its length and checksum; what it returns is named
/// by `account_id_from_hex`, and an account it accepts is 32 bytes long.
#[verifier::external_body]
pub(crate) fn decode_account_id(hex: &str) -> (r: Result<Vec<u8>, String>)
    ensures
        match r {
            Ok(bytes) => account_id_from_hex(hex@) == Ok::<Seq<u8>, Seq<char>>(bytes@)
                && bytes@.len() == 32,
            Err(e) => account_id_from_hex(hex@) == Err::<Seq<u8>, Seq<char>>(e@),
        },
{
    match ic_ledger_types::AccountIdentifier::from_hex(hex) {
        Ok(account) => Ok(account.as_bytes().to_vec()),
        Err(e) => Err(e),
    }
}

/// Calls `candid::Principal::from_text` and hands out the principal's
/// significant bytes (`as_slice`), of which there are at most 29.  Which
/// texts it accepts (base32 with a CRC32 check and dash grouping) is named by
/// `principal_from_text`, not stated.
#[verifier::external_body]
pub(crate) fn parse_principal(text: &str) -> (r: Option<Vec<u8>>)
    ensures
        r is Some <==> principal_from_text(text@) is Some,
        r matches Some(bytes) ==> principal_from_text(text@) == Some(bytes@) && bytes@.len()
            <= 29,
{
    match candid::Principal::from_text(text) {
        Ok(p) => Some(p.as_slice().to_vec()),
        Err(_) => None,
    }
}

/// Builds the principal with these bytes (`candid::Principal::from_slice`,
/// which panics beyond 29 bytes) and calls its `to_text`; the text is named
/// by `principal_text`.
#[verifier::external_body]
pub(crate) fn render_principal(bytes: &[u8]) -> (r: String)
    requires
        bytes@.len() <= 29,
    ensures
        r@ == principal_text(bytes@),
{
    candid::Principal::from_slice(bytes).to_text()
}

/// Calls `str::to_ascii_lowercase`, which maps 'A'..='Z' to 'a'..='z' and
/// leaves every other character as it is.
#[verifier::external_body]
pub(crate) fn lowercase_ascii(s: &str) -> (r: String)
    ensures
        r@ == ascii_lower(s@),
{
    s.to_ascii_lowercase()
}

/// Calls `u64::to_string`, the decimal notation of the number.
#[verifier::external_body]
pub(crate) fn decimal_text(n: u64) -> (r: String)
    ensures
        r@ == decimal(n as nat),
{
    n.to_string()
}

} // verus!
