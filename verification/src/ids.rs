use vstd::prelude::*;

verus! {

/// The hexadecimal digit character for `d` (`0 <= d < 16`), lower case.
pub open spec fn hex_char(d: int) -> char {
    if d < 10 {
        (d + 48) as char
    } else {
        (d + 87) as char
    }
}

/// The `i`-th hexadecimal digit of `x`, counting from the most significant.
pub open spec fn nibble(x: u128, i: int) -> int {
    (x as int / vstd::arithmetic::power2::pow2((4 * (31 - i)) as nat) as int) % 16
}

/// The 32 hexadecimal digits of `x`, most significant first.
pub open spec fn hex32(x: u128) -> Seq<char> {
    Seq::new(32, |i: int| hex_char(nibble(x, i)))
}

/// The hyphenated lower-case text of the identifier `x`
/// (`xxxxxxxx-xxxx-xxxx-xxxx-xxxxxxxxxxxx`).
pub open spec fn uuid_text(x: u128) -> Seq<char> {
    let h = hex32(x);
    h.subrange(0, 8) + seq!['-'] + h.subrange(8, 12) + seq!['-'] + h.subrange(12, 16) + seq!['-']
        + h.subrange(16, 20) + seq!['-'] + h.subrange(20, 32)
}

/// What `Uuid::parse_str` reads from a text: the identifier as a 128-bit
/// big-endian integer (`Uuid::as_u128`), or `None` when it rejects the text.
pub uninterp spec fn uuid_parse(text: Seq<char>) -> Option<u128>;

/// `Uuid::parse_str(text)`, the identifier taken as `as_u128`. The contract
/// names the result and states one form it reads: the hyphenated lower-case
/// text of an identifier (the form `Uuid`'s `Display` writes) is read back as
/// that identifier. Which other texts are accepted (simple, braced, URN,
/// upper case) is left to the `uuid` crate.
#[verifier::external_body]
pub fn parse_uuid(text: &str) -> (res: Option<u128>)
    ensures
        res == uuid_parse(text@),
        forall|x: u128| #[trigger] uuid_text(x) == text@ ==> res == Some(x),
{
    match uuid::Uuid::parse_str(text) {
        Ok(id) => Some(id.as_u128()),
        Err(_) => None,
    }
}

/// The text of an identifier (`Uuid::from_u128(id).to_string()`): the
/// hyphenated lower-case form, which `Uuid::parse_str` reads back as `id`.
#[verifier::external_body]
pub fn uuid_to_text(id: u128) -> (res: String)
    ensures
        res@ == uuid_text(id),
        uuid_parse(res@) == Some(id),
{
    uuid::Uuid::from_u128(id).to_string()
}

/// A fresh random identifier (`Uuid::new_v4().as_u128()`). It is drawn from
/// the operating system's randomness, so nothing is promised of its value.
#[verifier::external_body]
pub fn new_random_id() -> (res: u128) {
    uuid::Uuid::new_v4().as_u128()
}

} // verus!
