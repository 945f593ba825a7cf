use vstd::prelude::*;
use vstd::bytes::spec_u64_from_le_bytes;
use solana_program::program_pack::Pack;

verus! {

/// A four-byte option tag of the token program's account layout at `off`:
/// `[0, 0, 0, 0]` for none, `[1, 0, 0, 0]` for some.
pub open spec fn option_tag_ok(s: Seq<u8>, off: int) -> bool {
    (s[off] == 0 || s[off] == 1) && s[off + 1] == 0 && s[off + 2] == 0 && s[off + 3] == 0
}

/// The bytes of an initialized token mint: 82 bytes, valid option tags for the
/// mint and freeze authorities, and the initialized flag set.
pub open spec fn mint_valid(s: Seq<u8>) -> bool {
    s.len() == 82 && option_tag_ok(s, 0) && s[45] == 1 && option_tag_ok(s, 46)
}

/// The bytes of an initialized (or frozen) token account: 165 bytes, valid
/// option tags for the delegate, native reserve and close authority, and a
/// state byte of `1` (initialized) or `2` (frozen).
pub open spec fn token_account_valid(s: Seq<u8>) -> bool {
    &&& s.len() == 165
    &&& option_tag_ok(s, 72)
    &&& (s[108] == 1 || s[108] == 2)
    &&& option_tag_ok(s, 109)
    &&& option_tag_ok(s, 129)
}

/// The token balance held in a token account's bytes.
pub open spec fn token_amount(s: Seq<u8>) -> u64 {
    spec_u64_from_le_bytes(s.subrange(64, 72))
}

/// Relies on `spl_token::state::Mint::unpack`: it succeeds exactly on the
/// bytes of an initialized mint.
#[verifier::external_body]
pub(crate) fn is_token_mint(data: &[u8]) -> (r: bool)
    ensures
        r == mint_valid(data@),
{
    spl_token::state::Mint::unpack(data).is_ok()
}

/// Relies on `spl_token::state::Account::unpack`: it succeeds exactly on the
/// bytes of an initialized token account, and reads its balance from bytes
/// 64 to 72, little-endian.
#[verifier::external_body]
pub(crate) fn token_account_amount(data: &[u8]) -> (r: Option<u64>)
    ensures
        r is Some <==> token_account_valid(data@),
        r matches Some(amount) ==> amount == token_amount(data@),
{
    spl_token::state::Account::unpack(data).ok().map(|account| account.amount)
}

} // verus!
