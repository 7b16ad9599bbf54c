use vstd::prelude::*;

use anchor_lang::AccountDeserialize;

use crate::error::InstructionError;
use crate::pubkey::Pubkey;

verus! {

#[verifier::external_type_specification]
#[verifier::external_body]
pub struct ExAnchorError(anchor_lang::error::Error);

/// Little-endian value of eight bytes.
pub open spec fn le_u64(b: Seq<u8>) -> int {
    b[0] + 0x100 * b[1] + 0x1_0000 * b[2] + 0x100_0000 * b[3] + 0x1_0000_0000 * b[4]
        + 0x100_0000_0000 * b[5] + 0x1_0000_0000_0000 * b[6] + 0x100_0000_0000_0000 * b[7]
}

/// The four-byte tag of an optional field: 0 for none, 1 for some.
pub open spec fn coption_tag_valid(tag: Seq<u8>) -> bool {
    &&& tag[0] == 0 || tag[0] == 1
    &&& tag[1] == 0
    &&& tag[2] == 0
    &&& tag[3] == 0
}

/// Whether `data` is an initialized SPL token account: 165 bytes laid out as
/// mint (0..32), owner (32..64), amount (64..72), optional delegate (72..108),
/// state (108, initialized or frozen), optional native reserve (109..121),
/// delegated amount (121..129) and optional close authority (129..165).
pub open spec fn spl_token_account_layout(data: Seq<u8>) -> bool {
    &&& data.len() == 165
    &&& coption_tag_valid(data.subrange(72, 76))
    &&& data[108] == 1 || data[108] == 2
    &&& coption_tag_valid(data.subrange(109, 113))
    &&& coption_tag_valid(data.subrange(129, 133))
}

/// Whether `data` has the token-account layout except that its state byte
/// says uninitialized.
pub open spec fn spl_token_account_uninitialized(data: Seq<u8>) -> bool {
    &&& data.len() == 165
    &&& coption_tag_valid(data.subrange(72, 76))
    &&& data[108] == 0
    &&& coption_tag_valid(data.subrange(109, 113))
    &&& coption_tag_valid(data.subrange(129, 133))
}

/// Why `data` cannot be read as a token account, if it cannot.
pub open spec fn token_data_refusal(data: Seq<u8>) -> Option<InstructionError> {
    if spl_token_account_layout(data) {
        None
    } else if spl_token_account_uninitialized(data) {
        Some(InstructionError::UninitializedTokenAccount)
    } else {
        Some(InstructionError::InvalidTokenAccountData)
    }
}

fn tag_valid(data: &[u8], at: usize) -> (r: bool)
    requires
        at + 4 <= data@.len(),
    ensures
        r == coption_tag_valid(data@.subrange(at as int, at + 4)),
{
    (data[at] == 0 || data[at] == 1) && data[at + 1] == 0 && data[at + 2] == 0 && data[at + 3] == 0
}

/// The reason why `data`, which is not a readable token account, is refused.
pub fn token_data_error(data: &[u8]) -> (e: InstructionError)
    requires
        !spl_token_account_layout(data@),
    ensures
        token_data_refusal(data@) == Some(e),
{
    if data.len() == 165 && tag_valid(data, 72) && data[108] == 0 && tag_valid(data, 109) && tag_valid(
        data,
        129,
    ) {
        InstructionError::UninitializedTokenAccount
    } else {
        InstructionError::InvalidTokenAccountData
    }
}

/// Owner field of a token account's data.
pub open spec fn token_account_owner(data: Seq<u8>) -> Seq<u8> {
    data.subrange(32, 64)
}

/// Amount field of a token account's data.
pub open spec fn token_account_amount(data: Seq<u8>) -> int {
    le_u64(data.subrange(64, 72))
}

/// Reads the owner and the amount of an SPL token account through
/// `anchor_spl::token::TokenAccount::try_deserialize`, which unpacks
/// `spl_token::state::Account` from the bytes.
/// Claimed of it: it succeeds exactly on data with the token-account layout
/// (length, option tags and an initialized state), and then the owner and
/// amount are the bytes at offsets 32..64 and 64..72. Which error it returns
/// otherwise is left unsaid.
#[verifier::external_body]
pub(crate) fn unpack_token_account(data: &[u8]) -> (r: Result<(Pubkey, u64), anchor_lang::error::Error>)
    ensures
        r is Ok <==> spl_token_account_layout(data@),
        r matches Ok(h) ==> h.0.bytes@ == token_account_owner(data@) && h.1
            == token_account_amount(data@),
{
    match anchor_spl::token::TokenAccount::try_deserialize(&mut &data[..]) {
        Ok(account) => Ok((Pubkey { bytes: account.owner.to_bytes() }, account.amount)),
        Err(e) => Err(e),
    }
}

} // verus!
