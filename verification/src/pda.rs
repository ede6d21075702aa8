use vstd::prelude::*;
use crate::error::GammaError;
use crate::identity::Identity;

verus! {

/// The namespace tag that scopes every config record's address: the ASCII
/// bytes of `"amm_config"`.
pub open spec fn spec_amm_config_seed() -> Seq<u8> {
    seq![97u8, 109u8, 109u8, 95u8, 99u8, 111u8, 110u8, 102u8, 105u8, 103u8]
}

/// Builds the namespace tag (`"amm_config"` in ASCII).
pub fn amm_config_seed() -> (r: Vec<u8>)
    ensures
        r@ == spec_amm_config_seed(),
{
    let s: Vec<u8> = vec![97u8, 109u8, 109u8, 95u8, 99u8, 111u8, 110u8, 102u8, 105u8, 103u8];
    proof {
        assert(s@ =~= spec_amm_config_seed());
    }
    s
}

/// The address and disambiguator ("bump") that the program-derived-address
/// search returns for a namespace tag, a 16-bit index (serialized big
/// endian as the second seed) and a program identity; `None` when the
/// search range holds no valid disambiguator. The result is a pure
/// function of these three arguments.
pub uninterp spec fn spec_find_program_address(tag: Seq<u8>, index: u16, program: Seq<u8>) -> Option<(Seq<u8>, u8)>;

/// Relies on `Pubkey::try_find_program_address` (reached through
/// `anchor_lang::prelude`): the derived address and bump seed are computed
/// by a bump-seed search over a hash of the seed bytes and the program id
/// alone, so the result depends on nothing but the arguments; `None` comes
/// back only when no bump seed in the search range yields a valid address.
#[verifier::external_body]
fn try_find_config_address(tag: &Vec<u8>, index: u16, program: &Identity) -> (r: Option<(Identity, u8)>)
    ensures
        (match spec_find_program_address(tag@, index, program@) {
            Some(p) => r matches Some(q) && q.0@ == p.0 && q.1 == p.1,
            None => r is None,
        }),
{
    let program_id = anchor_lang::prelude::Pubkey::new_from_array(program.bytes);
    let index_bytes = index.to_be_bytes();
    let found = anchor_lang::prelude::Pubkey::try_find_program_address(
        &[tag.as_slice(), &index_bytes],
        &program_id,
    );
    found.map(|pair: (anchor_lang::prelude::Pubkey, u8)|
        (Identity { bytes: pair.0.to_bytes() }, pair.1))
}

/// Derives the storage address and disambiguator of the config record
/// with the given index, under the given program identity. Deterministic:
/// the result is a pure function of the namespace tag, the index and the
/// program; it fails only with `AddressSpaceExhausted`, when the
/// derivation search finds no valid disambiguator.
pub fn derive_config_address(program: &Identity, index: u16) -> (r: Result<(Identity, u8), GammaError>)
    ensures
        (match spec_find_program_address(spec_amm_config_seed(), index, program@) {
            Some(p) => r matches Ok(q) && q.0@ == p.0 && q.1 == p.1,
            None => r == Err::<(Identity, u8), GammaError>(GammaError::AddressSpaceExhausted),
        }),
{
    let seed = amm_config_seed();
    match try_find_config_address(&seed, index, program) {
        Some(pair) => Ok(pair),
        None => Err(GammaError::AddressSpaceExhausted),
    }
}

/// Law: address derivation is idempotent. Two derivations from the same
/// namespace tag, index and program agree on both the address and the
/// disambiguator.
pub proof fn lemma_derivation_deterministic(
    tag: Seq<u8>,
    index: u16,
    program: Seq<u8>,
    r1: Option<(Seq<u8>, u8)>,
    r2: Option<(Seq<u8>, u8)>,
)
    requires
        r1 == spec_find_program_address(tag, index, program),
        r2 == spec_find_program_address(tag, index, program),
    ensures
        r1 == r2,
{
}

} // verus!
