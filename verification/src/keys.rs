//! Account addresses.
//!
//! An address is 32 bytes. Deriving a program address and reading or writing
//! the base58 text of an address are left to the chain's own library; all else
//! here is computed on the bytes.

use vstd::prelude::*;

verus! {

/// Address of an account or a program.
#[derive(Clone, Copy, Debug, PartialEq, Eq, Hash)]
pub struct Pubkey {
    pub bytes: [u8; 32],
}

impl View for Pubkey {
    type V = Seq<u8>;

    open spec fn view(&self) -> Seq<u8> {
        self.bytes@
    }
}

impl Pubkey {
    /// The address with the given bytes.
    pub fn new_from_array(bytes: [u8; 32]) -> (out: Self)
        ensures
            out@ == bytes@,
    {
        Pubkey { bytes }
    }

    /// The bytes of the address.
    pub fn to_bytes(&self) -> (out: [u8; 32])
        ensures
            out@ == self@,
    {
        self.bytes
    }

    /// The bytes of the address, on the heap.
    pub fn to_vec(&self) -> (out: Vec<u8>)
        ensures
            out@ == self@,
    {
        let mut out: Vec<u8> = Vec::new();
        let mut i: usize = 0;
        while i < 32
            invariant
                i <= 32,
                out@ == self@.subrange(0, i as int),
            decreases 32 - i,
        {
            out.push(self.bytes[i]);
            assert(out@ =~= self@.subrange(0, i as int + 1));
            i += 1;
        }
        assert(out@ =~= self@);
        out
    }

    /// Whether two addresses are the same.
    pub fn same(&self, other: &Pubkey) -> (out: bool)
        ensures
            out == (self@ == other@),
    {
        let mut i: usize = 0;
        while i < 32
            invariant
                i <= 32,
                forall|k: int| 0 <= k < i ==> self@[k] == other@[k],
            decreases 32 - i,
        {
            if self.bytes[i] != other.bytes[i] {
                return false;
            }
            i += 1;
        }
        assert(self@ =~= other@);
        true
    }
}

/// Position of the first address in `keys` equal to `key`, if there is one.
pub fn position_of(keys: &Vec<Pubkey>, key: &Pubkey) -> (out: Option<usize>)
    ensures
        match out {
            Some(i) => i < keys.len() && keys[i as int]@ == key@ && forall|k: int|
                0 <= k < i ==> keys[k]@ != key@,
            None => forall|k: int| 0 <= k < keys.len() ==> keys[k]@ != key@,
        },
{
    let mut i: usize = 0;
    while i < keys.len()
        invariant
            i <= keys.len(),
            forall|k: int| 0 <= k < i ==> keys[k]@ != key@,
        decreases keys.len() - i,
    {
        if keys[i].same(key) {
            return Some(i);
        }
        i += 1;
    }
    None
}

/// Whether `key` occurs among `keys`.
pub open spec fn spec_contains_key(keys: Seq<Pubkey>, key: Seq<u8>) -> bool {
    exists|k: int| 0 <= k < keys.len() && #[trigger] keys[k]@ == key
}

/// Whether `key` occurs among `keys`.
pub fn contains_key(keys: &Vec<Pubkey>, key: &Pubkey) -> (out: bool)
    ensures
        out == spec_contains_key(keys@, key@),
{
    position_of(keys, key).is_some()
}

/// Address of the wrapped native mint.
pub fn wsol_mint() -> (out: Pubkey)
    ensures
        out@ == WSOL_BYTES@,
{
    Pubkey { bytes: WSOL_BYTES }
}

/// Address of the token program.
pub fn token_program_id() -> (out: Pubkey)
    ensures
        out@ == TOKEN_PROGRAM_BYTES@,
{
    Pubkey { bytes: TOKEN_PROGRAM_BYTES }
}

/// Address of the associated-token-account program.
pub fn associated_token_program_id() -> (out: Pubkey)
    ensures
        out@ == ASSOCIATED_TOKEN_PROGRAM_BYTES@,
{
    Pubkey { bytes: ASSOCIATED_TOKEN_PROGRAM_BYTES }
}

/// Address of the system program.
pub fn system_program_id() -> (out: Pubkey)
    ensures
        out@ == SYSTEM_PROGRAM_BYTES@,
{
    Pubkey { bytes: SYSTEM_PROGRAM_BYTES }
}

/// Address of the constant-product pool program.
pub fn raydium_v4_program_id() -> (out: Pubkey)
    ensures
        out@ == RAYDIUM_V4_PROGRAM_BYTES@,
{
    Pubkey { bytes: RAYDIUM_V4_PROGRAM_BYTES }
}

/// Address of the bonding-curve pool program.
pub fn pumpswap_program_id() -> (out: Pubkey)
    ensures
        out@ == PUMPSWAP_PROGRAM_BYTES@,
{
    Pubkey { bytes: PUMPSWAP_PROGRAM_BYTES }
}

/// `So11111111111111111111111111111111111111112`
pub const WSOL_BYTES: [u8; 32] = [
    6, 155, 136, 87, 254, 171, 129, 132, 251, 104, 127, 99, 70, 24, 192, 53, 218, 196, 57, 220, 26,
    235, 59, 85, 152, 160, 240, 0, 0, 0, 0, 1,
];

/// `TokenkegQfeZyiNwAJbNbGKPFXCWuBvf9Ss623VQ5DA`
pub const TOKEN_PROGRAM_BYTES: [u8; 32] = [
    6, 221, 246, 225, 215, 101, 161, 147, 217, 203, 225, 70, 206, 235, 121, 172, 28, 180, 133, 237,
    95, 91, 55, 145, 58, 140, 245, 133, 126, 255, 0, 169,
];

/// `ATokenGPvbdGVxr1b2hvZbsiqW5xWH25efTNsLJA8knL`
pub const ASSOCIATED_TOKEN_PROGRAM_BYTES: [u8; 32] = [
    140, 151, 37, 143, 78, 36, 137, 241, 187, 61, 16, 41, 20, 142, 13, 131, 11, 90, 19, 153, 218,
    255, 16, 132, 4, 142, 123, 216, 219, 233, 248, 89,
];

/// `11111111111111111111111111111111`
pub const SYSTEM_PROGRAM_BYTES: [u8; 32] = [
    0, 0, 0, 0, 0, 0, 0, 0, 0, 0, 0, 0, 0, 0, 0, 0, 0, 0, 0, 0, 0, 0, 0, 0, 0, 0, 0, 0, 0, 0, 0, 0,
];

/// `675kPX9MHTjS2zt1qfr1NYHuzeLXfQM9H24wFSUt1Mp8`
pub const RAYDIUM_V4_PROGRAM_BYTES: [u8; 32] = [
    75, 217, 73, 196, 54, 2, 195, 63, 32, 119, 144, 237, 22, 163, 82, 76, 161, 185, 151, 92, 241,
    33, 162, 169, 12, 255, 236, 125, 248, 182, 138, 205,
];

/// `pAMMBay6oceH9fJKBRHGP5D4bD4sWpmSwMn52FMfXEA`
pub const PUMPSWAP_PROGRAM_BYTES: [u8; 32] = [
    12, 20, 222, 252, 130, 94, 198, 118, 148, 37, 8, 24, 187, 101, 64, 101, 244, 41, 141, 49, 86,
    213, 113, 180, 212, 248, 9, 12, 24, 233, 168, 99,
];

/// `5PHirr8joyTMp9JMm6nW7hNDVyEYdkzDqazxPD7RaTjx`
pub const PUMP_FEE_CONFIG_BYTES: [u8; 32] = [
    65, 36, 110, 204, 125, 120, 254, 129, 228, 23, 115, 164, 105, 101, 65, 153, 55, 146, 58, 7, 100,
    71, 151, 223, 111, 62, 181, 20, 66, 96, 16, 203,
];

/// `pfeeUxB6jkeY1Hxd7CsFCAjcbHA9rWtchMGdZ6VojVZ`
pub const PUMP_FEE_PROGRAM_BYTES: [u8; 32] = [
    12, 53, 255, 169, 5, 90, 142, 86, 141, 168, 247, 188, 7, 86, 21, 39, 76, 241, 201, 44, 164, 31,
    64, 0, 156, 81, 106, 164, 20, 194, 124, 112,
];

/// The address that the chain derives for a program from a list of seeds,
/// where it derives one.
pub uninterp spec fn program_address(seeds: Seq<Seq<u8>>, program_id: Seq<u8>) -> Option<Seq<u8>>;

/// A list of seeds, as values.
pub open spec fn seeds_view(seeds: Seq<Vec<u8>>) -> Seq<Seq<u8>> {
    Seq::new(seeds.len(), |i: int| seeds[i]@)
}

/// Calls `solana_sdk::pubkey::Pubkey::try_find_program_address` and keeps the
/// address, without the bump seed. The result is trusted to be that of
/// [`program_address`], which stands for the hash-and-search the chain
/// defines; `None` comes back where the search finds no address or the seeds
/// are too many or too long.
#[verifier::external_body]
pub(crate) fn try_find_program_address(seeds: &Vec<Vec<u8>>, program_id: &Pubkey) -> (out: Option<Pubkey>)
    ensures
        out is Some == program_address(seeds_view(seeds@), program_id@) is Some,
        out is Some ==> Some(out->Some_0@) == program_address(seeds_view(seeds@), program_id@),
{
    let slices: Vec<&[u8]> = seeds.iter().map(|seed| seed.as_slice()).collect();
    let program = solana_sdk::pubkey::Pubkey::new_from_array(program_id.bytes);
    solana_sdk::pubkey::Pubkey::try_find_program_address(&slices, &program)
        .map(|found| Pubkey { bytes: found.0.to_bytes() })
}

/// The address that a base58 text stands for, where it stands for one.
pub uninterp spec fn pubkey_of_base58(text: Seq<char>) -> Option<Seq<u8>>;

/// Calls `str::parse::<solana_sdk::pubkey::Pubkey>`. The result is trusted to
/// be that of [`pubkey_of_base58`]; `None` comes back for a text that is no
/// base58 or does not decode to 32 bytes.
#[verifier::external_body]
pub(crate) fn parse_pubkey(text: &str) -> (out: Option<Pubkey>)
    ensures
        out is Some == pubkey_of_base58(text@) is Some,
        out is Some ==> Some(out->Some_0@) == pubkey_of_base58(text@),
{
    match text.parse::<solana_sdk::pubkey::Pubkey>() {
        Ok(key) => Some(Pubkey { bytes: key.to_bytes() }),
        Err(_) => None,
    }
}

/// The base58 text of an address.
pub uninterp spec fn base58_of_pubkey(key: Seq<u8>) -> Seq<char>;

/// Calls `solana_sdk::pubkey::Pubkey::to_string`. The result is trusted to be
/// that of [`base58_of_pubkey`].
#[verifier::external_body]
pub(crate) fn pubkey_to_string(key: &Pubkey) -> (out: String)
    ensures
        out@ == base58_of_pubkey(key@),
{
    solana_sdk::pubkey::Pubkey::new_from_array(key.bytes).to_string()
}

} // verus!
