//! Account addresses, and the addresses that a program derives from seeds.
use vstd::prelude::*;

verus! {

/// The address of an account: 32 bytes.
#[derive(Clone, Copy, Debug, Eq)]
pub struct Pubkey {
    pub bytes: [u8; 32],
}

impl View for Pubkey {
    type V = Seq<u8>;

    open spec fn view(&self) -> Seq<u8> {
        self.bytes@
    }
}

impl PartialEq for Pubkey {
    fn eq(&self, other: &Self) -> (r: bool) {
        let mut i: usize = 0;
        while i < 32
            invariant
                i <= 32,
                forall|j: int| 0 <= j < i ==> self@[j] == other@[j],
            decreases 32 - i,
        {
            if self.bytes[i] != other.bytes[i] {
                assert(self@[i as int] != other@[i as int]);
                return false;
            }
            i = i + 1;
        }
        proof {
            lemma_key_is_its_bytes(*self, *other);
        }
        true
    }
}

impl vstd::std_specs::cmp::PartialEqSpecImpl for Pubkey {
    open spec fn obeys_eq_spec() -> bool {
        true
    }

    open spec fn eq_spec(&self, other: &Self) -> bool {
        *self == *other
    }
}

/// Two addresses with the same bytes are the same address.
pub proof fn lemma_key_is_its_bytes(a: Pubkey, b: Pubkey)
    requires
        a@ =~= b@,
    ensures
        a == b,
{
    assert(a.bytes =~= b.bytes);
}

/// The seeds of a program address, as bytes.
pub open spec fn seed_bytes(seeds: Seq<&[u8]>) -> Seq<Seq<u8>> {
    seeds.map_values(|seed: &[u8]| seed@)
}

/// The bytes of an address, where there is one.
pub open spec fn key_bytes(key: Option<Pubkey>) -> Option<Seq<u8>> {
    match key {
        Some(key) => Some(key@),
        None => None,
    }
}

/// The bytes of an address and its bump, where there are any.
pub open spec fn key_and_bump(found: Option<(Pubkey, u8)>) -> Option<(Seq<u8>, u8)> {
    match found {
        Some((key, bump)) => Some((key@, bump)),
        None => None,
    }
}

/// The address that `Pubkey::create_program_address` of `anchor_lang` gives for
/// `seeds` under a program, `None` where it gives an error.
pub uninterp spec fn program_address(seeds: Seq<Seq<u8>>, program_id: Seq<u8>) -> Option<Seq<u8>>;

/// The address that `seeds` give under a program when `bump` is added as the last seed.
pub open spec fn bump_address(seeds: Seq<Seq<u8>>, program_id: Seq<u8>, bump: u8) -> Option<
    Seq<u8>,
> {
    program_address(seeds.push(seq![bump]), program_id)
}

/// `bump` is the highest one that gives an address for `seeds`. Bump 0 does not count.
pub open spec fn is_canonical_bump(seeds: Seq<Seq<u8>>, program_id: Seq<u8>, bump: u8) -> bool {
    &&& 1 <= bump
    &&& bump_address(seeds, program_id, bump) is Some
    &&& forall|higher: u8|
        bump < higher ==> (#[trigger] bump_address(seeds, program_id, higher)) is None
}

/// `found` is the address with the canonical bump and that bump, or `None` where no bump
/// from 1 to 255 gives an address.
pub open spec fn is_canonical(
    seeds: Seq<Seq<u8>>,
    program_id: Seq<u8>,
    found: Option<(Seq<u8>, u8)>,
) -> bool {
    match found {
        Some((key, bump)) => is_canonical_bump(seeds, program_id, bump) && bump_address(
            seeds,
            program_id,
            bump,
        ) == Some(key),
        None => forall|bump: u8|
            1 <= bump ==> (#[trigger] bump_address(seeds, program_id, bump)) is None,
    }
}

/// The address that `seeds` give under a program with their canonical bump, and that bump.
pub open spec fn canonical_address(seeds: Seq<Seq<u8>>, program_id: Seq<u8>) -> Option<
    (Seq<u8>, u8),
> {
    if exists|bump: u8| is_canonical_bump(seeds, program_id, bump) {
        let bump = choose|bump: u8| is_canonical_bump(seeds, program_id, bump);
        Some((bump_address(seeds, program_id, bump)->Some_0, bump))
    } else {
        None
    }
}

/// There is one canonical address at most.
pub proof fn lemma_canonical_is_unique(
    seeds: Seq<Seq<u8>>,
    program_id: Seq<u8>,
    found: Option<(Seq<u8>, u8)>,
)
    requires
        is_canonical(seeds, program_id, found),
    ensures
        found == canonical_address(seeds, program_id),
{
    if let Some((_, bump)) = found {
        let chosen = choose|bump: u8| is_canonical_bump(seeds, program_id, bump);
        assert(is_canonical_bump(seeds, program_id, bump));
        assert(bump_address(seeds, program_id, chosen) is Some);
        assert(bump_address(seeds, program_id, bump) is Some);
    }
}

/// Where some bump gives an address and none above `top` does, there is a canonical one.
proof fn lemma_canonical_bump_exists(
    seeds: Seq<Seq<u8>>,
    program_id: Seq<u8>,
    bump: u8,
    top: u8,
)
    requires
        1 <= bump <= top,
        bump_address(seeds, program_id, bump) is Some,
        forall|higher: u8|
            top < higher ==> (#[trigger] bump_address(seeds, program_id, higher)) is None,
    ensures
        exists|canonical: u8| is_canonical_bump(seeds, program_id, canonical),
    decreases top,
{
    if bump_address(seeds, program_id, top) is Some {
        assert(is_canonical_bump(seeds, program_id, top));
    } else {
        lemma_canonical_bump_exists(seeds, program_id, bump, (top - 1) as u8);
    }
}

/// The canonical address is the one with the highest bump that gives any; there is none
/// only where no bump from 1 to 255 gives one.
pub proof fn law_canonical_address(seeds: Seq<Seq<u8>>, program_id: Seq<u8>)
    ensures
        is_canonical(seeds, program_id, canonical_address(seeds, program_id)),
{
    if canonical_address(seeds, program_id) is None {
        assert forall|bump: u8| 1 <= bump implies (#[trigger] bump_address(
            seeds,
            program_id,
            bump,
        )) is None by {
            if bump_address(seeds, program_id, bump) is Some {
                lemma_canonical_bump_exists(seeds, program_id, bump, 255);
            }
        }
    }
}

/// Calls `Pubkey::create_program_address` of `anchor_lang`. The result is
/// `program_address` of the arguments: the call hashes the seeds and the program
/// id and reads nothing else. Its error kinds are not told apart.
#[verifier::external_body]
pub(crate) fn create_program_address(seeds: &[&[u8]], program_id: &Pubkey) -> (r: Option<Pubkey>)
    ensures
        key_bytes(r) == program_address(seed_bytes(seeds@), program_id@),
{
    let program_id = anchor_lang::prelude::Pubkey::new_from_array(program_id.bytes);
    match anchor_lang::prelude::Pubkey::create_program_address(seeds, &program_id) {
        Ok(key) => Some(Pubkey { bytes: key.to_bytes() }),
        Err(_) => None,
    }
}

/// Calls `Pubkey::try_find_program_address` of `anchor_lang`, which
/// `find_program_address` unwraps. It tries the bumps from 255 down to 1 as the last seed
/// of `create_program_address` and returns the first address that comes, with its bump;
/// where none comes, or the seeds are too many or too long for any, it returns `None`.
#[verifier::external_body]
pub(crate) fn find_program_address(seeds: &[&[u8]], program_id: &Pubkey) -> (r: Option<
    (Pubkey, u8),
>)
    ensures
        is_canonical(seed_bytes(seeds@), program_id@, key_and_bump(r)),
{
    let program_id = anchor_lang::prelude::Pubkey::new_from_array(program_id.bytes);
    match anchor_lang::prelude::Pubkey::try_find_program_address(seeds, &program_id) {
        Some((key, bump)) => Some((Pubkey { bytes: key.to_bytes() }, bump)),
        None => None,
    }
}

/// The bytes of the mint of wrapped SOL, which is written
/// `So11111111111111111111111111111111111111112` in base 58.
pub open spec fn native_mint_bytes() -> Seq<u8> {
    seq![
        6u8, 155, 136, 87, 254, 171, 129, 132, 251, 104, 127, 99, 70, 24, 192, 53, 218, 196, 57,
        220, 26, 235, 59, 85, 152, 160, 240, 0, 0, 0, 0, 1,
    ]
}

/// Calls `spl_token::native_mint::id` of `anchor_spl`, a constant: the mint of
/// wrapped SOL.
#[verifier::external_body]
pub(crate) fn native_mint_id() -> (r: Pubkey)
    ensures
        r@ == native_mint_bytes(),
{
    Pubkey { bytes: anchor_spl::token::spl_token::native_mint::id().to_bytes() }
}

/// The address that two seeds and a bump give under a program.
pub fn address_with_bump(tag: &[u8], key: &Pubkey, bump: u8, program_id: &Pubkey) -> (r: Option<
    Pubkey,
>)
    ensures
        key_bytes(r) == program_address(seq![tag@, key@, seq![bump]], program_id@),
{
    let bump_seed: [u8; 1] = [bump];
    let seeds: [&[u8]; 3] = [tag, &key.bytes, &bump_seed];
    assert(bump_seed@ =~= seq![bump]);
    assert(seed_bytes(seeds@) =~= seq![tag@, key@, seq![bump]]);
    create_program_address(&seeds, program_id)
}

/// The address that one seed and a bump give under a program.
pub fn tag_address_with_bump(tag: &[u8], bump: u8, program_id: &Pubkey) -> (r: Option<Pubkey>)
    ensures
        key_bytes(r) == program_address(seq![tag@, seq![bump]], program_id@),
{
    let bump_seed: [u8; 1] = [bump];
    let seeds: [&[u8]; 2] = [tag, &bump_seed];
    assert(bump_seed@ =~= seq![bump]);
    assert(seed_bytes(seeds@) =~= seq![tag@, seq![bump]]);
    create_program_address(&seeds, program_id)
}

/// The address that two seeds give under a program with the highest bump that gives any,
/// and that bump; `None` where no bump from 1 to 255 gives one.
pub fn find_address(tag: &[u8], key: &Pubkey, program_id: &Pubkey) -> (r: Option<(Pubkey, u8)>)
    ensures
        is_canonical(seq![tag@, key@], program_id@, key_and_bump(r)),
        key_and_bump(r) == canonical_address(seq![tag@, key@], program_id@),
        r matches Some((found, bump)) ==> program_address(
            seq![tag@, key@, seq![bump]],
            program_id@,
        ) == Some(found@),
{
    let seeds: [&[u8]; 2] = [tag, &key.bytes];
    assert(seed_bytes(seeds@) =~= seq![tag@, key@]);
    let r = find_program_address(&seeds, program_id);
    proof {
        lemma_canonical_is_unique(seq![tag@, key@], program_id@, key_and_bump(r));
        if let Some((found, bump)) = r {
            assert(seq![tag@, key@].push(seq![bump]) =~= seq![tag@, key@, seq![bump]]);
        }
    }
    r
}

/// Whether `key` is the mint of wrapped SOL.
pub fn is_native_mint(key: &Pubkey) -> (r: bool)
    ensures
        r == (key@ == native_mint_bytes()),
{
    let native = native_mint_id();
    proof {
        if key@ == native@ {
            lemma_key_is_its_bytes(*key, native);
        }
    }
    *key == native
}

} // verus!
