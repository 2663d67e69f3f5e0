use vstd::prelude::*;

verus! {

/// A 32-byte account identity on the ledger.
#[derive(Clone, Copy, Debug)]
pub struct Address {
    pub bytes: [u8; 32],
}

impl View for Address {
    type V = Seq<u8>;

    open spec fn view(&self) -> Seq<u8> {
        self.bytes@
    }
}

/// The default identity: all 32 bytes zero.
pub open spec fn is_zero(a: Seq<u8>) -> bool {
    forall|i: int| 0 <= i < a.len() ==> a[i] == 0
}

impl Address {
    pub fn new(bytes: [u8; 32]) -> (r: Address)
        ensures
            r@ == bytes@,
    {
        Address { bytes }
    }

    /// Byte-wise equality of two identities.
    pub fn same_as(&self, other: &Address) -> (r: bool)
        ensures
            r == (self@ == other@),
    {
        let mut i: usize = 0;
        while i < 32
            invariant
                0 <= i <= 32,
                self@.len() == 32,
                other@.len() == 32,
                forall|j: int| 0 <= j < i ==> self@[j] == other@[j],
            decreases 32 - i,
        {
            if self.bytes[i] != other.bytes[i] {
                return false;
            }
            i = i + 1;
        }
        assert(self@ =~= other@);
        true
    }

    /// Whether this is the default (all-zero) identity.
    pub fn is_default(&self) -> (r: bool)
        ensures
            r == is_zero(self@),
    {
        let mut i: usize = 0;
        while i < 32
            invariant
                0 <= i <= 32,
                self@.len() == 32,
                forall|j: int| 0 <= j < i ==> self@[j] == 0,
            decreases 32 - i,
        {
            if self.bytes[i] != 0 {
                return false;
            }
            i = i + 1;
        }
        true
    }
}

impl PartialEq for Address {
    fn eq(&self, other: &Address) -> (r: bool) {
        self.same_as(other)
    }
}

impl vstd::std_specs::cmp::PartialEqSpecImpl for Address {
    open spec fn obeys_eq_spec() -> bool {
        true
    }

    open spec fn eq_spec(&self, other: &Address) -> bool {
        self@ == other@
    }
}

impl Eq for Address {
}

/// The programs whose identities the engine derives addresses from.
#[derive(Clone, Copy, Debug)]
pub struct ProgramIds {
    /// This token program.
    pub program: Address,
    /// The ledger's token program.
    pub token: Address,
    /// The program that owns associated holding entries.
    pub associated_token: Address,
}

/// The program-derived address found for the given seeds under a program, or
/// `None` where no bump seed yields one (or the seeds break the ledger's
/// limits on their number and length).
pub uninterp spec fn program_address_of(seeds: Seq<Seq<u8>>, program: Seq<u8>) -> Option<Seq<u8>>;

pub open spec fn seeds_view(seeds: Seq<Vec<u8>>) -> Seq<Seq<u8>> {
    seeds.map_values(|s: Vec<u8>| s@)
}

/// Relies on `Pubkey::try_find_program_address` of solana-program: its result
/// depends on the seeds and the program identity alone, and it returns `None`
/// instead of panicking when no address is found.
#[verifier::external_body]
fn find_program_address(seeds: &Vec<Vec<u8>>, program: &Address) -> (r: Option<Address>)
    ensures
        r.is_some() == program_address_of(seeds_view(seeds@), program@).is_some(),
        r.is_some() ==> r.unwrap()@ == program_address_of(seeds_view(seeds@), program@).unwrap(),
{
    let s: Vec<&[u8]> = seeds.iter().map(|v| v.as_slice()).collect();
    let id = anchor_lang::prelude::Pubkey::new_from_array(program.bytes);
    anchor_lang::prelude::Pubkey::try_find_program_address(&s, &id).map(
        |(k, _)| Address { bytes: k.to_bytes() },
    )
}

/// The seed prefix of the mint authority.
pub open spec fn mint_authority_tag() -> Seq<u8> {
    seq![109u8, 105, 110, 116, 95, 97, 117, 116, 104, 111, 114, 105, 116, 121]
}

/// The mint authority of `mint`: the address derived from the seeds
/// `["mint_authority", mint]` under this program.
pub open spec fn authority_of(mint: Seq<u8>, program: Seq<u8>) -> Option<Seq<u8>> {
    program_address_of(seq![mint_authority_tag(), mint], program)
}

/// The holding entry of `owner` for `mint`: the address derived from the
/// seeds `[owner, token program, mint]` under the associated-entry program.
pub open spec fn entry_address_of(owner: Seq<u8>, mint: Seq<u8>, ids: ProgramIds) -> Option<
    Seq<u8>,
> {
    program_address_of(seq![owner, ids.token@, mint], ids.associated_token@)
}

fn bytes_of(a: &Address) -> (r: Vec<u8>)
    ensures
        r@ == a@,
{
    let mut v: Vec<u8> = Vec::new();
    let mut i: usize = 0;
    while i < 32
        invariant
            0 <= i <= 32,
            a@.len() == 32,
            v@ == a@.subrange(0, i as int),
        decreases 32 - i,
    {
        v.push(a.bytes[i]);
        i = i + 1;
    }
    assert(v@ =~= a@);
    v
}

/// Derives the authority that signs mints and transfers for `mint`.
pub fn derive_authority(mint: &Address, program: &Address) -> (r: Option<Address>)
    ensures
        r.is_some() == authority_of(mint@, program@).is_some(),
        r.is_some() ==> r.unwrap()@ == authority_of(mint@, program@).unwrap(),
{
    let tag: Vec<u8> = vec![109u8, 105, 110, 116, 95, 97, 117, 116, 104, 111, 114, 105, 116, 121];
    let seeds: Vec<Vec<u8>> = vec![tag, bytes_of(mint)];
    let r = find_program_address(&seeds, program);
    assert(seeds_view(seeds@) =~= seq![mint_authority_tag(), mint@]);
    r
}

/// Derives the address of the holding entry of `owner` for `mint`.
pub fn associated_address(owner: &Address, mint: &Address, ids: &ProgramIds) -> (r: Option<
    Address,
>)
    ensures
        r.is_some() == entry_address_of(owner@, mint@, *ids).is_some(),
        r.is_some() ==> r.unwrap()@ == entry_address_of(owner@, mint@, *ids).unwrap(),
{
    let seeds: Vec<Vec<u8>> = vec![bytes_of(owner), bytes_of(&ids.token), bytes_of(mint)];
    let r = find_program_address(&seeds, &ids.associated_token);
    assert(seeds_view(seeds@) =~= seq![owner@, ids.token@, mint@]);
    r
}

} // verus!
