use vstd::prelude::*;
use crate::error::GammaError;
use crate::identity::{identity_eq, null_identity, spec_null_identity, Identity};
use crate::pda::{derive_config_address, spec_amm_config_seed, spec_find_program_address};
use crate::states::{
    config_rates_valid, spec_rates_valid, spec_validate_rates, validate_config_rates, AmmConfig,
};

verus! {

/// What field population writes into a fresh record: every field echoes
/// the caller's inputs, the owner identities are the creating authority,
/// the referral project is the null identity and pool creation starts
/// enabled. The disambiguator is constrained separately, against the
/// address derivation.
pub open spec fn is_populated_config(
    c: AmmConfig,
    owner: Identity,
    index: u16,
    trade_fee_rate: u64,
    protocol_fee_rate: u64,
    fund_fee_rate: u64,
    create_pool_fee: u64,
    max_open_time: u64,
) -> bool {
    &&& c.disable_create_pool == false
    &&& c.index == index
    &&& c.trade_fee_rate == trade_fee_rate
    &&& c.protocol_fee_rate == protocol_fee_rate
    &&& c.fund_fee_rate == fund_fee_rate
    &&& c.create_pool_fee == create_pool_fee
    &&& c.protocol_owner@ == owner@
    &&& c.fund_owner@ == owner@
    &&& c.referral_project@ == spec_null_identity()
    &&& c.max_open_time == max_open_time
}

/// The accounts presented with a create request: the authenticated
/// signer asking to become the protocol owner of the new record. The
/// surrounding runtime has already proved that this identity signed the
/// request; the library only decides whether it is the administrator.
pub struct CreateAmmConfig {
    /// The authenticated caller.
    pub owner: Identity,
}

/// The durable config records, keyed by index, together with the fixed
/// administrator identity and the program identity under which record
/// addresses are derived. Both identities are configuration-time
/// constants: they are set once when the store is built and never
/// change afterwards.
pub struct ConfigStore {
    admin: Identity,
    program: Identity,
    records: Vec<AmmConfig>,
}

impl ConfigStore {
    /// The fixed administrator identity.
    pub closed spec fn spec_admin(self) -> Seq<u8> {
        self.admin@
    }

    /// The program identity that scopes address derivation.
    pub closed spec fn spec_program(self) -> Seq<u8> {
        self.program@
    }

    /// The durable records, in order of creation.
    pub closed spec fn records_view(self) -> Seq<AmmConfig> {
        self.records@
    }

    /// Whether a record occupies the address derived for `index`.
    pub open spec fn has_config(self, index: u16) -> bool {
        exists|k: int|
            0 <= k < self.records_view().len() && (#[trigger] self.records_view()[k]).index
                == index
    }

    /// The record stored for `index` (meaningful only when
    /// `has_config(index)` holds).
    pub open spec fn config_at(self, index: u16) -> AmmConfig {
        self.records_view()[choose|k: int|
            0 <= k < self.records_view().len() && (#[trigger] self.records_view()[k]).index
                == index]
    }

    /// Invariant of every reachable store: no two records share an
    /// index, every durable record satisfies the three rate
    /// inequalities, and every record's stored disambiguator is the one
    /// the address derivation returns for its index.
    pub open spec fn wf(self) -> bool {
        &&& forall|k1: int, k2: int|
            0 <= k1 < self.records_view().len() && 0 <= k2 < self.records_view().len() && k1 != k2
                ==> (#[trigger] self.records_view()[k1]).index
                != (#[trigger] self.records_view()[k2]).index
        &&& forall|k: int|
            0 <= k < self.records_view().len() ==> config_rates_valid(
                #[trigger] self.records_view()[k],
            )
        &&& forall|k: int|
            0 <= k < self.records_view().len()
                ==> (spec_find_program_address(
                spec_amm_config_seed(),
                (#[trigger] self.records_view()[k]).index,
                self.spec_program(),
            ) matches Some(p) && p.1 == self.records_view()[k].bump)
    }

    /// Builds an empty store under the given administrator and program
    /// identities.
    pub fn new(admin: Identity, program: Identity) -> (r: ConfigStore)
        ensures
            r.wf(),
            r.spec_admin() == admin@,
            r.spec_program() == program@,
            r.records_view() == Seq::<AmmConfig>::empty(),
    {
        let store = ConfigStore { admin, program, records: Vec::new() };
        proof {
            assert(store.records_view() =~= Seq::<AmmConfig>::empty());
        }
        store
    }

    /// Reads the record stored for `index`, if one exists.
    pub fn get_config(&self, index: u16) -> (r: Option<AmmConfig>)
        requires
            self.wf(),
        ensures
            (match r {
                Some(c) => self.has_config(index) && c == self.config_at(index),
                None => !self.has_config(index),
            }),
    {
        let mut i: usize = 0;
        while i < self.records.len()
            invariant
                self.wf(),
                0 <= i <= self.records_view().len(),
                forall|j: int| 0 <= j < i ==> (#[trigger] self.records_view()[j]).index != index,
            decreases self.records_view().len() - i,
        {
            if self.records[i].index == index {
                proof {
                    let k = choose|k: int|
                        0 <= k < self.records_view().len() && (#[trigger] self.records_view()[k]).index
                            == index;
                    assert(self.records_view()[i as int].index == index);
                    assert(k == i as int);
                }
                return Some(self.records[i]);
            }
            i += 1;
        }
        None
    }
}

/// Creates the config record for `index`: rejects any caller other than
/// the administrator before touching anything, fails if a record already
/// occupies the derived address, then populates a candidate record from
/// the inputs and the documented defaults, validates its rates, and only
/// commits it when validation passes — a failed creation leaves the
/// store exactly as it was.
pub fn create_amm_config(
    store: &mut ConfigStore,
    ctx: &CreateAmmConfig,
    index: u16,
    trade_fee_rate: u64,
    protocol_fee_rate: u64,
    fund_fee_rate: u64,
    create_pool_fee: u64,
    max_open_time: u64,
) -> (r: Result<(), GammaError>)
    requires
        old(store).wf(),
    ensures
        final(store).wf(),
        final(store).spec_admin() == old(store).spec_admin(),
        final(store).spec_program() == old(store).spec_program(),
        r is Err ==> *final(store) == *old(store),
        ctx.owner@ != old(store).spec_admin() ==> r == Err::<(), GammaError>(
            GammaError::InvalidOwner,
        ),
        ctx.owner@ == old(store).spec_admin() && old(store).has_config(index) ==> r == Err::<
            (),
            GammaError,
        >(GammaError::AddressAlreadyInitialized),
        ctx.owner@ == old(store).spec_admin() && !old(store).has_config(index)
            && spec_find_program_address(spec_amm_config_seed(), index, old(store).spec_program())
            is None ==> r == Err::<(), GammaError>(GammaError::AddressSpaceExhausted),
        ctx.owner@ == old(store).spec_admin() && !old(store).has_config(index)
            && spec_find_program_address(spec_amm_config_seed(), index, old(store).spec_program())
            is Some ==> r == spec_validate_rates(trade_fee_rate, protocol_fee_rate, fund_fee_rate),
        r is Ok <==> (ctx.owner@ == old(store).spec_admin() && !old(store).has_config(index)
            && spec_find_program_address(spec_amm_config_seed(), index, old(store).spec_program())
            is Some && spec_rates_valid(trade_fee_rate, protocol_fee_rate, fund_fee_rate)),
        r is Ok ==> ({
            &&& final(store).records_view() == old(store).records_view().push(
                final(store).records_view().last(),
            )
            &&& is_populated_config(
                final(store).records_view().last(),
                ctx.owner,
                index,
                trade_fee_rate,
                protocol_fee_rate,
                fund_fee_rate,
                create_pool_fee,
                max_open_time,
            )
            &&& (spec_find_program_address(
                spec_amm_config_seed(),
                index,
                old(store).spec_program(),
            ) matches Some(p) && final(store).records_view().last().bump == p.1)
            &&& final(store).has_config(index)
            &&& final(store).config_at(index) == final(store).records_view().last()
        }),
{
    if !identity_eq(&ctx.owner, &store.admin) {
        return Err(GammaError::InvalidOwner);
    }
    if store.get_config(index).is_some() {
        return Err(GammaError::AddressAlreadyInitialized);
    }
    let bump: u8 = match derive_config_address(&store.program, index) {
        Ok(pair) => pair.1,
        Err(e) => {
            return Err(e);
        },
    };
    let amm_config = AmmConfig {
        bump,
        disable_create_pool: false,
        index,
        trade_fee_rate,
        protocol_fee_rate,
        fund_fee_rate,
        create_pool_fee,
        protocol_owner: ctx.owner,
        fund_owner: ctx.owner,
        referral_project: null_identity(),
        max_open_time,
    };
    match validate_config_rates(&amm_config) {
        Ok(_) => {},
        Err(e) => {
            return Err(e);
        },
    }
    store.records.push(amm_config);
    proof {
        // The new record sits at the end; no earlier record shares its
        // index, so it is the one `config_at` selects.
        let recs = store.records_view();
        let old_recs = old(store).records_view();
        assert(forall|j: int|
            0 <= j < old_recs.len() ==> (#[trigger] old_recs[j]).index != index);
        assert(store.has_config(index)) by {
            assert(recs[old_recs.len() as int].index == index);
        }
        let k = choose|k: int|
            0 <= k < recs.len() && (#[trigger] recs[k]).index == index;
        assert(k == old_recs.len() as int);
    }
    Ok(())
}

} // verus!
