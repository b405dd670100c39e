use vstd::prelude::*;
use crate::types::{Address, CircleConfig, CircleError};

verus! {

/// A deployed savings circle: who runs it, which factory created it, and the
/// platform settings that factory handed down to it.
pub struct Circle {
    address: Address,
    organizer: Address,
    factory: Address,
    config: CircleConfig,
    treasury: Option<Address>,
    reputation_registry: Option<Address>,
    fee_bps: u32,
}

/// The abstract state of a circle's settings.
pub struct CircleView {
    pub address: Address,
    pub organizer: Address,
    pub factory: Address,
    pub config: CircleConfig,
    pub treasury: Option<Address>,
    pub reputation_registry: Option<Address>,
    pub fee_bps: u32,
}

impl View for Circle {
    type V = CircleView;

    closed spec fn view(&self) -> CircleView {
        CircleView {
            address: self.address,
            organizer: self.organizer,
            factory: self.factory,
            config: self.config,
            treasury: self.treasury,
            reputation_registry: self.reputation_registry,
            fee_bps: self.fee_bps,
        }
    }
}

impl Circle {
    /// A freshly created circle, not yet configured by its factory.
    pub fn new(address: Address, organizer: Address, factory: Address, config: CircleConfig) -> (c: Circle)
        ensures
            c@ == (CircleView {
                address,
                organizer,
                factory,
                config,
                treasury: None,
                reputation_registry: None,
                fee_bps: 0,
            }),
    {
        Circle {
            address,
            organizer,
            factory,
            config,
            treasury: None,
            reputation_registry: None,
            fee_bps: 0,
        }
    }

    /// Installs the platform settings. Only the factory that created the
    /// circle may do so; anyone else is refused and nothing changes.
    pub fn configure_from_factory(
        &mut self,
        caller: Address,
        treasury: Address,
        reputation_registry: Address,
        fee_bps: u32,
    ) -> (r: Result<(), CircleError>)
        ensures
            r is Ok <==> caller == old(self)@.factory,
            r is Err ==> r == Err::<(), CircleError>(CircleError::Unauthorized) && final(self)@ == old(self)@,
            r is Ok ==> final(self)@ == (CircleView {
                treasury: Some(treasury),
                reputation_registry: Some(reputation_registry),
                fee_bps: fee_bps,
                ..old(self)@
            }),
    {
        if caller != self.factory {
            return Err(CircleError::Unauthorized);
        }
        self.treasury = Some(treasury);
        self.reputation_registry = Some(reputation_registry);
        self.fee_bps = fee_bps;
        Ok(())
    }

    /// The circle's own address.
    pub fn address(&self) -> (r: Address)
        ensures
            r == self@.address,
    {
        self.address
    }

    /// Who runs the circle.
    pub fn organizer(&self) -> (r: Address)
        ensures
            r == self@.organizer,
    {
        self.organizer
    }

    /// The factory that created the circle.
    pub fn factory(&self) -> (r: Address)
        ensures
            r == self@.factory,
    {
        self.factory
    }

    /// The parameters the circle was created with.
    pub fn config(&self) -> (r: &CircleConfig)
        ensures
            *r == self@.config,
    {
        &self.config
    }

    /// The treasury that receives platform fees, once configured.
    pub fn get_treasury(&self) -> (r: Option<Address>)
        ensures
            r == self@.treasury,
    {
        self.treasury
    }

    /// The reputation registry, once configured.
    pub fn get_reputation_registry(&self) -> (r: Option<Address>)
        ensures
            r == self@.reputation_registry,
    {
        self.reputation_registry
    }

    /// The platform fee in basis points.
    pub fn get_fee_bps(&self) -> (r: u32)
        ensures
            r == self@.fee_bps,
    {
        self.fee_bps
    }
}

} // verus!
