use vstd::prelude::*;
use crate::circle::Circle;
use crate::types::{
    check_circle_config, check_fee_bps, valid_circle_config, valid_fee_bps, Address,
    CircleConfig, CircleEntry, CircleRegistry, FactoryConfig, FactoryError, FeeConfig,
    WasmHash, MAX_FEE_BPS,
};

verus! {

/// The factory that deploys circles, together with its administration.
pub struct Factory {
    address: Address,
    admin: Option<Address>,
    wasm_hash: Option<WasmHash>,
    fee_bps: i128,
    factory_config: Option<FactoryConfig>,
    paused: bool,
    circles: Vec<CircleEntry>,
}

/// The abstract state of a factory.
pub struct FactoryView {
    pub address: Address,
    pub admin: Option<Address>,
    pub wasm_hash: Option<WasmHash>,
    pub fee_bps: int,
    pub factory_config: Option<FactoryConfig>,
    pub paused: bool,
    pub circles: Seq<CircleEntry>,
}

impl View for Factory {
    type V = FactoryView;

    closed spec fn view(&self) -> FactoryView {
        FactoryView {
            address: self.address,
            admin: self.admin,
            wasm_hash: self.wasm_hash,
            fee_bps: self.fee_bps as int,
            factory_config: self.factory_config,
            paused: self.paused,
            circles: self.circles@,
        }
    }
}

impl FactoryView {
    /// The factory has been initialized by an administrator.
    pub open spec fn initialized(self) -> bool {
        self.admin is Some
    }

    /// The invariant that every reachable factory state keeps: fees stay
    /// within 0..=10000 basis points, and an administrator, the circle code
    /// and the circle settings are only ever present together in that order.
    pub open spec fn wf(self) -> bool {
        &&& valid_fee_bps(self.fee_bps)
        &&& (self.factory_config matches Some(fc) ==> valid_fee_bps(fc.fee_bps as int))
        &&& (self.admin is Some <==> self.wasm_hash is Some)
        &&& (self.factory_config is Some ==> self.admin is Some)
    }

    /// `caller` is the factory's administrator.
    pub open spec fn is_admin(self, caller: Address) -> bool {
        self.admin == Some(caller)
    }

    /// The state after pausing (`true`) or unpausing (`false`).
    pub open spec fn with_paused(self, paused: bool) -> FactoryView {
        FactoryView { paused: paused, ..self }
    }

    /// The state after the platform fee is set to `fee_bps`: both the fee
    /// configuration and, where present, the circle settings carry it.
    pub open spec fn with_fee(self, fee_bps: int) -> FactoryView {
        FactoryView {
            fee_bps: fee_bps,
            factory_config: match self.factory_config {
                Some(fc) => Some(FactoryConfig { fee_bps: fee_bps as u32, ..fc }),
                None => None,
            },
            ..self
        }
    }

    /// Why a deployment of `config` is refused, if it is: a paused factory
    /// refuses first, then one without circle settings, then a bad config.
    pub open spec fn deploy_error(self, config: CircleConfig) -> Option<FactoryError> {
        if self.paused {
            Some(FactoryError::ContractPaused)
        } else if self.factory_config is None {
            Some(FactoryError::FactoryConfigNotSet)
        } else if !valid_circle_config(config) {
            Some(FactoryError::InvalidConfig)
        } else {
            None
        }
    }

    /// The state after registering a new circle.
    pub open spec fn with_circle(self, entry: CircleEntry) -> FactoryView {
        FactoryView { circles: self.circles.push(entry), ..self }
    }
}

/// A factory that has not been initialized yet, at `address`.
pub open spec fn uninitialized_view(address: Address) -> FactoryView {
    FactoryView {
        address: address,
        admin: None,
        wasm_hash: None,
        fee_bps: 0,
        factory_config: None,
        paused: false,
        circles: Seq::empty(),
    }
}

/// A factory just initialized by `admin`.
pub open spec fn initialized_view(
    address: Address,
    admin: Address,
    fee_bps: int,
    wasm_hash: WasmHash,
    factory_config: Option<FactoryConfig>,
) -> FactoryView {
    FactoryView {
        address: address,
        admin: Some(admin),
        wasm_hash: Some(wasm_hash),
        fee_bps: fee_bps,
        factory_config: factory_config,
        paused: false,
        circles: Seq::empty(),
    }
}

/// A paused factory refuses every deployment with `ContractPaused`,
/// whatever the circle's parameters.
pub proof fn paused_factory_refuses_deploy(v: FactoryView, config: CircleConfig)
    requires
        v.wf(),
    ensures
        v.with_paused(true).deploy_error(config) == Some(FactoryError::ContractPaused),
{
}

/// Pausing and then unpausing a running factory restores its state, so it
/// deploys again exactly as before.
pub proof fn pause_then_unpause_restores(v: FactoryView, config: CircleConfig)
    requires
        v.wf(),
        !v.paused,
    ensures
        v.with_paused(true).with_paused(false) == v,
        v.with_paused(true).with_paused(false).deploy_error(config) == v.deploy_error(config),
{
}

/// A new platform fee is the one reported afterwards, and circles deployed
/// afterwards receive it with the factory's settings.
pub proof fn fee_update_reaches_new_circles(v: FactoryView, fee_bps: int)
    requires
        v.wf(),
        valid_fee_bps(fee_bps),
    ensures
        v.with_fee(fee_bps).fee_bps == fee_bps,
        v.with_fee(fee_bps).wf(),
        v.factory_config is Some ==> v.with_fee(fee_bps).factory_config->Some_0.fee_bps == fee_bps,
        v.with_fee(fee_bps).factory_config is Some == v.factory_config is Some,
{
}

/// Deploying a circle adds exactly one registry entry, at the end, and
/// keeps every earlier entry in place.
pub proof fn deploy_appends_to_registry(v: FactoryView, entry: CircleEntry)
    ensures
        v.with_circle(entry).circles.len() == v.circles.len() + 1,
        v.with_circle(entry).circles.last() == entry,
        forall|i: int| 0 <= i < v.circles.len() ==> #[trigger] v.with_circle(entry).circles[i] == v.circles[i],
{
}

/// Fees are accepted exactly when they lie between 0 and 10000 basis
/// points, both ends included.
pub proof fn fee_validity_is_the_bps_range(fee_bps: int)
    ensures
        valid_fee_bps(fee_bps) <==> 0 <= fee_bps && fee_bps <= 10000,
{
}

/// A circle's parameters are accepted exactly when it has room for at least
/// two members; nothing else about them (payout type, rounds, amounts) can
/// make a deployment fail.
pub proof fn circle_config_validity_is_member_room(config: CircleConfig)
    ensures
        valid_circle_config(config) <==> config.max_members >= 2,
{
}

/// A running factory with circle settings deploys every circle with room
/// for two members or more; otherwise the refusal names the first missing
/// condition: running, then settings, then room for members.
pub proof fn deploy_refusals(v: FactoryView, config: CircleConfig)
    ensures
        (v.deploy_error(config) is None) <==> (!v.paused && v.factory_config is Some
            && config.max_members >= 2),
        v.paused ==> v.deploy_error(config) == Some(FactoryError::ContractPaused),
        !v.paused && v.factory_config is None ==> v.deploy_error(config) == Some(
            FactoryError::FactoryConfigNotSet,
        ),
        !v.paused && v.factory_config is Some && config.max_members < 2 ==> v.deploy_error(config)
            == Some(FactoryError::InvalidConfig),
{
}

/// Pausing leaves the factory paused and unpausing leaves it running,
/// whatever it was before; nothing else about the factory changes.
pub proof fn pause_flag_is_set_as_asked(v: FactoryView, paused: bool)
    ensures
        v.with_paused(paused).paused == paused,
        v.with_paused(paused).address == v.address,
        v.with_paused(paused).admin == v.admin,
        v.with_paused(paused).wasm_hash == v.wasm_hash,
        v.with_paused(paused).fee_bps == v.fee_bps,
        v.with_paused(paused).factory_config == v.factory_config,
        v.with_paused(paused).circles == v.circles,
{
}

/// A fee update sets the platform fee and the fee of the circle settings,
/// keeps their treasury and reputation registry, and touches nothing else.
pub proof fn fee_update_keeps_recipients(v: FactoryView, fee_bps: int)
    ensures
        v.with_fee(fee_bps).fee_bps == fee_bps,
        v.factory_config matches Some(fc) ==> v.with_fee(fee_bps).factory_config == Some(
            FactoryConfig {
                treasury: fc.treasury,
                reputation_registry: fc.reputation_registry,
                fee_bps: fee_bps as u32,
            },
        ),
        v.factory_config is None ==> v.with_fee(fee_bps).factory_config is None,
        v.with_fee(fee_bps).address == v.address,
        v.with_fee(fee_bps).admin == v.admin,
        v.with_fee(fee_bps).wasm_hash == v.wasm_hash,
        v.with_fee(fee_bps).paused == v.paused,
        v.with_fee(fee_bps).circles == v.circles,
{
}

/// Registering a circle changes only the registry.
pub proof fn registering_changes_only_the_registry(v: FactoryView, entry: CircleEntry)
    ensures
        v.with_circle(entry).circles == v.circles.push(entry),
        v.with_circle(entry).address == v.address,
        v.with_circle(entry).admin == v.admin,
        v.with_circle(entry).wasm_hash == v.wasm_hash,
        v.with_circle(entry).fee_bps == v.fee_bps,
        v.with_circle(entry).factory_config == v.factory_config,
        v.with_circle(entry).paused == v.paused,
{
}

/// A factory nobody initialized has no administrator, no circle code, a
/// zero fee, no circle settings, no circles, and is running.
pub proof fn uninitialized_factory_is_empty(address: Address, caller: Address)
    ensures
        uninitialized_view(address).address == address,
        uninitialized_view(address).admin is None,
        !uninitialized_view(address).is_admin(caller),
        uninitialized_view(address).wasm_hash is None,
        uninitialized_view(address).fee_bps == 0,
        uninitialized_view(address).factory_config is None,
        uninitialized_view(address).circles.len() == 0,
        !uninitialized_view(address).paused,
        uninitialized_view(address).wf(),
{
}

/// A freshly initialized factory reports the fee, administrator, code and
/// circle settings it was given, has no circles and is running; only its
/// administrator passes the administrator check.
pub proof fn initialized_factory_holds_its_inputs(
    address: Address,
    admin: Address,
    fee_bps: int,
    wasm_hash: WasmHash,
    factory_config: Option<FactoryConfig>,
    caller: Address,
)
    ensures
        initialized_view(address, admin, fee_bps, wasm_hash, factory_config).address == address,
        initialized_view(address, admin, fee_bps, wasm_hash, factory_config).admin == Some(admin),
        initialized_view(address, admin, fee_bps, wasm_hash, factory_config).is_admin(caller)
            <==> caller == admin,
        initialized_view(address, admin, fee_bps, wasm_hash, factory_config).wasm_hash == Some(
            wasm_hash,
        ),
        initialized_view(address, admin, fee_bps, wasm_hash, factory_config).fee_bps == fee_bps,
        initialized_view(address, admin, fee_bps, wasm_hash, factory_config).factory_config
            == factory_config,
        initialized_view(address, admin, fee_bps, wasm_hash, factory_config).circles.len() == 0,
        !initialized_view(address, admin, fee_bps, wasm_hash, factory_config).paused,
{
}

impl Factory {
    /// A factory contract at `address` that nobody has initialized.
    pub fn new(address: Address) -> (f: Factory)
        ensures
            f@ == uninitialized_view(address),
            f@.wf(),
    {
        Factory {
            address,
            admin: None,
            wasm_hash: None,
            fee_bps: 0,
            factory_config: None,
            paused: false,
            circles: Vec::new(),
        }
    }

    /// Initializes the factory at `address` with its administrator, platform
    /// fee and circle code. Refused with `InvalidFeeBps` exactly when the fee
    /// lies outside 0..=10000.
    pub fn init(address: Address, admin: Address, fee_bps: i128, wasm_hash: WasmHash) -> (r: Result<Factory, FactoryError>)
        ensures
            r is Ok <==> valid_fee_bps(fee_bps as int),
            r is Err ==> r->Err_0 == FactoryError::InvalidFeeBps,
            r matches Ok(f) ==> f@ == initialized_view(address, admin, fee_bps as int, wasm_hash, None),
            r matches Ok(f) ==> f@.fee_bps == fee_bps && f@.admin == Some(admin) && f@.factory_config is None
                && f@.wasm_hash == Some(wasm_hash) && f@.address == address && !f@.paused && f@.circles.len() == 0,
            r matches Ok(f) ==> f@.wf(),
    {
        if !check_fee_bps(fee_bps) {
            return Err(FactoryError::InvalidFeeBps);
        }
        Ok(Factory {
            address,
            admin: Some(admin),
            wasm_hash: Some(wasm_hash),
            fee_bps,
            factory_config: None,
            paused: false,
            circles: Vec::new(),
        })
    }

    /// Initializes the factory and its circle settings at once; the circle
    /// settings carry the same fee. Refused with `InvalidFeeBps` exactly when
    /// the fee lies outside 0..=10000.
    pub fn init_with_config(
        address: Address,
        admin: Address,
        fee_bps: i128,
        treasury: Address,
        reputation_registry: Address,
        wasm_hash: WasmHash,
    ) -> (r: Result<Factory, FactoryError>)
        ensures
            r is Ok <==> valid_fee_bps(fee_bps as int),
            r is Err ==> r->Err_0 == FactoryError::InvalidFeeBps,
            r matches Ok(f) ==> f@ == initialized_view(
                address,
                admin,
                fee_bps as int,
                wasm_hash,
                Some(FactoryConfig { treasury, reputation_registry, fee_bps: fee_bps as u32 }),
            ),
            r matches Ok(f) ==> f@.fee_bps == fee_bps && f@.admin == Some(admin)
                && f@.factory_config == Some(FactoryConfig { treasury, reputation_registry, fee_bps: fee_bps as u32 })
                && f@.factory_config->Some_0.fee_bps == f@.fee_bps
                && f@.wasm_hash == Some(wasm_hash) && f@.address == address && !f@.paused && f@.circles.len() == 0,
            r matches Ok(f) ==> f@.wf(),
    {
        if !check_fee_bps(fee_bps) {
            return Err(FactoryError::InvalidFeeBps);
        }
        let fee_u32: u32 = fee_bps as u32;
        Ok(Factory {
            address,
            admin: Some(admin),
            wasm_hash: Some(wasm_hash),
            fee_bps,
            factory_config: Some(FactoryConfig { treasury, reputation_registry, fee_bps: fee_u32 }),
            paused: false,
            circles: Vec::new(),
        })
    }

    fn is_admin(&self, caller: Address) -> (b: bool)
        ensures
            b == self@.is_admin(caller),
    {
        match self.admin {
            Some(a) => a == caller,
            None => false,
        }
    }

    /// Sets the settings handed to every new circle. Only the administrator
    /// may do so (`Unauthorized`), and the fee must lie within 0..=10000
    /// (`InvalidFeeBps`). A refused call changes nothing.
    pub fn set_factory_config(
        &mut self,
        caller: Address,
        treasury: Address,
        reputation_registry: Address,
        fee_bps: u32,
    ) -> (r: Result<(), FactoryError>)
        requires
            old(self)@.wf(),
        ensures
            final(self)@.wf(),
            r is Ok <==> old(self)@.is_admin(caller) && valid_fee_bps(fee_bps as int),
            !old(self)@.is_admin(caller) ==> r == Err::<(), FactoryError>(FactoryError::Unauthorized),
            old(self)@.is_admin(caller) && !valid_fee_bps(fee_bps as int)
                ==> r == Err::<(), FactoryError>(FactoryError::InvalidFeeBps),
            r is Err ==> final(self)@ == old(self)@,
            r is Ok ==> final(self)@ == (FactoryView {
                factory_config: Some(FactoryConfig { treasury, reputation_registry, fee_bps }),
                ..old(self)@
            }),
    {
        if !self.is_admin(caller) {
            return Err(FactoryError::Unauthorized);
        }
        if fee_bps > MAX_FEE_BPS {
            return Err(FactoryError::InvalidFeeBps);
        }
        self.factory_config = Some(FactoryConfig { treasury, reputation_registry, fee_bps });
        Ok(())
    }

    /// Sets the platform fee. Only the administrator may do so
    /// (`Unauthorized`), and the fee must lie within 0..=10000
    /// (`InvalidFeeBps`). Where circle settings exist they take the new fee
    /// too. A refused call changes nothing.
    pub fn set_fee_config(&mut self, caller: Address, fee_bps: i128) -> (r: Result<(), FactoryError>)
        requires
            old(self)@.wf(),
        ensures
            final(self)@.wf(),
            r is Ok <==> old(self)@.is_admin(caller) && valid_fee_bps(fee_bps as int),
            !old(self)@.is_admin(caller) ==> r == Err::<(), FactoryError>(FactoryError::Unauthorized),
            old(self)@.is_admin(caller) && !valid_fee_bps(fee_bps as int)
                ==> r == Err::<(), FactoryError>(FactoryError::InvalidFeeBps),
            r is Err ==> final(self)@ == old(self)@,
            r is Ok ==> final(self)@ == old(self)@.with_fee(fee_bps as int),
    {
        if !self.is_admin(caller) {
            return Err(FactoryError::Unauthorized);
        }
        if !check_fee_bps(fee_bps) {
            return Err(FactoryError::InvalidFeeBps);
        }
        self.fee_bps = fee_bps;
        let fee_u32: u32 = fee_bps as u32;
        match self.factory_config {
            Some(fc) => {
                self.factory_config = Some(FactoryConfig { fee_bps: fee_u32, ..fc });
            },
            None => {},
        }
        Ok(())
    }

    /// Stops new deployments. Only the administrator may pause; a refused
    /// call changes nothing.
    pub fn pause(&mut self, caller: Address) -> (r: Result<(), FactoryError>)
        requires
            old(self)@.wf(),
        ensures
            final(self)@.wf(),
            r is Ok <==> old(self)@.is_admin(caller),
            r is Err ==> r == Err::<(), FactoryError>(FactoryError::Unauthorized) && final(self)@ == old(self)@,
            r is Ok ==> final(self)@ == old(self)@.with_paused(true),
    {
        if !self.is_admin(caller) {
            return Err(FactoryError::Unauthorized);
        }
        self.paused = true;
        Ok(())
    }

    /// Allows deployments again. Only the administrator may unpause; a
    /// refused call changes nothing.
    pub fn unpause(&mut self, caller: Address) -> (r: Result<(), FactoryError>)
        requires
            old(self)@.wf(),
        ensures
            final(self)@.wf(),
            r is Ok <==> old(self)@.is_admin(caller),
            r is Err ==> r == Err::<(), FactoryError>(FactoryError::Unauthorized) && final(self)@ == old(self)@,
            r is Ok ==> final(self)@ == old(self)@.with_paused(false),
    {
        if !self.is_admin(caller) {
            return Err(FactoryError::Unauthorized);
        }
        self.paused = false;
        Ok(())
    }

    /// Deploys a circle with `config` at `circle_id`, the address the host
    /// assigned to the new contract. The circle receives the factory's
    /// settings, and the registry records it after all earlier circles.
    /// Refused, with nothing changed, as `deploy_error` says.
    pub fn deploy_circle(&mut self, config: CircleConfig, circle_id: Address) -> (r: Result<Circle, FactoryError>)
        requires
            old(self)@.wf(),
        ensures
            final(self)@.wf(),
            r is Ok <==> old(self)@.deploy_error(config) is None,
            r is Err ==> Some(r->Err_0) == old(self)@.deploy_error(config),
            r is Err ==> final(self)@ == old(self)@,
            r matches Ok(c) ==> final(self)@ == old(self)@.with_circle(
                CircleEntry { circle_id, organizer: config.organizer },
            ),
            r matches Ok(c) ==> ({
                let fc = old(self)@.factory_config->Some_0;
                &&& c@.address == circle_id
                &&& c@.organizer == config.organizer
                &&& c@.factory == old(self)@.address
                &&& c@.config == config
                &&& c@.treasury == Some(fc.treasury)
                &&& c@.reputation_registry == Some(fc.reputation_registry)
                &&& c@.fee_bps == fc.fee_bps
            }),
    {
        if self.paused {
            return Err(FactoryError::ContractPaused);
        }
        let fc = match self.factory_config {
            Some(fc) => fc,
            None => {
                return Err(FactoryError::FactoryConfigNotSet);
            },
        };
        if !check_circle_config(&config) {
            return Err(FactoryError::InvalidConfig);
        }
        let organizer = config.organizer;
        let mut circle = Circle::new(circle_id, organizer, self.address, config);
        let configured = circle.configure_from_factory(
            self.address,
            fc.treasury,
            fc.reputation_registry,
            fc.fee_bps,
        );
        assert(configured is Ok);
        self.circles.push(CircleEntry { circle_id, organizer });
        Ok(circle)
    }

    /// The number of circles deployed so far.
    pub fn get_circle_count(&self) -> (n: u64)
        ensures
            n == self@.circles.len(),
    {
        self.circles.len() as u64
    }

    /// All circles deployed so far, oldest first.
    pub fn get_circles(&self) -> (reg: CircleRegistry)
        ensures
            reg.circles@ == self@.circles,
    {
        let mut circles: Vec<CircleEntry> = Vec::new();
        let mut i: usize = 0;
        while i < self.circles.len()
            invariant
                i <= self.circles.len(),
                circles@ == self.circles@.take(i as int),
            decreases self.circles.len() - i,
        {
            circles.push(self.circles[i]);
            proof {
                assert(self.circles@.take(i + 1) == self.circles@.take(i as int).push(self.circles@[i as int]));
            }
            i = i + 1;
        }
        proof {
            assert(self.circles@.take(i as int) == self.circles@);
        }
        CircleRegistry { circles }
    }

    /// The platform fee; zero before initialization.
    pub fn get_fee_config(&self) -> (fc: FeeConfig)
        ensures
            fc.fee_bps == self@.fee_bps,
    {
        FeeConfig { fee_bps: self.fee_bps }
    }

    /// The settings handed to new circles, if they have been set.
    pub fn get_factory_config(&self) -> (fc: Option<FactoryConfig>)
        ensures
            fc == self@.factory_config,
    {
        self.factory_config
    }

    /// The code that new circles run, once initialized.
    pub fn get_wasm_hash(&self) -> (h: Option<WasmHash>)
        ensures
            h == self@.wasm_hash,
    {
        self.wasm_hash
    }

    /// The administrator, once initialized.
    pub fn get_admin(&self) -> (a: Option<Address>)
        ensures
            a == self@.admin,
    {
        self.admin
    }

    /// Whether deployments are currently stopped.
    pub fn is_paused(&self) -> (p: bool)
        ensures
            p == self@.paused,
    {
        self.paused
    }

    /// The factory's own address, which its circles accept settings from.
    pub fn address(&self) -> (a: Address)
        ensures
            a == self@.address,
    {
        self.address
    }
}

} // verus!
