use circles::circle::Circle;
use circles::factory::Factory;
use circles::types::{Address, CircleConfig, CircleError, FactoryError, WasmHash};

struct Ids {
    next: u64,
}

impl Ids {
    fn new() -> Ids {
        Ids { next: 1000 }
    }

    fn generate(&mut self) -> Address {
        self.next += 1;
        Address { id: self.next }
    }
}

fn install_wasm_hash() -> WasmHash {
    WasmHash { bytes: [7u8; 32] }
}

fn sample_config(ids: &mut Ids, organizer: &Address) -> CircleConfig {
    CircleConfig {
        organizer: *organizer,
        token: ids.generate(),
        name: String::from("Test Circle"),
        contribution_amount: 100i128,
        max_members: 5u32,
        payout_type: 0u32,
        total_rounds: 5u32,
        contribution_deadline_seconds: 86400u64,
        min_moi_score: 0u32,
        collateral_amount: 0i128,
        penalty_bps: 500u32,
        grace_period_seconds: 3600u64,
        max_strikes: 3u32,
        slug: String::from("test-circle"),
    }
}

fn configured_setup(ids: &mut Ids) -> (Factory, Address, WasmHash, Address, Address) {
    let contract_id = ids.generate();
    let admin = ids.generate();
    let wh = install_wasm_hash();
    let mut client = Factory::init(contract_id, admin, 500i128, wh).unwrap();
    let treasury = ids.generate();
    let reputation_registry = ids.generate();
    client.set_factory_config(admin, treasury, reputation_registry, 500u32).unwrap();
    (client, admin, wh, treasury, reputation_registry)
}

fn setup(ids: &mut Ids) -> (Factory, Address, WasmHash) {
    let (client, admin, wh, _, _) = configured_setup(ids);
    (client, admin, wh)
}

fn deploy(client: &mut Factory, ids: &mut Ids, config: CircleConfig) -> Result<Circle, FactoryError> {
    let circle_id = ids.generate();
    client.deploy_circle(config, circle_id)
}

#[test]
fn test_init_stores_admin_and_config() {
    let mut ids = Ids::new();
    let contract_id = ids.generate();
    let admin = ids.generate();
    let wh = install_wasm_hash();

    let client = Factory::init(contract_id, admin, 300i128, wh).unwrap();

    assert_eq!(client.get_circle_count(), 0);
    let fc = client.get_fee_config();
    assert_eq!(fc.fee_bps, 300);
    assert_eq!(client.get_admin(), Some(admin));
    assert_eq!(client.get_wasm_hash(), Some(wh));
}

#[test]
fn test_get_fee_config_returns_default_when_uninitialized() {
    let mut ids = Ids::new();
    let contract_id = ids.generate();
    let client = Factory::new(contract_id);

    let fc = client.get_fee_config();
    assert_eq!(fc.fee_bps, 0);
    assert_eq!(client.get_factory_config(), None);
}

#[test]
fn test_init_rejects_invalid_fee_bps() {
    let mut ids = Ids::new();
    let contract_id = ids.generate();
    let admin = ids.generate();
    let wh = install_wasm_hash();

    let result = Factory::init(contract_id, admin, 10001i128, wh);
    assert_eq!(result.err(), Some(FactoryError::InvalidFeeBps));
}

#[test]
fn test_deploy_circle_success() {
    let mut ids = Ids::new();
    let (mut client, _admin, _wh) = setup(&mut ids);
    let organizer = ids.generate();
    let config = sample_config(&mut ids, &organizer);

    let circle_id = ids.generate();
    let circle = client.deploy_circle(config, circle_id).unwrap();
    assert_eq!(circle.address(), circle_id);

    assert_eq!(client.get_circle_count(), 1);
    let registry = client.get_circles();
    assert_eq!(registry.circles.len(), 1);
    assert_eq!(registry.circles.get(0).unwrap().organizer, organizer);
    assert_eq!(registry.circles.get(0).unwrap().circle_id, circle_id);
}

#[test]
fn test_deploy_circle_rejects_invalid_config() {
    let mut ids = Ids::new();
    let (mut client, _admin, _wh) = setup(&mut ids);
    let organizer = ids.generate();
    let mut config = sample_config(&mut ids, &organizer);
    config.max_members = 1;

    let result = deploy(&mut client, &mut ids, config);
    assert_eq!(result.err(), Some(FactoryError::InvalidConfig));
}

#[test]
fn test_multiple_circles_increment_count() {
    let mut ids = Ids::new();
    let (mut client, _admin, _wh) = setup(&mut ids);
    let org1 = ids.generate();
    let org2 = ids.generate();

    let mut first = sample_config(&mut ids, &org1);
    first.slug = String::from("test-circle-1");
    let mut second = sample_config(&mut ids, &org2);
    second.slug = String::from("test-circle-2");
    deploy(&mut client, &mut ids, first).unwrap();
    deploy(&mut client, &mut ids, second).unwrap();

    assert_eq!(client.get_circle_count(), 2);
}

#[test]
fn test_deploy_circle_emits_event() {
    let mut ids = Ids::new();
    let (mut client, _admin, _wh) = setup(&mut ids);
    let organizer = ids.generate();

    let config = sample_config(&mut ids, &organizer);
    deploy(&mut client, &mut ids, config).unwrap();
}

#[test]
fn test_empty_circles() {
    let mut ids = Ids::new();
    let (client, _admin, _wh) = setup(&mut ids);
    assert_eq!(client.get_circle_count(), 0);
    assert_eq!(client.get_circles().circles.len(), 0);
}

#[test]
fn test_set_fee_config_updates() {
    let mut ids = Ids::new();
    let (mut client, admin, _wh) = setup(&mut ids);

    client.set_fee_config(admin, 750i128).unwrap();

    let fc = client.get_fee_config();
    assert_eq!(fc.fee_bps, 750);
}

#[test]
fn test_set_fee_config_rejects_out_of_bounds() {
    let mut ids = Ids::new();
    let (mut client, admin, _wh) = setup(&mut ids);

    let r1 = client.set_fee_config(admin, -1i128);
    assert_eq!(r1, Err(FactoryError::InvalidFeeBps));

    let r2 = client.set_fee_config(admin, 10001i128);
    assert_eq!(r2, Err(FactoryError::InvalidFeeBps));
}

#[test]
fn test_pause_unpause_blocks_deploy() {
    let mut ids = Ids::new();
    let (mut client, admin, _wh) = setup(&mut ids);
    let organizer = ids.generate();
    let config = sample_config(&mut ids, &organizer);

    client.pause(admin).unwrap();
    let r = deploy(&mut client, &mut ids, config.clone());
    assert_eq!(r.err(), Some(FactoryError::ContractPaused));

    client.unpause(admin).unwrap();
    assert!(deploy(&mut client, &mut ids, config).is_ok());
}

#[test]
fn test_deploy_circle_propagates_factory_config() {
    let mut ids = Ids::new();
    let (mut client, _admin, _wh, treasury, reputation_registry) = configured_setup(&mut ids);
    let organizer = ids.generate();

    let config = sample_config(&mut ids, &organizer);
    let mut circle = deploy(&mut client, &mut ids, config).unwrap();

    assert_eq!(circle.get_treasury(), Some(treasury));
    assert_eq!(circle.get_reputation_registry(), Some(reputation_registry));
    assert_eq!(circle.get_fee_bps(), 500);

    let result = circle.configure_from_factory(ids.generate(), ids.generate(), ids.generate(), 500u32);
    assert_eq!(result, Err(CircleError::Unauthorized));
}

#[test]
fn test_deploy_circle_requires_factory_config() {
    let mut ids = Ids::new();
    let contract_id = ids.generate();
    let admin = ids.generate();
    let wh = install_wasm_hash();
    let mut client = Factory::init(contract_id, admin, 500i128, wh).unwrap();

    let organizer = ids.generate();
    let config = sample_config(&mut ids, &organizer);
    let result = deploy(&mut client, &mut ids, config);

    assert_eq!(result.err(), Some(FactoryError::FactoryConfigNotSet));
    assert_eq!(client.get_circle_count(), 0);
}

#[test]
fn test_set_factory_config_rejects_unauthorized() {
    let mut ids = Ids::new();
    let (mut client, _admin, _wh, _treasury, _reputation_registry) = configured_setup(&mut ids);
    let stranger = ids.generate();

    let result = client.set_factory_config(stranger, ids.generate(), ids.generate(), 500u32);

    assert_eq!(result, Err(FactoryError::Unauthorized));
}

#[test]
fn test_set_factory_config_rejects_invalid_fee() {
    let mut ids = Ids::new();
    let (mut client, admin, _wh, _treasury, _reputation_registry) = configured_setup(&mut ids);

    let result = client.set_factory_config(admin, ids.generate(), ids.generate(), 10_001u32);

    assert_eq!(result, Err(FactoryError::InvalidFeeBps));
}

#[test]
fn test_init_with_config_stores_factory_config() {
    let mut ids = Ids::new();
    let contract_id = ids.generate();
    let admin = ids.generate();
    let treasury = ids.generate();
    let reputation_registry = ids.generate();
    let wh = install_wasm_hash();

    let mut client =
        Factory::init_with_config(contract_id, admin, 750i128, treasury, reputation_registry, wh).unwrap();

    let config = client.get_factory_config().unwrap();
    assert_eq!(config.treasury, treasury);
    assert_eq!(config.reputation_registry, reputation_registry);
    assert_eq!(config.fee_bps, 750);

    let organizer = ids.generate();
    let circle_config = sample_config(&mut ids, &organizer);
    let circle = deploy(&mut client, &mut ids, circle_config).unwrap();
    assert_eq!(circle.get_treasury(), Some(treasury));
    assert_eq!(circle.get_reputation_registry(), Some(reputation_registry));
    assert_eq!(circle.get_fee_bps(), 750);
}

#[test]
fn test_set_fee_config_updates_factory_config() {
    let mut ids = Ids::new();
    let (mut client, admin, _wh, _treasury, _reputation_registry) = configured_setup(&mut ids);

    client.set_fee_config(admin, 900i128).unwrap();

    assert_eq!(client.get_factory_config().unwrap().fee_bps, 900);
}
