use lib::common::{AccountId, Hash32};
use lib::factory::{ContractFactory, ContractType, DeploymentBuilder, DeploymentConfig, FactoryError};

fn alice() -> AccountId {
    AccountId::from_byte(1)
}

fn bob() -> AccountId {
    AccountId::from_byte(2)
}

fn hash_of(b: u64) -> Hash32 {
    Hash32 { w0: b, w1: b, w2: b, w3: b }
}

#[test]
fn test_builder_pattern() {
    let builder = DeploymentBuilder::new()
        .contract_type(ContractType::PropertyToken)
        .salt([1u8; 32])
        .version(String::from("2.0.0"));

    let result = builder.build();
    assert!(result.is_ok());

    let (config, version) = result.unwrap();
    assert_eq!(config.contract_type, ContractType::PropertyToken);
    assert_eq!(config.salt, [1u8; 32]);
    assert_eq!(version, "2.0.0");
}

#[test]
fn test_builder_missing_contract_type() {
    let builder = DeploymentBuilder::new().salt([1u8; 32]);

    let result = builder.build();
    assert!(result.is_err());
}

#[test]
fn builder_defaults() {
    let b = DeploymentBuilder::new();
    assert!(b.contract_type.is_none());
    assert_eq!(b.salt, [0u8; 32]);
    assert!(b.init_params.is_empty());
    assert_eq!(b.version, "1.0.0");
    let (config, version) = DeploymentBuilder::new()
        .contract_type(ContractType::Dex)
        .init_params(vec![7, 8, 9])
        .build()
        .unwrap();
    assert_eq!(config.contract_type, ContractType::Dex);
    assert_eq!(config.init_params, vec![7, 8, 9]);
    assert_eq!(version, "1.0.0");
}

#[test]
fn test_factory_initialization() {
    let factory = ContractFactory::new(alice());
    assert_eq!(factory.admin(), alice());
    assert_eq!(factory.get_deployment_count(), 0);
}

#[test]
fn test_set_code_hash() {
    let mut factory = ContractFactory::new(alice());
    let code_hash = hash_of(0x0101_0101_0101_0101);
    let result = factory.set_code_hash(alice(), ContractType::PropertyToken, code_hash);
    assert!(result.is_ok());
    assert_eq!(factory.get_code_hash(ContractType::PropertyToken), Some(code_hash));
    assert_eq!(factory.get_code_hash(ContractType::Escrow), None);
}

#[test]
fn test_unauthorized_set_code_hash() {
    let mut factory = ContractFactory::new(alice());
    let result = factory.set_code_hash(bob(), ContractType::PropertyToken, hash_of(1));
    assert_eq!(result, Err(FactoryError::Unauthorized));
    assert_eq!(factory.get_code_hash(ContractType::PropertyToken), None);
}

#[test]
fn test_change_admin() {
    let mut factory = ContractFactory::new(alice());
    let result = factory.change_admin(alice(), bob());
    assert!(result.is_ok());
    assert_eq!(factory.admin(), bob());
    assert_eq!(factory.change_admin(alice(), alice()), Err(FactoryError::Unauthorized));
    assert_eq!(factory.admin(), bob());
}

#[test]
fn test_get_deployer_contracts_empty() {
    let factory = ContractFactory::new(alice());
    let contracts = factory.get_deployer_contracts(alice());
    assert_eq!(contracts.len(), 0);
}

fn config(t: ContractType) -> DeploymentConfig {
    DeploymentBuilder::new().contract_type(t).build().unwrap().0
}

#[test]
fn deploy_records_contract_for_deployer() {
    let mut factory = ContractFactory::new(alice());
    let new_address = AccountId::from_byte(9);
    // no code hash yet
    let r = factory.deploy_contract(bob(), 10, config(ContractType::Escrow), String::from("1.0.0"), Some(new_address));
    assert_eq!(r, Err(FactoryError::CodeHashNotSet));
    assert_eq!(factory.get_deployment_count(), 0);

    factory.set_code_hash(alice(), ContractType::Escrow, hash_of(5)).unwrap();
    // the chain refused to instantiate
    let r = factory.deploy_contract(bob(), 10, config(ContractType::Escrow), String::from("1.0.0"), None);
    assert_eq!(r, Err(FactoryError::DeploymentFailed));
    assert_eq!(factory.get_deployment_count(), 0);

    let r = factory.deploy_contract(bob(), 10, config(ContractType::Escrow), String::from("1.0.0"), Some(new_address));
    assert_eq!(r, Ok(new_address));
    let r2 = factory.deploy_contract(bob(), 20, config(ContractType::Escrow), String::from("1.1.0"), Some(alice()));
    assert_eq!(r2, Ok(alice()));
    assert_eq!(factory.get_deployment_count(), 2);
    assert_eq!(factory.get_deployer_contracts(bob()), vec![0, 1]);
    let d = factory.get_deployment(1).unwrap();
    assert_eq!(d.address, alice());
    assert_eq!(d.deployer, bob());
    assert_eq!(d.deployed_at, 20);
    assert_eq!(d.code_hash, hash_of(5));
    assert_eq!(d.version, "1.1.0");
    assert_eq!(d.contract_type, ContractType::Escrow);
    assert!(factory.get_deployment(2).is_none());
}
