//! The contract factory: code hashes per contract kind, deployments recorded per
//! deployer, and a builder for deployment requests.
use vstd::prelude::*;
use vstd::string::StringExecFns;

use crate::common::{get_or, AccountId, Hash32, Table, TableKey};

verus! {

/// The kinds of contract the factory deploys.
#[derive(Clone, Copy, Debug, PartialEq, Eq, Structural)]
pub enum ContractType {
    PropertyToken,
    Escrow,
    Oracle,
    Bridge,
    Insurance,
    Governance,
    Dex,
    Lending,
    Crowdfunding,
    Fractional,
}

impl TableKey for ContractType {
    fn same(&self, other: &Self) -> (r: bool) {
        *self == *other
    }
}

/// What to deploy: the kind, the address salt and the constructor's encoded parameters.
pub struct DeploymentConfig {
    pub contract_type: ContractType,
    pub salt: [u8; 32],
    pub init_params: Vec<u8>,
}

/// A deployment the factory recorded.
pub struct DeployedContract {
    pub contract_type: ContractType,
    pub address: AccountId,
    pub deployer: AccountId,
    pub deployed_at: u64,
    pub code_hash: Hash32,
    pub version: String,
}

impl DeployedContract {
    /// A field-by-field copy.
    pub fn copy(&self) -> (r: DeployedContract)
        ensures
            r == *self,
    {
        DeployedContract {
            contract_type: self.contract_type,
            address: self.address,
            deployer: self.deployer,
            deployed_at: self.deployed_at,
            code_hash: self.code_hash,
            version: self.version.clone(),
        }
    }
}

/// Why a factory operation was refused.
#[derive(Clone, Copy, Debug, PartialEq, Eq, Structural)]
pub enum FactoryError {
    Unauthorized,
    InvalidContractType,
    DeploymentFailed,
    CodeHashNotSet,
    ContractNotFound,
    InvalidParameters,
}

/// The abstract state of the factory.
pub struct FactoryState {
    pub admin: AccountId,
    pub code_hashes: Map<ContractType, Hash32>,
    pub deployed: Map<u64, DeployedContract>,
    pub deployment_count: u64,
    pub deployer_contracts: Map<AccountId, Seq<u64>>,
}

/// The contract factory.
pub struct ContractFactory {
    admin: AccountId,
    code_hashes: Table<ContractType, Hash32>,
    deployed: Table<u64, DeployedContract>,
    deployment_count: u64,
    deployer_contracts: Table<AccountId, Vec<u64>>,
}

impl View for ContractFactory {
    type V = FactoryState;

    closed spec fn view(&self) -> FactoryState {
        FactoryState {
            admin: self.admin,
            code_hashes: self.code_hashes@,
            deployed: self.deployed@,
            deployment_count: self.deployment_count,
            deployer_contracts: self.deployer_contracts@.map_values(|v: Vec<u64>| v@),
        }
    }
}

impl ContractFactory {
    /// The tables' invariants.
    pub closed spec fn wf(&self) -> bool {
        &&& self.code_hashes.wf()
        &&& self.deployed.wf()
        &&& self.deployer_contracts.wf()
    }

    /// A factory administered by `caller`, with no code hash and no deployment.
    pub fn new(caller: AccountId) -> (r: ContractFactory)
        ensures
            r.wf(),
            r@.admin == caller,
            r@.code_hashes == Map::<ContractType, Hash32>::empty(),
            r@.deployed == Map::<u64, DeployedContract>::empty(),
            r@.deployment_count == 0,
            r@.deployer_contracts == Map::<AccountId, Seq<u64>>::empty(),
    {
        let r = ContractFactory {
            admin: caller,
            code_hashes: Table::new(),
            deployed: Table::new(),
            deployment_count: 0,
            deployer_contracts: Table::new(),
        };
        assert(r@.deployer_contracts =~= Map::<AccountId, Seq<u64>>::empty());
        r
    }

    /// The admin sets the code a kind of contract is deployed from.
    pub fn set_code_hash(&mut self, caller: AccountId, contract_type: ContractType, code_hash: Hash32) -> (r:
        Result<(), FactoryError>)
        requires
            old(self).wf(),
        ensures
            final(self).wf(),
            caller != old(self)@.admin ==> r == Err::<(), FactoryError>(FactoryError::Unauthorized)
                && final(self)@ == old(self)@,
            caller == old(self)@.admin ==> r == Ok::<(), FactoryError>(()) && final(self)@ == (FactoryState {
                code_hashes: old(self)@.code_hashes.insert(contract_type, code_hash),
                ..old(self)@
            }),
    {
        if caller != self.admin {
            return Err(FactoryError::Unauthorized);
        }
        self.code_hashes.insert(contract_type, code_hash);
        Ok(())
    }

    /// The code hash a kind of contract is deployed from, if set.
    pub fn get_code_hash(&self, contract_type: ContractType) -> (r: Option<Hash32>)
        requires
            self.wf(),
        ensures
            r == if self@.code_hashes.contains_key(contract_type) {
                Some(self@.code_hashes[contract_type])
            } else {
                None::<Hash32>
            },
    {
        match self.code_hashes.get(&contract_type) {
            Some(h) => Some(*h),
            None => None,
        }
    }

    /// Records the deployment `caller` made of `config`: `instantiated` is the address
    /// the chain gave the new contract, `None` when instantiation failed. Refused when
    /// the kind has no code hash; returns the new contract's address.
    pub fn deploy_contract(
        &mut self,
        caller: AccountId,
        timestamp: u64,
        config: DeploymentConfig,
        version: String,
        instantiated: Option<AccountId>,
    ) -> (r: Result<AccountId, FactoryError>)
        requires
            old(self).wf(),
            old(self)@.deployment_count < u64::MAX,
        ensures
            final(self).wf(),
            ({
                let s = old(self)@;
                if !s.code_hashes.contains_key(config.contract_type) {
                    r == Err::<AccountId, FactoryError>(FactoryError::CodeHashNotSet) && final(self)@ == s
                } else if instantiated is None {
                    r == Err::<AccountId, FactoryError>(FactoryError::DeploymentFailed) && final(self)@ == s
                } else {
                    let address = instantiated->0;
                    let id = s.deployment_count;
                    &&& r == Ok::<AccountId, FactoryError>(address)
                    &&& final(self)@ == FactoryState {
                        deployed: s.deployed.insert(
                            id,
                            DeployedContract {
                                contract_type: config.contract_type,
                                address,
                                deployer: caller,
                                deployed_at: timestamp,
                                code_hash: s.code_hashes[config.contract_type],
                                version,
                            },
                        ),
                        deployment_count: (id + 1) as u64,
                        deployer_contracts: s.deployer_contracts.insert(
                            caller,
                            get_or(s.deployer_contracts, caller, Seq::empty()).push(id),
                        ),
                        ..s
                    }
                }
            }),
    {
        let code_hash = match self.code_hashes.get(&config.contract_type) {
            Some(h) => *h,
            None => return Err(FactoryError::CodeHashNotSet),
        };
        let address = match instantiated {
            Some(a) => a,
            None => return Err(FactoryError::DeploymentFailed),
        };
        let deployment_id = self.deployment_count;
        let d = DeployedContract {
            contract_type: config.contract_type,
            address,
            deployer: caller,
            deployed_at: timestamp,
            code_hash,
            version,
        };
        let ghost dv = d;
        self.deployed.insert(deployment_id, d);
        self.deployment_count = self.deployment_count + 1;
        let mut list: Vec<u64> = match self.deployer_contracts.remove(&caller) {
            Some(v) => v,
            None => Vec::new(),
        };
        let ghost before = list@;
        assert(before == get_or(old(self)@.deployer_contracts, caller, Seq::empty()));
        list.push(deployment_id);
        let ghost lv = list@;
        let ghost t0 = self.deployer_contracts@;
        self.deployer_contracts.insert(caller, list);
        assert(self.deployer_contracts@.map_values(|v: Vec<u64>| v@) =~= old(self)@.deployer_contracts.insert(
            caller,
            lv,
        ));
        assert(self@ =~= FactoryState {
            deployed: old(self)@.deployed.insert(deployment_id, dv),
            deployment_count: (deployment_id + 1) as u64,
            deployer_contracts: old(self)@.deployer_contracts.insert(caller, lv),
            ..old(self)@
        });
        Ok(address)
    }

    /// Deployment `deployment_id`, if there is one.
    pub fn get_deployment(&self, deployment_id: u64) -> (r: Option<DeployedContract>)
        requires
            self.wf(),
        ensures
            r == if self@.deployed.contains_key(deployment_id) {
                Some(self@.deployed[deployment_id])
            } else {
                None::<DeployedContract>
            },
    {
        match self.deployed.get(&deployment_id) {
            Some(d) => Some(d.copy()),
            None => None,
        }
    }

    /// The deployments `deployer` made, in order.
    pub fn get_deployer_contracts(&self, deployer: AccountId) -> (r: Vec<u64>)
        requires
            self.wf(),
        ensures
            r@ == get_or(self@.deployer_contracts, deployer, Seq::empty()),
    {
        match self.deployer_contracts.get(&deployer) {
            Some(v) => {
                let c = v.clone();
                assert(c@ =~= v@);
                c
            },
            None => Vec::new(),
        }
    }

    /// Deployments recorded so far.
    pub fn get_deployment_count(&self) -> (r: u64)
        ensures
            r == self@.deployment_count,
    {
        self.deployment_count
    }

    /// The admin.
    pub fn admin(&self) -> (r: AccountId)
        ensures
            r == self@.admin,
    {
        self.admin
    }

    /// The admin hands the role to `new_admin`.
    pub fn change_admin(&mut self, caller: AccountId, new_admin: AccountId) -> (r: Result<(), FactoryError>)
        requires
            old(self).wf(),
        ensures
            final(self).wf(),
            caller != old(self)@.admin ==> r == Err::<(), FactoryError>(FactoryError::Unauthorized)
                && final(self)@ == old(self)@,
            caller == old(self)@.admin ==> r == Ok::<(), FactoryError>(()) && final(self)@ == (FactoryState {
                admin: new_admin,
                ..old(self)@
            }),
    {
        if caller != self.admin {
            return Err(FactoryError::Unauthorized);
        }
        self.admin = new_admin;
        Ok(())
    }
}

/// Collects the parts of a deployment request.
pub struct DeploymentBuilder {
    pub contract_type: Option<ContractType>,
    pub salt: [u8; 32],
    pub init_params: Vec<u8>,
    pub version: String,
}

impl DeploymentBuilder {
    /// A builder with no kind, a zero salt, no parameters and version `1.0.0`.
    pub fn new() -> (r: DeploymentBuilder)
        ensures
            r.contract_type is None,
            r.salt@ == Seq::new(32, |i: int| 0u8),
            r.init_params@.len() == 0,
            r.version@ == seq!['1', '.', '0', '.', '0'],
    {
        let version = String::from_str("1.0.0");
        proof {
            reveal_strlit("1.0.0");
        }
        let salt = [0u8; 32];
        assert(salt@ =~= Seq::new(32, |i: int| 0u8));
        DeploymentBuilder { contract_type: None, salt, init_params: Vec::new(), version }
    }

    /// Sets the kind of contract.
    pub fn contract_type(self, contract_type: ContractType) -> (r: DeploymentBuilder)
        ensures
            r == (DeploymentBuilder { contract_type: Some(contract_type), ..self }),
    {
        DeploymentBuilder { contract_type: Some(contract_type), ..self }
    }

    /// Sets the address salt.
    pub fn salt(self, salt: [u8; 32]) -> (r: DeploymentBuilder)
        ensures
            r == (DeploymentBuilder { salt, ..self }),
    {
        DeploymentBuilder { salt, ..self }
    }

    /// Sets the constructor's encoded parameters.
    pub fn init_params(self, params: Vec<u8>) -> (r: DeploymentBuilder)
        ensures
            r == (DeploymentBuilder { init_params: params, ..self }),
    {
        DeploymentBuilder { init_params: params, ..self }
    }

    /// Sets the version label.
    pub fn version(self, version: String) -> (r: DeploymentBuilder)
        ensures
            r == (DeploymentBuilder { version, ..self }),
    {
        DeploymentBuilder { version, ..self }
    }

    /// The deployment request and its version, or an error when no kind was set.
    pub fn build(self) -> (r: Result<(DeploymentConfig, String), &'static str>)
        ensures
            self.contract_type is None ==> r is Err,
            self.contract_type is Some ==> r is Ok && {
                let (c, v) = r->Ok_0;
                &&& c.contract_type == self.contract_type->0
                &&& c.salt == self.salt
                &&& c.init_params == self.init_params
                &&& v == self.version
            },
    {
        let contract_type = match self.contract_type {
            Some(t) => t,
            None => return Err("Contract type not set"),
        };
        Ok((DeploymentConfig { contract_type, salt: self.salt, init_params: self.init_params }, self.version))
    }
}

} // verus!
