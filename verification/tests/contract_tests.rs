use casper_types::{PublicKey, SecretKey};
use keys_manager::entry_points::entry_points;
use keys_manager::{Account, AccountHash};

const MAX_KEYS: usize = 100;

fn public_key(seed: u8) -> PublicKey {
    let secret = SecretKey::ed25519_from_bytes([seed; 32]).unwrap();
    PublicKey::from(&secret)
}

fn hash_of(key: &PublicKey) -> AccountHash {
    AccountHash::new(key.to_account_hash().value())
}

fn hashes_of(keys: &[PublicKey]) -> Vec<AccountHash> {
    keys.iter().map(hash_of).collect()
}

struct Context {
    account: Account,
    user: PublicKey,
    ali: PublicKey,
    bob: PublicKey,
}

impl Context {
    fn new() -> Self {
        let user = public_key(1);
        let ali = public_key(3);
        let bob = public_key(5);
        let account = Account::new(hash_of(&user), MAX_KEYS).unwrap();
        Context { account, user, ali, bob }
    }

    fn deploy(&self, signers: Vec<PublicKey>) {
        assert!(self.account.can_deploy_with(&hashes_of(&signers)));
    }

    fn deploy_keys_manager(&self) {
        self.deploy(vec![self.user.clone()]);
        assert_eq!(entry_points().len(), 4);
    }

    fn deploy_test_contract(&self, signers: Vec<PublicKey>) {
        self.deploy(signers);
    }

    fn set_key_weight(&mut self, account: PublicKey, weight: u8, signers: Vec<PublicKey>) {
        self.deploy(signers.clone());
        keys_manager::set_key_weight(
            &mut self.account,
            &hashes_of(&signers),
            hash_of(&account),
            weight,
        )
        .unwrap();
    }

    fn set_key_management_threshold(&mut self, weight: u8, signers: Vec<PublicKey>) {
        self.deploy(signers.clone());
        keys_manager::set_key_management_threshold(&mut self.account, &hashes_of(&signers), weight)
            .unwrap();
    }

    fn set_deployment_threshold(&mut self, weight: u8, signers: Vec<PublicKey>) {
        self.deploy(signers.clone());
        keys_manager::set_deployment_threshold(&mut self.account, &hashes_of(&signers), weight)
            .unwrap();
    }

    fn set_all(
        &mut self,
        signers: Vec<PublicKey>,
        deployment_threshold: u8,
        key_management_threshold: u8,
        accounts: Vec<PublicKey>,
        weights: Vec<u8>,
    ) {
        self.deploy(signers.clone());
        keys_manager::set_all(
            &mut self.account,
            &hashes_of(&signers),
            deployment_threshold,
            key_management_threshold,
            &hashes_of(&accounts),
            &weights,
        )
        .unwrap();
    }
}

#[test]
fn test_default_setup() {
    let context = Context::new();
    context.deploy_test_contract(vec![context.user.clone()]);
}

#[test]
#[should_panic]
fn wrong_signer_test() {
    let context = Context::new();
    context.deploy_test_contract(vec![context.ali.clone()]);
}

#[test]
fn test_add_key() {
    let mut context = Context::new();
    context.deploy_keys_manager();
    context.set_key_weight(context.ali.clone(), 1, vec![context.user.clone()]);
    context.deploy_test_contract(vec![context.ali.clone()]);
    assert_eq!(context.account.key_weight(&hash_of(&context.ali)), Some(1));
    assert_eq!(context.account.key_count(), 2);
}

#[test]
fn set_weight_test() {
    let mut context = Context::new();
    context.deploy_keys_manager();
    context.set_key_weight(context.user.clone(), 2, vec![context.user.clone()]);
    context.set_key_management_threshold(2, vec![context.user.clone()]);
    assert_eq!(context.account.key_weight(&hash_of(&context.user)), Some(2));
    assert_eq!(
        context.account.action_threshold(keys_manager::ActionType::KeyManagement),
        2
    );
    assert_eq!(
        context.account.action_threshold(keys_manager::ActionType::Deployment),
        1
    );
}

#[test]
fn set_deployment_threshold() {
    let mut context = Context::new();
    context.deploy_keys_manager();
    context.set_key_weight(context.ali.clone(), 1, vec![context.user.clone()]);
    context.set_key_weight(context.ali.clone(), 2, vec![context.user.clone()]);
    assert_eq!(context.account.key_weight(&hash_of(&context.ali)), Some(2));
    assert_eq!(context.account.total_weight(), 3);
}

#[test]
#[should_panic]
fn deployment_threshold_should_not_be_greater_than_key_management_threshold() {
    let mut context = Context::new();
    context.deploy_keys_manager();
    // Both thresholds start at 1. A key-management action is a deploy too,
    // so the deployment threshold may not stand above the key-management
    // one: setting it to 2 is refused.
    context.set_deployment_threshold(2, vec![context.user.clone()]);
}

#[test]
fn set_key_management_threshold() {
    let mut context = Context::new();
    context.deploy_keys_manager();
    context.set_key_weight(context.ali.clone(), 1, vec![context.user.clone()]);
    context.set_key_weight(context.ali.clone(), 2, vec![context.user.clone()]);
    assert_eq!(context.account.key_weight(&hash_of(&context.ali)), Some(2));
    assert_eq!(context.account.key_count(), 2);
}

#[test]
#[should_panic]
fn key_management_threshold_should_not_be_greater_than_sum_of_weights() {
    let mut context = Context::new();
    context.deploy_keys_manager();
    context.set_key_weight(context.ali.clone(), 1, vec![context.user.clone()]);
    context.set_key_weight(context.bob.clone(), 2, vec![context.user.clone()]);

    // The weights sum to (user) 1 + (ali) 1 + (bob) 2 = 4. A key-management
    // threshold of 5 would lock the account, so it is refused.
    context.set_key_management_threshold(5, vec![context.user.clone()]);
}

#[test]
fn set_all_test() {
    let mut context = Context::new();
    context.deploy_keys_manager();

    let signers: Vec<PublicKey> = [context.user.clone()].into();
    context.set_all(
        signers,
        1u8,
        1u8,
        vec![context.user.clone(), context.ali.clone()],
        vec![1, 1],
    );
    assert_eq!(context.account.key_weight(&hash_of(&context.user)), Some(1));
    assert_eq!(context.account.key_weight(&hash_of(&context.ali)), Some(1));
    assert_eq!(context.account.key_weight(&hash_of(&context.bob)), None);
    assert_eq!(context.account.key_count(), 2);
}
