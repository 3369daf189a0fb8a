use keys_manager::{set_key_weight, Account, AccountHash, Error};

const ALI: [u8; 32] = [7u8; 32];
const BOB: [u8; 32] = [10u8; 32];
const JOE: [u8; 32] = [11u8; 32];

struct Context {
    address: [u8; 32],
    account: Account,
}

fn new_context() -> Context {
    Context { address: ALI, account: Account::new(AccountHash::new(ALI), 100).unwrap() }
}

fn try_deploy(
    context: &mut Context,
    account: [u8; 32],
    weight: u8,
    as_account: [u8; 32],
    signers: &[[u8; 32]],
) -> Result<(), Error> {
    assert_eq!(as_account, context.address);
    let signers: Vec<AccountHash> = signers.iter().map(|s| AccountHash::new(*s)).collect();
    if !context.account.can_deploy_with(&signers) {
        return Err(Error::PermissionDenied);
    }
    set_key_weight(&mut context.account, &signers, AccountHash::new(account), weight)
}

fn deploy(
    context: &mut Context,
    account: [u8; 32],
    weight: u8,
    as_account: [u8; 32],
    signers: &[[u8; 32]],
) {
    try_deploy(context, account, weight, as_account, signers).unwrap();
}

#[test]
#[should_panic]
fn should_fail_with_wrong_signature() {
    let mut context = new_context();
    deploy(&mut context, BOB, 2, ALI, &[BOB]);
}

#[test]
#[should_panic]
fn account_theft_scenario() {
    let mut context = new_context();

    // Ali gives Bob control over her account.
    deploy(&mut context, BOB, 2, ALI, &[ALI]);

    // Bob was tricked by Joe to add him the control.
    deploy(&mut context, JOE, 2, ALI, &[BOB]);

    // Joe doesn't like Ali, so he removes her access.
    deploy(&mut context, ALI, 0, ALI, &[JOE]);

    // Ali tries to block Joe, but she can't.
    deploy(&mut context, JOE, 0, ALI, &[ALI]);
}

#[test]
fn should_allow_to_add_bob() {
    let mut context = new_context();

    // Ali gives Bob control over her account.
    deploy(&mut context, BOB, 2, ALI, &[ALI]);

    // Bob was tricked by Joe to add him the control.
    deploy(&mut context, JOE, 2, ALI, &[BOB]);

    assert_eq!(context.account.key_weight(&AccountHash::new(ALI)), Some(1));
    assert_eq!(context.account.key_weight(&AccountHash::new(BOB)), Some(2));
    assert_eq!(context.account.key_weight(&AccountHash::new(JOE)), Some(2));
}

#[test]
fn wrong_signature_is_permission_denied() {
    let mut context = new_context();
    assert_eq!(
        try_deploy(&mut context, BOB, 2, ALI, &[BOB]),
        Err(Error::PermissionDenied)
    );
    assert_eq!(context.account.key_weight(&AccountHash::new(BOB)), None);
    assert_eq!(context.account.key_count(), 1);
}

#[test]
fn account_theft_ends_in_permission_denied() {
    let mut context = new_context();
    assert_eq!(try_deploy(&mut context, BOB, 2, ALI, &[ALI]), Ok(()));
    assert_eq!(try_deploy(&mut context, JOE, 2, ALI, &[BOB]), Ok(()));
    assert_eq!(try_deploy(&mut context, ALI, 0, ALI, &[JOE]), Ok(()));
    assert_eq!(context.account.key_weight(&AccountHash::new(ALI)), None);
    assert_eq!(context.account.total_weight(), 4);

    let signers = vec![AccountHash::new(ALI)];
    assert_eq!(
        set_key_weight(&mut context.account, &signers, AccountHash::new(JOE), 0),
        Err(Error::PermissionDenied)
    );
    assert_eq!(context.account.key_weight(&AccountHash::new(JOE)), Some(2));
    assert_eq!(context.account.key_weight(&AccountHash::new(BOB)), Some(2));
    assert_eq!(context.account.key_count(), 2);
}
