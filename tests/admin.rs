use setto_payment::admin::{
    add_relayer_handler, add_server_signer_handler, emergency_add_relayer_handler,
    emergency_add_server_signer_handler, emergency_remove_relayer_handler,
    emergency_remove_server_signer_handler, initialize_handler, pause_handler,
    remove_relayer_handler, remove_server_signer_handler, set_emergency_admin_handler,
    transfer_authority_handler, unpause_handler,
};
use setto_payment::errors::{AdminError, PaymentError};
use setto_payment::identity::Identity;
use setto_payment::state::{Config, Registry, RegistryError, Relayer, ServerSigner};

fn id(b: u8) -> Identity {
    Identity::new([b; 32])
}

fn config() -> Config {
    Config { authority: id(1), emergency_admin: id(2), fee_recipient: id(3), paused: false, bump: 254 }
}

#[test]
fn initialize_sets_up_config_and_first_roles() {
    let s = initialize_handler(&id(1), &id(2), &id(4), &id(3), &id(5), 250, 251, 252).unwrap();
    assert_eq!(s.config.authority, id(1));
    assert_eq!(s.config.emergency_admin, id(2));
    assert_eq!(s.config.fee_recipient, id(3));
    assert!(!s.config.paused);
    assert_eq!(s.config.bump, 250);
    let signer = s.server_signers.get(&id(4)).unwrap();
    assert!(signer.is_active);
    assert_eq!(signer.bump, 251);
    let relayer = s.relayers.get(&id(5)).unwrap();
    assert!(relayer.is_active);
    assert_eq!(relayer.bump, 252);
    assert!(!s.relayers.is_active(&id(4)));
    assert!(!s.server_signers.is_active(&id(5)));
}

#[test]
fn initialize_rejects_null_identities() {
    let z = Identity::null();
    for i in 0..5 {
        let mut ids = [id(1), id(2), id(4), id(3), id(5)];
        ids[i] = z;
        let r = initialize_handler(&ids[0], &ids[1], &ids[2], &ids[3], &ids[4], 0, 0, 0);
        assert_eq!(r.err(), Some(PaymentError::InvalidAddress));
    }
}

#[test]
fn pause_and_unpause() {
    let mut c = config();
    assert_eq!(pause_handler(&mut c, &id(1)), Err(PaymentError::UnauthorizedEmergencyAdmin));
    assert!(!c.paused);
    assert_eq!(unpause_handler(&mut c, &id(2)), Err(PaymentError::NotPaused));
    assert_eq!(pause_handler(&mut c, &id(2)), Ok(()));
    assert!(c.paused);
    assert_eq!(pause_handler(&mut c, &id(2)), Err(PaymentError::Paused));
    assert_eq!(unpause_handler(&mut c, &id(9)), Err(PaymentError::UnauthorizedEmergencyAdmin));
    assert!(c.paused);
    assert_eq!(unpause_handler(&mut c, &id(2)), Ok(()));
    assert!(!c.paused);
}

#[test]
fn set_emergency_admin_checks_authority_and_address() {
    let mut c = config();
    assert_eq!(set_emergency_admin_handler(&mut c, &id(2), &id(7)), Err(PaymentError::Unauthorized));
    assert_eq!(
        set_emergency_admin_handler(&mut c, &id(1), &Identity::null()),
        Err(PaymentError::InvalidAddress)
    );
    assert_eq!(c.emergency_admin, id(2));
    assert_eq!(set_emergency_admin_handler(&mut c, &id(1), &id(7)), Ok(()));
    assert_eq!(c.emergency_admin, id(7));
    assert_eq!(c.authority, id(1));
}

#[test]
fn transfer_authority_hands_the_role_over() {
    let mut c = config();
    assert_eq!(transfer_authority_handler(&mut c, &id(2), &id(7)), Err(PaymentError::Unauthorized));
    assert_eq!(
        transfer_authority_handler(&mut c, &id(1), &Identity::null()),
        Err(PaymentError::InvalidAddress)
    );
    assert_eq!(transfer_authority_handler(&mut c, &id(1), &id(7)), Ok(()));
    assert_eq!(c.authority, id(7));
    assert_eq!(transfer_authority_handler(&mut c, &id(1), &id(8)), Err(PaymentError::Unauthorized));
}

#[test]
fn server_signers_are_added_and_removed() {
    let c = config();
    let mut reg: Registry<ServerSigner> = Registry::new();
    assert_eq!(
        add_server_signer_handler(&c, &id(2), &mut reg, &id(6), 1),
        Err(AdminError::Payment(PaymentError::Unauthorized))
    );
    assert!(!reg.is_active(&id(6)));
    assert_eq!(add_server_signer_handler(&c, &id(1), &mut reg, &id(6), 1), Ok(()));
    assert!(reg.is_active(&id(6)));
    assert_eq!(
        add_server_signer_handler(&c, &id(1), &mut reg, &id(6), 1),
        Err(AdminError::Registry(RegistryError::AlreadyRegistered))
    );
    assert_eq!(
        add_server_signer_handler(&c, &id(1), &mut reg, &Identity::null(), 1),
        Err(AdminError::Payment(PaymentError::InvalidAddress))
    );
    assert_eq!(
        remove_server_signer_handler(&c, &id(2), &mut reg, &id(6)),
        Err(AdminError::Payment(PaymentError::Unauthorized))
    );
    assert_eq!(remove_server_signer_handler(&c, &id(1), &mut reg, &id(6)), Ok(()));
    assert!(!reg.is_active(&id(6)));
    assert!(reg.get(&id(6)).is_none());
    assert_eq!(
        remove_server_signer_handler(&c, &id(1), &mut reg, &id(6)),
        Err(AdminError::Registry(RegistryError::NotRegistered))
    );
}

#[test]
fn emergency_admin_manages_server_signers() {
    let c = config();
    let mut reg: Registry<ServerSigner> = Registry::new();
    assert_eq!(
        emergency_add_server_signer_handler(&c, &id(1), &mut reg, &id(6), 1),
        Err(AdminError::Payment(PaymentError::UnauthorizedEmergencyAdmin))
    );
    assert_eq!(emergency_add_server_signer_handler(&c, &id(2), &mut reg, &id(6), 1), Ok(()));
    assert!(reg.is_active(&id(6)));
    assert_eq!(
        emergency_remove_server_signer_handler(&c, &id(1), &mut reg, &id(6)),
        Err(AdminError::Payment(PaymentError::UnauthorizedEmergencyAdmin))
    );
    assert_eq!(emergency_remove_server_signer_handler(&c, &id(2), &mut reg, &id(6)), Ok(()));
    assert!(!reg.is_active(&id(6)));
}

#[test]
fn relayers_are_added_and_removed() {
    let c = config();
    let mut reg: Registry<Relayer> = Registry::new();
    assert_eq!(
        add_relayer_handler(&c, &id(2), &mut reg, &id(6), 1),
        Err(AdminError::Payment(PaymentError::Unauthorized))
    );
    assert_eq!(add_relayer_handler(&c, &id(1), &mut reg, &id(6), 1), Ok(()));
    assert_eq!(add_relayer_handler(&c, &id(1), &mut reg, &id(7), 2), Ok(()));
    assert_eq!(
        add_relayer_handler(&c, &id(1), &mut reg, &id(7), 2),
        Err(AdminError::Registry(RegistryError::AlreadyRegistered))
    );
    assert_eq!(remove_relayer_handler(&c, &id(1), &mut reg, &id(6)), Ok(()));
    assert!(!reg.is_active(&id(6)));
    assert!(reg.is_active(&id(7)));
    assert_eq!(
        remove_relayer_handler(&c, &id(2), &mut reg, &id(7)),
        Err(AdminError::Payment(PaymentError::Unauthorized))
    );
    assert_eq!(
        remove_relayer_handler(&c, &id(1), &mut reg, &id(6)),
        Err(AdminError::Registry(RegistryError::NotRegistered))
    );
}

#[test]
fn emergency_admin_manages_relayers() {
    let c = config();
    let mut reg: Registry<Relayer> = Registry::new();
    assert_eq!(
        emergency_add_relayer_handler(&c, &id(1), &mut reg, &id(6), 1),
        Err(AdminError::Payment(PaymentError::UnauthorizedEmergencyAdmin))
    );
    assert_eq!(emergency_add_relayer_handler(&c, &id(2), &mut reg, &id(6), 1), Ok(()));
    assert_eq!(
        emergency_add_relayer_handler(&c, &id(2), &mut reg, &Identity::null(), 1),
        Err(AdminError::Payment(PaymentError::InvalidAddress))
    );
    assert_eq!(emergency_remove_relayer_handler(&c, &id(2), &mut reg, &id(6)), Ok(()));
    assert_eq!(
        emergency_remove_relayer_handler(&c, &id(2), &mut reg, &id(6)),
        Err(AdminError::Registry(RegistryError::NotRegistered))
    );
}

#[test]
fn removed_role_comes_back_fresh() {
    let mut reg: Registry<Relayer> = Registry::new();
    reg.insert(Relayer { relayer: id(6), is_active: false, bump: 3 }).unwrap();
    assert!(!reg.is_active(&id(6)));
    let old = reg.remove(&id(6)).unwrap();
    assert!(!old.is_active);
    assert_eq!(reg.add(id(6), 4), Ok(()));
    assert!(reg.is_active(&id(6)));
    assert_eq!(reg.get(&id(6)).unwrap().bump, 4);
}

#[test]
fn null_identity_is_all_zero() {
    assert!(Identity::null().is_null());
    assert!(!id(1).is_null());
    let mut b = [0u8; 32];
    b[31] = 1;
    assert!(!Identity::new(b).is_null());
    assert_eq!(Identity::null().to_bytes(), [0u8; 32]);
}

#[test]
fn error_messages() {
    assert_eq!(PaymentError::Paused.message(), "Paused");
    assert_eq!(PaymentError::InvalidServerSignature.message(), "Invalid signature");
    assert_eq!(PaymentError::InsufficientDelegatedAmount.message(), "Insufficient delegated amount");
}
