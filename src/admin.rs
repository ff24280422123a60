use vstd::prelude::*;
use crate::errors::{AdminError, PaymentError};
use crate::identity::{null_identity, Identity};
use crate::state::{Config, Registry, RegistryError, Relayer, RoleRecord, ServerSigner};

verus! {

/// The configuration and registries that initialization creates.
#[derive(Debug)]
pub struct ProgramState {
    pub config: Config,
    pub server_signers: Registry<ServerSigner>,
    pub relayers: Registry<Relayer>,
}

impl ProgramState {
    pub open spec fn wf(&self) -> bool {
        self.config.wf()
    }
}

/// Creates the configuration, with `authority` as its authority and the
/// program unpaused, and registers the first server signer and relayer.
/// Fails with `InvalidAddress` if any identity given is null.
pub fn initialize_handler(
    authority: &Identity,
    emergency_admin: &Identity,
    server_signer: &Identity,
    fee_recipient: &Identity,
    relayer: &Identity,
    config_bump: u8,
    server_signer_bump: u8,
    relayer_bump: u8,
) -> (r: Result<ProgramState, PaymentError>)
    ensures
        r is Err <==> (authority@ == null_identity() || emergency_admin@ == null_identity()
            || server_signer@ == null_identity() || fee_recipient@ == null_identity() || relayer@
            == null_identity()),
        r matches Err(e) ==> e == PaymentError::InvalidAddress,
        r matches Ok(s) ==> {
            &&& s.wf()
            &&& s.config.authority@ == authority@
            &&& s.config.emergency_admin@ == emergency_admin@
            &&& s.config.fee_recipient@ == fee_recipient@
            &&& !s.config.paused
            &&& s.config.bump == config_bump
            &&& s.server_signers@ == Map::<Seq<u8>, bool>::empty().insert(server_signer@, true)
            &&& s.relayers@ == Map::<Seq<u8>, bool>::empty().insert(relayer@, true)
        },
{
    if authority.is_null() || emergency_admin.is_null() || server_signer.is_null()
        || fee_recipient.is_null() || relayer.is_null() {
        return Err(PaymentError::InvalidAddress);
    }
    let config = Config {
        authority: *authority,
        emergency_admin: *emergency_admin,
        fee_recipient: *fee_recipient,
        paused: false,
        bump: config_bump,
    };
    let mut server_signers: Registry<ServerSigner> = Registry::new();
    let added = server_signers.add(*server_signer, server_signer_bump);
    assert(added is Ok);
    let mut relayers: Registry<Relayer> = Registry::new();
    let added = relayers.add(*relayer, relayer_bump);
    assert(added is Ok);
    Ok(ProgramState { config, server_signers, relayers })
}

/// Pauses settlement. Only the emergency admin may, and only while running.
pub fn pause_handler(config: &mut Config, signer: &Identity) -> (r: Result<(), PaymentError>)
    ensures
        r == (if signer@ != old(config).emergency_admin@ {
            Err(PaymentError::UnauthorizedEmergencyAdmin)
        } else if old(config).paused {
            Err(PaymentError::Paused)
        } else {
            Ok(())
        }),
        r is Ok ==> *final(config) == (Config { paused: true, ..*old(config) }),
        r is Err ==> *final(config) == *old(config),
{
    if !signer.same_as(&config.emergency_admin) {
        return Err(PaymentError::UnauthorizedEmergencyAdmin);
    }
    if config.paused {
        return Err(PaymentError::Paused);
    }
    config.paused = true;
    Ok(())
}

/// Resumes settlement. Only the emergency admin may, and only while paused.
pub fn unpause_handler(config: &mut Config, signer: &Identity) -> (r: Result<(), PaymentError>)
    ensures
        r == (if signer@ != old(config).emergency_admin@ {
            Err(PaymentError::UnauthorizedEmergencyAdmin)
        } else if !old(config).paused {
            Err(PaymentError::NotPaused)
        } else {
            Ok(())
        }),
        r is Ok ==> *final(config) == (Config { paused: false, ..*old(config) }),
        r is Err ==> *final(config) == *old(config),
{
    if !signer.same_as(&config.emergency_admin) {
        return Err(PaymentError::UnauthorizedEmergencyAdmin);
    }
    if !config.paused {
        return Err(PaymentError::NotPaused);
    }
    config.paused = false;
    Ok(())
}

/// Replaces the emergency admin. Only the authority may; the new admin must
/// not be null.
pub fn set_emergency_admin_handler(
    config: &mut Config,
    signer: &Identity,
    new_emergency_admin: &Identity,
) -> (r: Result<(), PaymentError>)
    ensures
        r == (if signer@ != old(config).authority@ {
            Err(PaymentError::Unauthorized)
        } else if new_emergency_admin@ == null_identity() {
            Err(PaymentError::InvalidAddress)
        } else {
            Ok(())
        }),
        r is Ok ==> *final(config) == (Config {
            emergency_admin: *new_emergency_admin,
            ..*old(config)
        }),
        r is Err ==> *final(config) == *old(config),
        old(config).wf() ==> final(config).wf(),
{
    if !signer.same_as(&config.authority) {
        return Err(PaymentError::Unauthorized);
    }
    if new_emergency_admin.is_null() {
        return Err(PaymentError::InvalidAddress);
    }
    config.emergency_admin = *new_emergency_admin;
    Ok(())
}

/// Hands the authority role over. Only the authority may; the new authority
/// must not be null.
pub fn transfer_authority_handler(
    config: &mut Config,
    signer: &Identity,
    new_authority: &Identity,
) -> (r: Result<(), PaymentError>)
    ensures
        r == (if signer@ != old(config).authority@ {
            Err(PaymentError::Unauthorized)
        } else if new_authority@ == null_identity() {
            Err(PaymentError::InvalidAddress)
        } else {
            Ok(())
        }),
        r is Ok ==> *final(config) == (Config { authority: *new_authority, ..*old(config) }),
        r is Err ==> *final(config) == *old(config),
        old(config).wf() ==> final(config).wf(),
{
    if !signer.same_as(&config.authority) {
        return Err(PaymentError::Unauthorized);
    }
    if new_authority.is_null() {
        return Err(PaymentError::InvalidAddress);
    }
    config.authority = *new_authority;
    Ok(())
}

/// The outcome of adding `k` to a registry, once the caller is authorised.
pub open spec fn add_outcome(registry: Map<Seq<u8>, bool>, k: Seq<u8>) -> Result<(), AdminError> {
    if registry.contains_key(k) {
        Err(AdminError::Registry(RegistryError::AlreadyRegistered))
    } else if k == null_identity() {
        Err(AdminError::Payment(PaymentError::InvalidAddress))
    } else {
        Ok(())
    }
}

/// The outcome of removing `k` from a registry, once the caller is authorised.
pub open spec fn remove_outcome(registry: Map<Seq<u8>, bool>, k: Seq<u8>) -> Result<(), AdminError> {
    if !registry.contains_key(k) {
        Err(AdminError::Registry(RegistryError::NotRegistered))
    } else {
        Ok(())
    }
}

/// Gives `k` a fresh active record, if it has none and is not null.
fn add_role<R: RoleRecord>(registry: &mut Registry<R>, k: &Identity, bump: u8) -> (r: Result<
    (),
    AdminError,
>)
    ensures
        r == add_outcome(old(registry)@, k@),
        r is Ok ==> final(registry)@ == old(registry)@.insert(k@, true),
        r is Err ==> final(registry)@ == old(registry)@,
{
    if registry.get(k).is_some() {
        return Err(AdminError::Registry(RegistryError::AlreadyRegistered));
    }
    if k.is_null() {
        return Err(AdminError::Payment(PaymentError::InvalidAddress));
    }
    match registry.add(*k, bump) {
        Ok(()) => Ok(()),
        Err(e) => Err(AdminError::Registry(e)),
    }
}

/// Deletes the record of `k`, if it has one.
fn remove_role<R: RoleRecord>(registry: &mut Registry<R>, k: &Identity) -> (r: Result<(), AdminError>)
    ensures
        r == remove_outcome(old(registry)@, k@),
        r is Ok ==> final(registry)@ == old(registry)@.remove(k@),
        r is Err ==> final(registry)@ == old(registry)@,
{
    match registry.remove(k) {
        Ok(_) => Ok(()),
        Err(e) => Err(AdminError::Registry(e)),
    }
}

/// Registers a new server signer. Only the authority may.
pub fn add_server_signer_handler(
    config: &Config,
    signer: &Identity,
    server_signers: &mut Registry<ServerSigner>,
    new_server_signer: &Identity,
    bump: u8,
) -> (r: Result<(), AdminError>)
    ensures
        r == (if signer@ != config.authority@ {
            Err(AdminError::Payment(PaymentError::Unauthorized))
        } else {
            add_outcome(old(server_signers)@, new_server_signer@)
        }),
        r is Ok ==> final(server_signers)@ == old(server_signers)@.insert(new_server_signer@, true),
        r is Err ==> final(server_signers)@ == old(server_signers)@,
{
    if !signer.same_as(&config.authority) {
        return Err(AdminError::Payment(PaymentError::Unauthorized));
    }
    add_role(server_signers, new_server_signer, bump)
}

/// Deletes a server signer's record. Only the authority may.
pub fn remove_server_signer_handler(
    config: &Config,
    signer: &Identity,
    server_signers: &mut Registry<ServerSigner>,
    server_signer_to_remove: &Identity,
) -> (r: Result<(), AdminError>)
    ensures
        r == (if signer@ != config.authority@ {
            Err(AdminError::Payment(PaymentError::Unauthorized))
        } else {
            remove_outcome(old(server_signers)@, server_signer_to_remove@)
        }),
        r is Ok ==> final(server_signers)@ == old(server_signers)@.remove(server_signer_to_remove@),
        r is Err ==> final(server_signers)@ == old(server_signers)@,
{
    if !signer.same_as(&config.authority) {
        return Err(AdminError::Payment(PaymentError::Unauthorized));
    }
    remove_role(server_signers, server_signer_to_remove)
}

/// Registers a new server signer in an emergency. Only the emergency admin may.
pub fn emergency_add_server_signer_handler(
    config: &Config,
    signer: &Identity,
    server_signers: &mut Registry<ServerSigner>,
    new_server_signer: &Identity,
    bump: u8,
) -> (r: Result<(), AdminError>)
    ensures
        r == (if signer@ != config.emergency_admin@ {
            Err(AdminError::Payment(PaymentError::UnauthorizedEmergencyAdmin))
        } else {
            add_outcome(old(server_signers)@, new_server_signer@)
        }),
        r is Ok ==> final(server_signers)@ == old(server_signers)@.insert(new_server_signer@, true),
        r is Err ==> final(server_signers)@ == old(server_signers)@,
{
    if !signer.same_as(&config.emergency_admin) {
        return Err(AdminError::Payment(PaymentError::UnauthorizedEmergencyAdmin));
    }
    add_role(server_signers, new_server_signer, bump)
}

/// Deletes a server signer's record in an emergency. Only the emergency
/// admin may.
pub fn emergency_remove_server_signer_handler(
    config: &Config,
    signer: &Identity,
    server_signers: &mut Registry<ServerSigner>,
    server_signer_to_remove: &Identity,
) -> (r: Result<(), AdminError>)
    ensures
        r == (if signer@ != config.emergency_admin@ {
            Err(AdminError::Payment(PaymentError::UnauthorizedEmergencyAdmin))
        } else {
            remove_outcome(old(server_signers)@, server_signer_to_remove@)
        }),
        r is Ok ==> final(server_signers)@ == old(server_signers)@.remove(server_signer_to_remove@),
        r is Err ==> final(server_signers)@ == old(server_signers)@,
{
    if !signer.same_as(&config.emergency_admin) {
        return Err(AdminError::Payment(PaymentError::UnauthorizedEmergencyAdmin));
    }
    remove_role(server_signers, server_signer_to_remove)
}

/// Registers a new relayer. Only the authority may.
pub fn add_relayer_handler(
    config: &Config,
    signer: &Identity,
    relayers: &mut Registry<Relayer>,
    new_relayer: &Identity,
    bump: u8,
) -> (r: Result<(), AdminError>)
    ensures
        r == (if signer@ != config.authority@ {
            Err(AdminError::Payment(PaymentError::Unauthorized))
        } else {
            add_outcome(old(relayers)@, new_relayer@)
        }),
        r is Ok ==> final(relayers)@ == old(relayers)@.insert(new_relayer@, true),
        r is Err ==> final(relayers)@ == old(relayers)@,
{
    if !signer.same_as(&config.authority) {
        return Err(AdminError::Payment(PaymentError::Unauthorized));
    }
    add_role(relayers, new_relayer, bump)
}

/// Deletes a relayer's record. Only the authority may.
pub fn remove_relayer_handler(
    config: &Config,
    signer: &Identity,
    relayers: &mut Registry<Relayer>,
    relayer_to_remove: &Identity,
) -> (r: Result<(), AdminError>)
    ensures
        r == (if signer@ != config.authority@ {
            Err(AdminError::Payment(PaymentError::Unauthorized))
        } else {
            remove_outcome(old(relayers)@, relayer_to_remove@)
        }),
        r is Ok ==> final(relayers)@ == old(relayers)@.remove(relayer_to_remove@),
        r is Err ==> final(relayers)@ == old(relayers)@,
{
    if !signer.same_as(&config.authority) {
        return Err(AdminError::Payment(PaymentError::Unauthorized));
    }
    remove_role(relayers, relayer_to_remove)
}

/// Registers a new relayer in an emergency. Only the emergency admin may.
pub fn emergency_add_relayer_handler(
    config: &Config,
    signer: &Identity,
    relayers: &mut Registry<Relayer>,
    new_relayer: &Identity,
    bump: u8,
) -> (r: Result<(), AdminError>)
    ensures
        r == (if signer@ != config.emergency_admin@ {
            Err(AdminError::Payment(PaymentError::UnauthorizedEmergencyAdmin))
        } else {
            add_outcome(old(relayers)@, new_relayer@)
        }),
        r is Ok ==> final(relayers)@ == old(relayers)@.insert(new_relayer@, true),
        r is Err ==> final(relayers)@ == old(relayers)@,
{
    if !signer.same_as(&config.emergency_admin) {
        return Err(AdminError::Payment(PaymentError::UnauthorizedEmergencyAdmin));
    }
    add_role(relayers, new_relayer, bump)
}

/// Deletes a relayer's record in an emergency. Only the emergency admin may.
pub fn emergency_remove_relayer_handler(
    config: &Config,
    signer: &Identity,
    relayers: &mut Registry<Relayer>,
    relayer_to_remove: &Identity,
) -> (r: Result<(), AdminError>)
    ensures
        r == (if signer@ != config.emergency_admin@ {
            Err(AdminError::Payment(PaymentError::UnauthorizedEmergencyAdmin))
        } else {
            remove_outcome(old(relayers)@, relayer_to_remove@)
        }),
        r is Ok ==> final(relayers)@ == old(relayers)@.remove(relayer_to_remove@),
        r is Err ==> final(relayers)@ == old(relayers)@,
{
    if !signer.same_as(&config.emergency_admin) {
        return Err(AdminError::Payment(PaymentError::UnauthorizedEmergencyAdmin));
    }
    remove_role(relayers, relayer_to_remove)
}

} // verus!
