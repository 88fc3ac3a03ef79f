//! The cluster-growth decisions: identifier lookup in a machine listing,
//! one machine's reconciliation outcome, and the surfacing of the first
//! failure of a provisioning batch.

use lucidity::provision::{
    ensure_machine, first_provision_error, machine_id_from_name, Machine, ProvisionError,
};

fn listing() -> Vec<Machine> {
    vec![
        Machine { name: String::from("lucid-1"), id: String::from("m-aa11") },
        Machine { name: String::from("lucid-2"), id: String::from("m-bb22") },
        Machine { name: String::from("lucid-2"), id: String::from("m-cc33") },
    ]
}

#[test]
fn machine_id_is_found_by_name() {
    let machines = listing();
    let id = machine_id_from_name(&machines, &String::from("lucid-1"));
    assert_eq!(id, Ok(String::from("m-aa11")));
}

#[test]
fn machine_id_takes_the_first_match() {
    let machines = listing();
    let id = machine_id_from_name(&machines, &String::from("lucid-2"));
    assert_eq!(id, Ok(String::from("m-bb22")));
}

#[test]
fn missing_machine_name_is_an_error() {
    let machines = listing();
    assert_eq!(
        machine_id_from_name(&machines, &String::from("lucid-9")),
        Err(ProvisionError::MachineNotFound)
    );
    let none: Vec<Machine> = Vec::new();
    assert_eq!(
        machine_id_from_name(&none, &String::from("lucid-1")),
        Err(ProvisionError::MachineNotFound)
    );
}

#[test]
fn ensure_machine_is_decided_by_creation_alone() {
    let ok: Result<(), ProvisionError> = Ok(());
    let failed: Result<(), ProvisionError> = Err(ProvisionError::CreateFailed);
    let missing: Result<(), ProvisionError> = Err(ProvisionError::MachineNotFound);
    // A deletion failure is swallowed: the machine may not have existed.
    assert_eq!(ensure_machine(&missing, &ok), Ok(()));
    assert_eq!(ensure_machine(&ok, &ok), Ok(()));
    // A creation failure is fatal.
    assert_eq!(ensure_machine(&ok, &failed), Err(ProvisionError::CreateFailed));
    assert_eq!(ensure_machine(&missing, &failed), Err(ProvisionError::CreateFailed));
}

#[test]
fn provisioning_batch_succeeds_when_every_machine_did() {
    let results: Vec<Result<(), ProvisionError>> = vec![Ok(()), Ok(()), Ok(())];
    assert_eq!(first_provision_error(&results), Ok(()));
    let none: Vec<Result<(), ProvisionError>> = Vec::new();
    assert_eq!(first_provision_error(&none), Ok(()));
}

#[test]
fn provisioning_batch_surfaces_the_first_failure() {
    let results: Vec<Result<(), ProvisionError>> = vec![
        Ok(()),
        Err(ProvisionError::CreateFailed),
        Err(ProvisionError::MachineNotFound),
    ];
    assert_eq!(first_provision_error(&results), Err(ProvisionError::CreateFailed));
}
