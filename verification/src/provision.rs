//! Decisions of the cluster-growth layer.
//!
//! Growing the physical cluster is deployment work — listing, deleting and
//! creating machines against a provider — but what to make of the
//! provider's answers is decided here: which listed machine an identifier
//! belongs to, what one machine's reconciliation outcome is, and which of
//! many concurrent provisioning outcomes the batch surfaces.

use vstd::prelude::*;

verus! {

/// One machine of the deployment, as the provider lists it.
#[derive(Clone, Debug)]
pub struct Machine {
    /// The machine's name, chosen at creation.
    pub name: String,
    /// The machine's provider-assigned identifier.
    pub id: String,
}

/// The failures of the provisioning layer.
#[derive(Clone, Copy, Debug, PartialEq, Eq, Structural)]
pub enum ProvisionError {
    /// No listed machine carries the requested name.
    MachineNotFound,
    /// The provider failed to create a machine.
    CreateFailed,
}

/// Looks a machine's identifier up by name in the provider's listing: the
/// identifier of the first machine carrying `machine_name`, or
/// `MachineNotFound` when no listed machine carries it.
#[verifier::loop_isolation(false)]
pub fn machine_id_from_name(machines: &Vec<Machine>, machine_name: &String) -> (r: Result<
    String,
    ProvisionError,
>)
    ensures
        (r is Ok) <==> (exists|i: int|
            0 <= i < machines@.len() && (#[trigger] machines@[i].name@) == machine_name@),
        (r matches Ok(id) ==> exists|i: int|
            #![auto]
            {
                &&& 0 <= i < machines@.len()
                &&& machines@[i].name@ == machine_name@
                &&& id@ == machines@[i].id@
                &&& forall|k: int| 0 <= k < i ==> machines@[k].name@ != machine_name@
            }),
        (r is Err ==> r == Err::<String, ProvisionError>(ProvisionError::MachineNotFound)),
{
    let mut i: usize = 0;
    while i < machines.len()
        invariant
            i <= machines@.len(),
            forall|k: int| 0 <= k < i ==> (#[trigger] machines@[k].name@) != machine_name@,
        decreases machines@.len() - i,
    {
        let m = &machines[i];
        if m.name == *machine_name {
            return Ok(m.id.clone());
        }
        i = i + 1;
    }
    Err(ProvisionError::MachineNotFound)
}

/// Reconciles one machine from the outcomes of its two provider calls: any
/// existing machine of the name is deleted first, then a fresh one is
/// created. A deletion failure is swallowed — the machine may simply not
/// have existed — while a creation failure is fatal, so the outcome is
/// decided by the creation outcome alone.
pub fn ensure_machine(
    delete_outcome: &Result<(), ProvisionError>,
    create_outcome: &Result<(), ProvisionError>,
) -> (r: Result<(), ProvisionError>)
    ensures
        r == (if create_outcome is Ok {
            Ok::<(), ProvisionError>(())
        } else {
            Err::<(), ProvisionError>(ProvisionError::CreateFailed)
        }),
{
    match (delete_outcome, create_outcome) {
        (_, Ok(_)) => Ok(()),
        (_, Err(_)) => Err(ProvisionError::CreateFailed),
    }
}

/// Collects the outcomes of many concurrently requested provisioning
/// operations, every one already driven to completion: the batch succeeds
/// when every operation did, and otherwise the first failure is the one
/// surfaced.
#[verifier::loop_isolation(false)]
pub fn first_provision_error(results: &Vec<Result<(), ProvisionError>>) -> (r: Result<
    (),
    ProvisionError,
>)
    ensures
        (r is Ok) <==> (forall|i: int|
            0 <= i < results@.len() ==> (#[trigger] results@[i]) is Ok),
        (r matches Err(e) ==> exists|i: int|
            #![auto]
            {
                &&& 0 <= i < results@.len()
                &&& results@[i] == Err::<(), ProvisionError>(e)
                &&& forall|k: int| 0 <= k < i ==> results@[k] is Ok
            }),
{
    let mut i: usize = 0;
    while i < results.len()
        invariant
            i <= results@.len(),
            forall|k: int| 0 <= k < i ==> (#[trigger] results@[k]) is Ok,
        decreases results@.len() - i,
    {
        let cur = results[i];
        match cur {
            Err(e) => {
                return Err(e);
            },
            Ok(_) => {},
        }
        i = i + 1;
    }
    Ok(())
}

} // verus!
