//! The transaction builder: a linear state machine that assembles the input
//! list and the command sequence, then freezes them into an immutable
//! transaction envelope.

use vstd::prelude::*;
use crate::encode::{inputs_ordinal, InputList, TransactionInput};
use crate::types::{Address, BuildError, ObjectId, ObjectRef};

verus! {

/// One executable step of the transaction, executed in list order.
#[derive(Debug)]
pub enum Command {
    /// Call the module at `module` to create an object; `args` name the input
    /// positions supplying the constructor arguments.
    CreateObject { module: ObjectId, args: Vec<usize> },
    /// Transfer `object` to `recipient`.
    TransferObject { object: ObjectRef, recipient: Address },
}

/// Well-formedness of the command at position `at` in `cmds`, against an
/// input list of `n_inputs` entries: a create command references only input
/// positions that exist, and a transfer command may name the pending output
/// only of a strictly earlier create command — never a later one.
pub open spec fn command_wf(cmds: Seq<Command>, at: int, n_inputs: int) -> bool {
    match cmds[at] {
        Command::CreateObject { module, args } => {
            &&& module.wf()
            &&& forall|j: int| 0 <= j < args@.len() ==> (#[trigger] args@[j]) < n_inputs
        },
        Command::TransferObject { object, recipient } => {
            &&& recipient.wf()
            &&& match object {
                ObjectRef::Existing(id) => id.wf(),
                ObjectRef::PendingCreation(k) => k < at && cmds[k as int] is CreateObject,
            }
        },
    }
}

/// Every command in the sequence is well-formed at its position.
pub open spec fn commands_wf(cmds: Seq<Command>, n_inputs: int) -> bool {
    forall|at: int| 0 <= at < cmds.len() ==> #[trigger] command_wf(cmds, at, n_inputs)
}

/// The frozen transaction envelope: an immutable value ready for signing and
/// submission.
pub struct Transaction {
    /// The coin object debited to pay for execution.
    pub sender: ObjectId,
    /// The designated recipient address.
    pub recipient: Address,
    /// Non-negative gas price; zero is permitted here, the ledger decides
    /// whether to accept it.
    pub gas_price: u64,
    /// The ordered input list.
    pub inputs: Vec<TransactionInput>,
    /// The ordered command list.
    pub commands: Vec<Command>,
}

impl Transaction {
    /// Structural validity: well-formed sender and recipient, at least one
    /// command, ordinal inputs, and every command referencing only inputs
    /// that exist and objects created strictly earlier.
    pub open spec fn wf(&self) -> bool {
        &&& self.sender.wf()
        &&& self.recipient.wf()
        &&& self.commands@.len() > 0
        &&& inputs_ordinal(self.inputs@)
        &&& commands_wf(self.commands@, self.inputs@.len() as int)
    }
}

/// Index consistency, stated of any well-formed transaction: a create
/// command's argument positions are all strictly below the number of inputs.
pub proof fn lemma_index_consistency(tx: &Transaction, at: int, j: int)
    requires
        tx.wf(),
        0 <= at < tx.commands@.len(),
        tx.commands@[at] matches Command::CreateObject { args, .. } && 0 <= j < args@.len(),
    ensures
        tx.commands@[at] matches Command::CreateObject { args, .. } ==> args@[j]
            < tx.inputs@.len(),
{
    assert(command_wf(tx.commands@, at, tx.inputs@.len() as int));
}

/// No forward references, stated of any well-formed transaction: a transfer
/// command naming a pending creation names a create command strictly earlier
/// in the list.
pub proof fn lemma_no_forward_reference(tx: &Transaction, at: int)
    requires
        tx.wf(),
        0 <= at < tx.commands@.len(),
        tx.commands@[at] matches Command::TransferObject {
            object: ObjectRef::PendingCreation(_),
            ..
        },
    ensures
        tx.commands@[at] matches Command::TransferObject {
            object: ObjectRef::PendingCreation(k),
            ..
        } ==> k < at && tx.commands@[k as int] is CreateObject,
{
    assert(command_wf(tx.commands@, at, tx.inputs@.len() as int));
}

/// Assembles one transaction along the linear state machine
/// `Empty -> InputsSet -> CommandsAppended -> Built`, append-only and with
/// backward references only.
pub struct TxBuilder {
    inputs_set: bool,
    inputs: Vec<TransactionInput>,
    commands: Vec<Command>,
}

impl TxBuilder {
    /// Whether the full input list has been supplied.
    pub closed spec fn inputs_are_set(&self) -> bool {
        self.inputs_set
    }

    /// The input list supplied so far.
    pub closed spec fn spec_inputs(&self) -> Seq<TransactionInput> {
        self.inputs@
    }

    /// The commands appended so far.
    pub closed spec fn spec_commands(&self) -> Seq<Command> {
        self.commands@
    }

    /// The builder's invariant: nothing precedes the input list, inputs are
    /// ordinal, and every appended command is well-formed at its position.
    pub open spec fn wf(&self) -> bool {
        &&& !self.inputs_are_set() ==> self.spec_inputs().len() == 0 && self.spec_commands().len()
            == 0
        &&& inputs_ordinal(self.spec_inputs())
        &&& commands_wf(self.spec_commands(), self.spec_inputs().len() as int)
    }

    /// A fresh builder in the `Empty` state.
    pub fn new() -> (r: TxBuilder)
        ensures
            r.wf(),
            !r.inputs_are_set(),
            r.spec_inputs().len() == 0,
            r.spec_commands().len() == 0,
    {
        TxBuilder { inputs_set: false, inputs: Vec::new(), commands: Vec::new() }
    }

    /// `Empty -> InputsSet`: supplies the full, final input list. No failure
    /// mode; commands appended later are checked against this list.
    pub fn set_inputs(&mut self, inputs: InputList)
        requires
            old(self).wf(),
            !old(self).inputs_are_set(),
            inputs.wf(),
        ensures
            final(self).wf(),
            final(self).inputs_are_set(),
            final(self).spec_inputs() == inputs@,
            final(self).spec_commands().len() == 0,
    {
        self.inputs = inputs.into_vec();
        self.inputs_set = true;
    }

    /// Appends a create command calling `module` with the inputs at `args`,
    /// and returns the pending reference to the object it will create.
    /// Fails with `InvalidReference` exactly when some argument position is
    /// out of range of the input list, leaving the builder unchanged.
    #[verifier::loop_isolation(false)]
    pub fn add_create_object(&mut self, module: ObjectId, args: Vec<usize>) -> (r: Result<
        ObjectRef,
        BuildError,
    >)
        requires
            old(self).wf(),
            old(self).inputs_are_set(),
            module.wf(),
        ensures
            final(self).wf(),
            final(self).inputs_are_set(),
            final(self).spec_inputs() == old(self).spec_inputs(),
            (forall|j: int| 0 <= j < args@.len() ==> (#[trigger] args@[j]) < old(
                self,
            ).spec_inputs().len()) ==> {
                &&& r matches Ok(o)
                &&& o == ObjectRef::PendingCreation(old(self).spec_commands().len() as usize)
                &&& final(self).spec_commands() == old(self).spec_commands().push(
                    (Command::CreateObject { module, args }),
                )
            },
            (exists|j: int| 0 <= j < args@.len() && (#[trigger] args@[j]) >= old(
                self,
            ).spec_inputs().len()) ==> {
                &&& r == Err::<ObjectRef, BuildError>(BuildError::InvalidReference)
                &&& *final(self) == *old(self)
            },
    {
        let n_inputs = self.inputs.len();
        let n_args = args.len();
        let mut j: usize = 0;
        while j < n_args
            invariant
                j <= n_args,
                forall|t: int| 0 <= t < j ==> (#[trigger] args@[t]) < n_inputs,
            decreases n_args - j,
        {
            if args[j] >= n_inputs {
                return Err(BuildError::InvalidReference);
            }
            j = j + 1;
        }
        let k = self.commands.len();
        self.commands.push(Command::CreateObject { module, args });
        proof {
            let cmds = self.commands@;
            let old_cmds = old(self).spec_commands();
            assert forall|at: int| 0 <= at < cmds.len() implies #[trigger] command_wf(
                cmds,
                at,
                self.inputs@.len() as int,
            ) by {
                if at < k {
                    assert(command_wf(old_cmds, at, self.inputs@.len() as int));
                    assert(cmds[at] == old_cmds[at]);
                }
            }
        }
        Ok(ObjectRef::PendingCreation(k))
    }

    /// Appends a transfer of `object` to `recipient`. Fails with
    /// `InvalidReference` exactly when `object` names the pending output of a
    /// command that is not a strictly earlier create command, leaving the
    /// builder unchanged.
    pub fn add_transfer(&mut self, object: ObjectRef, recipient: Address) -> (r: Result<
        (),
        BuildError,
    >)
        requires
            old(self).wf(),
            old(self).inputs_are_set(),
            recipient.wf(),
            object matches ObjectRef::Existing(id) ==> id.wf(),
        ensures
            final(self).wf(),
            final(self).inputs_are_set(),
            final(self).spec_inputs() == old(self).spec_inputs(),
            (match object {
                ObjectRef::Existing(_) => true,
                ObjectRef::PendingCreation(k) => k < old(self).spec_commands().len() && old(
                    self,
                ).spec_commands()[k as int] is CreateObject,
            }) ==> {
                &&& r is Ok
                &&& final(self).spec_commands() == old(self).spec_commands().push(
                    (Command::TransferObject { object, recipient }),
                )
            },
            !(match object {
                ObjectRef::Existing(_) => true,
                ObjectRef::PendingCreation(k) => k < old(self).spec_commands().len() && old(
                    self,
                ).spec_commands()[k as int] is CreateObject,
            }) ==> {
                &&& r == Err::<(), BuildError>(BuildError::InvalidReference)
                &&& *final(self) == *old(self)
            },
    {
        let valid = match &object {
            ObjectRef::Existing(_) => true,
            ObjectRef::PendingCreation(k) => {
                if *k < self.commands.len() {
                    match &self.commands[*k] {
                        Command::CreateObject { .. } => true,
                        _ => false,
                    }
                } else {
                    false
                }
            },
        };
        if !valid {
            return Err(BuildError::InvalidReference);
        }
        let k = self.commands.len();
        self.commands.push(Command::TransferObject { object, recipient });
        proof {
            let cmds = self.commands@;
            let old_cmds = old(self).spec_commands();
            assert forall|at: int| 0 <= at < cmds.len() implies #[trigger] command_wf(
                cmds,
                at,
                self.inputs@.len() as int,
            ) by {
                if at < k {
                    assert(command_wf(old_cmds, at, self.inputs@.len() as int));
                    assert(cmds[at] == old_cmds[at]);
                }
            }
        }
        Ok(())
    }

    /// `CommandsAppended -> Built`: freezes the inputs, commands, gas payer,
    /// recipient and gas price into an immutable transaction. Fails with
    /// `Incomplete` exactly when the input list was never set or no command
    /// was appended.
    pub fn build(self, gas_payer: ObjectId, recipient: Address, gas_price: u64) -> (r: Result<
        Transaction,
        BuildError,
    >)
        requires
            self.wf(),
            gas_payer.wf(),
            recipient.wf(),
        ensures
            self.inputs_are_set() && self.spec_commands().len() > 0 ==> {
                &&& r matches Ok(tx)
                &&& tx.wf()
                &&& tx.sender == gas_payer
                &&& tx.recipient == recipient
                &&& tx.gas_price == gas_price
                &&& tx.inputs@ == self.spec_inputs()
                &&& tx.commands@ == self.spec_commands()
            },
            !(self.inputs_are_set() && self.spec_commands().len() > 0) ==> r == Err::<
                Transaction,
                BuildError,
            >(BuildError::Incomplete),
    {
        if !self.inputs_set || self.commands.len() == 0 {
            return Err(BuildError::Incomplete);
        }
        Ok(
            Transaction {
                sender: gas_payer,
                recipient,
                gas_price,
                inputs: self.inputs,
                commands: self.commands,
            },
        )
    }
}

} // verus!
