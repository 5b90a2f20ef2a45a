//! The log of a transaction's gas: what was charged, for what, and in which
//! call.

use crate::outside::is_identifier;
use vstd::prelude::*;

verus! {

/// Gas in internal units, for execution and IO.
pub type InternalGas = u64;

/// A storage fee.
pub type Fee = u64;

/// A place in the code of a function.
pub type CodeOffset = u16;

/// The instructions of the bytecode, by name.
#[allow(non_camel_case_types)]
#[derive(Clone, Copy, Debug, PartialEq, Eq, Hash, Structural)]
pub enum Opcodes {
    POP,
    RET,
    BR_TRUE,
    BR_FALSE,
    BRANCH,
    LD_U64,
    LD_CONST,
    LD_TRUE,
    LD_FALSE,
    COPY_LOC,
    MOVE_LOC,
    ST_LOC,
    MUT_BORROW_LOC,
    IMM_BORROW_LOC,
    MUT_BORROW_FIELD,
    IMM_BORROW_FIELD,
    CALL,
    PACK,
    UNPACK,
    READ_REF,
    WRITE_REF,
    ADD,
    SUB,
    MUL,
    MOD,
    DIV,
    BIT_OR,
    BIT_AND,
    XOR,
    OR,
    AND,
    NOT,
    EQ,
    NEQ,
    LT,
    GT,
    LE,
    GE,
    ABORT,
    NOP,
    EXISTS,
    MUT_BORROW_GLOBAL,
    IMM_BORROW_GLOBAL,
    MOVE_FROM,
    MOVE_TO,
    FREEZE_REF,
    SHL,
    SHR,
    LD_U8,
    LD_U128,
    CAST_U8,
    CAST_U64,
    CAST_U128,
    MUT_BORROW_FIELD_GENERIC,
    IMM_BORROW_FIELD_GENERIC,
    CALL_GENERIC,
    PACK_GENERIC,
    UNPACK_GENERIC,
    EXISTS_GENERIC,
    MUT_BORROW_GLOBAL_GENERIC,
    IMM_BORROW_GLOBAL_GENERIC,
    MOVE_FROM_GENERIC,
    MOVE_TO_GENERIC,
    VEC_PACK,
    VEC_LEN,
    VEC_IMM_BORROW,
    VEC_MUT_BORROW,
    VEC_PUSH_BACK,
    VEC_POP_BACK,
    VEC_UNPACK,
    VEC_SWAP,
    LD_U16,
    LD_U32,
    LD_U256,
    CAST_U16,
    CAST_U32,
    CAST_U256,
}

/// The address of an account.
#[derive(Clone, Copy, Debug, PartialEq, Eq, Hash, Structural)]
pub struct AccountAddress {
    pub hi: u128,
    pub lo: u128,
}

/// Whether a character may stand in an identifier.
pub open spec fn is_identifier_char(c: char) -> bool {
    c == '_' || ('a' <= c && c <= 'z') || ('A' <= c && c <= 'Z') || ('0' <= c && c <= '9')
}

/// Whether a character is a letter of the alphabet.
pub open spec fn is_letter(c: char) -> bool {
    ('a' <= c && c <= 'z') || ('A' <= c && c <= 'Z')
}

/// Whether a string is an identifier: a letter, or an underscore and one
/// character more at least, followed by letters, digits and underscores
/// only; or the name that a script gives itself.
pub open spec fn valid_identifier(name: Seq<char>) -> bool {
    ||| name == seq!['<', 'S', 'E', 'L', 'F', '>']
    ||| {
        &&& name.len() >= 1
        &&& is_letter(name[0]) || (name[0] == '_' && name.len() >= 2)
        &&& forall|i: int| 1 <= i < name.len() ==> is_identifier_char(#[trigger] name[i])
    }
}

/// The name of a module or of a function.
#[derive(Debug, PartialEq, Eq)]
pub struct Identifier {
    name: String,
}

impl View for Identifier {
    type V = Seq<char>;

    closed spec fn view(&self) -> Seq<char> {
        self.name@
    }
}

impl Identifier {
    #[verifier::type_invariant]
    spec fn is_valid(self) -> bool {
        valid_identifier(self.name@)
    }

    /// The identifier that `name` spells, if it spells one.
    pub fn new(name: String) -> (r: Option<Self>)
        ensures
            match r {
                Some(identifier) => valid_identifier(name@) && identifier@ == name@,
                None => !valid_identifier(name@),
            },
    {
        if is_identifier(name.as_str()) {
            Some(Identifier { name })
        } else {
            None
        }
    }

    pub fn as_str(&self) -> (name: &str)
        ensures
            name@ == self@,
            valid_identifier(name@),
    {
        proof {
            use_type_invariant(self);
        }
        self.name.as_str()
    }

    pub fn into_string(self) -> (name: String)
        ensures
            name@ == self@,
            valid_identifier(name@),
    {
        proof {
            use_type_invariant(&self);
        }
        self.name
    }
}

impl Clone for Identifier {
    fn clone(&self) -> (copy: Self)
        ensures
            copy@ == self@,
    {
        proof {
            use_type_invariant(self);
        }
        Identifier { name: self.name.clone() }
    }
}

/// A module, by the account that holds it and its name.
#[derive(Clone, Debug, PartialEq, Eq)]
pub struct ModuleId {
    pub address: AccountAddress,
    pub name: Identifier,
}

/// A type, in its written form.
#[derive(Clone, Debug, PartialEq, Eq)]
pub struct TypeTag {
    pub name: String,
}

/// A place in the state, named by its digest.
#[derive(Clone, Copy, Debug, PartialEq, Eq, Hash, Structural)]
pub struct StateKey {
    pub hi: u128,
    pub lo: u128,
}

/// What a call frame is the call of.
#[derive(Clone, Debug, PartialEq, Eq)]
pub enum FrameName {
    Script,
    Function { module_id: ModuleId, name: Identifier, ty_args: Vec<TypeTag> },
}

/// A call, with what was charged in it, in order.
#[derive(Debug)]
pub struct CallFrame {
    pub name: FrameName,
    pub events: Vec<ExecutionGasEvent>,
}

/// One thing that happened to the gas in a call.
#[derive(Debug)]
pub enum ExecutionGasEvent {
    /// The execution moved to this place in the code.
    Loc(CodeOffset),
    /// An instruction was charged.
    Bytecode { op: Opcodes, cost: InternalGas },
    /// A function was called; this is its frame.
    Call(CallFrame),
    /// A native function was called and charged.
    CallNative {
        module_id: ModuleId,
        fn_name: Identifier,
        ty_args: Vec<TypeTag>,
        cost: InternalGas,
    },
    /// A resource was loaded and charged.
    LoadResource { addr: AccountAddress, ty: TypeTag, cost: InternalGas },
}

impl ExecutionGasEvent {
    /// What the event itself adds to the total of execution and IO.
    pub open spec fn cost(self) -> InternalGas {
        match self {
            ExecutionGasEvent::Loc(_) => 0,
            ExecutionGasEvent::Call(_) => 0,
            ExecutionGasEvent::Bytecode { cost, .. } => cost,
            ExecutionGasEvent::CallNative { cost, .. } => cost,
            ExecutionGasEvent::LoadResource { cost, .. } => cost,
        }
    }
}

impl CallFrame {
    pub fn new_function(module_id: ModuleId, name: Identifier, ty_args: Vec<TypeTag>) -> (frame:
        Self)
        ensures
            frame.name == (FrameName::Function { module_id, name, ty_args }),
            frame.events@.len() == 0,
    {
        CallFrame { name: FrameName::Function { module_id, name, ty_args }, events: Vec::new() }
    }

    pub fn new_script() -> (frame: Self)
        ensures
            frame.name == FrameName::Script,
            frame.events@.len() == 0,
    {
        CallFrame { name: FrameName::Script, events: Vec::new() }
    }
}

/// What a write does to its place in the state.
#[derive(Clone, Copy, Debug, PartialEq, Eq, Hash, Structural)]
pub enum WriteOpType {
    Creation,
    Modification,
    Deletion,
}

/// A write, by its kind.
#[derive(Clone, Copy, Debug, PartialEq, Eq, Hash, Structural)]
pub enum WriteOp {
    Creation,
    CreationWithMetadata,
    Modification,
    ModificationWithMetadata,
    Deletion,
    DeletionWithMetadata,
}

/// The IO gas of one write.
#[derive(Clone, Copy, Debug, PartialEq, Eq, Hash, Structural)]
pub struct WriteTransient {
    pub key: StateKey,
    pub cost: InternalGas,
    pub op_type: WriteOpType,
}

/// The storage fee of one write.
#[derive(Clone, Copy, Debug, PartialEq, Eq, Hash, Structural)]
pub struct WriteStorage {
    pub key: StateKey,
    pub op_type: WriteOpType,
    pub cost: Fee,
}

/// The storage fee of one event.
#[derive(Clone, Debug, PartialEq, Eq)]
pub struct EventStorage {
    pub ty: TypeTag,
    pub cost: Fee,
}

/// The storage fees of a transaction.
#[derive(Clone, Debug, PartialEq, Eq)]
pub struct StorageFees {
    /// The fees of writes, events and the transaction itself, before the discount.
    pub total: Fee,
    pub write_set_storage: Vec<WriteStorage>,
    pub events: Vec<EventStorage>,
    pub event_discount: Fee,
    pub txn_storage: Fee,
}

/// The gas of a transaction for execution and IO.
#[derive(Debug)]
pub struct ExecutionAndIOCosts {
    pub gas_scaling_factor: u64,
    pub total: InternalGas,
    pub intrinsic_cost: InternalGas,
    pub call_graph: CallFrame,
    pub write_set_transient: Vec<WriteTransient>,
}

/// Everything that a transaction was charged.
#[derive(Debug)]
pub struct TransactionGasLog {
    pub exec_io: ExecutionAndIOCosts,
    pub storage: StorageFees,
}

} // verus!
