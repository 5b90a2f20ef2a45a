//! The gas profiler: it records, call by call, what a transaction is charged.
//!
//! The profiler charges nothing itself. A gas meter does, and the profiler is
//! told what each charge cost: the meter's balance before the charge less its
//! balance after it.

use crate::gas_log::{
    AccountAddress, CallFrame, CodeOffset, EventStorage, ExecutionAndIOCosts, ExecutionGasEvent,
    Fee, FrameName, Identifier, InternalGas, ModuleId, Opcodes, StateKey, StorageFees,
    TransactionGasLog, TypeTag, WriteOp, WriteOpType, WriteStorage, WriteTransient,
};
use vstd::prelude::*;

verus! {

/// The storage fees come with this version of the gas features.
pub const STORAGE_FEE_FEATURE_VERSION: u64 = 7;

/// The sum of two quantities of gas, or the largest quantity there is.
pub open spec fn sat_add(a: u64, b: u64) -> u64 {
    if a + b > u64::MAX {
        u64::MAX
    } else {
        (a + b) as u64
    }
}

/// The fees of one write, as the gas meter gives them.
#[derive(Clone, Copy, Debug, PartialEq, Eq, Structural)]
pub struct WriteFees {
    pub key: StateKey,
    pub op_type: WriteOpType,
    /// The fee for the place in the state.
    pub slot_fee: Fee,
    /// What is paid back for the place in the state.
    pub slot_refund: Fee,
    /// The fee for the bytes written.
    pub bytes_fee: Fee,
}

impl WriteFees {
    /// The storage fee of the write.
    pub open spec fn fee(self) -> Fee {
        sat_add(self.slot_fee, self.bytes_fee)
    }
}

/// The fee of one event, as the gas meter gives it.
#[derive(Clone, Debug, PartialEq, Eq)]
pub struct EventFee {
    pub ty: TypeTag,
    pub fee: Fee,
}

/// The storage fees of all writes together.
pub open spec fn total_write_fee(writes: Seq<WriteFees>) -> Fee
    decreases writes.len(),
{
    if writes.len() == 0 {
        0
    } else {
        sat_add(total_write_fee(writes.drop_last()), writes.last().fee())
    }
}

/// What is paid back for all writes together.
pub open spec fn total_refund(writes: Seq<WriteFees>) -> Fee
    decreases writes.len(),
{
    if writes.len() == 0 {
        0
    } else {
        sat_add(total_refund(writes.drop_last()), writes.last().slot_refund)
    }
}

/// The fees of all events together.
pub open spec fn total_event_fee(events: Seq<EventFee>) -> Fee
    decreases events.len(),
{
    if events.len() == 0 {
        0
    } else {
        sat_add(total_event_fee(events.drop_last()), events.last().fee)
    }
}

/// Whether storage fees are charged at all: the feature has to be there, and
/// gas has to have a price.
pub open spec fn storage_fee_applies(feature_version: u64, gas_unit_price: u64) -> bool {
    feature_version >= STORAGE_FEE_FEATURE_VERSION && gas_unit_price != 0
}

/// `after` is `before` with `events` added to its top frame, in order.
pub open spec fn top_extended(
    before: Seq<CallFrame>,
    after: Seq<CallFrame>,
    events: Seq<ExecutionGasEvent>,
) -> bool {
    &&& before.len() >= 1
    &&& after.len() == before.len()
    &&& after.drop_last() == before.drop_last()
    &&& after.last().name == before.last().name
    &&& after.last().events@ == before.last().events@ + events
}

/// `frame` is the frame at place `k` of `stack` with the frames above it
/// folded in: it holds the events of its own, and after them the call of the
/// frame above, which holds the frames above that in the same way.
pub open spec fn folded(frame: CallFrame, stack: Seq<CallFrame>, k: int) -> bool
    decreases stack.len() - k,
{
    &&& 0 <= k < stack.len()
    &&& frame.name == stack[k].name
    &&& if k == stack.len() - 1 {
        frame.events@ == stack[k].events@
    } else {
        &&& frame.events@.len() == stack[k].events@.len() + 1
        &&& frame.events@.drop_last() == stack[k].events@
        &&& frame.events@.last() matches ExecutionGasEvent::Call(inner)
        &&& folded(inner, stack, k + 1)
    }
}

/// The opcode that a borrow of a global is logged under.
pub open spec fn borrow_global_opcode(is_mut: bool, is_generic: bool) -> Opcodes {
    if is_mut {
        if is_generic {
            Opcodes::MUT_BORROW_GLOBAL_GENERIC
        } else {
            Opcodes::MUT_BORROW_GLOBAL
        }
    } else {
        if is_generic {
            Opcodes::IMM_BORROW_GLOBAL_GENERIC
        } else {
            Opcodes::IMM_BORROW_GLOBAL
        }
    }
}

/// The opcode that a test for a resource is logged under.
pub open spec fn exists_opcode(is_generic: bool) -> Opcodes {
    if is_generic {
        Opcodes::EXISTS
    } else {
        Opcodes::EXISTS_GENERIC
    }
}

/// The opcode that moving a resource out of the state is logged under.
pub open spec fn move_from_opcode(is_generic: bool) -> Opcodes {
    if is_generic {
        Opcodes::MOVE_FROM
    } else {
        Opcodes::MOVE_FROM_GENERIC
    }
}

/// The opcode that moving a resource into the state is logged under.
pub open spec fn move_to_opcode(is_generic: bool) -> Opcodes {
    if is_generic {
        Opcodes::MOVE_TO
    } else {
        Opcodes::MOVE_TO_GENERIC
    }
}

/// What a profiler holds, as mathematical values.
pub struct GasProfilerView {
    /// The intrinsic cost of the transaction, once it was charged.
    pub intrinsic_cost: Option<InternalGas>,
    /// Everything charged for execution and IO so far.
    pub total_exec_io: InternalGas,
    /// The calls that are under way, the outermost first.
    pub frames: Seq<CallFrame>,
    /// The IO gas of the writes, in the order charged.
    pub write_set_transient: Seq<WriteTransient>,
    /// The storage fees, once they were processed.
    pub storage_fees: Option<StorageFees>,
}

/// A recorder of gas charges.
pub struct GasProfiler {
    intrinsic_cost: Option<InternalGas>,
    total_exec_io: InternalGas,
    frames: Vec<CallFrame>,
    write_set_transient: Vec<WriteTransient>,
    storage_fees: Option<StorageFees>,
}

impl View for GasProfiler {
    type V = GasProfilerView;

    closed spec fn view(&self) -> GasProfilerView {
        GasProfilerView {
            intrinsic_cost: self.intrinsic_cost,
            total_exec_io: self.total_exec_io,
            frames: self.frames@,
            write_set_transient: self.write_set_transient@,
            storage_fees: self.storage_fees,
        }
    }
}

/// What a charge cost: the balance before it less the balance after it.
pub fn delegate_charge(old_balance: InternalGas, new_balance: InternalGas) -> (cost: InternalGas)
    requires
        new_balance <= old_balance,
    ensures
        cost == old_balance - new_balance,
{
    old_balance - new_balance
}

pub open spec fn spec_write_op_type(op: &WriteOp) -> WriteOpType {
    match *op {
        WriteOp::Creation | WriteOp::CreationWithMetadata => WriteOpType::Creation,
        WriteOp::Modification | WriteOp::ModificationWithMetadata => WriteOpType::Modification,
        WriteOp::Deletion | WriteOp::DeletionWithMetadata => WriteOpType::Deletion,
    }
}

/// What a write does to its place in the state.
#[verifier::when_used_as_spec(spec_write_op_type)]
pub fn write_op_type(op: &WriteOp) -> (op_type: WriteOpType)
    ensures
        op_type == spec_write_op_type(op),
{
    match op {
        WriteOp::Creation | WriteOp::CreationWithMetadata => WriteOpType::Creation,
        WriteOp::Modification | WriteOp::ModificationWithMetadata => WriteOpType::Modification,
        WriteOp::Deletion | WriteOp::DeletionWithMetadata => WriteOpType::Deletion,
    }
}

/// The fees of all events together, for the meter to compute the discount on.
pub fn event_fee_total(events: &Vec<EventFee>) -> (total: Fee)
    ensures
        total == total_event_fee(events@),
{
    let mut total: Fee = 0;
    let mut i: usize = 0;
    while i < events.len()
        invariant
            i <= events.len(),
            total == total_event_fee(events@.take(i as int)),
        decreases events.len() - i,
    {
        proof {
            assert(events@.take(i + 1).drop_last() == events@.take(i as int));
        }
        total = total.saturating_add(events[i].fee);
        i += 1;
    }
    proof {
        assert(events@.take(events.len() as int) == events@);
    }
    total
}

impl GasProfiler {
    /// A call is under way at any time.
    pub open spec fn wf(&self) -> bool {
        self@.frames.len() >= 1
    }

    /// A profiler for a transaction that runs a script.
    pub fn new_script() -> (profiler: Self)
        ensures
            profiler.wf(),
            profiler@.frames.len() == 1,
            profiler@.frames[0].name == FrameName::Script,
            profiler@.frames[0].events@.len() == 0,
            profiler@.intrinsic_cost is None,
            profiler@.total_exec_io == 0,
            profiler@.write_set_transient.len() == 0,
            profiler@.storage_fees is None,
    {
        let mut frames: Vec<CallFrame> = Vec::new();
        frames.push(CallFrame::new_script());
        GasProfiler {
            intrinsic_cost: None,
            total_exec_io: 0,
            frames,
            write_set_transient: Vec::new(),
            storage_fees: None,
        }
    }

    /// A profiler for a transaction that calls a function.
    pub fn new_function(module_id: ModuleId, func_name: Identifier, ty_args: Vec<TypeTag>) -> (profiler:
        Self)
        ensures
            profiler.wf(),
            profiler@.frames.len() == 1,
            profiler@.frames[0].name == (FrameName::Function {
                module_id,
                name: func_name,
                ty_args,
            }),
            profiler@.frames[0].events@.len() == 0,
            profiler@.intrinsic_cost is None,
            profiler@.total_exec_io == 0,
            profiler@.write_set_transient.len() == 0,
            profiler@.storage_fees is None,
    {
        let mut frames: Vec<CallFrame> = Vec::new();
        frames.push(CallFrame::new_function(module_id, func_name, ty_args));
        GasProfiler {
            intrinsic_cost: None,
            total_exec_io: 0,
            frames,
            write_set_transient: Vec::new(),
            storage_fees: None,
        }
    }

    /// Everything charged for execution and IO so far.
    pub fn total_exec_io(&self) -> (total: InternalGas)
        ensures
            total == self@.total_exec_io,
    {
        self.total_exec_io
    }

    /// The number of calls that are under way.
    pub fn num_frames(&self) -> (n: usize)
        ensures
            n == self@.frames.len(),
    {
        self.frames.len()
    }

    /// Whether the innermost call under way is the call of a function.
    pub fn in_function(&self) -> (b: bool)
        requires
            self.wf(),
        ensures
            b == (self@.frames.last().name is Function),
    {
        match &self.frames[self.frames.len() - 1].name {
            FrameName::Function { .. } => true,
            FrameName::Script => false,
        }
    }

    /// Adds an event to the innermost call, without charging anything.
    fn push_event(&mut self, event: ExecutionGasEvent)
        requires
            old(self).wf(),
        ensures
            final(self).wf(),
            top_extended(old(self)@.frames, final(self)@.frames, seq![event]),
            final(self)@ == (GasProfilerView { frames: final(self)@.frames, ..old(self)@ }),
    {
        let mut top = self.frames.pop().unwrap();
        top.events.push(event);
        self.frames.push(top);
        proof {
            assert(self@.frames.drop_last() == old(self)@.frames.drop_last());
            assert(old(self)@.frames.last().events@ + seq![event]
                == old(self)@.frames.last().events@.push(event));
        }
    }

    /// Records an event in the innermost call and adds its cost to the total.
    /// Calls of functions are recorded when they return, not here.
    pub fn record_gas_event(&mut self, event: ExecutionGasEvent)
        requires
            old(self).wf(),
            !(event is Call),
        ensures
            final(self).wf(),
            top_extended(old(self)@.frames, final(self)@.frames, seq![event]),
            final(self)@ == (GasProfilerView {
                frames: final(self)@.frames,
                total_exec_io: sat_add(old(self)@.total_exec_io, event.cost()),
                ..old(self)@
            }),
    {
        match &event {
            ExecutionGasEvent::Loc(_) => {},
            ExecutionGasEvent::Call(_) => {},
            ExecutionGasEvent::Bytecode { cost, .. } => {
                self.total_exec_io = self.total_exec_io.saturating_add(*cost);
            },
            ExecutionGasEvent::CallNative { cost, .. } => {
                self.total_exec_io = self.total_exec_io.saturating_add(*cost);
            },
            ExecutionGasEvent::LoadResource { cost, .. } => {
                self.total_exec_io = self.total_exec_io.saturating_add(*cost);
            },
        }
        self.push_event(event);
    }

    /// Records the charge of an instruction.
    pub fn record_bytecode(&mut self, op: Opcodes, cost: InternalGas)
        requires
            old(self).wf(),
        ensures
            final(self).wf(),
            top_extended(
                old(self)@.frames,
                final(self)@.frames,
                seq![ExecutionGasEvent::Bytecode { op, cost }],
            ),
            final(self)@ == (GasProfilerView {
                frames: final(self)@.frames,
                total_exec_io: sat_add(old(self)@.total_exec_io, cost),
                ..old(self)@
            }),
    {
        self.record_gas_event(ExecutionGasEvent::Bytecode { op, cost })
    }

    /// Records that the execution moved to another place in the code.
    pub fn record_offset(&mut self, offset: CodeOffset)
        requires
            old(self).wf(),
        ensures
            final(self).wf(),
            top_extended(
                old(self)@.frames,
                final(self)@.frames,
                seq![ExecutionGasEvent::Loc(offset)],
            ),
            final(self)@ == (GasProfilerView { frames: final(self)@.frames, ..old(self)@ }),
    {
        self.record_gas_event(ExecutionGasEvent::Loc(offset))
    }

    /// Records the charge of a borrow of a global.
    pub fn charge_borrow_global(&mut self, is_mut: bool, is_generic: bool, cost: InternalGas)
        requires
            old(self).wf(),
        ensures
            final(self).wf(),
            top_extended(
                old(self)@.frames,
                final(self)@.frames,
                seq![
                    ExecutionGasEvent::Bytecode {
                        op: borrow_global_opcode(is_mut, is_generic),
                        cost,
                    },
                ],
            ),
            final(self)@ == (GasProfilerView {
                frames: final(self)@.frames,
                total_exec_io: sat_add(old(self)@.total_exec_io, cost),
                ..old(self)@
            }),
    {
        let op = match (is_mut, is_generic) {
            (false, false) => Opcodes::IMM_BORROW_GLOBAL,
            (false, true) => Opcodes::IMM_BORROW_GLOBAL_GENERIC,
            (true, false) => Opcodes::MUT_BORROW_GLOBAL,
            (true, true) => Opcodes::MUT_BORROW_GLOBAL_GENERIC,
        };
        self.record_bytecode(op, cost)
    }

    /// Records the charge of a test for a resource.
    pub fn charge_exists(&mut self, is_generic: bool, cost: InternalGas)
        requires
            old(self).wf(),
        ensures
            final(self).wf(),
            top_extended(
                old(self)@.frames,
                final(self)@.frames,
                seq![ExecutionGasEvent::Bytecode { op: exists_opcode(is_generic), cost }],
            ),
            final(self)@ == (GasProfilerView {
                frames: final(self)@.frames,
                total_exec_io: sat_add(old(self)@.total_exec_io, cost),
                ..old(self)@
            }),
    {
        let op = if is_generic {
            Opcodes::EXISTS
        } else {
            Opcodes::EXISTS_GENERIC
        };
        self.record_bytecode(op, cost)
    }

    /// Records the charge of moving a resource out of the state.
    pub fn charge_move_from(&mut self, is_generic: bool, cost: InternalGas)
        requires
            old(self).wf(),
        ensures
            final(self).wf(),
            top_extended(
                old(self)@.frames,
                final(self)@.frames,
                seq![ExecutionGasEvent::Bytecode { op: move_from_opcode(is_generic), cost }],
            ),
            final(self)@ == (GasProfilerView {
                frames: final(self)@.frames,
                total_exec_io: sat_add(old(self)@.total_exec_io, cost),
                ..old(self)@
            }),
    {
        let op = if is_generic {
            Opcodes::MOVE_FROM
        } else {
            Opcodes::MOVE_FROM_GENERIC
        };
        self.record_bytecode(op, cost)
    }

    /// Records the charge of moving a resource into the state.
    pub fn charge_move_to(&mut self, is_generic: bool, cost: InternalGas)
        requires
            old(self).wf(),
        ensures
            final(self).wf(),
            top_extended(
                old(self)@.frames,
                final(self)@.frames,
                seq![ExecutionGasEvent::Bytecode { op: move_to_opcode(is_generic), cost }],
            ),
            final(self)@ == (GasProfilerView {
                frames: final(self)@.frames,
                total_exec_io: sat_add(old(self)@.total_exec_io, cost),
                ..old(self)@
            }),
    {
        let op = if is_generic {
            Opcodes::MOVE_TO
        } else {
            Opcodes::MOVE_TO_GENERIC
        };
        self.record_bytecode(op, cost)
    }

    /// Records the charge of a borrow from a vector. Mutable or not, it is
    /// logged as an immutable borrow.
    pub fn charge_vec_borrow(&mut self, is_mut: bool, cost: InternalGas)
        requires
            old(self).wf(),
        ensures
            final(self).wf(),
            top_extended(
                old(self)@.frames,
                final(self)@.frames,
                seq![ExecutionGasEvent::Bytecode { op: Opcodes::VEC_IMM_BORROW, cost }],
            ),
            final(self)@ == (GasProfilerView {
                frames: final(self)@.frames,
                total_exec_io: sat_add(old(self)@.total_exec_io, cost),
                ..old(self)@
            }),
    {
        self.record_bytecode(Opcodes::VEC_IMM_BORROW, cost)
    }

    /// Records the charge of a branch that is taken where a condition is
    /// false, and where it leads if it is taken.
    pub fn charge_br_false(&mut self, target_offset: Option<CodeOffset>, cost: InternalGas)
        requires
            old(self).wf(),
        ensures
            final(self).wf(),
            top_extended(
                old(self)@.frames,
                final(self)@.frames,
                match target_offset {
                    Some(offset) => seq![
                        ExecutionGasEvent::Bytecode { op: Opcodes::BR_FALSE, cost },
                        ExecutionGasEvent::Loc(offset),
                    ],
                    None => seq![ExecutionGasEvent::Bytecode { op: Opcodes::BR_FALSE, cost }],
                },
            ),
            final(self)@ == (GasProfilerView {
                frames: final(self)@.frames,
                total_exec_io: sat_add(old(self)@.total_exec_io, cost),
                ..old(self)@
            }),
    {
        self.record_bytecode(Opcodes::BR_FALSE, cost);
        if let Some(offset) = target_offset {
            self.record_offset(offset);
        }
        proof {
            let before = old(self)@.frames.last().events@;
            let first = ExecutionGasEvent::Bytecode { op: Opcodes::BR_FALSE, cost };
            if let Some(offset) = target_offset {
                assert((before + seq![first]) + seq![ExecutionGasEvent::Loc(offset)] == before
                    + seq![first, ExecutionGasEvent::Loc(offset)]);
            }
        }
    }

    /// Records the charge of a branch that is taken where a condition is
    /// true, and where it leads if it is taken.
    pub fn charge_br_true(&mut self, target_offset: Option<CodeOffset>, cost: InternalGas)
        requires
            old(self).wf(),
        ensures
            final(self).wf(),
            top_extended(
                old(self)@.frames,
                final(self)@.frames,
                match target_offset {
                    Some(offset) => seq![
                        ExecutionGasEvent::Bytecode { op: Opcodes::BR_TRUE, cost },
                        ExecutionGasEvent::Loc(offset),
                    ],
                    None => seq![ExecutionGasEvent::Bytecode { op: Opcodes::BR_TRUE, cost }],
                },
            ),
            final(self)@ == (GasProfilerView {
                frames: final(self)@.frames,
                total_exec_io: sat_add(old(self)@.total_exec_io, cost),
                ..old(self)@
            }),
    {
        self.record_bytecode(Opcodes::BR_TRUE, cost);
        if let Some(offset) = target_offset {
            self.record_offset(offset);
        }
        proof {
            let before = old(self)@.frames.last().events@;
            let first = ExecutionGasEvent::Bytecode { op: Opcodes::BR_TRUE, cost };
            if let Some(offset) = target_offset {
                assert((before + seq![first]) + seq![ExecutionGasEvent::Loc(offset)] == before
                    + seq![first, ExecutionGasEvent::Loc(offset)]);
            }
        }
    }

    /// Records the charge of a branch, and where it leads.
    pub fn charge_branch(&mut self, target_offset: CodeOffset, cost: InternalGas)
        requires
            old(self).wf(),
        ensures
            final(self).wf(),
            top_extended(
                old(self)@.frames,
                final(self)@.frames,
                seq![
                    ExecutionGasEvent::Bytecode { op: Opcodes::BRANCH, cost },
                    ExecutionGasEvent::Loc(target_offset),
                ],
            ),
            final(self)@ == (GasProfilerView {
                frames: final(self)@.frames,
                total_exec_io: sat_add(old(self)@.total_exec_io, cost),
                ..old(self)@
            }),
    {
        self.record_bytecode(Opcodes::BRANCH, cost);
        self.record_offset(target_offset);
        proof {
            let before = old(self)@.frames.last().events@;
            let first = ExecutionGasEvent::Bytecode { op: Opcodes::BRANCH, cost };
            assert((before + seq![first]) + seq![ExecutionGasEvent::Loc(target_offset)] == before
                + seq![first, ExecutionGasEvent::Loc(target_offset)]);
        }
    }

    /// Records the charge of a simple instruction, `op`. Where the
    /// instruction returns from a call that was made from another call under
    /// way, the frame of the call is closed: it becomes an event of the call
    /// that made it. The outermost call stays open.
    pub fn charge_simple_instr(&mut self, op: Opcodes, is_ret: bool, cost: InternalGas)
        requires
            old(self).wf(),
        ensures
            final(self).wf(),
            final(self)@ == (GasProfilerView {
                frames: final(self)@.frames,
                total_exec_io: sat_add(old(self)@.total_exec_io, cost),
                ..old(self)@
            }),
            if is_ret && old(self)@.frames.len() > 1 {
                &&& final(self)@.frames.len() == old(self)@.frames.len() - 1
                &&& final(self)@.frames.drop_last() == old(self)@.frames.drop_last().drop_last()
                &&& final(self)@.frames.last().name == old(self)@.frames[old(self)@.frames.len()
                    - 2].name
                &&& final(self)@.frames.last().events@.len() == old(self)@.frames[old(
                    self,
                )@.frames.len() - 2].events@.len() + 1
                &&& final(self)@.frames.last().events@.drop_last() == old(self)@.frames[old(
                    self,
                )@.frames.len() - 2].events@
                &&& final(self)@.frames.last().events@.last() matches ExecutionGasEvent::Call(
                    returned,
                )
                &&& returned.name == old(self)@.frames.last().name
                &&& returned.events@ == old(self)@.frames.last().events@.push(
                    ExecutionGasEvent::Bytecode { op, cost },
                )
            } else {
                top_extended(
                    old(self)@.frames,
                    final(self)@.frames,
                    seq![ExecutionGasEvent::Bytecode { op, cost }],
                )
            },
    {
        self.record_bytecode(op, cost);
        if is_ret && self.frames.len() > 1 {
            let ghost recorded = self@.frames;
            let cur_frame = self.frames.pop().unwrap();
            let mut last_frame = self.frames.pop().unwrap();
            last_frame.events.push(ExecutionGasEvent::Call(cur_frame));
            self.frames.push(last_frame);
            proof {
                let n = old(self)@.frames.len() as int;
                assert(recorded.drop_last() == old(self)@.frames.drop_last());
                assert(recorded.drop_last()[n - 2] == old(self)@.frames[n - 2]);
                assert(self@.frames.drop_last() == old(self)@.frames.drop_last().drop_last());
                assert(self@.frames.last().events@.drop_last() == old(self)@.frames[n
                    - 2].events@);
                assert(old(self)@.frames.last().events@ + seq![
                    ExecutionGasEvent::Bytecode { op, cost },
                ] == old(self)@.frames.last().events@.push(
                    ExecutionGasEvent::Bytecode { op, cost },
                ));
            }
        }
    }

    /// Records the charge of a call, and opens the frame of the call.
    pub fn charge_call(&mut self, module_id: ModuleId, func_name: Identifier, cost: InternalGas)
        requires
            old(self).wf(),
        ensures
            final(self).wf(),
            final(self)@.frames.len() == old(self)@.frames.len() + 1,
            top_extended(
                old(self)@.frames,
                final(self)@.frames.drop_last(),
                seq![ExecutionGasEvent::Bytecode { op: Opcodes::CALL, cost }],
            ),
            final(self)@.frames.last().name matches FrameName::Function {
                module_id: m,
                name,
                ty_args,
            } && m == module_id && name == func_name && ty_args@.len() == 0,
            final(self)@.frames.last().events@.len() == 0,
            final(self)@ == (GasProfilerView {
                frames: final(self)@.frames,
                total_exec_io: sat_add(old(self)@.total_exec_io, cost),
                ..old(self)@
            }),
    {
        self.record_bytecode(Opcodes::CALL, cost);
        let ghost recorded = self@.frames;
        self.frames.push(CallFrame::new_function(module_id, func_name, Vec::new()));
        proof {
            assert(self@.frames.drop_last() == recorded);
        }
    }

    /// Records the charge of a call of a generic function, and opens the
    /// frame of the call.
    pub fn charge_call_generic(
        &mut self,
        module_id: ModuleId,
        func_name: Identifier,
        ty_tags: Vec<TypeTag>,
        cost: InternalGas,
    )
        requires
            old(self).wf(),
        ensures
            final(self).wf(),
            final(self)@.frames.len() == old(self)@.frames.len() + 1,
            top_extended(
                old(self)@.frames,
                final(self)@.frames.drop_last(),
                seq![ExecutionGasEvent::Bytecode { op: Opcodes::CALL_GENERIC, cost }],
            ),
            final(self)@.frames.last().name == (FrameName::Function {
                module_id,
                name: func_name,
                ty_args: ty_tags,
            }),
            final(self)@.frames.last().events@.len() == 0,
            final(self)@ == (GasProfilerView {
                frames: final(self)@.frames,
                total_exec_io: sat_add(old(self)@.total_exec_io, cost),
                ..old(self)@
            }),
    {
        self.record_bytecode(Opcodes::CALL_GENERIC, cost);
        let ghost recorded = self@.frames;
        self.frames.push(CallFrame::new_function(module_id, func_name, ty_tags));
        proof {
            assert(self@.frames.drop_last() == recorded);
        }
    }

    /// Records the charge of a native function. The frame of its call is
    /// given up, and the call is recorded in the call that made it.
    pub fn charge_native_function(&mut self, cost: InternalGas)
        requires
            old(self)@.frames.len() >= 2,
            old(self)@.frames.last().name is Function,
        ensures
            final(self).wf(),
            top_extended(
                old(self)@.frames.drop_last(),
                final(self)@.frames,
                seq![
                    ExecutionGasEvent::CallNative {
                        module_id: old(self)@.frames.last().name->module_id,
                        fn_name: old(self)@.frames.last().name->name,
                        ty_args: old(self)@.frames.last().name->ty_args,
                        cost,
                    },
                ],
            ),
            final(self)@ == (GasProfilerView {
                frames: final(self)@.frames,
                total_exec_io: sat_add(old(self)@.total_exec_io, cost),
                ..old(self)@
            }),
    {
        let cur = self.frames.pop().unwrap();
        let CallFrame { name, events: _ } = cur;
        match name {
            FrameName::Function { module_id, name, ty_args } => {
                self.record_gas_event(
                    ExecutionGasEvent::CallNative { module_id, fn_name: name, ty_args, cost },
                );
            },
            FrameName::Script => {},
        }
    }

    /// Records the charge of loading a resource.
    pub fn charge_load_resource(&mut self, addr: AccountAddress, ty: TypeTag, cost: InternalGas)
        requires
            old(self).wf(),
        ensures
            final(self).wf(),
            top_extended(
                old(self)@.frames,
                final(self)@.frames,
                seq![ExecutionGasEvent::LoadResource { addr, ty, cost }],
            ),
            final(self)@ == (GasProfilerView {
                frames: final(self)@.frames,
                total_exec_io: sat_add(old(self)@.total_exec_io, cost),
                ..old(self)@
            }),
    {
        self.record_gas_event(ExecutionGasEvent::LoadResource { addr, ty, cost })
    }

    /// Records the IO gas of a write.
    pub fn charge_io_gas_for_write(&mut self, key: StateKey, op: &WriteOp, cost: InternalGas)
        ensures
            final(self)@ == (GasProfilerView {
                total_exec_io: sat_add(old(self)@.total_exec_io, cost),
                write_set_transient: old(self)@.write_set_transient.push(
                    WriteTransient { key, cost, op_type: write_op_type(op) },
                ),
                ..old(self)@
            }),
    {
        self.total_exec_io = self.total_exec_io.saturating_add(cost);
        self.write_set_transient.push(WriteTransient { key, cost, op_type: write_op_type(op) });
    }

    /// Records the IO gas of a write to a group, which is logged as the write
    /// to the group's metadata.
    pub fn charge_io_gas_for_group_write(
        &mut self,
        key: StateKey,
        metadata_op: &WriteOp,
        cost: InternalGas,
    )
        ensures
            final(self)@ == (GasProfilerView {
                total_exec_io: sat_add(old(self)@.total_exec_io, cost),
                write_set_transient: old(self)@.write_set_transient.push(
                    WriteTransient { key, cost, op_type: write_op_type(metadata_op) },
                ),
                ..old(self)@
            }),
    {
        self.charge_io_gas_for_write(key, metadata_op, cost)
    }

    /// Records the intrinsic cost of the transaction.
    pub fn charge_intrinsic_gas_for_transaction(&mut self, cost: InternalGas)
        ensures
            final(self)@ == (GasProfilerView {
                intrinsic_cost: Some(cost),
                total_exec_io: sat_add(old(self)@.total_exec_io, cost),
                ..old(self)@
            }),
    {
        self.intrinsic_cost = Some(cost);
        self.total_exec_io = self.total_exec_io.saturating_add(cost);
    }

    /// Records the storage fees of the transaction, and gives the fee to
    /// charge and what is paid back; `None`, with nothing recorded, where no
    /// storage fee applies.
    ///
    /// The fees recorded are those of the writes, the events and the
    /// transaction itself. The fee to charge is less by the discount on the
    /// events.
    pub fn process_storage_fee_for_all(
        &mut self,
        feature_version: u64,
        gas_unit_price: u64,
        writes: &Vec<WriteFees>,
        events: Vec<EventFee>,
        event_discount: Fee,
        txn_fee: Fee,
    ) -> (r: Option<(Fee, Fee)>)
        requires
            storage_fee_applies(feature_version, gas_unit_price) ==> event_discount
                <= total_event_fee(events@),
        ensures
            !storage_fee_applies(feature_version, gas_unit_price) ==> r is None && final(self)@
                == old(self)@,
            storage_fee_applies(feature_version, gas_unit_price) ==> {
                &&& r == Some(
                    (
                        sat_add(
                            sat_add(
                                total_write_fee(writes@),
                                (total_event_fee(events@) - event_discount) as u64,
                            ),
                            txn_fee,
                        ),
                        total_refund(writes@),
                    ),
                )
                &&& final(self)@ == (GasProfilerView {
                    storage_fees: final(self)@.storage_fees,
                    ..old(self)@
                })
                &&& final(self)@.storage_fees matches Some(fees)
                &&& fees.total == sat_add(
                    sat_add(total_write_fee(writes@), total_event_fee(events@)),
                    txn_fee,
                )
                &&& fees.event_discount == event_discount
                &&& fees.txn_storage == txn_fee
                &&& fees.write_set_storage@ == writes@.map_values(
                    |w: WriteFees| WriteStorage { key: w.key, op_type: w.op_type, cost: w.fee() },
                )
                &&& fees.events@ == events@.map_values(
                    |e: EventFee| EventStorage { ty: e.ty, cost: e.fee },
                )
            },
    {
        if feature_version < STORAGE_FEE_FEATURE_VERSION {
            return None;
        }
        if gas_unit_price == 0 {
            return None;
        }
        let mut write_fee: Fee = 0;
        let mut write_set_storage: Vec<WriteStorage> = Vec::new();
        let mut refund: Fee = 0;
        let mut i: usize = 0;
        while i < writes.len()
            invariant
                i <= writes.len(),
                write_fee == total_write_fee(writes@.take(i as int)),
                refund == total_refund(writes@.take(i as int)),
                write_set_storage@ == writes@.take(i as int).map_values(
                    |w: WriteFees| WriteStorage { key: w.key, op_type: w.op_type, cost: w.fee() },
                ),
            decreases writes.len() - i,
        {
            let write = writes[i];
            let fee: Fee = write.slot_fee.saturating_add(write.bytes_fee);
            proof {
                assert(writes@.take(i + 1).drop_last() == writes@.take(i as int));
                assert(writes@.take(i + 1) == writes@.take(i as int).push(write));
                writes@.take(i as int).lemma_push_map_commute(
                    |w: WriteFees| WriteStorage { key: w.key, op_type: w.op_type, cost: w.fee() },
                    write,
                );
            }
            refund = refund.saturating_add(write.slot_refund);
            write_set_storage.push(WriteStorage { key: write.key, op_type: write.op_type, cost: fee });
            write_fee = write_fee.saturating_add(fee);
            i += 1;
        }
        proof {
            assert(writes@.take(writes.len() as int) == writes@);
        }
        let event_fee: Fee = event_fee_total(&events);
        let ghost all_events = events@;
        let mut event_fees: Vec<EventStorage> = Vec::new();
        for event in it: events
            invariant
                it.seq() == all_events,
                event_fees@ == all_events.take(it.index()).map_values(
                    |e: EventFee| EventStorage { ty: e.ty, cost: e.fee },
                ),
        {
            proof {
                assert(all_events.take(it.index() + 1) == all_events.take(it.index()).push(event));
                all_events.take(it.index()).lemma_push_map_commute(
                    |e: EventFee| EventStorage { ty: e.ty, cost: e.fee },
                    event,
                );
            }
            let EventFee { ty, fee } = event;
            event_fees.push(EventStorage { ty, cost: fee });
        }
        proof {
            assert(all_events.take(all_events.len() as int) == all_events);
        }
        let event_fee_with_discount: Fee = event_fee - event_discount;
        self.storage_fees = Some(
            StorageFees {
                total: write_fee.saturating_add(event_fee).saturating_add(txn_fee),
                write_set_storage,
                events: event_fees,
                event_discount,
                txn_storage: txn_fee,
            },
        );
        Some((write_fee.saturating_add(event_fee_with_discount).saturating_add(txn_fee), refund))
    }

    /// Closes every call that is still under way, and gives the log of the
    /// transaction. Each call that is closed becomes the last event of the
    /// call that made it.
    pub fn finish(self, gas_scaling_factor: u64) -> (log: TransactionGasLog)
        requires
            self.wf(),
        ensures
            log.exec_io.gas_scaling_factor == gas_scaling_factor,
            log.exec_io.total == self@.total_exec_io,
            log.exec_io.intrinsic_cost == match self@.intrinsic_cost {
                Some(cost) => cost,
                None => 0,
            },
            folded(log.exec_io.call_graph, self@.frames, 0),
            log.exec_io.write_set_transient@ == self@.write_set_transient,
            match self@.storage_fees {
                Some(fees) => log.storage == fees,
                None => log.storage.total == 0 && log.storage.write_set_storage@.len() == 0
                    && log.storage.events@.len() == 0 && log.storage.event_discount == 0
                    && log.storage.txn_storage == 0,
            },
    {
        let GasProfiler {
            intrinsic_cost,
            total_exec_io,
            frames,
            write_set_transient,
            storage_fees,
        } = self;
        let ghost stack = frames@;
        let mut frames = frames;
        let mut call_graph = frames.pop().unwrap();
        while frames.len() > 0
            invariant
                frames@.len() < stack.len(),
                frames@ == stack.take(frames@.len() as int),
                folded(call_graph, stack, frames@.len() as int),
            decreases frames.len(),
        {
            let mut last = frames.pop().unwrap();
            last.events.push(ExecutionGasEvent::Call(call_graph));
            proof {
                let k = frames@.len() as int;
                assert(last.name == stack[k].name);
                assert(last.events@.drop_last() == stack[k].events@);
            }
            call_graph = last;
        }
        TransactionGasLog {
            exec_io: ExecutionAndIOCosts {
                gas_scaling_factor,
                total: total_exec_io,
                intrinsic_cost: match intrinsic_cost {
                    Some(cost) => cost,
                    None => 0,
                },
                call_graph,
                write_set_transient,
            },
            storage: match storage_fees {
                Some(fees) => fees,
                None => StorageFees {
                    total: 0,
                    write_set_storage: Vec::new(),
                    events: Vec::new(),
                    event_discount: 0,
                    txn_storage: 0,
                },
            },
        }
    }
}

} // verus!
