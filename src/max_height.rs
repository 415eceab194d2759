//! The height analyzer: one forward pass over a function body that tracks
//! the largest height reached in reachable code.
use crate::context::{
    frame_at, lookup_frame, outcome, pop_spec, push_spec, unreachable_spec, Context,
    ContextView, Frame,
};
use crate::module::{BlockType, FunctionType, Module, ModuleView, Opcode, StackHeightError};
use vstd::prelude::*;

verus! {

/// Count of values that a region of type `ty` leaves when it closes.
pub open spec fn block_arity(ty: BlockType) -> u32 {
    match ty {
        BlockType::NoResult => 0,
        BlockType::Value(_) => 1,
    }
}

/// Count of values that a function of type `ty` returns.
pub open spec fn result_arity(ty: FunctionType) -> u32 {
    if ty.has_result {
        1
    } else {
        0
    }
}

/// Pops `n` values from the state `r`, unless `r` is already a failure.
pub open spec fn then_pop(r: Result<ContextView, StackHeightError>, n: int) -> Result<
    ContextView,
    StackHeightError,
> {
    match r {
        Ok(s) => pop_spec(s, n),
        Err(e) => Err(e),
    }
}

/// Pushes `n` values on the state `r`, unless `r` is already a failure.
pub open spec fn then_push(r: Result<ContextView, StackHeightError>, n: int) -> Result<
    ContextView,
    StackHeightError,
> {
    match r {
        Ok(s) => push_spec(s, n),
        Err(e) => Err(e),
    }
}

/// Marks the innermost region of `r` polymorphic, unless `r` is already a failure.
pub open spec fn then_unreachable(r: Result<ContextView, StackHeightError>) -> Result<
    ContextView,
    StackHeightError,
> {
    match r {
        Ok(s) => unreachable_spec(s),
        Err(e) => Err(e),
    }
}

/// Pops `pops` values, then pushes `pushes` values.
pub open spec fn pop_push(s: ContextView, pops: int, pushes: int) -> Result<
    ContextView,
    StackHeightError,
> {
    then_push(pop_spec(s, pops), pushes)
}

/// Opens a region whose close leaves `end_arity` values and whose branches
/// carry `branch_arity` values.
pub open spec fn enter_spec(s: ContextView, end_arity: u32, branch_arity: u32) -> ContextView {
    ContextView {
        frames: s.frames.push(
            Frame { is_polymorphic: false, end_arity, branch_arity, start_height: s.height },
        ),
        ..s
    }
}

/// Closes the innermost region: the height goes back to the region's start
/// height, and the region's results are pushed.
pub open spec fn end_spec(s: ContextView) -> Result<ContextView, StackHeightError> {
    if s.frames.len() == 0 {
        Err(StackHeightError::EmptyControlStack)
    } else {
        push_spec(
            ContextView { height: s.frames.last().start_height, frames: s.frames.drop_last() },
            s.frames.last().end_arity as int,
        )
    }
}

/// Pops the values that a branch to the region at `depth` carries.
pub open spec fn branch_spec(s: ContextView, depth: u32) -> Result<ContextView, StackHeightError> {
    match lookup_frame(s.frames, depth as int) {
        Ok(f) => pop_spec(s, f.branch_arity as int),
        Err(e) => Err(e),
    }
}

/// Whether every depth of `targets` names an open region.
pub open spec fn targets_in_range(frames: Seq<Frame>, targets: Seq<u32>) -> bool {
    forall|i: int| 0 <= i < targets.len() ==> (#[trigger] targets[i]) < frames.len()
}

/// Whether every region that `targets` names takes `arity` values on a branch.
pub open spec fn targets_share_arity(frames: Seq<Frame>, targets: Seq<u32>, arity: u32) -> bool {
    forall|i: int|
        0 <= i < targets.len() ==> frame_at(frames, #[trigger] targets[i] as int).branch_arity
            == arity
}

/// `br_table`: every target must share the default's branch arity; that many
/// values are popped and the code that follows is unreachable.
pub open spec fn br_table_spec(s: ContextView, targets: Seq<u32>, default: u32) -> Result<
    ContextView,
    StackHeightError,
> {
    match lookup_frame(s.frames, default as int) {
        Err(e) => Err(e),
        Ok(f) => if !targets_in_range(s.frames, targets) {
            Err(StackHeightError::DepthOutOfRange)
        } else if !targets_share_arity(s.frames, targets, f.branch_arity) {
            Err(StackHeightError::BrTableArityMismatch)
        } else {
            then_unreachable(pop_spec(s, f.branch_arity as int))
        },
    }
}

/// A call of a function of type index `x`: its parameters are popped and its
/// result pushed.
pub open spec fn call_type_spec(s: ContextView, x: u32, types: Seq<FunctionType>) -> Result<
    ContextView,
    StackHeightError,
> {
    if x >= types.len() {
        Err(StackHeightError::TypeOutOfRange)
    } else {
        pop_push(s, types[x as int].param_count as int, result_arity(types[x as int]) as int)
    }
}

/// An indirect call through a function of type index `x`: the arguments and
/// the table index that the instruction takes above them are popped, and the
/// result pushed.
pub open spec fn call_indirect_spec(s: ContextView, x: u32, types: Seq<FunctionType>) -> Result<
    ContextView,
    StackHeightError,
> {
    if x >= types.len() {
        Err(StackHeightError::TypeOutOfRange)
    } else {
        then_push(
            then_pop(pop_spec(s, types[x as int].param_count as int), 1),
            result_arity(types[x as int]) as int,
        )
    }
}

/// The signatures that calls are resolved against.
pub struct Signatures {
    /// Every signature, by type index.
    pub types: Seq<FunctionType>,
    /// The type index of each imported function; imports come first in the
    /// function index space.
    pub imported: Seq<u32>,
    /// The type index of each function that the module defines.
    pub functions: Seq<u32>,
}

/// The type index of the function with index `f`, imports first.
pub open spec fn callee_type(sigs: Signatures, f: u32) -> Option<u32> {
    if f < sigs.imported.len() {
        Some(sigs.imported[f as int])
    } else if f - sigs.imported.len() < sigs.functions.len() {
        Some(sigs.functions[f - sigs.imported.len()])
    } else {
        None
    }
}

/// A call of the function with index `f`.
pub open spec fn call_spec(s: ContextView, f: u32, sigs: Signatures) -> Result<
    ContextView,
    StackHeightError,
> {
    match callee_type(sigs, f) {
        Some(x) => call_type_spec(s, x, sigs.types),
        None => Err(StackHeightError::FunctionOutOfRange),
    }
}

/// The effect of one opcode on the state `s`, in a function that returns
/// `func_arity` values and in a module whose signatures are `sigs`.
pub open spec fn step_spec(
    s: ContextView,
    op: Opcode,
    sigs: Signatures,
    func_arity: u32,
) -> Result<ContextView, StackHeightError> {
    match op {
        Opcode::Nop | Opcode::Else => Ok(s),
        Opcode::Block(ty) | Opcode::If(ty) => Ok(
            enter_spec(s, block_arity(ty), block_arity(ty)),
        ),
        Opcode::Loop(ty) => Ok(enter_spec(s, block_arity(ty), 0)),
        Opcode::End => end_spec(s),
        Opcode::Unreachable => unreachable_spec(s),
        Opcode::Br(depth) => then_unreachable(branch_spec(s, depth)),
        Opcode::BrIf(depth) => then_pop(branch_spec(s, depth), 1),
        Opcode::BrTable(targets, default) => br_table_spec(s, targets@, default),
        Opcode::Return => then_unreachable(pop_spec(s, func_arity as int)),
        Opcode::Call(f) => call_spec(s, f, sigs),
        Opcode::CallIndirect(x, _) => call_indirect_spec(s, x, sigs.types),
        Opcode::Drop | Opcode::SetLocal(_) | Opcode::SetGlobal(_) => pop_spec(s, 1),
        Opcode::Select => then_push(then_pop(pop_spec(s, 2), 1), 1),
        Opcode::GetLocal(_) | Opcode::GetGlobal(_) | Opcode::CurrentMemory(_) | Opcode::I32Const(_)
        | Opcode::I64Const(_) | Opcode::F32Const(_) | Opcode::F64Const(_) => push_spec(s, 1),
        Opcode::I32Store(_, _) | Opcode::I64Store(_, _) | Opcode::F32Store(_, _) | Opcode::F64Store(
            _,
            _,
        ) | Opcode::I32Store8(_, _) | Opcode::I32Store16(_, _) | Opcode::I64Store8(_, _)
        | Opcode::I64Store16(_, _) | Opcode::I64Store32(_, _) => pop_spec(s, 2),
        Opcode::I32Eq | Opcode::I32Ne | Opcode::I32LtS | Opcode::I32LtU | Opcode::I32GtS
        | Opcode::I32GtU | Opcode::I32LeS | Opcode::I32LeU | Opcode::I32GeS | Opcode::I32GeU
        | Opcode::I64Eq | Opcode::I64Ne | Opcode::I64LtS | Opcode::I64LtU | Opcode::I64GtS
        | Opcode::I64GtU | Opcode::I64LeS | Opcode::I64LeU | Opcode::I64GeS | Opcode::I64GeU
        | Opcode::F32Eq | Opcode::F32Ne | Opcode::F32Lt | Opcode::F32Gt | Opcode::F32Le
        | Opcode::F32Ge | Opcode::F64Eq | Opcode::F64Ne | Opcode::F64Lt | Opcode::F64Gt
        | Opcode::F64Le | Opcode::F64Ge | Opcode::I32Add | Opcode::I32Sub | Opcode::I32Mul
        | Opcode::I32DivS | Opcode::I32DivU | Opcode::I32RemS | Opcode::I32RemU | Opcode::I32And
        | Opcode::I32Or | Opcode::I32Xor | Opcode::I32Shl | Opcode::I32ShrS | Opcode::I32ShrU
        | Opcode::I32Rotl | Opcode::I32Rotr | Opcode::I64Add | Opcode::I64Sub | Opcode::I64Mul
        | Opcode::I64DivS | Opcode::I64DivU | Opcode::I64RemS | Opcode::I64RemU | Opcode::I64And
        | Opcode::I64Or | Opcode::I64Xor | Opcode::I64Shl | Opcode::I64ShrS | Opcode::I64ShrU
        | Opcode::I64Rotl | Opcode::I64Rotr | Opcode::F32Add | Opcode::F32Sub | Opcode::F32Mul
        | Opcode::F32Div | Opcode::F32Min | Opcode::F32Max | Opcode::F32Copysign | Opcode::F64Add
        | Opcode::F64Sub | Opcode::F64Mul | Opcode::F64Div | Opcode::F64Min | Opcode::F64Max
        | Opcode::F64Copysign => pop_push(s, 2, 1),
        // `tee_local`, loads, `grow_memory`, tests against zero, unary
        // operators and conversions: one operand, one result.
        _ => pop_push(s, 1, 1),
    }
}

/// Raises the running maximum `max` to the height of `s`, unless the
/// innermost region of `s` is polymorphic.
pub open spec fn observe(s: ContextView, max: u32) -> Result<u32, StackHeightError> {
    if s.height > max {
        if s.frames.len() == 0 {
            Err(StackHeightError::EmptyControlStack)
        } else if s.frames.last().is_polymorphic {
            Ok(max)
        } else {
            Ok(s.height)
        }
    } else {
        Ok(max)
    }
}

/// The largest height observed from opcode `i` of `ops` on, starting in
/// state `s` with running maximum `max`.
pub open spec fn analyze_from(
    ops: Seq<Opcode>,
    i: int,
    s: ContextView,
    max: u32,
    sigs: Signatures,
    func_arity: u32,
) -> Result<u32, StackHeightError>
    decreases ops.len() - i,
{
    if i >= ops.len() {
        Ok(max)
    } else {
        match observe(s, max) {
            Err(e) => Err(e),
            Ok(m) => match step_spec(s, ops[i], sigs, func_arity) {
                Err(e) => Err(e),
                Ok(s2) => analyze_from(ops, i + 1, s2, m, sigs, func_arity),
            },
        }
    }
}

/// The state at a function's entry: height zero and the function's own region.
pub open spec fn entry_state(func_arity: u32) -> ContextView {
    ContextView {
        height: 0,
        frames: seq![
            Frame {
                is_polymorphic: false,
                end_arity: func_arity,
                branch_arity: func_arity,
                start_height: 0,
            },
        ],
    }
}

/// The maximum operand-stack height of function `func_idx` of `m`.
pub open spec fn max_stack_height_spec(func_idx: u32, m: ModuleView) -> Result<
    u32,
    StackHeightError,
> {
    if m.functions is None {
        Err(StackHeightError::MissingFunctionSection)
    } else if m.types is None {
        Err(StackHeightError::MissingTypeSection)
    } else if m.bodies is None {
        Err(StackHeightError::MissingCodeSection)
    } else {
        let functions = m.functions->Some_0;
        let types = m.types->Some_0;
        let bodies = m.bodies->Some_0;
        if func_idx >= functions.len() {
            Err(StackHeightError::FunctionOutOfRange)
        } else if functions[func_idx as int] >= types.len() {
            Err(StackHeightError::TypeOutOfRange)
        } else if func_idx >= bodies.len() {
            Err(StackHeightError::FunctionOutOfRange)
        } else {
            let arity = result_arity(types[functions[func_idx as int] as int]);
            let sigs = Signatures { types, imported: m.imported_functions, functions };
            analyze_from(bodies[func_idx as int], 0, entry_state(arity), 0, sigs, arity)
        }
    }
}

/// The frame at distance `depth` from the innermost one, or why there is none.
fn try_frame(ctx: &Context, depth: u32) -> (r: Result<Frame, StackHeightError>)
    ensures
        r == lookup_frame(ctx@.frames, depth as int),
{
    let len = ctx.depth();
    if len == 0 {
        return Err(StackHeightError::EmptyControlStack);
    }
    if depth as usize >= len {
        return Err(StackHeightError::DepthOutOfRange);
    }
    Ok(*ctx.frame(depth))
}

/// Pops `n` values where that is allowed, and says why not elsewhere.
fn try_pop(ctx: &mut Context, n: u32) -> (r: Result<(), StackHeightError>)
    ensures
        outcome(r, final(ctx)@, pop_spec(old(ctx)@, n as int)),
{
    let top = try_frame(ctx, 0)?;
    let height = ctx.height();
    if height == top.start_height && !top.is_polymorphic {
        return Err(StackHeightError::PopBeyondFrame);
    }
    if height != top.start_height && height < n {
        return Err(StackHeightError::StackUnderflow);
    }
    ctx.pop_values(n);
    Ok(())
}

/// Pushes `n` values where the height fits in a `u32`.
fn try_push(ctx: &mut Context, n: u32) -> (r: Result<(), StackHeightError>)
    ensures
        outcome(r, final(ctx)@, push_spec(old(ctx)@, n as int)),
{
    if ctx.height() > u32::MAX - n {
        return Err(StackHeightError::StackOverflow);
    }
    ctx.push_values(n);
    Ok(())
}

/// Marks the innermost region polymorphic, if there is one.
fn try_mark_unreachable(ctx: &mut Context) -> (r: Result<(), StackHeightError>)
    ensures
        outcome(r, final(ctx)@, unreachable_spec(old(ctx)@)),
{
    if ctx.depth() == 0 {
        return Err(StackHeightError::EmptyControlStack);
    }
    ctx.mark_unreachable();
    Ok(())
}

/// Closes the innermost region, if there is one.
fn try_pop_frame(ctx: &mut Context) -> (r: Result<Frame, StackHeightError>)
    ensures
        old(ctx)@.frames.len() == 0 ==> r == Err::<Frame, StackHeightError>(
            StackHeightError::EmptyControlStack,
        ),
        old(ctx)@.frames.len() > 0 ==> r == Ok::<Frame, StackHeightError>(old(ctx)@.frames.last())
            && final(ctx)@.frames == old(ctx)@.frames.drop_last() && final(ctx)@.height == old(
            ctx,
        )@.height,
{
    if ctx.depth() == 0 {
        return Err(StackHeightError::EmptyControlStack);
    }
    Ok(ctx.pop_frame())
}

/// Pops `pops` values, then pushes `pushes` values.
fn pop_push_values(ctx: &mut Context, pops: u32, pushes: u32) -> (r: Result<(), StackHeightError>)
    ensures
        outcome(r, final(ctx)@, pop_push(old(ctx)@, pops as int, pushes as int)),
{
    try_pop(ctx, pops)?;
    try_push(ctx, pushes)
}

/// Opens a region of type `ty`; a loop's branches carry no values.
fn enter(ctx: &mut Context, ty: BlockType, is_loop: bool)
    ensures
        final(ctx)@ == enter_spec(
            old(ctx)@,
            block_arity(ty),
            if is_loop {
                0
            } else {
                block_arity(ty)
            },
        ),
{
    let end_arity: u32 = match ty {
        BlockType::NoResult => 0,
        BlockType::Value(_) => 1,
    };
    let branch_arity: u32 = if is_loop {
        0
    } else {
        end_arity
    };
    let height = ctx.height();
    ctx.push_frame(Frame { is_polymorphic: false, end_arity, branch_arity, start_height: height });
}

/// Pops the values that a branch to the region at `depth` carries.
fn branch(ctx: &mut Context, depth: u32) -> (r: Result<(), StackHeightError>)
    ensures
        outcome(r, final(ctx)@, branch_spec(old(ctx)@, depth)),
{
    let target_arity = try_frame(ctx, depth)?.branch_arity;
    try_pop(ctx, target_arity)
}

/// `br_table`: checks that every target shares the default's branch arity,
/// pops that many values and marks the code that follows unreachable.
fn br_table(ctx: &mut Context, targets: &Vec<u32>, default: u32) -> (r: Result<
    (),
    StackHeightError,
>)
    ensures
        outcome(r, final(ctx)@, br_table_spec(old(ctx)@, targets@, default)),
{
    let arity_of_default = try_frame(ctx, default)?.branch_arity;
    let mut i: usize = 0;
    while i < targets.len()
        invariant
            lookup_frame(ctx@.frames, default as int) is Ok,
            i <= targets.len(),
            targets_in_range(ctx@.frames, targets@.subrange(0, i as int)),
        decreases targets.len() - i,
    {
        if try_frame(ctx, targets[i]).is_err() {
            proof {
                assert(!targets_in_range(ctx@.frames, targets@));
            }
            return Err(StackHeightError::DepthOutOfRange);
        }
        proof {
            assert(targets_in_range(ctx@.frames, targets@.subrange(0, i + 1)));
        }
        i += 1;
    }
    proof {
        assert(targets@.subrange(0, targets@.len() as int) =~= targets@);
    }
    let mut j: usize = 0;
    while j < targets.len()
        invariant
            lookup_frame(ctx@.frames, default as int) == Ok::<Frame, StackHeightError>(
                frame_at(ctx@.frames, default as int),
            ),
            arity_of_default == frame_at(ctx@.frames, default as int).branch_arity,
            targets_in_range(ctx@.frames, targets@),
            j <= targets.len(),
            targets_share_arity(ctx@.frames, targets@.subrange(0, j as int), arity_of_default),
        decreases targets.len() - j,
    {
        let arity = match try_frame(ctx, targets[j]) {
            Ok(f) => f.branch_arity,
            Err(e) => return Err(e),
        };
        if arity != arity_of_default {
            proof {
                assert(!targets_share_arity(ctx@.frames, targets@, arity_of_default));
            }
            return Err(StackHeightError::BrTableArityMismatch);
        }
        proof {
            assert(targets_share_arity(
                ctx@.frames,
                targets@.subrange(0, j + 1),
                arity_of_default,
            ));
        }
        j += 1;
    }
    proof {
        assert(targets@.subrange(0, targets@.len() as int) =~= targets@);
    }
    try_pop(ctx, arity_of_default)?;
    try_mark_unreachable(ctx)
}

/// A call of a function of type index `x`.
fn call(ctx: &mut Context, x: u32, types: &Vec<FunctionType>) -> (r: Result<(), StackHeightError>)
    ensures
        outcome(r, final(ctx)@, call_type_spec(old(ctx)@, x, types@)),
{
    if x as usize >= types.len() {
        return Err(StackHeightError::TypeOutOfRange);
    }
    let ty = types[x as usize];
    // Pop the arguments, push the result.
    let callee_arity: u32 = if ty.has_result {
        1
    } else {
        0
    };
    pop_push_values(ctx, ty.param_count, callee_arity)
}

/// Applies the stack effect of one opcode.
fn step(
    ctx: &mut Context,
    op: &Opcode,
    types: &Vec<FunctionType>,
    imported: &Vec<u32>,
    functions: &Vec<u32>,
    func_arity: u32,
) -> (r: Result<(), StackHeightError>)
    ensures
        outcome(
            r,
            final(ctx)@,
            step_spec(
                old(ctx)@,
                *op,
                Signatures { types: types@, imported: imported@, functions: functions@ },
                func_arity,
            ),
        ),
{
    match op {
        Opcode::Nop => Ok(()),
        Opcode::Block(ty) | Opcode::If(ty) => {
            enter(ctx, *ty, false);
            Ok(())
        },
        Opcode::Loop(ty) => {
            enter(ctx, *ty, true);
            Ok(())
        },
        // The region was opened by its `if`, and stays open.
        Opcode::Else => Ok(()),
        Opcode::End => {
            let frame = try_pop_frame(ctx)?;
            ctx.trunc(frame.start_height);
            try_push(ctx, frame.end_arity)
        },
        Opcode::Unreachable => try_mark_unreachable(ctx),
        Opcode::Br(target) => {
            branch(ctx, *target)?;
            // Control never reaches the next instruction.
            try_mark_unreachable(ctx)
        },
        Opcode::BrIf(target) => {
            branch(ctx, *target)?;
            // The condition.
            try_pop(ctx, 1)
        },
        Opcode::BrTable(targets, default_target) => br_table(ctx, targets, *default_target),
        Opcode::Return => {
            try_pop(ctx, func_arity)?;
            try_mark_unreachable(ctx)
        },
        Opcode::Call(f) => {
            let x = if (*f as usize) < imported.len() {
                imported[*f as usize]
            } else if (*f as usize) - imported.len() < functions.len() {
                functions[(*f as usize) - imported.len()]
            } else {
                return Err(StackHeightError::FunctionOutOfRange);
            };
            call(ctx, x, types)
        },
        Opcode::CallIndirect(x, _) => {
            if *x as usize >= types.len() {
                return Err(StackHeightError::TypeOutOfRange);
            }
            let ty = types[*x as usize];
            let callee_arity: u32 = if ty.has_result {
                1
            } else {
                0
            };
            try_pop(ctx, ty.param_count)?;
            // The table index.
            try_pop(ctx, 1)?;
            try_push(ctx, callee_arity)
        },
        Opcode::Drop => try_pop(ctx, 1),
        Opcode::Select => {
            // Two candidates, then the condition; the chosen value stays.
            try_pop(ctx, 2)?;
            try_pop(ctx, 1)?;
            try_push(ctx, 1)
        },
        Opcode::GetLocal(_) | Opcode::GetGlobal(_) => try_push(ctx, 1),
        Opcode::SetLocal(_) | Opcode::SetGlobal(_) => try_pop(ctx, 1),
        Opcode::TeeLocal(_) => pop_push_values(ctx, 1, 1),
        // The address in, the loaded value out.
        Opcode::I32Load(_, _)
        | Opcode::I64Load(_, _)
        | Opcode::F32Load(_, _)
        | Opcode::F64Load(_, _)
        | Opcode::I32Load8S(_, _)
        | Opcode::I32Load8U(_, _)
        | Opcode::I32Load16S(_, _)
        | Opcode::I32Load16U(_, _)
        | Opcode::I64Load8S(_, _)
        | Opcode::I64Load8U(_, _)
        | Opcode::I64Load16S(_, _)
        | Opcode::I64Load16U(_, _)
        | Opcode::I64Load32S(_, _)
        | Opcode::I64Load32U(_, _) => pop_push_values(ctx, 1, 1),
        // The address and the value.
        Opcode::I32Store(_, _)
        | Opcode::I64Store(_, _)
        | Opcode::F32Store(_, _)
        | Opcode::F64Store(_, _)
        | Opcode::I32Store8(_, _)
        | Opcode::I32Store16(_, _)
        | Opcode::I64Store8(_, _)
        | Opcode::I64Store16(_, _)
        | Opcode::I64Store32(_, _) => try_pop(ctx, 2),
        Opcode::CurrentMemory(_) => try_push(ctx, 1),
        // The count of pages in, the previous size out.
        Opcode::GrowMemory(_) => pop_push_values(ctx, 1, 1),
        Opcode::I32Const(_) | Opcode::I64Const(_) | Opcode::F32Const(_) | Opcode::F64Const(_) => {
            try_push(ctx, 1)
        },
        Opcode::I32Eqz | Opcode::I64Eqz => pop_push_values(ctx, 1, 1),
        Opcode::I32Eq
        | Opcode::I32Ne
        | Opcode::I32LtS
        | Opcode::I32LtU
        | Opcode::I32GtS
        | Opcode::I32GtU
        | Opcode::I32LeS
        | Opcode::I32LeU
        | Opcode::I32GeS
        | Opcode::I32GeU
        | Opcode::I64Eq
        | Opcode::I64Ne
        | Opcode::I64LtS
        | Opcode::I64LtU
        | Opcode::I64GtS
        | Opcode::I64GtU
        | Opcode::I64LeS
        | Opcode::I64LeU
        | Opcode::I64GeS
        | Opcode::I64GeU
        | Opcode::F32Eq
        | Opcode::F32Ne
        | Opcode::F32Lt
        | Opcode::F32Gt
        | Opcode::F32Le
        | Opcode::F32Ge
        | Opcode::F64Eq
        | Opcode::F64Ne
        | Opcode::F64Lt
        | Opcode::F64Gt
        | Opcode::F64Le
        | Opcode::F64Ge => pop_push_values(ctx, 2, 1),
        Opcode::I32Clz
        | Opcode::I32Ctz
        | Opcode::I32Popcnt
        | Opcode::I64Clz
        | Opcode::I64Ctz
        | Opcode::I64Popcnt
        | Opcode::F32Abs
        | Opcode::F32Neg
        | Opcode::F32Ceil
        | Opcode::F32Floor
        | Opcode::F32Trunc
        | Opcode::F32Nearest
        | Opcode::F32Sqrt
        | Opcode::F64Abs
        | Opcode::F64Neg
        | Opcode::F64Ceil
        | Opcode::F64Floor
        | Opcode::F64Trunc
        | Opcode::F64Nearest
        | Opcode::F64Sqrt => pop_push_values(ctx, 1, 1),
        Opcode::I32Add
        | Opcode::I32Sub
        | Opcode::I32Mul
        | Opcode::I32DivS
        | Opcode::I32DivU
        | Opcode::I32RemS
        | Opcode::I32RemU
        | Opcode::I32And
        | Opcode::I32Or
        | Opcode::I32Xor
        | Opcode::I32Shl
        | Opcode::I32ShrS
        | Opcode::I32ShrU
        | Opcode::I32Rotl
        | Opcode::I32Rotr
        | Opcode::I64Add
        | Opcode::I64Sub
        | Opcode::I64Mul
        | Opcode::I64DivS
        | Opcode::I64DivU
        | Opcode::I64RemS
        | Opcode::I64RemU
        | Opcode::I64And
        | Opcode::I64Or
        | Opcode::I64Xor
        | Opcode::I64Shl
        | Opcode::I64ShrS
        | Opcode::I64ShrU
        | Opcode::I64Rotl
        | Opcode::I64Rotr
        | Opcode::F32Add
        | Opcode::F32Sub
        | Opcode::F32Mul
        | Opcode::F32Div
        | Opcode::F32Min
        | Opcode::F32Max
        | Opcode::F32Copysign
        | Opcode::F64Add
        | Opcode::F64Sub
        | Opcode::F64Mul
        | Opcode::F64Div
        | Opcode::F64Min
        | Opcode::F64Max
        | Opcode::F64Copysign => pop_push_values(ctx, 2, 1),
        Opcode::I32WrapI64
        | Opcode::I32TruncSF32
        | Opcode::I32TruncUF32
        | Opcode::I32TruncSF64
        | Opcode::I32TruncUF64
        | Opcode::I64ExtendSI32
        | Opcode::I64ExtendUI32
        | Opcode::I64TruncSF32
        | Opcode::I64TruncUF32
        | Opcode::I64TruncSF64
        | Opcode::I64TruncUF64
        | Opcode::F32ConvertSI32
        | Opcode::F32ConvertUI32
        | Opcode::F32ConvertSI64
        | Opcode::F32ConvertUI64
        | Opcode::F32DemoteF64
        | Opcode::F64ConvertSI32
        | Opcode::F64ConvertUI32
        | Opcode::F64ConvertSI64
        | Opcode::F64ConvertUI64
        | Opcode::F64PromoteF32
        | Opcode::I32ReinterpretF32
        | Opcode::I64ReinterpretF64
        | Opcode::F32ReinterpretI32
        | Opcode::F64ReinterpretI64 => pop_push_values(ctx, 1, 1),
    }
}

/// Whether function `func_idx` of `m` can be analysed: its sections and
/// indices are present, every branch names an open region, no pop reaches
/// below a region that is not polymorphic, and every height fits in a `u32`.
pub open spec fn analysable(func_idx: u32, m: ModuleView) -> bool {
    max_stack_height_spec(func_idx, m) is Ok
}

/// Computes the maximum height of the operand stack reached in reachable
/// code of function `func_idx` of `module`, which must be valid.
///
/// Heights in polymorphic (unreachable) regions are not counted.
pub fn max_stack_height(func_idx: u32, module: &Module) -> (r: u32)
    requires
        analysable(func_idx, module@),
    ensures
        max_stack_height_spec(func_idx, module@) == Ok::<u32, StackHeightError>(r),
{
    match try_max_stack_height(func_idx, module) {
        Ok(height) => height,
        Err(_) => 0,
    }
}

/// Computes what [`max_stack_height`] computes, on any module: on one that
/// is not valid, the analysis stops at the first defect and says which.
pub fn try_max_stack_height(func_idx: u32, module: &Module) -> (r: Result<u32, StackHeightError>)
    ensures
        r == max_stack_height_spec(func_idx, module@),
{
    let func_section = match &module.functions {
        Some(f) => f,
        None => return Err(StackHeightError::MissingFunctionSection),
    };
    let type_section = match &module.types {
        Some(t) => t,
        None => return Err(StackHeightError::MissingTypeSection),
    };
    let code_section = match &module.bodies {
        Some(b) => b,
        None => return Err(StackHeightError::MissingCodeSection),
    };
    if func_idx as usize >= func_section.len() {
        return Err(StackHeightError::FunctionOutOfRange);
    }
    let func_sig_idx = func_section[func_idx as usize];
    if func_sig_idx as usize >= type_section.len() {
        return Err(StackHeightError::TypeOutOfRange);
    }
    if func_idx as usize >= code_section.len() {
        return Err(StackHeightError::FunctionOutOfRange);
    }
    let func_signature = type_section[func_sig_idx as usize];
    let opcodes = &code_section[func_idx as usize];
    proof {
        assert(opcodes@ == module@.bodies->Some_0[func_idx as int]);
    }

    // The implicit region of the function body: a branch to it, and its
    // final `end`, deal with the function's results.
    let func_arity: u32 = if func_signature.has_result {
        1
    } else {
        0
    };
    let mut ctx = Context::new();
    ctx.push_frame(
        Frame {
            is_polymorphic: false,
            end_arity: func_arity,
            branch_arity: func_arity,
            start_height: 0,
        },
    );
    proof {
        assert(ctx@ == entry_state(func_arity));
    }
    let mut max_height: u32 = 0;
    let mut pc: usize = 0;
    while pc < opcodes.len()
        invariant
            pc <= opcodes.len(),
            analyze_from(
                opcodes@,
                pc as int,
                ctx@,
                max_height,
                Signatures {
                    types: type_section@,
                    imported: module.imported_functions@,
                    functions: func_section@,
                },
                func_arity,
            )
                == max_stack_height_spec(func_idx, module@),
        decreases opcodes.len() - pc,
    {
        // Heights in unreachable code do not count.
        if ctx.height() > max_height && !try_frame(&ctx, 0)?.is_polymorphic {
            max_height = ctx.height();
        }
        step(
            &mut ctx,
            &opcodes[pc],
            type_section,
            &module.imported_functions,
            func_section,
            func_arity,
        )?;
        pc += 1;
    }
    Ok(max_height)
}

/// The state before opcode `k` of `ops` and the running maximum there, when
/// the analysis starts in state `s` with running maximum `max`.
pub open spec fn state_before(
    ops: Seq<Opcode>,
    s: ContextView,
    max: u32,
    sigs: Signatures,
    func_arity: u32,
    k: nat,
) -> Result<(ContextView, u32), StackHeightError>
    decreases k,
{
    if k == 0 {
        Ok((s, max))
    } else {
        match state_before(ops, s, max, sigs, func_arity, (k - 1) as nat) {
            Err(e) => Err(e),
            Ok((sp, mp)) => match observe(sp, mp) {
                Err(e) => Err(e),
                Ok(m) => match step_spec(sp, ops[k - 1], sigs, func_arity) {
                    Err(e) => Err(e),
                    Ok(s2) => Ok((s2, m)),
                },
            },
        }
    }
}

proof fn lemma_analysis_resumes(
    ops: Seq<Opcode>,
    s: ContextView,
    max: u32,
    sigs: Signatures,
    func_arity: u32,
    k: nat,
)
    requires
        k <= ops.len(),
        state_before(ops, s, max, sigs, func_arity, k) is Ok,
    ensures
        analyze_from(ops, 0, s, max, sigs, func_arity) == analyze_from(
            ops,
            k as int,
            state_before(ops, s, max, sigs, func_arity, k)->Ok_0.0,
            state_before(ops, s, max, sigs, func_arity, k)->Ok_0.1,
            sigs,
            func_arity,
        ),
    decreases k,
{
    if k > 0 {
        lemma_analysis_resumes(ops, s, max, sigs, func_arity, (k - 1) as nat);
    }
}

/// A function whose analysis reaches a `br_table` one of whose targets takes
/// another count of values on a branch than its default target is rejected:
/// no height is reported for it.
pub proof fn lemma_analysis_rejects_br_table_arity_mismatch(func_idx: u32, m: ModuleView, k: nat)
    requires
        m.functions is Some,
        m.types is Some,
        m.bodies is Some,
        func_idx < m.functions->Some_0.len(),
        m.functions->Some_0[func_idx as int] < m.types->Some_0.len(),
        func_idx < m.bodies->Some_0.len(),
        k < m.bodies->Some_0[func_idx as int].len(),
        ({
            let types = m.types->Some_0;
            let functions = m.functions->Some_0;
            let ops = m.bodies->Some_0[func_idx as int];
            let arity = result_arity(types[functions[func_idx as int] as int]);
            let sigs = Signatures { types, imported: m.imported_functions, functions };
            let st = state_before(ops, entry_state(arity), 0, sigs, arity, k);
            st is Ok && match ops[k as int] {
                Opcode::BrTable(targets, default) => {
                    let frames = st->Ok_0.0.frames;
                    &&& default < frames.len()
                    &&& targets_in_range(frames, targets@)
                    &&& exists|i: int|
                        0 <= i < targets@.len() && frame_at(frames, #[trigger] targets@[i] as int).branch_arity
                            != frame_at(frames, default as int).branch_arity
                },
                _ => false,
            }
        }),
    ensures
        max_stack_height_spec(func_idx, m) == Err::<u32, StackHeightError>(
            StackHeightError::BrTableArityMismatch,
        ),
        !analysable(func_idx, m),
{
    let types = m.types->Some_0;
    let functions = m.functions->Some_0;
    let ops = m.bodies->Some_0[func_idx as int];
    let arity = result_arity(types[functions[func_idx as int] as int]);
    let sigs = Signatures { types, imported: m.imported_functions, functions };
    let st = state_before(ops, entry_state(arity), 0, sigs, arity, k)->Ok_0;
    lemma_analysis_resumes(ops, entry_state(arity), 0, sigs, arity, k);
    match ops[k as int] {
        Opcode::BrTable(targets, default) => {
            let i = choose|i: int|
                0 <= i < targets@.len() && frame_at(st.0.frames, #[trigger] targets@[i] as int).branch_arity
                    != frame_at(st.0.frames, default as int).branch_arity;
            lemma_br_table_arity_mismatch_rejected(st.0, targets, default, i, sigs, arity);
        },
        _ => {},
    }
}

/// A `br_table` one of whose targets takes another count of values on a
/// branch than its default target is rejected, whatever the state otherwise.
pub proof fn lemma_br_table_arity_mismatch_rejected(
    s: ContextView,
    targets: Vec<u32>,
    default: u32,
    i: int,
    sigs: Signatures,
    func_arity: u32,
)
    requires
        default < s.frames.len(),
        targets_in_range(s.frames, targets@),
        0 <= i < targets@.len(),
        frame_at(s.frames, targets@[i] as int).branch_arity != frame_at(
            s.frames,
            default as int,
        ).branch_arity,
    ensures
        step_spec(s, Opcode::BrTable(targets, default), sigs, func_arity) == Err::<
            ContextView,
            StackHeightError,
        >(StackHeightError::BrTableArityMismatch),
{
    let arity = frame_at(s.frames, default as int).branch_arity;
    assert(!targets_share_arity(s.frames, targets@, arity)) by {
        assert(frame_at(s.frames, targets@[i] as int).branch_arity != arity);
    }
}

/// The analysis is a function of the module's contents alone: analysing the
/// same function of equal modules, or of one module twice, gives one result.
pub proof fn lemma_analysis_deterministic(func_idx: u32, a: &Module, b: &Module)
    requires
        a@ == b@,
    ensures
        max_stack_height_spec(func_idx, a@) == max_stack_height_spec(func_idx, b@),
        analysable(func_idx, a@) == analysable(func_idx, b@),
{
}

/// Whether `op` only pushes one constant.
pub open spec fn is_constant(op: Opcode) -> bool {
    op is I32Const || op is I64Const || op is F32Const || op is F64Const
}

/// Constants pushed in a polymorphic region leave the running maximum as it
/// is, however many of them there are.
pub proof fn lemma_constants_after_unreachable_not_counted(
    ops: Seq<Opcode>,
    i: int,
    s: ContextView,
    max: u32,
    sigs: Signatures,
    func_arity: u32,
)
    requires
        0 <= i <= ops.len(),
        s.frames.len() > 0,
        s.frames.last().is_polymorphic,
        forall|j: int| i <= j < ops.len() ==> is_constant(#[trigger] ops[j]),
        s.height + (ops.len() - i) <= u32::MAX,
    ensures
        analyze_from(ops, i, s, max, sigs, func_arity) == Ok::<u32, StackHeightError>(max),
    decreases ops.len() - i,
{
    if i < ops.len() {
        assert(is_constant(ops[i]));
        let s2 = ContextView { height: (s.height + 1) as u32, ..s };
        assert(step_spec(s, ops[i], sigs, func_arity) == Ok::<ContextView, StackHeightError>(s2));
        lemma_constants_after_unreachable_not_counted(ops, i + 1, s2, max, sigs, func_arity);
    }
}

/// The reported maximum is never below the running maximum it started from,
/// nor below the height at any reachable point before an opcode, whatever
/// that opcode pops afterwards.
pub proof fn lemma_max_bounds_observed_heights(
    ops: Seq<Opcode>,
    i: int,
    s: ContextView,
    max: u32,
    sigs: Signatures,
    func_arity: u32,
)
    requires
        0 <= i,
        analyze_from(ops, i, s, max, sigs, func_arity) is Ok,
    ensures
        analyze_from(ops, i, s, max, sigs, func_arity)->Ok_0 >= max,
        i < ops.len() && s.frames.len() > 0 && !s.frames.last().is_polymorphic ==> analyze_from(
            ops,
            i,
            s,
            max,
            sigs,
            func_arity,
        )->Ok_0 >= s.height,
    decreases ops.len() - i,
{
    if i < ops.len() {
        let m = observe(s, max)->Ok_0;
        let s2 = step_spec(s, ops[i], sigs, func_arity)->Ok_0;
        lemma_max_bounds_observed_heights(ops, i + 1, s2, m, sigs, func_arity);
    }
}

/// Whether every open region leaves at most one value and takes at most one
/// value on a branch.
pub open spec fn arities_bounded(frames: Seq<Frame>) -> bool {
    forall|i: int|
        0 <= i < frames.len() ==> (#[trigger] frames[i]).end_arity <= 1 && frames[i].branch_arity
            <= 1
}

/// Whether `after` is `before` with its innermost region marked polymorphic.
pub open spec fn marks_innermost(before: Seq<Frame>, after: Seq<Frame>) -> bool {
    before.len() > 0 && after == before.update(
        before.len() - 1,
        Frame { is_polymorphic: true, ..before.last() },
    )
}

proof fn lemma_marking_keeps_arities_bounded(before: Seq<Frame>, after: Seq<Frame>)
    requires
        arities_bounded(before),
        marks_innermost(before, after),
    ensures
        arities_bounded(after),
{
    assert forall|i: int| 0 <= i < after.len() implies (#[trigger] after[i]).end_arity <= 1
        && after[i].branch_arity <= 1 by {
        assert(before[i].end_arity <= 1 && before[i].branch_arity <= 1);
    }
}

/// No multi-value regions: a step keeps every open region's arities at zero
/// or one.
pub proof fn lemma_step_keeps_arities_bounded(
    s: ContextView,
    op: Opcode,
    sigs: Signatures,
    func_arity: u32,
)
    requires
        arities_bounded(s.frames),
        step_spec(s, op, sigs, func_arity) is Ok,
    ensures
        arities_bounded(step_spec(s, op, sigs, func_arity)->Ok_0.frames),
{
    let s2 = step_spec(s, op, sigs, func_arity)->Ok_0;
    match op {
        Opcode::Block(ty) | Opcode::If(ty) | Opcode::Loop(ty) => {
            assert(s2.frames.drop_last() =~= s.frames);
            assert(s2.frames.last().end_arity <= 1 && s2.frames.last().branch_arity <= 1);
            assert forall|i: int| 0 <= i < s2.frames.len() implies (
            #[trigger] s2.frames[i]).end_arity <= 1 && s2.frames[i].branch_arity <= 1 by {
                if i < s.frames.len() {
                    assert(s2.frames[i] == s.frames[i]);
                }
            }
        },
        Opcode::End => {
            assert(s2.frames =~= s.frames.drop_last());
            assert forall|i: int| 0 <= i < s2.frames.len() implies (
            #[trigger] s2.frames[i]).end_arity <= 1 && s2.frames[i].branch_arity <= 1 by {
                assert(s2.frames[i] == s.frames[i]);
            }
        },
        Opcode::Unreachable | Opcode::Br(_) | Opcode::BrTable(_, _) | Opcode::Return => {
            assert(marks_innermost(s.frames, s2.frames));
            lemma_marking_keeps_arities_bounded(s.frames, s2.frames);
        },
        _ => {
            assert(s2.frames == s.frames);
        },
    }
}

} // verus!
