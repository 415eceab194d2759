use pwasm_stack_height::{
    max_stack_height, try_max_stack_height, BlockType, Context, Frame, FunctionType, Module, Opcode, StackHeightError,
    ValueType,
};

fn void_type() -> FunctionType {
    FunctionType { param_count: 0, has_result: false }
}

fn i32_result_type() -> FunctionType {
    FunctionType { param_count: 0, has_result: true }
}

/// A module with one function of type `ty` and the body `code`.
fn single_function(ty: FunctionType, code: Vec<Opcode>) -> Module {
    Module {
        types: Some(vec![ty]),
        imported_functions: vec![],
        functions: Some(vec![0]),
        bodies: Some(vec![code]),
    }
}

#[test]
fn simple_test() {
    let module = single_function(
        void_type(),
        vec![
            Opcode::I32Const(1),
            Opcode::I32Const(2),
            Opcode::I32Const(3),
            Opcode::Drop,
            Opcode::Drop,
            Opcode::Drop,
            Opcode::End,
        ],
    );

    let height = max_stack_height(0, &module);
    assert_eq!(height, 3);
}

#[test]
fn implicit_and_explicit_return() {
    let module = single_function(
        i32_result_type(),
        vec![Opcode::I32Const(0), Opcode::Return, Opcode::End],
    );

    let height = max_stack_height(0, &module);
    assert_eq!(height, 1);
}

#[test]
fn dont_count_in_unreachable() {
    let module = single_function(
        i32_result_type(),
        vec![Opcode::Unreachable, Opcode::GrowMemory(0), Opcode::End],
    );

    let height = max_stack_height(0, &module);
    assert_eq!(height, 0);
}

#[test]
fn yet_another_test() {
    let module = single_function(
        void_type(),
        vec![
            Opcode::I32Const(0),
            Opcode::I32Const(1),
            Opcode::Drop,
            Opcode::Drop,
            Opcode::Unreachable,
            Opcode::I32Const(0),
            Opcode::I32Const(1),
            Opcode::I32Const(2),
            Opcode::End,
        ],
    );

    let height = max_stack_height(0, &module);
    assert_eq!(height, 2);
}

#[test]
fn constants_after_unreachable_count_nothing() {
    let module = single_function(
        void_type(),
        vec![
            Opcode::Unreachable,
            Opcode::I32Const(0),
            Opcode::I64Const(1),
            Opcode::F32Const(0),
            Opcode::End,
        ],
    );
    assert_eq!(max_stack_height(0, &module), 0);
}

#[test]
fn call_counts_arguments_before_the_call() {
    let module = Module {
        types: Some(vec![void_type(), FunctionType { param_count: 2, has_result: true }]),
        imported_functions: vec![],
        functions: Some(vec![0, 1]),
        bodies: Some(vec![
            vec![
                Opcode::I32Const(1),
                Opcode::I32Const(2),
                Opcode::Call(1),
                Opcode::Drop,
                Opcode::End,
            ],
            vec![Opcode::GetLocal(0), Opcode::GetLocal(1), Opcode::I32Add, Opcode::End],
        ]),
    };
    assert_eq!(max_stack_height(0, &module), 2);
    assert_eq!(max_stack_height(1, &module), 2);
}

#[test]
fn call_resolves_imported_functions_first() {
    // Function index 0 is the import, of type 1 (three parameters, no result);
    // function index 1 is the defined function, of type 0.
    let module = Module {
        types: Some(vec![void_type(), FunctionType { param_count: 3, has_result: false }]),
        imported_functions: vec![1],
        functions: Some(vec![0]),
        bodies: Some(vec![vec![
            Opcode::I32Const(1),
            Opcode::I32Const(2),
            Opcode::I32Const(3),
            Opcode::Call(0),
            Opcode::I32Const(4),
            Opcode::Drop,
            Opcode::End,
        ]]),
    };
    assert_eq!(max_stack_height(0, &module), 3);
}

#[test]
fn call_indirect_uses_the_type_index() {
    let module = Module {
        types: Some(vec![void_type(), FunctionType { param_count: 1, has_result: true }]),
        imported_functions: vec![],
        functions: Some(vec![0]),
        bodies: Some(vec![vec![
            Opcode::I32Const(7),
            Opcode::I32Const(0),
            Opcode::CallIndirect(1, 0),
            Opcode::Drop,
            Opcode::End,
        ]]),
    };
    assert_eq!(max_stack_height(0, &module), 2);
}

#[test]
fn repeated_analysis_gives_the_same_height() {
    let module = single_function(
        void_type(),
        vec![
            Opcode::I32Const(1),
            Opcode::I32Const(2),
            Opcode::I32Add,
            Opcode::Drop,
            Opcode::End,
        ],
    );
    let first = max_stack_height(0, &module);
    let second = max_stack_height(0, &module);
    assert_eq!(first, 2);
    assert_eq!(first, second);
}

#[test]
fn nested_blocks_restore_their_start_height() {
    let module = single_function(
        i32_result_type(),
        vec![
            Opcode::I32Const(1),
            Opcode::Block(BlockType::Value(ValueType::I32)),
            Opcode::I32Const(2),
            Opcode::I32Const(3),
            Opcode::I32Add,
            Opcode::End,
            Opcode::I32Add,
            Opcode::End,
        ],
    );
    assert_eq!(max_stack_height(0, &module), 3);
}

// `if` keeps its condition on the stack and `else` leaves the height as the
// first arm left it, so both arms are counted on top of each other: an
// over-estimate, never an under-estimate.
#[test]
fn if_else_with_a_result() {
    let module = single_function(
        i32_result_type(),
        vec![
            Opcode::I32Const(1),
            Opcode::If(BlockType::Value(ValueType::I32)),
            Opcode::I32Const(2),
            Opcode::Else,
            Opcode::I32Const(3),
            Opcode::End,
            Opcode::End,
        ],
    );
    assert_eq!(max_stack_height(0, &module), 3);
}

#[test]
fn branch_to_loop_carries_no_value() {
    let module = single_function(
        void_type(),
        vec![
            Opcode::Loop(BlockType::NoResult),
            Opcode::GetLocal(0),
            Opcode::BrIf(0),
            Opcode::End,
            Opcode::End,
        ],
    );
    assert_eq!(max_stack_height(0, &module), 1);
}

#[test]
fn br_table_with_consistent_targets() {
    let module = single_function(
        void_type(),
        vec![
            Opcode::Block(BlockType::NoResult),
            Opcode::Block(BlockType::NoResult),
            Opcode::I32Const(0),
            Opcode::BrTable(vec![0, 1], 0),
            Opcode::End,
            Opcode::End,
            Opcode::End,
        ],
    );
    assert_eq!(max_stack_height(0, &module), 1);
}

#[test]
fn br_table_with_mismatched_arities_is_rejected() {
    let module = single_function(
        void_type(),
        vec![
            Opcode::Block(BlockType::Value(ValueType::I32)),
            Opcode::Block(BlockType::NoResult),
            Opcode::I32Const(0),
            Opcode::I32Const(0),
            Opcode::BrTable(vec![1], 0),
            Opcode::End,
            Opcode::End,
            Opcode::Drop,
            Opcode::End,
        ],
    );
    assert_eq!(try_max_stack_height(0, &module), Err(StackHeightError::BrTableArityMismatch));
}

#[test]
fn br_table_with_a_target_out_of_range_is_rejected() {
    let module = single_function(
        void_type(),
        vec![Opcode::I32Const(0), Opcode::BrTable(vec![5], 0), Opcode::End],
    );
    assert_eq!(try_max_stack_height(0, &module), Err(StackHeightError::DepthOutOfRange));
}

#[test]
fn branch_out_of_range_is_rejected() {
    let module = single_function(void_type(), vec![Opcode::Br(1), Opcode::End]);
    assert_eq!(try_max_stack_height(0, &module), Err(StackHeightError::DepthOutOfRange));
}

#[test]
fn popping_below_the_region_is_rejected() {
    let module = single_function(void_type(), vec![Opcode::Drop, Opcode::End]);
    assert_eq!(try_max_stack_height(0, &module), Err(StackHeightError::PopBeyondFrame));
}

#[test]
fn stack_underflow_is_rejected() {
    let module = single_function(
        void_type(),
        vec![Opcode::I32Const(0), Opcode::I32Store(0, 0), Opcode::End],
    );
    assert_eq!(try_max_stack_height(0, &module), Err(StackHeightError::StackUnderflow));
}

#[test]
fn instructions_after_the_last_end_are_rejected() {
    let module = single_function(void_type(), vec![Opcode::End, Opcode::I32Const(0), Opcode::End]);
    assert_eq!(try_max_stack_height(0, &module), Err(StackHeightError::EmptyControlStack));
}

#[test]
fn missing_sections_are_rejected() {
    let mut module = single_function(void_type(), vec![Opcode::End]);
    module.bodies = None;
    assert_eq!(try_max_stack_height(0, &module), Err(StackHeightError::MissingCodeSection));
    module.types = None;
    assert_eq!(try_max_stack_height(0, &module), Err(StackHeightError::MissingTypeSection));
    module.functions = None;
    assert_eq!(try_max_stack_height(0, &module), Err(StackHeightError::MissingFunctionSection));
}

#[test]
fn indices_out_of_range_are_rejected() {
    let module = single_function(void_type(), vec![Opcode::End]);
    assert_eq!(try_max_stack_height(1, &module), Err(StackHeightError::FunctionOutOfRange));
    let bad_type = Module {
        types: Some(vec![]),
        imported_functions: vec![],
        functions: Some(vec![0]),
        bodies: Some(vec![vec![Opcode::End]]),
    };
    assert_eq!(try_max_stack_height(0, &bad_type), Err(StackHeightError::TypeOutOfRange));
    let bad_call = single_function(void_type(), vec![Opcode::Call(3), Opcode::End]);
    assert_eq!(try_max_stack_height(0, &bad_call), Err(StackHeightError::FunctionOutOfRange));
}

#[test]
fn context_push_and_pop() {
    let mut ctx = Context::new();
    assert_eq!(ctx.depth(), 0);
    ctx.push_frame(Frame { is_polymorphic: false, end_arity: 0, branch_arity: 0, start_height: 0 });
    assert_eq!(ctx.depth(), 1);
    ctx.push_values(3);
    assert_eq!(ctx.height(), 3);
    ctx.pop_values(2);
    assert_eq!(ctx.height(), 1);
    ctx.trunc(0);
    ctx.mark_unreachable();
    assert!(ctx.frame(0).is_polymorphic);
    // At the start height of a polymorphic region a pop does nothing.
    ctx.pop_values(1);
    assert_eq!(ctx.height(), 0);
    ctx.push_frame(Frame { is_polymorphic: false, end_arity: 1, branch_arity: 0, start_height: 0 });
    assert_eq!(ctx.frame(0).branch_arity, 0);
    assert!(ctx.frame(1).is_polymorphic);
    let frame = ctx.pop_frame();
    assert_eq!(frame.end_arity, 1);
    assert!(!frame.is_polymorphic);
    assert_eq!(ctx.depth(), 1);
}

#[test]
fn call_indirect_pops_the_table_index() {
    let module = single_function(
        i32_result_type(),
        vec![Opcode::I32Const(0), Opcode::CallIndirect(0, 0), Opcode::End],
    );
    assert_eq!(max_stack_height(0, &module), 1);
}

#[test]
fn analysis_failure_is_reported_by_the_checked_analysis() {
    let underflow = single_function(
        void_type(),
        vec![Opcode::I32Const(0), Opcode::Drop, Opcode::Drop, Opcode::End],
    );
    assert_eq!(try_max_stack_height(0, &underflow), Err(StackHeightError::PopBeyondFrame));
    let fine = single_function(void_type(), vec![Opcode::I32Const(0), Opcode::Drop, Opcode::End]);
    assert_eq!(try_max_stack_height(0, &fine), Ok(1));
}
