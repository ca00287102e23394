use bytecode_vm::interp::{ByteCode, Error, Interpreter};

#[test]
fn from_task() {
    assert_eq!(
        Interpreter::new().execute(&[
            ByteCode::LoadVal(1),
            ByteCode::WriteVar("x"),
            ByteCode::LoadVal(2),
            ByteCode::WriteVar("y"),
            ByteCode::ReadVar("x"),
            ByteCode::LoadVal(1),
            ByteCode::Add,
            ByteCode::ReadVar("y"),
            ByteCode::Multiply,
            ByteCode::ReturnValue,
        ]),
        Ok(Some(4))
    );
}

#[test]
fn simple_add() {
    assert_eq!(
        Interpreter::new().execute(&[
            ByteCode::LoadVal(2),
            ByteCode::LoadVal(3),
            ByteCode::Add,
            ByteCode::ReturnValue,
        ]),
        Ok(Some(5))
    );
}

#[test]
fn missing_var() {
    assert_eq!(
        Interpreter::new().execute(&[ByteCode::ReadVar("x"), ByteCode::ReturnValue]),
        Err(Error::UnknownVarName)
    );
}

#[test]
fn simple_loop() {
    assert_eq!(
        Interpreter::new().execute(&[
            // i = 0
            ByteCode::LoadVal(0),
            ByteCode::WriteVar("i"),
            // i = i + 1
            ByteCode::ReadVar("i"),
            ByteCode::LoadVal(1),
            ByteCode::Add,
            ByteCode::WriteVar("i"),
            // while i != 10
            ByteCode::ReadVar("i"),
            ByteCode::LoadVal(10),
            ByteCode::CmpEq,
            ByteCode::JumpIfFalse(2),
        ]),
        Ok(None)
    );
}

#[test]
fn loop_leaves_counter_at_ten() {
    let mut vm = Interpreter::new();
    let program = [
        ByteCode::LoadVal(0),
        ByteCode::WriteVar("i"),
        ByteCode::ReadVar("i"),
        ByteCode::LoadVal(1),
        ByteCode::Add,
        ByteCode::WriteVar("i"),
        ByteCode::ReadVar("i"),
        ByteCode::LoadVal(10),
        ByteCode::CmpEq,
        ByteCode::JumpIfFalse(2),
    ];
    assert_eq!(vm.execute(&program), Ok(None));
    assert_eq!(vm.var("i"), Some(10));
    assert!(vm.stack().is_empty());
}

#[test]
fn add_program_sums() {
    let program = [ByteCode::LoadVal(40), ByteCode::LoadVal(2), ByteCode::Add, ByteCode::ReturnValue];
    assert_eq!(Interpreter::new().execute(&program), Ok(Some(42)));
}

#[test]
fn add_wraps_around() {
    let program = [
        ByteCode::LoadVal(u32::MAX),
        ByteCode::LoadVal(1),
        ByteCode::Add,
        ByteCode::ReturnValue,
    ];
    assert_eq!(Interpreter::new().execute(&program), Ok(Some(0)));
}

#[test]
fn multiply_wraps_around() {
    let program = [
        ByteCode::LoadVal(65536),
        ByteCode::LoadVal(65537),
        ByteCode::Multiply,
        ByteCode::ReturnValue,
    ];
    assert_eq!(Interpreter::new().execute(&program), Ok(Some(65536)));
}

#[test]
fn multiply_exact() {
    let program = [ByteCode::LoadVal(6), ByteCode::LoadVal(7), ByteCode::Multiply, ByteCode::ReturnValue];
    assert_eq!(Interpreter::new().execute(&program), Ok(Some(42)));
}

#[test]
fn compare_equal_and_unequal() {
    let equal = [ByteCode::LoadVal(9), ByteCode::LoadVal(9), ByteCode::CmpEq, ByteCode::ReturnValue];
    assert_eq!(Interpreter::new().execute(&equal), Ok(Some(1)));
    let unequal = [ByteCode::LoadVal(9), ByteCode::LoadVal(8), ByteCode::CmpEq, ByteCode::ReturnValue];
    assert_eq!(Interpreter::new().execute(&unequal), Ok(Some(0)));
}

#[test]
fn read_undefined_keeps_stack() {
    let mut vm = Interpreter::new();
    let program = [
        ByteCode::LoadVal(3),
        ByteCode::LoadVal(4),
        ByteCode::WriteVar("a"),
        ByteCode::ReadVar("b"),
        ByteCode::ReturnValue,
    ];
    assert_eq!(vm.execute(&program), Err(Error::UnknownVarName));
    assert_eq!(vm.stack(), &[3]);
    assert_eq!(vm.var("a"), Some(4));
    assert_eq!(vm.var("b"), None);
}

#[test]
fn return_on_empty_stack() {
    assert_eq!(Interpreter::new().execute(&[ByteCode::ReturnValue]), Err(Error::LoadFromEmptyStack));
}

#[test]
fn write_on_empty_stack() {
    assert_eq!(
        Interpreter::new().execute(&[ByteCode::WriteVar("x")]),
        Err(Error::LoadFromEmptyStack)
    );
}

#[test]
fn jump_on_empty_stack() {
    assert_eq!(
        Interpreter::new().execute(&[ByteCode::JumpIfFalse(0)]),
        Err(Error::LoadFromEmptyStack)
    );
}

#[test]
fn add_with_one_value_empties_stack() {
    let mut vm = Interpreter::new();
    assert_eq!(
        vm.execute(&[ByteCode::LoadVal(5), ByteCode::Add]),
        Err(Error::LoadFromEmptyStack)
    );
    assert!(vm.stack().is_empty());
}

#[test]
fn write_then_read_round_trips() {
    let program = [
        ByteCode::LoadVal(123456),
        ByteCode::WriteVar("v"),
        ByteCode::ReadVar("v"),
        ByteCode::ReturnValue,
    ];
    assert_eq!(Interpreter::new().execute(&program), Ok(Some(123456)));
}

#[test]
fn overwrite_keeps_last_value() {
    let mut vm = Interpreter::new();
    let program = [
        ByteCode::LoadVal(1),
        ByteCode::WriteVar("v"),
        ByteCode::LoadVal(2),
        ByteCode::WriteVar("v"),
        ByteCode::ReadVar("v"),
        ByteCode::ReturnValue,
    ];
    assert_eq!(vm.execute(&program), Ok(Some(2)));
    assert_eq!(vm.var("v"), Some(2));
}

#[test]
fn jump_if_false_nonzero_falls_through() {
    for cond in [1, 7, u32::MAX] {
        let program = [
            ByteCode::LoadVal(cond),
            ByteCode::JumpIfFalse(4),
            ByteCode::LoadVal(10),
            ByteCode::ReturnValue,
            ByteCode::LoadVal(20),
            ByteCode::ReturnValue,
        ];
        assert_eq!(Interpreter::new().execute(&program), Ok(Some(10)));
    }
}

#[test]
fn jump_if_false_zero_jumps() {
    let program = [
            ByteCode::LoadVal(0),
            ByteCode::JumpIfFalse(4),
            ByteCode::LoadVal(10),
            ByteCode::ReturnValue,
            ByteCode::LoadVal(20),
            ByteCode::ReturnValue,
        ];
    assert_eq!(Interpreter::new().execute(&program), Ok(Some(20)));
}

#[test]
fn goto_skips() {
    let program = [ByteCode::Goto(2), ByteCode::ReturnValue, ByteCode::LoadVal(8), ByteCode::ReturnValue];
    assert_eq!(Interpreter::new().execute(&program), Ok(Some(8)));
}

#[test]
fn empty_program_finishes_without_value() {
    assert_eq!(Interpreter::new().execute(&[]), Ok(None));
}

#[test]
fn jump_past_end_finishes() {
    assert_eq!(Interpreter::new().execute(&[ByteCode::Goto(1000)]), Ok(None));
    assert_eq!(
        Interpreter::new().execute(&[ByteCode::LoadVal(0), ByteCode::JumpIfFalse(usize::MAX)]),
        Ok(None)
    );
}

#[test]
fn state_carries_over_between_runs() {
    let mut vm = Interpreter::new();
    assert_eq!(vm.execute(&[ByteCode::LoadVal(5), ByteCode::WriteVar("k"), ByteCode::LoadVal(6)]), Ok(None));
    assert_eq!(vm.stack(), &[6]);
    assert_eq!(
        vm.execute(&[ByteCode::ReadVar("k"), ByteCode::Add, ByteCode::ReturnValue]),
        Ok(Some(11))
    );
}

#[test]
fn endless_loop_hits_step_limit() {
    let mut vm = Interpreter::new();
    assert_eq!(vm.execute_bounded(&[ByteCode::Goto(0)], 100), Err(Error::StepLimit));
}

#[test]
fn step_budget_is_enough_when_exact() {
    let program = [ByteCode::LoadVal(2), ByteCode::LoadVal(3), ByteCode::Add, ByteCode::ReturnValue];
    assert_eq!(Interpreter::new().execute_bounded(&program, 4), Ok(Some(5)));
    assert_eq!(Interpreter::new().execute_bounded(&program, 3), Err(Error::StepLimit));
}
