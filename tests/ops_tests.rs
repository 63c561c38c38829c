use dreamer::machine::MachineError;
use dreamer::memory::{LinearlyAddressable, Memory};
use dreamer::ops::{halt, load, nop, pop, push, store};
use dreamer::stack::{Stack, MAX_STACK_DEPTH};
use dreamer::state::State;
use dreamer::types::Word;

fn full_stack() -> Stack {
    Stack((0..(MAX_STACK_DEPTH as Word)).collect())
}

#[test]
fn test_nop_normal() {
    let initial_state: State = State::default();

    let actual_result: Result<State, MachineError> = nop(initial_state.clone());

    let expected_state: State = State {
        pc: initial_state.pc + 1,
        ..initial_state
    };
    let expected_result: Result<State, MachineError> = Ok(expected_state);

    assert_eq!(actual_result, expected_result);
}

#[test]
fn test_halt_normal() {
    let initial_state: State = State::default();

    let actual_result: Result<State, MachineError> = halt(initial_state.clone());

    let expected_state: State = initial_state;
    let expected_result: Result<State, MachineError> = Ok(expected_state);

    assert_eq!(actual_result, expected_result);
}

#[test]
fn test_load_normal_uninitialised() {
    let some_address: Word = 12;
    let initial_state: State = State {
        pc: 0,
        reg: 0,
        stack: Stack(vec![some_address]),
        memory: Memory::default(),
    };

    let actual_result: Result<State, MachineError> = load(initial_state.clone());

    let expected_value: Word = 0;
    let expected_state: State = State {
        pc: initial_state.pc + 1,
        stack: Stack(vec![expected_value]),
        ..initial_state
    };
    let expected_result: Result<State, MachineError> = Ok(expected_state);

    assert_eq!(actual_result, expected_result);
}

#[test]
fn test_load_normal_initialised() {
    let some_address: Word = 12;
    let some_value: Word = 33;
    let initial_state: State = State {
        pc: 0,
        stack: Stack(vec![some_address]),
        memory: {
            let mut tmp_memory: Memory = Memory::default();
            tmp_memory.write(some_address, some_value);
            tmp_memory
        },
        reg: 0,
    };

    let actual_result: Result<State, MachineError> = load(initial_state.clone());

    let expected_value: Word = some_value;
    let expected_state: State = State {
        pc: initial_state.pc + 1,
        stack: Stack(vec![expected_value]),
        ..initial_state
    };
    let expected_result: Result<State, MachineError> = Ok(expected_state);

    assert_eq!(actual_result, expected_result);
}

#[test]
fn test_load_insufficient_arguments_by_1() {
    let initial_state: State = State::default();

    let actual_result: Result<State, MachineError> = load(initial_state.clone());

    let expected_result: Result<State, MachineError> = Err(MachineError::InsufficientArguments);

    assert_eq!(actual_result, expected_result);
}

#[test]
fn test_store_normal() {
    let some_address: Word = 12;
    let some_value: Word = 33;
    let initial_state: State = State {
        pc: 0,
        stack: Stack(vec![some_value, some_address]),
        memory: Memory::default(),
        reg: 0,
    };

    let actual_result: Result<State, MachineError> = store(initial_state.clone());
    let expected_state: State = State {
        pc: initial_state.pc + 1,
        stack: Stack::default(),
        memory: {
            let mut tmp_memory: Memory = Memory::default();
            tmp_memory.write(some_address, some_value);
            tmp_memory
        },
        ..initial_state
    };
    let expected_result: Result<State, MachineError> = Ok(expected_state);

    assert_eq!(actual_result, expected_result);
}

#[test]
fn test_store_insufficient_arguments_by_1() {
    let some_address: Word = 12;
    let initial_state: State = State {
        pc: 0,
        stack: Stack(vec![some_address]),
        memory: Memory::default(),
        reg: 0,
    };

    let actual_result: Result<State, MachineError> = store(initial_state.clone());

    let expected_result: Result<State, MachineError> = Err(MachineError::InsufficientArguments);

    assert_eq!(actual_result, expected_result);
}

#[test]
fn test_store_insufficient_arguments_by_2() {
    let initial_state: State = State::default();

    let actual_result: Result<State, MachineError> = store(initial_state.clone());

    let expected_result: Result<State, MachineError> = Err(MachineError::InsufficientArguments);

    assert_eq!(actual_result, expected_result);
}

#[test]
fn test_push_normal() {
    let some_value: Word = 12;
    let initial_state: State = State {
        pc: 0,
        reg: some_value,
        stack: Stack::default(),
        memory: Memory::default(),
    };

    let actual_result: Result<State, MachineError> = push(initial_state.clone());

    let expected_state: State = State {
        pc: initial_state.pc + 1,
        reg: initial_state.reg,
        stack: Stack(vec![some_value]),
        memory: Memory::default(),
    };
    let expected_result: Result<State, MachineError> = Ok(expected_state);

    assert_eq!(actual_result, expected_result);
}

#[test]
fn test_push_stack_full() {
    let some_value: Word = 12;
    let initial_state: State = State {
        pc: 0,
        reg: some_value,
        stack: full_stack(),
        memory: Memory::default(),
    };

    let actual_result: Result<State, MachineError> = push(initial_state.clone());

    let expected_result: Result<State, MachineError> = Err(MachineError::StackFull);

    assert_eq!(actual_result, expected_result);
}

#[test]
fn test_pop_normal() {
    let some_value: Word = 12;
    let initial_state: State = State {
        pc: 0,
        reg: some_value,
        stack: Stack(vec![some_value]),
        memory: Memory::default(),
    };

    let actual_result: Result<State, MachineError> = pop(initial_state.clone());

    let expected_state: State = State {
        pc: initial_state.pc + 1,
        reg: some_value,
        stack: Stack::default(),
        memory: Memory::default(),
    };
    let expected_result: Result<State, MachineError> = Ok(expected_state);

    assert_eq!(actual_result, expected_result);
}

#[test]
fn test_pop_stack_empty() {
    let initial_state: State = State::default();

    let actual_result: Result<State, MachineError> = pop(initial_state.clone());

    let expected_result: Result<State, MachineError> = Err(MachineError::StackEmpty);

    assert_eq!(actual_result, expected_result);
}
