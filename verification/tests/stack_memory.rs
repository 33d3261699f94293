use evm_machine::error::ExitError;
use evm_machine::memory::Memory;
use evm_machine::stack::Stack;
use primitive_types::U256;

#[test]
fn stack_is_last_in_first_out() {
    let mut stack = Stack::new(4);
    assert!(stack.is_empty());
    assert_eq!(stack.limit(), 4);
    assert_eq!(stack.push(U256::from(1u64)), Ok(()));
    assert_eq!(stack.push(U256::from(2u64)), Ok(()));
    assert_eq!(stack.push(U256::from(3u64)), Ok(()));
    assert_eq!(stack.len(), 3);
    assert_eq!(stack.peek(0), Ok(U256::from(3u64)));
    assert_eq!(stack.peek(2), Ok(U256::from(1u64)));
    assert_eq!(stack.peek(3), Err(ExitError::StackUnderflow));
    assert_eq!(stack.pop(), Ok(U256::from(3u64)));
    assert_eq!(stack.pop(), Ok(U256::from(2u64)));
    assert_eq!(stack.pop(), Ok(U256::from(1u64)));
    assert_eq!(stack.pop(), Err(ExitError::StackUnderflow));
    assert!(stack.is_empty());
}

#[test]
fn stack_refuses_more_than_its_limit() {
    let mut stack = Stack::new(2);
    assert_eq!(stack.push(U256::from(7u64)), Ok(()));
    assert_eq!(stack.push(U256::from(8u64)), Ok(()));
    assert_eq!(stack.push(U256::from(9u64)), Err(ExitError::StackOverflow));
    assert_eq!(stack.len(), 2);
    assert_eq!(stack.peek(0), Ok(U256::from(8u64)));
    let mut none = Stack::new(0);
    assert_eq!(none.push(U256::from(1u64)), Err(ExitError::StackOverflow));
    assert_eq!(none.len(), 0);
}

#[test]
fn memory_grows_with_zeros() {
    let mut memory = Memory::new(8);
    assert!(memory.is_empty());
    assert_eq!(memory.limit(), 8);
    assert_eq!(memory.resize(4), Ok(()));
    assert_eq!(memory.len(), 4);
    assert_eq!(memory.read(0, 4), vec![0, 0, 0, 0]);
    assert_eq!(memory.set(1, &[9, 8]), Ok(()));
    assert_eq!(memory.resize(6), Ok(()));
    assert_eq!(memory.read(0, 6), vec![0, 9, 8, 0, 0, 0]);
    assert_eq!(memory.resize(2), Ok(()));
    assert_eq!(memory.len(), 6);
    assert_eq!(memory.resize(9), Err(ExitError::OutOfBounds));
    assert_eq!(memory.len(), 6);
    assert_eq!(memory.resize(8), Ok(()));
    assert_eq!(memory.len(), 8);
}

#[test]
fn memory_set_stays_within_the_memory() {
    let mut memory = Memory::new(16);
    assert_eq!(memory.resize(4), Ok(()));
    assert_eq!(memory.set(2, &[1, 2, 3]), Err(ExitError::OutOfBounds));
    assert_eq!(memory.set(5, &[]), Err(ExitError::OutOfBounds));
    assert_eq!(memory.set(usize::MAX, &[1]), Err(ExitError::OutOfBounds));
    assert_eq!(memory.read(0, 4), vec![0, 0, 0, 0]);
    assert_eq!(memory.set(4, &[]), Ok(()));
    assert_eq!(memory.set(0, &[1, 2, 3, 4]), Ok(()));
    assert_eq!(memory.set(3, &[7]), Ok(()));
    assert_eq!(memory.read(0, 4), vec![1, 2, 3, 7]);
}

#[test]
fn memory_reads_zero_beyond_its_end() {
    let mut memory = Memory::new(16);
    assert_eq!(memory.resize(3), Ok(()));
    assert_eq!(memory.set(0, &[5, 6, 7]), Ok(()));
    assert_eq!(memory.read(1, 4), vec![6, 7, 0, 0]);
    assert_eq!(memory.read(3, 2), vec![0, 0]);
    assert_eq!(memory.read(100, 2), vec![0, 0]);
    assert_eq!(memory.read(usize::MAX, 3), vec![0, 0, 0]);
    assert_eq!(memory.read(1, 0), Vec::<u8>::new());
    assert_eq!(memory.get(1, 4).to_vec(), vec![6, 7, 0, 0]);
    assert_eq!(memory.get(0, 3).as_ref(), &[5, 6, 7]);
    assert_eq!(memory.get(2, 0).len(), 0);
}
