use evm_machine::bytecode::{
    section_starts, Bytecode, BytecodeError, Eof, EofBody, EofHeader, TypesSection,
};
use evm_machine::opcode::{OpCode, JUMPDEST, PUSH1, PUSH32, STOP};

fn sample_eof() -> (Vec<u8>, Eof) {
    let bytes: Vec<u8> = (0u8..40).collect();
    let eof = Eof {
        header: EofHeader { code_sizes: vec![3, 5], container_sizes: vec![2, 0], data_size: 6 },
        body: EofBody {
            types_sections: vec![
                TypesSection { inputs: 0, outputs: 0x80, max_stack_size: 2 },
                TypesSection { inputs: 1, outputs: 1, max_stack_size: 4 },
            ],
            code_section_offsets: vec![20, 23],
            data: vec![0xa0, 0xa1, 0xa2, 0xa3],
            sub_containers: vec![vec![0xef, 0x00], vec![]],
        },
    };
    (bytes, eof)
}

#[test]
fn opcodes_are_the_assigned_bytes() {
    assert_eq!(OpCode::try_from_u8(STOP), Some(OpCode(0x00)));
    assert_eq!(OpCode::try_from_u8(0x0b), Some(OpCode(0x0b)));
    assert_eq!(OpCode::try_from_u8(0x0c), None);
    assert_eq!(OpCode::try_from_u8(0x0f), None);
    assert_eq!(OpCode::try_from_u8(0x1d), Some(OpCode(0x1d)));
    assert_eq!(OpCode::try_from_u8(0x1e), None);
    assert_eq!(OpCode::try_from_u8(0x20), Some(OpCode(0x20)));
    assert_eq!(OpCode::try_from_u8(0x21), None);
    assert_eq!(OpCode::try_from_u8(0x4a), Some(OpCode(0x4a)));
    assert_eq!(OpCode::try_from_u8(0x4b), None);
    assert_eq!(OpCode::try_from_u8(JUMPDEST).map(|op| op.as_u8()), Some(0x5b));
    assert_eq!(OpCode::try_from_u8(PUSH1).map(|op| op.as_u8()), Some(0x60));
    assert_eq!(OpCode::try_from_u8(PUSH32).map(|op| op.as_u8()), Some(0x7f));
    assert_eq!(OpCode::try_from_u8(0xa4), Some(OpCode(0xa4)));
    assert_eq!(OpCode::try_from_u8(0xa5), None);
    assert_eq!(OpCode::try_from_u8(0xcf), None);
    assert_eq!(OpCode::try_from_u8(0xd3), Some(OpCode(0xd3)));
    assert_eq!(OpCode::try_from_u8(0xe9), None);
    assert_eq!(OpCode::try_from_u8(0xec), Some(OpCode(0xec)));
    assert_eq!(OpCode::try_from_u8(0xed), None);
    assert_eq!(OpCode::try_from_u8(0xee), Some(OpCode(0xee)));
    assert_eq!(OpCode::try_from_u8(0xef), None);
    assert_eq!(OpCode::try_from_u8(0xf6), None);
    assert_eq!(OpCode::try_from_u8(0xfc), None);
    assert_eq!(OpCode::try_from_u8(0xff), Some(OpCode(0xff)));
}

#[test]
fn opcodes_agree_with_the_table_of_the_bytecode_crate() {
    for byte in 0u8..=255 {
        assert_eq!(
            OpCode::try_from_u8(byte).is_some(),
            revm_bytecode::opcode::OpCode::new(byte).is_some(),
            "byte {byte:#04x}"
        );
    }
}

#[test]
fn a_jump_destination_is_an_instruction_of_its_own() {
    let code = Bytecode::new_legacy(vec![PUSH1, JUMPDEST, JUMPDEST, STOP, JUMPDEST]);
    assert_eq!(code.is_valid_jump_destination(0), Ok(false));
    assert_eq!(code.is_valid_jump_destination(1), Ok(false));
    assert_eq!(code.is_valid_jump_destination(2), Ok(true));
    assert_eq!(code.is_valid_jump_destination(3), Ok(false));
    assert_eq!(code.is_valid_jump_destination(4), Ok(true));
    assert_eq!(code.is_valid_jump_destination(5), Ok(false));
    assert_eq!(code.is_valid_jump_destination(usize::MAX), Ok(false));
}

#[test]
fn a_push_hides_all_of_its_operand() {
    let mut bytes = vec![PUSH32];
    bytes.extend(std::iter::repeat(JUMPDEST).take(32));
    bytes.push(JUMPDEST);
    bytes.push(0x61);
    bytes.push(JUMPDEST);
    bytes.push(JUMPDEST);
    bytes.push(JUMPDEST);
    let code = Bytecode::new_legacy(bytes);
    for offset in 0..33 {
        assert_eq!(code.is_valid_jump_destination(offset), Ok(false), "offset {offset}");
    }
    assert_eq!(code.is_valid_jump_destination(33), Ok(true));
    assert_eq!(code.is_valid_jump_destination(34), Ok(false));
    assert_eq!(code.is_valid_jump_destination(35), Ok(false));
    assert_eq!(code.is_valid_jump_destination(36), Ok(false));
    assert_eq!(code.is_valid_jump_destination(37), Ok(true));
    assert_eq!(code.is_valid_jump_destination(38), Ok(false));
}

#[test]
fn a_push_that_runs_off_the_code_hides_the_rest() {
    let code = Bytecode::new_legacy(vec![JUMPDEST, 0x7e, JUMPDEST, JUMPDEST]);
    assert_eq!(code.is_valid_jump_destination(0), Ok(true));
    assert_eq!(code.is_valid_jump_destination(1), Ok(false));
    assert_eq!(code.is_valid_jump_destination(2), Ok(false));
    assert_eq!(code.is_valid_jump_destination(3), Ok(false));
    assert_eq!(code.is_valid_jump_destination(4), Ok(false));
    let last = Bytecode::new_legacy(vec![JUMPDEST, PUSH1]);
    assert_eq!(last.is_valid_jump_destination(0), Ok(true));
    assert_eq!(last.is_valid_jump_destination(1), Ok(false));
    let empty = Bytecode::new_legacy(Vec::new());
    assert_eq!(empty.is_valid_jump_destination(0), Ok(false));
}

#[test]
fn jump_destinations_agree_with_the_analysis_of_the_bytecode_crate() {
    let mut seed: u32 = 0x1234_5678;
    for round in 0..200 {
        let len = round % 70;
        let mut bytes = Vec::new();
        for _ in 0..len {
            seed = seed.wrapping_mul(1664525).wrapping_add(1013904223);
            let pick = (seed >> 24) as u8;
            bytes.push(match pick % 4 {
                0 => JUMPDEST,
                1 => PUSH1 + (pick >> 3),
                _ => pick,
            });
        }
        let ours = Bytecode::new_legacy(bytes.clone());
        let theirs = revm_bytecode::Bytecode::new_legacy(revm_primitives::Bytes::from(bytes));
        let table = theirs.legacy_jump_table().unwrap();
        for offset in 0..len + 3 {
            assert_eq!(
                ours.is_valid_jump_destination(offset),
                Ok(offset < len && table.is_valid(offset)),
                "round {round}, offset {offset}"
            );
        }
    }
}

#[test]
fn flat_code_answers_the_accessors_for_flat_code() {
    let code = Bytecode::new_legacy(vec![PUSH1, 7, STOP]);
    assert!(!code.is_structured());
    assert_eq!(code.length(), Ok(3));
    assert_eq!(code.raw_slice(), Ok(&[PUSH1, 7, STOP][..]));
    assert_eq!(code.as_slice(), &[PUSH1, 7, STOP]);
    assert!(code.eof().is_none());
    assert_eq!(code.type_section(0), None);
    assert_eq!(code.code_section_start(0), None);
    assert_eq!(code.data(), Err(BytecodeError::NotStructured));
    assert_eq!(code.data_slice(0, 0), Err(BytecodeError::NotStructured));
    assert_eq!(code.data_size(), Err(BytecodeError::NotStructured));
    assert_eq!(code.sub_container(0), None);
}

#[test]
fn structured_code_answers_the_accessors_for_structured_code() {
    let (bytes, eof) = sample_eof();
    let code = Bytecode::new_structured(bytes.clone(), eof.clone()).unwrap();
    assert!(code.is_structured());
    assert_eq!(code.as_slice(), &bytes[..]);
    assert_eq!(code.eof(), Some(&eof));
    assert_eq!(code.length(), Err(BytecodeError::NotLegacy));
    assert_eq!(code.raw_slice(), Err(BytecodeError::NotLegacy));
    assert_eq!(code.is_valid_jump_destination(0), Err(BytecodeError::NotLegacy));
    assert_eq!(
        code.type_section(0),
        Some(TypesSection { inputs: 0, outputs: 0x80, max_stack_size: 2 })
    );
    assert_eq!(
        code.type_section(1),
        Some(TypesSection { inputs: 1, outputs: 1, max_stack_size: 4 })
    );
    assert_eq!(code.type_section(2), None);
    assert_eq!(code.code_section_start(0), Some(20));
    assert_eq!(code.code_section_start(1), Some(23));
    assert_eq!(code.code_section_start(2), None);
    assert_eq!(code.code_section_start(usize::MAX), None);
    assert_eq!(code.data(), Ok(&[0xa0, 0xa1, 0xa2, 0xa3][..]));
    assert_eq!(code.data_size(), Ok(6));
    assert_eq!(code.sub_container(0), Some(&vec![0xef, 0x00]));
    assert_eq!(code.sub_container(1), Some(&Vec::new()));
    assert_eq!(code.sub_container(2), None);
}

#[test]
fn data_slice_stays_within_the_data_section() {
    let (bytes, eof) = sample_eof();
    let code = Bytecode::new_structured(bytes, eof).unwrap();
    assert_eq!(code.data_slice(0, 4), Ok(&[0xa0, 0xa1, 0xa2, 0xa3][..]));
    assert_eq!(code.data_slice(1, 2), Ok(&[0xa1, 0xa2][..]));
    assert_eq!(code.data_slice(4, 0), Ok(&[][..]));
    assert_eq!(code.data_slice(3, 2), Err(BytecodeError::OutOfRange));
    assert_eq!(code.data_slice(5, 0), Err(BytecodeError::OutOfRange));
    assert_eq!(code.data_slice(0, 5), Err(BytecodeError::OutOfRange));
    assert_eq!(code.data_slice(usize::MAX, 2), Err(BytecodeError::OutOfRange));
    assert_eq!(code.data_slice(2, usize::MAX), Err(BytecodeError::OutOfRange));
}

#[test]
fn structured_code_needs_a_code_section() {
    let (bytes, mut eof) = sample_eof();
    eof.header.code_sizes.clear();
    eof.body.types_sections.clear();
    eof.body.code_section_offsets.clear();
    assert!(Bytecode::new_structured(bytes, eof).is_none());
}

#[test]
fn structured_code_needs_one_type_entry_and_one_size_per_section() {
    let (bytes, eof) = sample_eof();
    let mut fewer_types = eof.clone();
    fewer_types.body.types_sections.pop();
    assert!(Bytecode::new_structured(bytes.clone(), fewer_types).is_none());
    let mut more_sizes = eof.clone();
    more_sizes.header.code_sizes.push(1);
    assert!(Bytecode::new_structured(bytes.clone(), more_sizes).is_none());
    assert!(Bytecode::new_structured(bytes, eof).is_some());
}

#[test]
fn structured_code_sections_lie_within_the_bytes() {
    let (bytes, eof) = sample_eof();
    let mut at_the_end = eof.clone();
    at_the_end.body.code_section_offsets[1] = 35;
    assert!(Bytecode::new_structured(bytes.clone(), at_the_end).is_some());
    let mut over_the_end = eof.clone();
    over_the_end.body.code_section_offsets[1] = 36;
    assert!(Bytecode::new_structured(bytes.clone(), over_the_end).is_none());
    let mut far = eof.clone();
    far.body.code_section_offsets[0] = usize::MAX;
    assert!(Bytecode::new_structured(bytes.clone(), far).is_none());
    assert!(Bytecode::new_structured(bytes[..27].to_vec(), eof.clone()).is_none());
    assert!(Bytecode::new_structured(bytes[..28].to_vec(), eof).is_some());
}

#[test]
fn structured_code_containers_have_the_sizes_of_the_header() {
    let (bytes, eof) = sample_eof();
    let mut longer = eof.clone();
    longer.body.sub_containers[1].push(1);
    assert!(Bytecode::new_structured(bytes.clone(), longer).is_none());
    let mut fewer = eof.clone();
    fewer.body.sub_containers.pop();
    assert!(Bytecode::new_structured(bytes.clone(), fewer).is_none());
    let mut none = eof;
    none.body.sub_containers.clear();
    none.header.container_sizes.clear();
    assert!(Bytecode::new_structured(bytes, none).is_some());
}

#[test]
fn structured_code_data_is_no_longer_than_the_header_says() {
    let (bytes, eof) = sample_eof();
    let mut full = eof.clone();
    full.body.data = vec![1, 2, 3, 4, 5, 6];
    assert!(Bytecode::new_structured(bytes.clone(), full).is_some());
    let mut over = eof;
    over.body.data = vec![1, 2, 3, 4, 5, 6, 7];
    assert!(Bytecode::new_structured(bytes, over).is_none());
}

#[test]
fn sections_that_follow_one_another_start_at_the_running_sum() {
    assert_eq!(section_starts(19, &vec![3, 5, 1]), Some(vec![19, 22, 27]));
    assert_eq!(section_starts(0, &vec![7]), Some(vec![0]));
    assert_eq!(section_starts(usize::MAX, &vec![7]), Some(vec![usize::MAX]));
    assert_eq!(section_starts(5, &Vec::new()), Some(Vec::new()));
    assert_eq!(section_starts(usize::MAX, &Vec::new()), Some(Vec::new()));
    assert_eq!(section_starts(usize::MAX - 3, &vec![3, 9]), Some(vec![usize::MAX - 3, usize::MAX]));
    assert_eq!(section_starts(usize::MAX - 3, &vec![4, 9]), None);
    assert_eq!(
        section_starts(usize::MAX - 3, &vec![1, 2, 1]),
        Some(vec![usize::MAX - 3, usize::MAX - 2, usize::MAX])
    );
    assert_eq!(section_starts(usize::MAX - 3, &vec![1, 2, 1, 1]), None);
    assert_eq!(section_starts(usize::MAX, &vec![0, 0, 5]), Some(vec![usize::MAX; 3]));
}

#[test]
fn a_container_decoded_by_the_bytecode_crate_is_consistent() {
    let decoded = revm_bytecode::Eof::default();
    let starts = section_starts(decoded.body.code_offset, &decoded.header.code_sizes).unwrap();
    for (index, start) in starts.iter().enumerate() {
        assert_eq!(decoded.body.eof_code_section_start(index), Some(*start));
    }
    let eof = Eof {
        header: EofHeader {
            code_sizes: decoded.header.code_sizes.clone(),
            container_sizes: decoded.header.container_sizes.clone(),
            data_size: decoded.header.data_size,
        },
        body: EofBody {
            types_sections: decoded
                .body
                .code_info
                .iter()
                .map(|info| TypesSection {
                    inputs: info.inputs,
                    outputs: info.outputs,
                    max_stack_size: info.max_stack_size,
                })
                .collect(),
            code_section_offsets: starts,
            data: decoded.body.data_section.to_vec(),
            sub_containers: decoded.body.container_section.iter().map(|c| c.to_vec()).collect(),
        },
    };
    let code = Bytecode::new_structured(decoded.raw().to_vec(), eof).unwrap();
    let start = code.code_section_start(0).unwrap();
    assert_eq!(code.as_slice()[start], STOP);
    assert_eq!(&code.as_slice()[start..start + 1], decoded.body.code.as_ref());
    assert_eq!(code.data(), Ok(decoded.data()));
}
