use miden_vm::opcode::{DeserializationError, OpCode};

#[test]
fn every_byte_is_an_opcode_and_back() {
    for b in 0..=255u8 {
        let op = OpCode::from_u8(b);
        assert_eq!(op.as_u8(), b);
        assert_eq!(OpCode::from_u8(op.as_u8()), op);
    }
}

#[test]
fn opcodes_have_their_byte_values() {
    assert_eq!(OpCode::Assert.as_u8(), 0);
    assert_eq!(OpCode::Add.as_u8(), 8);
    assert_eq!(OpCode::Ext2Add.as_u8(), 37);
    assert_eq!(OpCode::U32Test.as_u8(), 43);
    assert_eq!(OpCode::Drop.as_u8(), 125);
    assert_eq!(OpCode::PushU8.as_u8(), 203);
    assert_eq!(OpCode::Hash.as_u8(), 233);
    assert_eq!(OpCode::Debug.as_u8(), 251);
    assert_eq!(OpCode::While.as_u8(), 255);
}

#[test]
fn write_then_read_gives_the_opcode_back() {
    let mut bytes = vec![7u8];
    OpCode::MTreeVerify.write_into(&mut bytes);
    OpCode::SysCall.write_into(&mut bytes);
    assert_eq!(bytes, vec![7u8, 239, 246]);
    let mut pos = 1usize;
    assert_eq!(OpCode::read_from(&bytes, &mut pos), Ok(OpCode::MTreeVerify));
    assert_eq!(pos, 2);
    assert_eq!(OpCode::read_from(&bytes, &mut pos), Ok(OpCode::SysCall));
    assert_eq!(pos, 3);
}

#[test]
fn read_past_the_end_fails() {
    let bytes: Vec<u8> = vec![];
    let mut pos = 0usize;
    assert_eq!(OpCode::read_from(&bytes, &mut pos), Err(DeserializationError::UnexpectedEOF));
    assert_eq!(pos, 0);
}
