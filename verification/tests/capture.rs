use tracer::etable::RunInstructionTracePre;
use tracer::mtable::MemoryReadSize;
use tracer::mtable::MemoryStoreSize;
use tracer::value::ValueInternal;
use tracer::value::ValueType;

#[test]
fn out_of_bounds_load_has_no_effective_address() {
    let pre = RunInstructionTracePre::Load {
        offset: 8,
        raw_address: 65532,
        effective_address: None,
        vtype: ValueType::I32,
        load_size: MemoryReadSize::U32,
        mmid: 0,
    };
    match pre {
        RunInstructionTracePre::Load { effective_address, .. } => {
            assert!(effective_address.is_none());
        }
        _ => panic!("expected a load capture"),
    }
}

#[test]
fn in_bounds_load_records_the_resolved_address() {
    let pre = RunInstructionTracePre::Load {
        offset: 4,
        raw_address: 100,
        effective_address: Some(104),
        vtype: ValueType::I64,
        load_size: MemoryReadSize::I64,
        mmid: 1,
    };
    match pre {
        RunInstructionTracePre::Load { offset, raw_address, effective_address, .. } => {
            assert_eq!(effective_address, Some(raw_address + offset));
        }
        _ => panic!("expected a load capture"),
    }
}

#[test]
fn out_of_bounds_store_has_no_effective_address() {
    let pre = RunInstructionTracePre::Store {
        offset: 16,
        raw_address: 70000,
        effective_address: None,
        value: 0xdead,
        vtype: ValueType::I32,
        store_size: MemoryStoreSize::Byte32,
        mmid: 0,
        pre_block_value1: None,
        pre_block_value2: None,
    };
    match pre {
        RunInstructionTracePre::Store { effective_address, .. } => {
            assert!(effective_address.is_none());
        }
        _ => panic!("expected a store capture"),
    }
}

#[test]
fn aligned_full_word_store_captures_no_pre_words() {
    let pre = RunInstructionTracePre::Store {
        offset: 0,
        raw_address: 64,
        effective_address: Some(64),
        value: 42,
        vtype: ValueType::I64,
        store_size: MemoryStoreSize::Byte64,
        mmid: 0,
        pre_block_value1: None,
        pre_block_value2: None,
    };
    match pre {
        RunInstructionTracePre::Store { pre_block_value1, pre_block_value2, .. } => {
            assert!(pre_block_value1.is_none());
            assert!(pre_block_value2.is_none());
        }
        _ => panic!("expected a store capture"),
    }
}

#[test]
fn sub_word_store_captures_the_spanned_word() {
    let pre = RunInstructionTracePre::Store {
        offset: 0,
        raw_address: 66,
        effective_address: Some(66),
        value: 0xff,
        vtype: ValueType::I32,
        store_size: MemoryStoreSize::Byte8,
        mmid: 0,
        pre_block_value1: Some(0x1122334455667788),
        pre_block_value2: None,
    };
    match pre {
        RunInstructionTracePre::Store { pre_block_value1, pre_block_value2, .. } => {
            assert_eq!(pre_block_value1, Some(0x1122334455667788));
            assert!(pre_block_value2.is_none());
        }
        _ => panic!("expected a store capture"),
    }
}

#[test]
fn misaligned_store_captures_both_spanned_words() {
    let pre = RunInstructionTracePre::Store {
        offset: 1,
        raw_address: 60,
        effective_address: Some(61),
        value: 7,
        vtype: ValueType::I64,
        store_size: MemoryStoreSize::Byte64,
        mmid: 0,
        pre_block_value1: Some(1),
        pre_block_value2: Some(2),
    };
    match pre {
        RunInstructionTracePre::Store { pre_block_value1, pre_block_value2, .. } => {
            assert_eq!(pre_block_value1, Some(1));
            assert_eq!(pre_block_value2, Some(2));
        }
        _ => panic!("expected a store capture"),
    }
}

#[test]
fn call_capture_snapshots_argument_values() {
    let pre = RunInstructionTracePre::Call {
        args: vec![ValueInternal(3), ValueInternal(9)],
    };
    match pre {
        RunInstructionTracePre::Call { args } => {
            assert_eq!(args.len(), 2);
            assert_eq!(args[0], ValueInternal(3));
            assert_eq!(args[1], ValueInternal(9));
        }
        _ => panic!("expected a call capture"),
    }
}
