use chip8::assembler::opcodes;
use chip8::assembler::ArgType;
use chip8::assembler::LabelTable;
use chip8::assembler::Register;
use std::collections::HashMap;

fn table(labels: &HashMap<String, u16>) -> LabelTable {
    let mut table = LabelTable::new();
    for (name, address) in labels.iter() {
        assert!(table.insert(name, *address));
    }
    table
}

#[test]
fn test_add() {
    struct TestCase {
        name: &'static str,
        args: Vec<String>,
        expected: Result<u16, String>,
    }
    let test_cases = [
        TestCase {
            name: "Valid register and register - v0 and v1",
            args: vec!["v0".to_string(), "v1".to_string()],
            expected: Ok(0x8014),
        },
        TestCase {
            name: "Valid register and number - v0 and 0x10",
            args: vec!["v0".to_string(), "0x10".to_string()],
            expected: Ok(0x7010),
        },
        TestCase {
            name: "Valid index register and register - i and v1",
            args: vec!["i".to_string(), "v1".to_string()],
            expected: Ok(0xF11E),
        },
        TestCase {
            name: "Invalid number of arguments",
            args: vec!["v0".to_string()],
            expected: Err("Invalid number of arguments for add: expected 2, got 1".into()),
        },
        TestCase {
            name: "Invalid register",
            args: vec!["v1".to_string(), "v16".to_string()],
            expected: Err("Invalid register name: v16".into()),
        },
        TestCase {
            name: "Invalid number",
            args: vec!["v0".to_string(), "0xFFF".to_string()],
            expected: Err("Invalid address for add: expected 0xFF or less".into()),
        },
    ];

    for test_case in test_cases.iter() {
        let result = opcodes::add(&test_case.args);
        assert_eq!(result, test_case.expected, "{}", test_case.name);
    }
}

#[test]
fn test_and() {
    struct TestCase {
        name: &'static str,
        args: Vec<String>,
        expected: Result<u16, String>,
    }

    let test_cases = [
        TestCase {
            name: "Valid registers - v0 and v1",
            args: vec!["v0".to_string(), "v1".to_string()],
            expected: Ok(0x8012),
        },
        TestCase {
            name: "Valid registers - va and vf",
            args: vec!["va".to_string(), "vf".to_string()],
            expected: Ok(0x8AF2),
        },
    ];

    for test_case in test_cases.iter() {
        let result = opcodes::and(&test_case.args);
        assert_eq!(result, test_case.expected, "{}", test_case.name);
    }


}

#[test]
fn test_drw() {
    struct TestCase {
        name: &'static str,
        args: Vec<String>,
        expected: Result<u16, String>,
    }
    let test_cases = [
        TestCase {
            name: "Valid arguments",
            args: vec!["v0".to_string(), "v1".to_string(), "0x1".to_string()],
            expected: Ok(0xD011),
        },
        TestCase {
            name: "Invalid number of arguments",
            args: vec!["v0".to_string(), "v1".to_string()],
            expected: Err("Invalid number of arguments for drw: expected 3, got 2".into()),
        },
        TestCase {
            name: "Invalid nibble",
            args: vec!["v0".to_string(), "v1".to_string(), "0x10".to_string()],
            expected: Err("Invalid nibble for drw: expected 0xF or less, got 16".into()),
        },
    ];

    for test_case in test_cases.iter() {
        let result = opcodes::drw(&test_case.args);
        assert_eq!(result, test_case.expected, "{}", test_case.name);
    }
}

#[test]
fn test_ld_register() {
    struct TestCase {
        name: &'static str,
        args: (Register, ArgType),
        expected: Result<u16, String>,
    }

    let test_cases = [
        TestCase {
            name: "Valid register and register - v0 and v1",
            args: (Register::V0, ArgType::Register(Register::V1)),
            expected: Ok(0x8010),
        },
        TestCase {
            name: "Valid register and number - v0 and 0x10",
            args: (Register::V0, ArgType::Number(0x10)),
            expected: Ok(0x6010),
        },
        TestCase {
            name: "Valid register and index register - v0 and i",
            args: (Register::V0, ArgType::IndexRegister("i".into())),
            expected: Ok(0xF065),
        },
        TestCase {
            name: "Invalid second argument",
            args: (Register::V0, ArgType::Font("f".into())),
            expected: Err("Invalid second argument for ld".into()),
        },
        TestCase {
            name: "Invalid number",
            args: (Register::V0, ArgType::Number(0x1000)),
            expected: Err("Invalid second argument for ld: expected 0xFF or less".into()),
        },
    ];

    for test_case in test_cases.iter() {
        let result = opcodes::ld_register(test_case.args.0, test_case.args.1);
        assert_eq!(result, test_case.expected, "{}", test_case.name);
    }

}

#[test]
fn test_ld_font() {
    struct TestCase {
        name: &'static str,
        args: ArgType,
        expected: Result<u16, String>,
    }

    let test_cases = [
        TestCase {
            name: "Valid register",
            args: ArgType::Register(Register::V0),
            expected: Ok(0xF029),
        },
        TestCase {
            name: "Invalid argument",
            args: ArgType::Number(0x200),
            expected: Err("Invalid second argument for ld".into()),
        },
    ];

    for test_case in test_cases.iter() {
        let result = opcodes::ld_font(test_case.args);
        assert_eq!(result, test_case.expected, "{}", test_case.name);
    }
}

#[test]
fn test_ld_bcd() {
    struct TestCase {
        name: &'static str,
        args: ArgType,
        expected: Result<u16, String>,
    }
    let test_cases = [
        TestCase {
            name: "Valid register",
            args: ArgType::Register(Register::V0),
            expected: Ok(0xF033),
        },
        TestCase {
            name: "Invalid argument",
            args: ArgType::Number(0x200),
            expected: Err("Invalid second argument for ld".into()),
        },
    ];

    for test_case in test_cases.iter() {
        let result = opcodes::ld_bcd(test_case.args);
        assert_eq!(result, test_case.expected, "{}", test_case.name);
    }
}

#[test]
fn test_ld_index() {
    struct TestCase {
        name: &'static str,
        args: ArgType,
        expected: Result<u16, String>,
    }

    let test_cases = [
        TestCase {
            name: "Valid register",
            args: ArgType::Register(Register::V0),
            expected: Ok(0xF055),
        },
        TestCase {
            name: "Valid number",
            args: ArgType::Number(0x200),
            expected: Ok(0xA200),
        },
        TestCase {
            name: "Invalid argument",
            args: ArgType::IndexRegister("i".into()),
            expected: Err("Invalid argument for ld".into()),
        },
    ];

    for test_case in test_cases.iter() {
        let result = opcodes::ld_index(test_case.args);
        assert_eq!(result, test_case.expected, "{}", test_case.name);
    }
}

#[test]
fn test_jmp() {
    struct TestCase {
        name: &'static str,
        labels: HashMap<String, u16>,
        args: Vec<String>,
        expected: Result<u16, String>,
    }

    let test_cases = [
        TestCase {
            name: "Valid address",
            labels: HashMap::new(),
            args: vec!["0x200".to_string()],
            expected: Ok(0x1200),
        },
        TestCase {
            name: "Valid register",
            labels: HashMap::new(),
            args: vec!["v0".to_string(), "0x200".to_string()],
            expected: Ok(0xB200),
        },
        TestCase {
            name: "Invalid register",
            labels: HashMap::new(),
            args: vec!["v1".to_string(), "0x200".to_string()],
            expected: Err("Invalid register for jmp: expected V0".into()),
        },
        TestCase {
            name: "Valid Label",
            labels: HashMap::from([
                    ("foo".to_string(), 0x2ff)
                ]),
            args: vec![ "foo".to_string() ],
            expected: Ok(0x12ff),
        },
        TestCase {
            name: "Invalid number of arguments",
            labels: HashMap::new(),
            args: vec!["v0".to_string(), "0x200".to_string(), "0x200".to_string()],
            expected: Err("Invalid number of arguments for jmp: expected 1 or 2, got 3".into()),
        },
    ];

    for test_case in test_cases.iter() {
        let result = opcodes::jmp(&table(&test_case.labels), &test_case.args);
        assert_eq!(result, test_case.expected, "{}", test_case.name);
    }

}

#[test]
fn test_or() {
    struct TestCase {
        name: &'static str,
        args: Vec<String>,
        expected: Result<u16, String>,
    }

    let test_cases = [
        TestCase {
            name: "Valid registers - v0 and v1",
            args: vec!["v0".to_string(), "v1".to_string()],
            expected: Ok(0x8011),
        },
        TestCase {
            name: "Valid registers - va and vf",
            args: vec!["va".to_string(), "vf".to_string()],
            expected: Ok(0x8AF1),
        },
    ];

    for test_case in test_cases.iter() {
        let result = opcodes::or(&test_case.args);
        assert_eq!(result, test_case.expected, "{}", test_case.name);
    }
}

#[test]
fn test_rnd() {
    struct TestCase {
        name: &'static str,
        args: Vec<String>,
        expected: Result<u16, String>,
    }

    let test_cases = [
        TestCase {
            name: "Valid arguments",
            args: vec!["v0".to_string(), "0x10".to_string()],
            expected: Ok(0xC010),
        },
        TestCase {
            name: "Invalid number of arguments",
            args: vec!["v0".to_string()],
            expected: Err("Invalid number of arguments for rnd: expected 2, got 1".into()),
        },
        TestCase {
            name: "Invalid address",
            args: vec!["v0".to_string(), "0x100".to_string()],
            expected: Err("Invalid address for rnd: expected 0xFF or less".into()),
        },
    ];

    for test_case in test_cases.iter() {
        let result = opcodes::rnd(&test_case.args);
        assert_eq!(result, test_case.expected, "{}", test_case.name);
    }
}

#[test]
fn test_call() {
    struct TestCase {
        name: &'static str,
        labels: HashMap<String, u16>,
        args: Vec<String>,
        expected: Result<u16, String>,
    }

    let test_cases = [
        TestCase {
            name: "Valid address",
            labels: HashMap::new(),
            args: vec!["0x200".to_string()],
            expected: Ok(0x2200),
        },
        TestCase {
            name: "Invalid number of arguments",
            labels: HashMap::new(),
            args: vec!["0x200".to_string(), "0x200".to_string()],
            expected: Err("Invalid number of arguments for call: expected 1, got 2".into()),
        },
        TestCase {
            name: "Valid Label",
            labels: HashMap::from([
                    ("foo".to_string(), 0x2ff)
                ]),
            args: vec![ "foo".to_string() ],
            expected: Ok(0x22ff),
        },
    ];

    for test_case in test_cases.iter() {
        let result = opcodes::call(&table(&test_case.labels), &test_case.args);
        assert_eq!(result, test_case.expected, "{}", test_case.name);
    }
}

#[test]
fn test_shl() {
    struct TestCase {
        name: &'static str,
        args: Vec<String>,
        expected: Result<u16, String>,
    }

    let test_cases = [
        TestCase {
            name: "Valid registers - v0 and v1",
            args: vec!["v0".to_string(), "v1".to_string()],
            expected: Ok(0x801E),
        },
        TestCase {
            name: "Valid registers - va and vf",
            args: vec!["va".to_string(), "vf".to_string()],
            expected: Ok(0x8AFE),
        },
        TestCase {
            name: "Invalid number of arguments",
            args: vec!["v0".to_string()],
            expected: Err("Invalid number of arguments for shl: expected 2, got 1".into()),
        },
    ];

    for test_case in test_cases.iter() {
        let result = opcodes::shl(&test_case.args);
        assert_eq!(result, test_case.expected, "{}", test_case.name);
    }
}

#[test]
fn test_shr() {
    struct TestCase {
        name: &'static str,
        args: Vec<String>,
        expected: Result<u16, String>,
    }

    let test_cases = [
        TestCase {
            name: "Valid registers - v0 and v1",
            args: vec!["v0".to_string(), "v1".to_string()],
            expected: Ok(0x8016),
        },
        TestCase {
            name: "Valid registers - va and vf",
            args: vec!["va".to_string(), "vf".to_string()],
            expected: Ok(0x8AF6),
        },
        TestCase {
            name: "Invalid number of arguments",
            args: vec!["v0".to_string()],
            expected: Err("Invalid number of arguments for shr: expected 2, got 1".into()),
        },
    ];


    for test_case in test_cases.iter() {
        let result = opcodes::shr(&test_case.args);
        assert_eq!(result, test_case.expected, "{}", test_case.name);
    }
}

#[test]
fn test_se() {
    struct TestCase {
        name: &'static str,
        args: Vec<String>,
        expected: Result<u16, String>,
    }

    let test_cases = [
        TestCase {
            name: "Valid registers - v0 and v1",
            args: vec!["v0".to_string(), "v1".to_string()],
            expected: Ok(0x5010),
        },
        TestCase {
            name: "Valid registers - va and vf",
            args: vec!["va".to_string(), "vf".to_string()],
            expected: Ok(0x5af0),
        },
        TestCase {
            name: "Valid register and address - v0 and 0x10",
            args: vec!["v0".to_string(), "0x10".to_string()],
            expected: Ok(0x3010),
        },
        TestCase {
            name: "Invalid number of arguments",
            args: vec!["v0".to_string()],
            expected: Err("Invalid number of arguments for se: expected 2, got 1".into()),
        },
        TestCase {
            name: "Invalid address - 0x100",
            args: vec!["v0".to_string(), "0x100".to_string()],
            expected: Err("Invalid address for se: expected 0xFF or less".into()),
        },
    ];

    for test_case in test_cases.iter() {
        let result = opcodes::se(&test_case.args);
        assert_eq!(result, test_case.expected, "{}", test_case.name);
    }
}

#[test]
fn test_sne() {
    struct TestCase {
        name: &'static str,
        args: Vec<String>,
        expected: Result<u16, String>,
    }
    let test_cases = [
        TestCase {
            name: "Valid registers - v0 and v1",
            args: vec!["v0".to_string(), "v1".to_string()],
            expected: Ok(0x9010),
        },
        TestCase {
            name: "Valid registers - va and vf",
            args: vec!["va".to_string(), "vf".to_string()],
            expected: Ok(0x9af0),
        },
        TestCase {
            name: "Valid register and address - v0 and 0x10",
            args: vec!["v0".to_string(), "0x10".to_string()],
            expected: Ok(0x4010),
        },
        TestCase {
            name: "Invalid number of arguments",
            args: vec!["v0".to_string()],
            expected: Err("Invalid number of arguments for sne: expected 2, got 1".into()),
        },
        TestCase {
            name: "Invalid address - 0x100",
            args: vec!["v0".to_string(), "0x100".to_string()],
            expected: Err("Invalid address for sne: expected 0xFF or less".into()),
        },
    ];

    for test_case in test_cases.iter() {
        let result = opcodes::sne(&test_case.args);
        assert_eq!(result, test_case.expected, "{}", test_case.name);
    }
}

#[test]
fn test_skp() {
    struct TestCase {
        name: &'static str,
        args: Vec<String>,
        expected: Result<u16, String>,
    }
    let test_cases = [  
        TestCase {
            name: "Valid register - v0",
            args: vec!["v0".to_string()],
            expected: Ok(0xE09E),
        },
        TestCase {
            name: "Valid register - vf",
            args: vec!["vf".to_string()],
            expected: Ok(0xEF9E),
        },
    ];

    for test_case in test_cases.iter() {
        let result = opcodes::skp(&test_case.args);
        assert_eq!(result, test_case.expected, "{}", test_case.name);
    }
}

#[test]
fn test_sknp() {
    struct TestCase {
        name: &'static str,
        args: Vec<String>,
        expected: Result<u16, String>,
    }
    let test_cases = [
        TestCase {
            name: "Valid register - v0",
            args: vec!["v0".to_string()],
            expected: Ok(0xE0A1),
        },
        TestCase {
            name: "Valid register - vf",
            args: vec!["vf".to_string()],
            expected: Ok(0xEFA1),
        },
    ];

    for test_case in test_cases.iter() {
        let result = opcodes::sknp(&test_case.args);
        assert_eq!(result, test_case.expected, "{}", test_case.name);
    }
}

#[test]
fn test_sub() {
    struct TestCase {
        name: &'static str,
        args: Vec<String>,
        expected: Result<u16, String>,
    }

    let test_cases = [
        TestCase {
            name: "Valid registers - v0 and v1",
            args: vec!["v0".to_string(), "v1".to_string()],
            expected: Ok(0x8015),
        },
        TestCase {
            name: "Valid registers - va and vf",
            args: vec!["va".to_string(), "vf".to_string()],
            expected: Ok(0x8AF5),
        },
        TestCase {
            name: "Invalid number of arguments",
            args: vec!["v0".to_string()],
            expected: Err("Invalid number of arguments for sub: expected 2, got 1".into()),
        },
    ];

    for test_case in test_cases.iter() {
        let result = opcodes::sub(&test_case.args);
        assert_eq!(result, test_case.expected, "{}", test_case.name);
    }
}

#[test]
fn test_subn() {
    struct TestCase {
        name: &'static str,
        args: Vec<String>,
        expected: Result<u16, String>,
    }

    let test_cases = [
        TestCase {
            name: "Valid registers - v0 and v1",
            args: vec!["v0".to_string(), "v1".to_string()],
            expected: Ok(0x8017),
        },
        TestCase {
            name: "Valid registers - va and vf",
            args: vec!["va".to_string(), "vf".to_string()],
            expected: Ok(0x8AF7),
        },
        TestCase {
            name: "Invalid number of arguments",
            args: vec!["v0".to_string()],
            expected: Err("Invalid number of arguments for subn: expected 2, got 1".into()),
        },
    ];

    for test_case in test_cases.iter() {
        let result = opcodes::subn(&test_case.args);
        assert_eq!(result, test_case.expected, "{}", test_case.name);
    }
}

#[test]
fn test_wkp() {
    struct TestCase {
        name: &'static str,
        args: Vec<String>,
        expected: Result<u16, String>,
    }
    let test_cases = [
        TestCase {
            name: "Valid register - v0",
            args: vec!["v0".to_string()],
            expected: Ok(0xF00A),
        },
        TestCase {
            name: "Valid register - v5",
            args: vec!["v5".to_string()],
            expected: Ok(0xF50A),
        },
        TestCase {
            name: "Invalid number of arguments",
            args: vec![],
            expected: Err("Invalid number of arguments for wkp: expected 1, got 0".into()),
        },
    ];

    for test_case in test_cases.iter() {
        let result = opcodes::wkp(&test_case.args);
        assert_eq!(result, test_case.expected, "{}", test_case.name);
    }
}

#[test]
fn test_xor() {
    struct TestCase {
        name: &'static str,
        args: Vec<String>,
        expected: Result<u16, String>,
    }

    let test_cases = [
        TestCase {
            name: "Valid registers - v0 and v1",
            args: vec!["v0".to_string(), "v1".to_string()],
            expected: Ok(0x8013),
        },
        TestCase {
            name: "Valid registers - va and vf",
            args: vec!["va".to_string(), "vf".to_string()],
            expected: Ok(0x8AF3),
        },
    ];

    for test_case in test_cases.iter() {
        let result = opcodes::xor(&test_case.args);
        assert_eq!(result, test_case.expected, "{}", test_case.name);
    }
}

