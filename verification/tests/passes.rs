use chip8::assembler::address_from_string;
use chip8::assembler::assembler::new_opcodes;
use chip8::assembler::get_address;
use chip8::assembler::get_labels;
use chip8::assembler::get_origin;
use chip8::assembler::LabelTable;
use chip8::assembler::Token;
use chip8::assembler::TokenType;
use std::collections::HashMap;

fn table(labels: &HashMap<String, u16>) -> LabelTable {
    let mut table = LabelTable::new();
    for (name, address) in labels.iter() {
        assert!(table.insert(name, *address));
    }
    table
}

fn contents(table: &LabelTable) -> HashMap<String, u16> {
    table.entries().into_iter().collect()
}

#[test]
fn test_new_opcodes() {
    struct TestCase {
        origin: u16,
        expected: Result<Vec<u16>, String>,
    }

    let test_cases = [
        TestCase {
            origin: 0x200,
            // 0x200 / 2 = 0x100 -- 2 bytes per opcode
            expected: Ok(vec![0; 0x100 as usize]),
        },
        TestCase {
            origin: 0x2,
            expected: Ok(vec![0; 0x1 as usize]),
        },
        TestCase {
            origin: 0x201,
            expected: Err("Origin must be even".to_string()),
        },
    ];

    for case in test_cases.iter() {
        assert_eq!(new_opcodes(case.origin), case.expected);
    }

}

#[test]
fn test_get_labels() {
    struct TestCase {
        name: &'static str,
        tokens: Vec<Token>,
        origin: u16,
        expected: Result<HashMap<String, u16>, String>,
    }

    let test_cases = [

        TestCase {
            name: "Empty tokens",
            tokens: Vec::new(),
            origin: 0x200,
            expected: Result::Ok(HashMap::new()),
        },

        TestCase {
            name: "No labels",
            tokens: vec![
                Token {
                    name: "org".to_string(),
                    token_type: TokenType::Origin,
                    line: 0,
                    args: vec!["0x200".to_string()],
                }
            ],
            origin: 0x200,
            expected: Result::Ok(HashMap::new()),
        },

        TestCase {
            name: "Single label",
            tokens: vec![
                Token {
                    name: "foo".to_string(),
                    token_type: TokenType::Label,
                    line: 0,
                    args: Vec::new(),
                }
            ],
            origin: 0x200,
            expected: Result::Ok(
                HashMap::<String, u16>::from_iter(
                    vec![("foo".to_string(), 0x200)].into_iter())),
        },

        TestCase {
            name: "Two labels",
            tokens: vec![
                Token {
                    name: "foo".to_string(),
                    token_type: TokenType::Label,
                    line: 0,
                    args: Vec::new(),
                },
                Token {
                    name: "ld".to_string(),
                    token_type: TokenType::Instruction,
                    line: 1,
                    args: vec!["v0".to_string(), "0x22".to_string()],
                },
                Token {
                    name: "foobar".to_string(),
                    token_type: TokenType::Label,
                    line: 2,
                    args: Vec::new(),
                }
            ],
            origin: 0x200,
            expected: Result::Ok(
                HashMap::<String, u16>::from_iter(
                    vec![("foo".to_string(), 0x200), ("foobar".to_string(), 0x202)].into_iter())),
        }

    ];

    for case in test_cases {
        let result = get_labels(&case.tokens, case.origin).map(|table| contents(&table));
        assert_eq!(result, case.expected, "Failed on test case: {}", case.name);
    }

}

#[test]
fn test_get_origin() {
    struct TestCase {
        name: &'static str,
        tokens: Vec<Token>,
        expected: Result<u16, String>,
    }

    let test_cases = [
        TestCase {
            name: "Single token org",
            tokens: vec![
                Token {
                    name: "org".to_string(),
                    token_type: TokenType::Origin,
                    line: 0,
                    args: vec!["0x200".to_string()],
                }
            ],
            expected: Result::Ok(0x200),
        },
        TestCase {
            name: "First line org token",
            tokens: vec![
                Token {
                    name: "org".to_string(),
                    token_type: TokenType::Origin,
                    line: 0,
                    args: vec!["0x200".to_string()],
                },
                Token {
                    name: "foo".to_string(),
                    token_type: TokenType::Label,
                    line: 1,
                    args: Vec::new(),
                }
            ],
            expected: Result::Ok(0x200),
        },
        TestCase {
            name: "Last line org token",
            tokens: vec![
                Token {
                    name: "foo".to_string(),
                    token_type: TokenType::Label,
                    line: 0,
                    args: Vec::new(),
                },
                Token {
                    name: "org".to_string(),
                    token_type: TokenType::Origin,
                    line: 1,
                    args: vec!["0x200".to_string()],
                }
            ],
            expected: Result::Ok(0x200),
        },
        TestCase {
            name: "Too many args",
            tokens: vec![
                Token {
                    name: "org".to_string(),
                    token_type: TokenType::Origin,
                    line: 0,
                    args: vec!["0x200".to_string(), "0x200".to_string()],
                }
            ],
            expected: Result::Err(
                "Error on line 0: incorrect number of args for org.".to_string()),
        },
        TestCase {
            name: "Not enough args",
            tokens: vec![
                Token {
                    name: "org".to_string(),
                    token_type: TokenType::Origin,
                    line: 0,
                    args: Vec::new(),
                }
            ],
            expected: Result::Err(
                "Error on line 0: incorrect number of args for org.".to_string()),
        }

    ];

    for case in test_cases.iter() {
        let result = get_origin(&case.tokens);
        assert_eq!(result, case.expected, "Failed on test case: {}", case.name);
    }

}

#[test]
fn test_get_address() {
    struct TestCase {
        name: &'static str,
        labels: HashMap<String, u16>,
        arg: &'static str,
        expected: Result<u16, String>,
    }

    let test_cases = [
        TestCase {
            name: "Label",
            labels: {
                let mut labels = HashMap::new();
                labels.insert("foo".to_string(), 0x200);
                labels
            },
            arg: "foo",
            expected: Ok(0x200),
        },
        TestCase {
            name: "Address",
            labels: HashMap::new(),
            arg: "0x200",
            expected: Ok(0x200),
        },
        TestCase {
            name: "Invalid address",
            labels: HashMap::new(),
            arg: "0xFFFF",
            expected: Err("Error parsing address FFFF: address out of range".into()),
        },
        TestCase {
            name: "Invalid address",
            labels: HashMap::new(),
            arg: "v0",
            expected: Err("Error parsing address v0 with error: invalid digit found in string".into()),
        },
        TestCase {
            name: "Empty address",
            labels: HashMap::new(),
            arg: "0x",
            expected: Err("Error parsing address  with error: cannot parse integer from empty string".into()),
        },
    ];

    for case in test_cases.iter() {
        let result = get_address(&table(&case.labels), case.arg);
        assert_eq!(result, case.expected, "Failed on case: {}", case.name);
    }
}

#[test]
fn test_address_from_string() {

    struct TestCase {
        address: &'static str,
        expected: Result<u16, String>,
    }

    let test_cases = [
        TestCase {
            address: "0x200",
            expected: Ok(0x200),
        },
        TestCase {
            address: "201",
            expected: Err("Error parsing address 201: address must be even".into()),
        },
        TestCase {
            address: "0xFFFF",
            expected: Err("Error parsing address FFFF: address out of range".into()),
        },
        TestCase {
            address: "v0",
            expected: Err("Error parsing address v0 with error: invalid digit found in string".into()),
        },
        TestCase{
            address: "0x",
            expected: Err("Error parsing address  with error: cannot parse integer from empty string".into()),
        },
    ];

    for case in test_cases.iter() {
        let result = address_from_string(case.address);
        assert_eq!(result, case.expected, "Failed on address: {}", case.address);
    }
}

