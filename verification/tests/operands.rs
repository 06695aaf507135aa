use chip8::assembler::ArgType;
use chip8::assembler::Register;

#[test]
fn test_new() {
    struct TestCase {
        name: &'static str,
        arg: &'static str,
        expected: Result<ArgType, String>,
    }

    let test_cases = [
        TestCase {
            name: "BCD",
            arg: "b",
            expected: Ok(ArgType::BCD("b")),
        },
        TestCase {
            name: "Index register",
            arg: "i",
            expected: Ok(ArgType::IndexRegister("i")),
        },
        TestCase {
            name: "Font",
            arg: "f",
            expected: Ok(ArgType::Font("f")),
        },
        TestCase {
            name: "Delay timer",
            arg: "dt",
            expected: Ok(ArgType::DelayTimer("dt")),
        },
        TestCase {
            name: "Sound timer",
            arg: "st",
            expected: Ok(ArgType::SoundTimer("st")),
        },
        TestCase {
            name: "Register",
            arg: "v0",
            expected: Ok(ArgType::Register(Register::V0)),
        },
        TestCase {
            name: "Number",
            arg: "0x200",
            expected: Ok(ArgType::Number(0x200)),
        },
        TestCase {
            name: "Invalid number",
            arg: "0x1000",
            expected: Err("Number out of range: 0x1000".into()),
        },
        TestCase {
            name: "Invalid register",
            arg: "v16",
            expected: Err("Invalid register name: v16".into()),
        },
    ];

    for test_case in test_cases.iter() {
        let result = ArgType::new(test_case.arg);
        assert_eq!(result, test_case.expected, "{}", test_case.name);
    }
}

#[test]
fn test_get_register() {

    struct TestCase {
        name: &'static str,
        register: &'static str,
        expected: Result<Register, String>,
    }

    let test_cases = [
        TestCase {
            name: "Valid register",
            register: "v0",
            expected: Ok(Register::V0),
        },
        TestCase {
            name: "Invalid register",
            register: "v16",
            expected: Err("Invalid register name: v16".into()),
        },
    ];

    for test_case in test_cases.iter() {
        let result = Register::get_register(test_case.register);
        assert_eq!(result, test_case.expected, "{}", test_case.name);
    }

}

