use wasm_injector::cli::parse_i16;
use wasm_injector::{Action, Cli, ErrorKind, GlobalOpts, Injection};

const FUNCTION_NAME: &str = "validate_block";

#[test]
fn test_invalid_subcommand() {
    let result = Cli::try_parse_from(&["test", "invalid"]);
    assert!(result.is_err());
    assert_eq!(result.unwrap_err().kind(), ErrorKind::InvalidSubcommand)
}

#[test]
fn function_name_is_required() {
    assert!(Cli::try_parse_from(&["test", "inject", "noops", "test.wasm"]).is_err())
}

#[test]
fn main_test_inject_noops() {
    assert_eq!(
        Cli::try_parse_from(&[
            "test",
            "inject",
            "noops",
            "--size",
            "20",
            FUNCTION_NAME,
            "test.wasm"
        ])
        .unwrap(),
        Cli {
            action: Action::Inject {
                injection: Injection::Noops,
                size: Some(20),
                function: FUNCTION_NAME.to_string(),
                global_opts: GlobalOpts {
                    source: "test.wasm".to_string(),
                    destination: None
                },
                compressed: false,
                hexified: false
            }
        }
    )
}

#[test]
fn test_inject_noops_requires_size_arg() {
    let result = Cli::try_parse_from(&["test", "inject", "noops", FUNCTION_NAME, "test.wasm"]);
    assert!(result.is_err());
    assert_eq!(
        result.unwrap_err().kind(),
        ErrorKind::MissingRequiredArgument
    )
}

#[test]
fn main_test_inject_heap_overflow() {
    assert_eq!(
        Cli::try_parse_from(&[
            "test",
            "inject",
            "heap-overflow",
            FUNCTION_NAME,
            "test.wasm"
        ])
        .unwrap(),
        Cli {
            action: Action::Inject {
                injection: Injection::HeapOverflow,
                function: FUNCTION_NAME.to_string(),
                size: None,
                global_opts: GlobalOpts {
                    source: "test.wasm".to_string(),
                    destination: None
                },
                compressed: false,
                hexified: false
            }
        }
    )
}

#[test]
fn main_test_inject_stack_overflow() {
    assert_eq!(
        Cli::try_parse_from(&[
            "test",
            "inject",
            "stack-overflow",
            FUNCTION_NAME,
            "test.wasm"
        ])
        .unwrap(),
        Cli {
            action: Action::Inject {
                injection: Injection::StackOverflow,
                function: FUNCTION_NAME.to_string(),
                size: None,
                global_opts: GlobalOpts {
                    source: "test.wasm".to_string(),
                    destination: None
                },
                compressed: false,
                hexified: false
            }
        }
    )
}

#[test]
fn test_inject_bad_return_value() {
    assert_eq!(
        Cli::try_parse_from(&[
            "test",
            "inject",
            "bad-return-value",
            FUNCTION_NAME,
            "test.wasm"
        ])
        .unwrap(),
        Cli {
            action: Action::Inject {
                injection: Injection::BadReturnValue,
                function: FUNCTION_NAME.to_string(),
                size: None,
                global_opts: GlobalOpts {
                    source: "test.wasm".to_string(),
                    destination: None
                },
                compressed: false,
                hexified: false
            }
        }
    )
}

#[test]
fn main_test_inject_infinite_loop() {
    assert_eq!(
        Cli::try_parse_from(&[
            "test",
            "inject",
            "infinite-loop",
            FUNCTION_NAME,
            "test.wasm"
        ])
        .unwrap(),
        Cli {
            action: Action::Inject {
                injection: Injection::InfiniteLoop,
                function: FUNCTION_NAME.to_string(),
                size: None,
                global_opts: GlobalOpts {
                    source: "test.wasm".to_string(),
                    destination: None
                },
                compressed: false,
                hexified: false
            }
        }
    )
}

#[test]
fn test_inject_invalid_injection() {
    let result = Cli::try_parse_from(&[
        "test",
        "inject",
        "invalid-injection",
        &FUNCTION_NAME,
        "test.wasm",
    ]);
    assert!(result.is_err());
    assert_eq!(result.unwrap_err().kind(), ErrorKind::InvalidValue)
}

#[test]
fn test_convert() {
    assert_eq!(
        Cli::try_parse_from(&["test", "convert", "test.wasm"]).unwrap(),
        Cli {
            action: Action::Convert {
                global_opts: GlobalOpts {
                    source: "test.wasm".to_string(),
                    destination: None
                },
                raw: true,
                compressed: false,
                hexified: false
            }
        }
    )
}

#[test]
fn test_convert_raw_exludes_compressed() {
    let result = Cli::try_parse_from(&["test", "convert", "test.wasm", "--compressed", "--raw"]);
    assert!(result.is_err());
    assert_eq!(result.unwrap_err().kind(), ErrorKind::ArgumentConflict);
}

#[test]
fn test_convert_raw_exludes_hexified() {
    let result = Cli::try_parse_from(&["test", "convert", "test.wasm", "--hexified", "--raw"]);
    assert!(result.is_err());
    assert_eq!(result.unwrap_err().kind(), ErrorKind::ArgumentConflict);
}

#[test]
fn convert_with_encodings_and_destination() {
    assert_eq!(
        Cli::try_parse_from(&["test", "convert", "--hexified", "in.wasm", "out.hex", "--compressed"])
            .unwrap(),
        Cli {
            action: Action::Convert {
                global_opts: GlobalOpts {
                    source: "in.wasm".to_string(),
                    destination: Some("out.hex".to_string())
                },
                raw: false,
                compressed: true,
                hexified: true
            }
        }
    );
}

#[test]
fn inject_with_size_after_equals_sign() {
    let cli = Cli::try_parse_from(&["test", "inject", "noops", "f", "a.wasm", "--size=3"]).unwrap();
    match cli.action {
        Action::Inject { size, .. } => assert_eq!(size, Some(3)),
        _ => panic!("expected an injection"),
    }
}

#[test]
fn other_command_line_errors() {
    let kind = |args: &[&str]| Cli::try_parse_from(args).unwrap_err().kind();
    assert_eq!(kind(&["test"]), ErrorKind::MissingSubcommand);
    assert_eq!(kind(&["test", "--raw"]), ErrorKind::UnknownArgument);
    assert_eq!(kind(&["test", "inject", "noops", "f", "a", "--raw"]), ErrorKind::UnknownArgument);
    assert_eq!(kind(&["test", "convert", "a", "b", "c"]), ErrorKind::UnknownArgument);
    assert_eq!(kind(&["test", "inject", "noops", "f", "a", "--size"]), ErrorKind::InvalidValue);
    assert_eq!(
        kind(&["test", "inject", "noops", "f", "a", "--size", "40000"]),
        ErrorKind::ValueValidation
    );
    assert_eq!(
        kind(&["test", "convert", "a", "--hexified", "--hexified"]),
        ErrorKind::ArgumentConflict
    );
    assert_eq!(kind(&["test", "convert"]), ErrorKind::MissingRequiredArgument);
}

#[test]
fn parses_sixteen_bit_integers() {
    assert_eq!(parse_i16("20"), Some(20));
    assert_eq!(parse_i16("+7"), Some(7));
    assert_eq!(parse_i16("-32768"), Some(-32768));
    assert_eq!(parse_i16("32767"), Some(32767));
    assert_eq!(parse_i16("32768"), None);
    assert_eq!(parse_i16("99999999999"), None);
    assert_eq!(parse_i16(""), None);
    assert_eq!(parse_i16("-"), None);
    assert_eq!(parse_i16("1x"), None);
}

#[test]
fn default_file_names() {
    let inject = Cli::try_parse_from(&["t", "inject", "infinite-loop", "f", "a.wasm"]).unwrap();
    assert_eq!(inject.default_file_name("a"), "infinite-loop-a.wasm");
    let both = Cli::try_parse_from(&[
        "t", "inject", "noops", "f", "a.wasm", "--size", "1", "--compressed", "--hexified",
    ])
    .unwrap();
    assert_eq!(both.default_file_name("a"), "hexified-compressed-noops-a.wasm.hex");
    let raw = Cli::try_parse_from(&["t", "convert", "a.wasm"]).unwrap();
    assert_eq!(raw.default_file_name("a"), "raw-a.wasm");
    let hex = Cli::try_parse_from(&["t", "convert", "a.wasm", "--hexified"]).unwrap();
    assert_eq!(hex.default_file_name("a"), "hexified-a.hex");
}
