use solang_server::index::{
    BuiltinKind, ContractDecl, ContractVariable, ExprNode, FunctionDecl, FunctionKind, LiteralKind,
    RefKind, ResolvedProgram, SourceIndex, StmtNode, StructDecl, StructField,
};
use solang_server::position::Span;
use solang_server::session::{HoverReply, hover_reply};

const FALLBACK: &str = "no information available for this position";

fn span(start: usize, end: usize) -> Span {
    Span { start, end }
}

fn empty_program() -> ResolvedProgram {
    ResolvedProgram { contracts: Vec::new(), structs: Vec::new() }
}

fn program_with_function(f: FunctionDecl) -> ResolvedProgram {
    ResolvedProgram {
        contracts: vec![ContractDecl { functions: vec![f], variables: Vec::new() }],
        structs: Vec::new(),
    }
}

#[test]
fn function_with_no_statements_yields_one_entry() {
    let program = program_with_function(FunctionDecl {
        span: span(10, 10),
        kind: FunctionKind::Function,
        body: Vec::new(),
    });
    let index = SourceIndex::build(&program);
    assert_eq!(index.entries.len(), 1);
    assert_eq!(index.entries[0].span.start, 10);
    assert_eq!(index.entries[0].description, "Function");
}

#[test]
fn function_kind_descriptions() {
    let kinds = [
        (FunctionKind::Constructor, "Constructor"),
        (FunctionKind::Function, "Function"),
        (FunctionKind::Fallback, "Fallback"),
        (FunctionKind::Receive, "Receive"),
        (FunctionKind::Modifier, "Modifier"),
    ];
    for (kind, expected) in kinds {
        let program = program_with_function(FunctionDecl {
            span: span(0, 0),
            kind,
            body: Vec::new(),
        });
        let index = SourceIndex::build(&program);
        assert_eq!(index.entries.len(), 1);
        assert_eq!(index.entries[0].description, *expected);
    }
}

#[test]
fn lookup_on_empty_index_returns_fallback() {
    let index = SourceIndex::build(&empty_program());
    assert!(index.entries.is_empty());
    for offset in [0, 1, 7, 1000] {
        assert_eq!(index.lookup(offset), FALLBACK);
    }
}

#[test]
fn variable_decl_indexes_initializer_before_declaration() {
    let program = program_with_function(FunctionDecl {
        span: span(0, 0),
        kind: FunctionKind::Function,
        body: vec![StmtNode::VariableDecl {
            span: span(5, 9),
            type_text: String::from("uint256"),
            initializer: Some(ExprNode::Literal {
                span: span(8, 9),
                kind: LiteralKind::Typed,
                text: String::from("uint8"),
            }),
        }],
    });
    let index = SourceIndex::build(&program);
    assert_eq!(index.entries.len(), 3);
    assert_eq!(index.entries[0].description, "Function");
    assert_eq!(index.entries[1].description, "(uint8)");
    assert_eq!(index.entries[1].span.start, 8);
    assert_eq!(index.entries[2].description, "uint256");
    assert_eq!(index.entries[2].span.start, 5);
}

#[test]
fn leaf_descriptions() {
    let leaves: Vec<(ExprNode, &str)> = vec![
        (
            ExprNode::Literal {
                span: span(0, 1),
                kind: LiteralKind::Boolean,
                text: String::from("true"),
            },
            "(bool) true",
        ),
        (
            ExprNode::Literal {
                span: span(0, 1),
                kind: LiteralKind::Typed,
                text: String::from("bytes4"),
            },
            "(bytes4)",
        ),
        (
            ExprNode::VariableRef {
                span: span(0, 1),
                kind: RefKind::Plain,
                type_text: String::from("uint32"),
            },
            "(uint32)",
        ),
        (
            ExprNode::VariableRef {
                span: span(0, 1),
                kind: RefKind::Constant,
                type_text: String::from("uint256"),
            },
            "constant (uint256)",
        ),
        (
            ExprNode::VariableRef {
                span: span(0, 1),
                kind: RefKind::FunctionArg,
                type_text: String::from("address"),
            },
            "function arg address",
        ),
        (
            ExprNode::Builtin { span: span(0, 1), kind: BuiltinKind::ReturnData, args: Vec::new() },
            "Return",
        ),
        (
            ExprNode::Builtin { span: span(0, 1), kind: BuiltinKind::GetAddress, args: Vec::new() },
            "Get address",
        ),
    ];
    for (leaf, expected) in leaves {
        let program = program_with_function(FunctionDecl {
            span: span(90, 90),
            kind: FunctionKind::Function,
            body: vec![StmtNode::Expressions { exprs: vec![leaf] }],
        });
        let index = SourceIndex::build(&program);
        assert_eq!(index.entries.len(), 2);
        assert_eq!(index.entries[1].description, *expected);
    }
}

#[test]
fn compound_nodes_emit_no_entry_and_recurse_left_to_right() {
    let add = ExprNode::BinaryOp {
        left: Box::new(ExprNode::VariableRef {
            span: span(0, 0),
            kind: RefKind::Plain,
            type_text: String::from("uint8"),
        }),
        right: Box::new(ExprNode::Literal {
            span: span(4, 4),
            kind: LiteralKind::Typed,
            text: String::from("uint16"),
        }),
    };
    let program = program_with_function(FunctionDecl {
        span: span(99, 99),
        kind: FunctionKind::Function,
        body: vec![StmtNode::Expressions { exprs: vec![ExprNode::UnaryOp {
            operand: Box::new(ExprNode::Cast { operand: Box::new(add) }),
        }] }],
    });
    let index = SourceIndex::build(&program);
    assert_eq!(index.entries.len(), 3);
    assert_eq!(index.entries[1].description, "(uint8)");
    assert_eq!(index.entries[2].description, "(uint16)");
}

#[test]
fn builtin_hash_entry_comes_after_its_arguments() {
    let program = program_with_function(FunctionDecl {
        span: span(50, 50),
        kind: FunctionKind::Function,
        body: vec![StmtNode::Expressions { exprs: vec![ExprNode::Builtin {
            span: span(0, 9),
            kind: BuiltinKind::Keccak256,
            args: vec![ExprNode::VariableRef {
                span: span(3, 5),
                kind: RefKind::Plain,
                type_text: String::from("bytes"),
            }],
        }] }],
    });
    let index = SourceIndex::build(&program);
    assert_eq!(index.entries.len(), 3);
    assert_eq!(index.entries[1].description, "(bytes)");
    assert_eq!(index.entries[2].description, "Keccak256 hash");
    assert_eq!(index.entries[2].span.start, 0);
    assert_eq!(index.entries[2].span.end, 9);
}

#[test]
fn contract_variable_initializer_before_declaration() {
    let program = ResolvedProgram {
        contracts: vec![ContractDecl {
            functions: Vec::new(),
            variables: vec![ContractVariable {
                span: span(20, 30),
                type_text: String::from("uint256"),
                name: String::from("counter"),
                initializer: Some(ExprNode::Literal {
                    span: span(28, 30),
                    kind: LiteralKind::Typed,
                    text: String::from("uint8"),
                }),
            }],
        }],
        structs: Vec::new(),
    };
    let index = SourceIndex::build(&program);
    assert_eq!(index.entries.len(), 2);
    assert_eq!(index.entries[0].description, "(uint8)");
    assert_eq!(index.entries[0].span.start, 28);
    assert_eq!(index.entries[1].description, "uint256 counter");
    assert_eq!(index.entries[1].span.start, 20);
}

#[test]
fn struct_fields_come_after_contracts() {
    let program = ResolvedProgram {
        contracts: vec![ContractDecl {
            functions: vec![FunctionDecl {
                span: span(0, 0),
                kind: FunctionKind::Constructor,
                body: Vec::new(),
            }],
            variables: Vec::new(),
        }],
        structs: vec![StructDecl {
            fields: vec![
                StructField {
                    span: span(40, 52),
                    type_text: String::from("address"),
                    name: String::from("owner"),
                },
                StructField {
                    span: span(60, 70),
                    type_text: String::from("uint256"),
                    name: String::from("balance"),
                },
            ],
        }],
    };
    let index = SourceIndex::build(&program);
    assert_eq!(index.entries.len(), 3);
    assert_eq!(index.entries[0].description, "Constructor");
    assert_eq!(index.entries[1].description, "address owner");
    assert_eq!(index.entries[2].description, "uint256 balance");
}

#[test]
fn statement_shapes_recurse_in_declared_order() {
    let leaf = |s: usize, t: &str| ExprNode::VariableRef {
        span: span(s, s),
        kind: RefKind::Plain,
        type_text: String::from(t),
    };
    let program = program_with_function(FunctionDecl {
        span: span(0, 0),
        kind: FunctionKind::Function,
        body: vec![
            StmtNode::If {
                cond: leaf(1, "bool"),
                then_branch: vec![StmtNode::Expressions { exprs: vec![leaf(2, "t2")] }],
                else_branch: vec![StmtNode::Expressions { exprs: vec![leaf(3, "t3")] }],
            },
            StmtNode::Loop {
                cond: Some(leaf(4, "t4")),
                init: vec![StmtNode::Expressions { exprs: vec![leaf(5, "t5")] }],
                next: vec![StmtNode::Expressions { exprs: vec![leaf(6, "t6")] }],
                body: vec![StmtNode::Expressions { exprs: vec![leaf(7, "t7")] }],
            },
            StmtNode::Destructure { value: leaf(8, "t8"), targets: vec![leaf(9, "t9")] },
            StmtNode::TryCatch {
                call: leaf(10, "t10"),
                catch_branch: vec![StmtNode::Expressions { exprs: vec![leaf(11, "t11")] }],
                ok_branch: vec![StmtNode::Expressions { exprs: vec![leaf(12, "t12")] }],
                error_branch: vec![StmtNode::Expressions { exprs: vec![leaf(13, "t13")] }],
            },
            StmtNode::NoOp,
        ],
    });
    let index = SourceIndex::build(&program);
    let starts: Vec<usize> = index.entries.iter().map(|e| e.span.start).collect();
    assert_eq!(starts, vec![0, 1, 2, 3, 4, 5, 6, 7, 8, 9, 10, 11, 12, 13]);
}

#[test]
fn lookup_returns_first_entry_in_build_order() {
    let program = program_with_function(FunctionDecl {
        span: span(0, 0),
        kind: FunctionKind::Function,
        body: vec![StmtNode::Expressions { exprs: vec![
            ExprNode::VariableRef {
                span: span(2, 8),
                kind: RefKind::Plain,
                type_text: String::from("wide"),
            },
            ExprNode::VariableRef {
                span: span(4, 5),
                kind: RefKind::Plain,
                type_text: String::from("narrow"),
            },
        ] }],
    });
    let index = SourceIndex::build(&program);
    assert_eq!(index.lookup(4), "(wide)");
    assert_eq!(index.lookup(3), "(wide)");
    assert_eq!(index.lookup(9), FALLBACK);
}

#[test]
fn lookup_span_ends_are_inclusive() {
    let program = program_with_function(FunctionDecl {
        span: span(0, 0),
        kind: FunctionKind::Function,
        body: vec![StmtNode::Expressions { exprs: vec![ExprNode::VariableRef {
            span: span(5, 7),
            kind: RefKind::Plain,
            type_text: String::from("uint8"),
        }] }],
    });
    let index = SourceIndex::build(&program);
    assert_eq!(index.lookup(5), "(uint8)");
    assert_eq!(index.lookup(7), "(uint8)");
    assert_eq!(index.lookup(4), FALLBACK);
    assert_eq!(index.lookup(8), FALLBACK);
}

#[test]
fn hover_reply_answers_at_requested_position() {
    let program = program_with_function(FunctionDecl {
        span: span(3, 4),
        kind: FunctionKind::Function,
        body: Vec::new(),
    });
    let reply: HoverReply = hover_reply("ab\ncd", &program, 1, 0);
    assert_eq!(reply.contents, "Function");
    assert_eq!(reply.start.line, 1);
    assert_eq!(reply.start.column, 0);
    assert_eq!(reply.end, reply.start);
}

#[test]
fn hover_reply_falls_back_outside_every_span() {
    let reply = hover_reply("ab\ncd", &empty_program(), 0, 1);
    assert_eq!(reply.contents, FALLBACK);
}
