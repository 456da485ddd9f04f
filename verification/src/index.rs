//! The span index over a resolved program tree.
//!
//! A resolved program is reduced to a closed set of node variants carrying,
//! as plain values, exactly what the index reads: spans, the text that each
//! resolved type renders to, and the shape of every statement and
//! expression. One pre-order traversal emits an ordered sequence of
//! `(span, description)` entries; a point query scans the entries in build
//! order and answers with the first whose span contains the offset.

use vstd::prelude::*;

use crate::position::Span;

verus! {

/// The kind of a function declaration; the index describes a function by
/// naming its kind.
#[derive(Clone, Copy, PartialEq, Eq, Structural, Debug)]
pub enum FunctionKind {
    Constructor,
    Function,
    Fallback,
    Receive,
    Modifier,
}

/// How a literal leaf is described: a boolean literal shows its value, any
/// other literal shows its resolved type.
#[derive(Clone, Copy, PartialEq, Eq, Structural, Debug)]
pub enum LiteralKind {
    Boolean,
    Typed,
}

/// How a variable-like leaf is described: a plain reference shows its
/// resolved type, a constant marks itself as such, a function argument
/// names its role.
#[derive(Clone, Copy, PartialEq, Eq, Structural, Debug)]
pub enum RefKind {
    Plain,
    Constant,
    FunctionArg,
}

/// A builtin operation with a fixed description of its own.
#[derive(Clone, Copy, PartialEq, Eq, Structural, Debug)]
pub enum BuiltinKind {
    Keccak256,
    ReturnData,
    GetAddress,
}

/// A resolved expression, reduced to what the index needs. Leaf-like
/// descriptive nodes carry a span and rendered text; compound nodes emit no
/// entry of their own and carry their operands in source order.
#[allow(inconsistent_fields)]
pub enum ExprNode {
    /// A literal; `text` is the rendered resolved type, or the rendered
    /// value for a boolean literal.
    Literal { span: Span, kind: LiteralKind, text: String },
    /// A reference to a variable, constant or function argument; `type_text`
    /// is its rendered resolved type.
    VariableRef { span: Span, kind: RefKind, type_text: String },
    /// A binary operation: arithmetic, bitwise, comparison, logical or
    /// assignment. Operands are indexed left to right.
    BinaryOp { left: Box<ExprNode>, right: Box<ExprNode> },
    /// A unary operation: negation, complement, increment, decrement, or a
    /// load through a reference.
    UnaryOp { operand: Box<ExprNode> },
    /// A call: callee-related operands and arguments, in source order.
    Call { children: Vec<ExprNode> },
    /// A typed cast, extension or truncation; only its operand is indexed.
    Cast { operand: Box<ExprNode> },
    /// A struct or array literal; its element expressions in order.
    AggregateLiteral { elements: Vec<ExprNode> },
    /// An array operation: subscript, length, push, pop or allocation.
    ArrayOp { children: Vec<ExprNode> },
    /// A storage operation on contract state.
    StorageOp { children: Vec<ExprNode> },
    /// A string comparison or concatenation; only operands present at run
    /// time appear as children.
    StringOp { children: Vec<ExprNode> },
    /// A builtin call with a fixed description, emitted after its
    /// arguments.
    Builtin { span: Span, kind: BuiltinKind, args: Vec<ExprNode> },
    /// A node with no source text of interest; contributes nothing.
    NoOp,
}

/// A resolved statement, reduced to what the index needs.
#[allow(inconsistent_fields)]
pub enum StmtNode {
    /// A local variable declaration. Its initializer is indexed first; the
    /// declaration itself is described by its rendered resolved type.
    VariableDecl { span: Span, type_text: String, initializer: Option<ExprNode> },
    /// A conditional: condition, then both branches.
    If { cond: ExprNode, then_branch: Vec<StmtNode>, else_branch: Vec<StmtNode> },
    /// Any loop form. The condition, when present, is indexed first, then
    /// the initial statements, the advancing statements, and the body.
    Loop { cond: Option<ExprNode>, init: Vec<StmtNode>, next: Vec<StmtNode>, body: Vec<StmtNode> },
    /// A statement that evaluates expressions: an expression statement, a
    /// delete, a return or an event emission.
    Expressions { exprs: Vec<ExprNode> },
    /// A destructuring assignment: the source value, then the target
    /// expressions.
    Destructure { value: ExprNode, targets: Vec<ExprNode> },
    /// A try/catch: the tried call, then the catch statements, the success
    /// statements, and the error-clause statements.
    TryCatch {
        call: ExprNode,
        catch_branch: Vec<StmtNode>,
        ok_branch: Vec<StmtNode>,
        error_branch: Vec<StmtNode>,
    },
    /// A control marker with no source text of interest: break, continue or
    /// a placeholder.
    NoOp,
}

/// A function declaration: its declaration span, its kind, and its body.
pub struct FunctionDecl {
    pub span: Span,
    pub kind: FunctionKind,
    pub body: Vec<StmtNode>,
}

/// A contract-level variable declaration, described as
/// `<resolved type> <name>`; its initializer is indexed first.
pub struct ContractVariable {
    pub span: Span,
    pub type_text: String,
    pub name: String,
    pub initializer: Option<ExprNode>,
}

/// A contract: its functions, then its variables.
pub struct ContractDecl {
    pub functions: Vec<FunctionDecl>,
    pub variables: Vec<ContractVariable>,
}

/// A struct field declaration, described as `<resolved type> <name>`.
pub struct StructField {
    pub span: Span,
    pub type_text: String,
    pub name: String,
}

/// A struct declaration; only its fields contribute entries.
pub struct StructDecl {
    pub fields: Vec<StructField>,
}

/// A fully resolved program: its contracts, then its struct declarations.
pub struct ResolvedProgram {
    pub contracts: Vec<ContractDecl>,
    pub structs: Vec<StructDecl>,
}

/// One record of the index: a span and the description attached to it.
pub struct IndexEntry {
    pub span: Span,
    pub description: String,
}

/// Mathematical image of an `IndexEntry`.
pub struct IndexEntryView {
    pub span: Span,
    pub description: Seq<char>,
}

impl View for IndexEntry {
    type V = IndexEntryView;

    open spec fn view(&self) -> IndexEntryView {
        IndexEntryView { span: self.span, description: self.description@ }
    }
}

impl DeepView for IndexEntry {
    type V = IndexEntryView;

    open spec fn deep_view(&self) -> IndexEntryView {
        self.view()
    }
}

/// The ordered entry table built from one traversal of a resolved program.
/// The order is the traversal order and is significant: point queries
/// return the first entry, in this order, whose span contains the offset.
pub struct SourceIndex {
    pub entries: Vec<IndexEntry>,
}

impl View for SourceIndex {
    type V = Seq<IndexEntryView>;

    open spec fn view(&self) -> Seq<IndexEntryView> {
        self.entries.deep_view()
    }
}

/// The description of a literal leaf.
pub open spec fn literal_description(kind: LiteralKind, text: Seq<char>) -> Seq<char> {
    match kind {
        LiteralKind::Boolean => "(bool) "@ + text,
        LiteralKind::Typed => "("@ + text + ")"@,
    }
}

/// The description of a variable-like leaf.
pub open spec fn variable_description(kind: RefKind, type_text: Seq<char>) -> Seq<char> {
    match kind {
        RefKind::Plain => "("@ + type_text + ")"@,
        RefKind::Constant => "constant ("@ + type_text + ")"@,
        RefKind::FunctionArg => "function arg "@ + type_text,
    }
}

/// The fixed description of a builtin operation.
pub open spec fn builtin_description(kind: BuiltinKind) -> Seq<char> {
    match kind {
        BuiltinKind::Keccak256 => "Keccak256 hash"@,
        BuiltinKind::ReturnData => "Return"@,
        BuiltinKind::GetAddress => "Get address"@,
    }
}

/// The description of a function declaration: the name of its kind.
pub open spec fn function_kind_description(kind: FunctionKind) -> Seq<char> {
    match kind {
        FunctionKind::Constructor => "Constructor"@,
        FunctionKind::Function => "Function"@,
        FunctionKind::Fallback => "Fallback"@,
        FunctionKind::Receive => "Receive"@,
        FunctionKind::Modifier => "Modifier"@,
    }
}

/// The description of a contract variable or struct field:
/// `<resolved type> <name>`.
pub open spec fn declaration_description(type_text: Seq<char>, name: Seq<char>) -> Seq<char> {
    type_text + " "@ + name
}

/// Shorthand for one entry.
pub open spec fn one_entry(span: Span, description: Seq<char>) -> Seq<IndexEntryView> {
    seq![IndexEntryView { span, description }]
}

/// The entries that one expression contributes, in traversal order.
pub open spec fn expr_entries(e: ExprNode) -> Seq<IndexEntryView>
    decreases e,
{
    match e {
        ExprNode::Literal { span, kind, text } => one_entry(span, literal_description(kind, text@)),
        ExprNode::VariableRef { span, kind, type_text } => one_entry(
            span,
            variable_description(kind, type_text@),
        ),
        ExprNode::BinaryOp { left, right } => expr_entries(*left) + expr_entries(*right),
        ExprNode::UnaryOp { operand } => expr_entries(*operand),
        ExprNode::Call { children } => expr_list_entries(children@),
        ExprNode::Cast { operand } => expr_entries(*operand),
        ExprNode::AggregateLiteral { elements } => expr_list_entries(elements@),
        ExprNode::ArrayOp { children } => expr_list_entries(children@),
        ExprNode::StorageOp { children } => expr_list_entries(children@),
        ExprNode::StringOp { children } => expr_list_entries(children@),
        ExprNode::Builtin { span, kind, args } => expr_list_entries(args@) + one_entry(
            span,
            builtin_description(kind),
        ),
        ExprNode::NoOp => Seq::empty(),
    }
}

/// The entries of a list of expressions, in order.
pub open spec fn expr_list_entries(es: Seq<ExprNode>) -> Seq<IndexEntryView>
    decreases es,
{
    if es.len() == 0 {
        Seq::empty()
    } else {
        expr_list_entries(es.drop_last()) + expr_entries(es.last())
    }
}

/// The entries of an optional expression.
pub open spec fn opt_expr_entries(oe: Option<ExprNode>) -> Seq<IndexEntryView>
    decreases oe,
{
    match oe {
        Some(e) => expr_entries(e),
        None => Seq::empty(),
    }
}

/// The entries that one statement contributes, in traversal order.
pub open spec fn stmt_entries(s: StmtNode) -> Seq<IndexEntryView>
    decreases s,
{
    match s {
        StmtNode::VariableDecl { span, type_text, initializer } => opt_expr_entries(initializer)
            + one_entry(span, type_text@),
        StmtNode::If { cond, then_branch, else_branch } => expr_entries(cond) + stmt_list_entries(
            then_branch@,
        ) + stmt_list_entries(else_branch@),
        StmtNode::Loop { cond, init, next, body } => opt_expr_entries(cond) + stmt_list_entries(
            init@,
        ) + stmt_list_entries(next@) + stmt_list_entries(body@),
        StmtNode::Expressions { exprs } => expr_list_entries(exprs@),
        StmtNode::Destructure { value, targets } => expr_entries(value) + expr_list_entries(
            targets@,
        ),
        StmtNode::TryCatch { call, catch_branch, ok_branch, error_branch } => expr_entries(call)
            + stmt_list_entries(catch_branch@) + stmt_list_entries(ok_branch@) + stmt_list_entries(
            error_branch@,
        ),
        StmtNode::NoOp => Seq::empty(),
    }
}

/// The entries of a list of statements, in order.
pub open spec fn stmt_list_entries(ss: Seq<StmtNode>) -> Seq<IndexEntryView>
    decreases ss,
{
    if ss.len() == 0 {
        Seq::empty()
    } else {
        stmt_list_entries(ss.drop_last()) + stmt_entries(ss.last())
    }
}

/// The entries of a function: one entry naming its kind at its declaration
/// span, then the entries of its body.
pub open spec fn function_entries(f: FunctionDecl) -> Seq<IndexEntryView> {
    one_entry(f.span, function_kind_description(f.kind)) + stmt_list_entries(f.body@)
}

/// The entries of a list of functions, in order.
pub open spec fn function_list_entries(fs: Seq<FunctionDecl>) -> Seq<IndexEntryView>
    decreases fs.len(),
{
    if fs.len() == 0 {
        Seq::empty()
    } else {
        function_list_entries(fs.drop_last()) + function_entries(fs.last())
    }
}

/// The entries of a contract variable: its initializer first, then the
/// declaration itself.
pub open spec fn contract_variable_entries(v: ContractVariable) -> Seq<IndexEntryView> {
    opt_expr_entries(v.initializer) + one_entry(
        v.span,
        declaration_description(v.type_text@, v.name@),
    )
}

/// The entries of a list of contract variables, in order.
pub open spec fn variable_list_entries(vs: Seq<ContractVariable>) -> Seq<IndexEntryView>
    decreases vs.len(),
{
    if vs.len() == 0 {
        Seq::empty()
    } else {
        variable_list_entries(vs.drop_last()) + contract_variable_entries(vs.last())
    }
}

/// The entries of a contract: its functions, then its variables.
pub open spec fn contract_entries(c: ContractDecl) -> Seq<IndexEntryView> {
    function_list_entries(c.functions@) + variable_list_entries(c.variables@)
}

/// The entries of a list of contracts, in order.
pub open spec fn contract_list_entries(cs: Seq<ContractDecl>) -> Seq<IndexEntryView>
    decreases cs.len(),
{
    if cs.len() == 0 {
        Seq::empty()
    } else {
        contract_list_entries(cs.drop_last()) + contract_entries(cs.last())
    }
}

/// The entries of a struct field declaration.
pub open spec fn field_entries(f: StructField) -> Seq<IndexEntryView> {
    one_entry(f.span, declaration_description(f.type_text@, f.name@))
}

/// The entries of a list of struct fields, in order.
pub open spec fn field_list_entries(fs: Seq<StructField>) -> Seq<IndexEntryView>
    decreases fs.len(),
{
    if fs.len() == 0 {
        Seq::empty()
    } else {
        field_list_entries(fs.drop_last()) + field_entries(fs.last())
    }
}

/// The entries of a list of struct declarations, in order.
pub open spec fn struct_list_entries(ss: Seq<StructDecl>) -> Seq<IndexEntryView>
    decreases ss.len(),
{
    if ss.len() == 0 {
        Seq::empty()
    } else {
        struct_list_entries(ss.drop_last()) + field_list_entries(ss.last().fields@)
    }
}

/// The entries of a whole program: every contract, then every struct.
pub open spec fn program_entries(p: ResolvedProgram) -> Seq<IndexEntryView> {
    contract_list_entries(p.contracts@) + struct_list_entries(p.structs@)
}

/// Renders the description of a literal leaf.
fn literal_description_string(kind: LiteralKind, text: &str) -> (r: String)
    ensures
        r@ == literal_description(kind, text@),
{
    match kind {
        LiteralKind::Boolean => {
            let mut s = String::from_str("(bool) ");
            s.append(text);
            s
        },
        LiteralKind::Typed => {
            let mut s = String::from_str("(");
            s.append(text);
            s.append(")");
            s
        },
    }
}

/// Renders the description of a variable-like leaf.
fn variable_description_string(kind: RefKind, type_text: &str) -> (r: String)
    ensures
        r@ == variable_description(kind, type_text@),
{
    match kind {
        RefKind::Plain => {
            let mut s = String::from_str("(");
            s.append(type_text);
            s.append(")");
            s
        },
        RefKind::Constant => {
            let mut s = String::from_str("constant (");
            s.append(type_text);
            s.append(")");
            s
        },
        RefKind::FunctionArg => {
            let mut s = String::from_str("function arg ");
            s.append(type_text);
            s
        },
    }
}

/// Renders the fixed description of a builtin operation.
fn builtin_description_string(kind: BuiltinKind) -> (r: String)
    ensures
        r@ == builtin_description(kind),
{
    match kind {
        BuiltinKind::Keccak256 => String::from_str("Keccak256 hash"),
        BuiltinKind::ReturnData => String::from_str("Return"),
        BuiltinKind::GetAddress => String::from_str("Get address"),
    }
}

/// Renders the description of a function declaration.
fn function_kind_description_string(kind: FunctionKind) -> (r: String)
    ensures
        r@ == function_kind_description(kind),
{
    match kind {
        FunctionKind::Constructor => String::from_str("Constructor"),
        FunctionKind::Function => String::from_str("Function"),
        FunctionKind::Fallback => String::from_str("Fallback"),
        FunctionKind::Receive => String::from_str("Receive"),
        FunctionKind::Modifier => String::from_str("Modifier"),
    }
}

/// Renders the description of a contract variable or struct field.
fn declaration_description_string(type_text: &str, name: &str) -> (r: String)
    ensures
        r@ == declaration_description(type_text@, name@),
{
    let mut s = String::from_str(type_text);
    s.append(" ");
    s.append(name);
    s
}

/// Appends one entry to the table.
fn push_entry(out: &mut Vec<IndexEntry>, span: Span, description: String)
    ensures
        final(out).deep_view() == old(out).deep_view() + one_entry(span, description@),
{
    let ghost pre = out.deep_view();
    let ghost v = IndexEntryView { span, description: description@ };
    out.push(IndexEntry { span, description });
    proof {
        assert(out.deep_view() =~= pre + one_entry(v.span, v.description));
    }
}

/// Emits the entries of one expression, in traversal order.
fn push_expr_entries(e: &ExprNode, out: &mut Vec<IndexEntry>)
    ensures
        final(out).deep_view() == old(out).deep_view() + expr_entries(*e),
    decreases *e,
{
    match e {
        ExprNode::Literal { span, kind, text } => {
            let d = literal_description_string(*kind, text.as_str());
            push_entry(out, *span, d);
        },
        ExprNode::VariableRef { span, kind, type_text } => {
            let d = variable_description_string(*kind, type_text.as_str());
            push_entry(out, *span, d);
        },
        ExprNode::BinaryOp { left, right } => {
            push_expr_entries(left, out);
            push_expr_entries(right, out);
            proof {
                assert(old(out).deep_view() + expr_entries(**left) + expr_entries(**right) =~= old(
                    out,
                ).deep_view() + (expr_entries(**left) + expr_entries(**right)));
            }
        },
        ExprNode::UnaryOp { operand } => {
            push_expr_entries(operand, out);
        },
        ExprNode::Call { children } => {
            push_expr_list_entries(children, out);
        },
        ExprNode::Cast { operand } => {
            push_expr_entries(operand, out);
        },
        ExprNode::AggregateLiteral { elements } => {
            push_expr_list_entries(elements, out);
        },
        ExprNode::ArrayOp { children } => {
            push_expr_list_entries(children, out);
        },
        ExprNode::StorageOp { children } => {
            push_expr_list_entries(children, out);
        },
        ExprNode::StringOp { children } => {
            push_expr_list_entries(children, out);
        },
        ExprNode::Builtin { span, kind, args } => {
            push_expr_list_entries(args, out);
            let d = builtin_description_string(*kind);
            push_entry(out, *span, d);
            proof {
                assert(old(out).deep_view() + expr_list_entries(args@) + one_entry(
                    *span,
                    builtin_description(*kind),
                ) =~= old(out).deep_view() + (expr_list_entries(args@) + one_entry(
                    *span,
                    builtin_description(*kind),
                )));
            }
        },
        ExprNode::NoOp => {
            proof {
                assert(out.deep_view() + Seq::<IndexEntryView>::empty() =~= out.deep_view());
            }
        },
    }
}

/// Emits the entries of a list of expressions, left to right.
fn push_expr_list_entries(es: &Vec<ExprNode>, out: &mut Vec<IndexEntry>)
    ensures
        final(out).deep_view() == old(out).deep_view() + expr_list_entries(es@),
    decreases es@,
{
    let ghost base = out.deep_view();
    let mut i: usize = 0;
    while i < es.len()
        invariant
            i <= es.len(),
            out.deep_view() == base + expr_list_entries(es@.take(i as int)),
        decreases es.len() - i,
    {
        push_expr_entries(&es[i], out);
        proof {
            assert(es@.take(i + 1).drop_last() =~= es@.take(i as int));
            assert(es@.take(i + 1).last() == es@[i as int]);
            assert(base + expr_list_entries(es@.take(i as int)) + expr_entries(es@[i as int]) =~=
            base + expr_list_entries(es@.take(i + 1)));
        }
        i = i + 1;
    }
    proof {
        assert(es@.take(es.len() as int) =~= es@);
    }
}

/// Emits the entries of an optional expression.
fn push_opt_expr_entries(oe: &Option<ExprNode>, out: &mut Vec<IndexEntry>)
    ensures
        final(out).deep_view() == old(out).deep_view() + opt_expr_entries(*oe),
    decreases *oe,
{
    match oe {
        Some(e) => {
            push_expr_entries(e, out);
        },
        None => {
            proof {
                assert(out.deep_view() + Seq::<IndexEntryView>::empty() =~= out.deep_view());
            }
        },
    }
}

/// Emits the entries of one statement, in traversal order.
fn push_stmt_entries(s: &StmtNode, out: &mut Vec<IndexEntry>)
    ensures
        final(out).deep_view() == old(out).deep_view() + stmt_entries(*s),
    decreases *s,
{
    match s {
        StmtNode::VariableDecl { span, type_text, initializer } => {
            push_opt_expr_entries(initializer, out);
            push_entry(out, *span, type_text.clone());
            proof {
                assert(old(out).deep_view() + opt_expr_entries(*initializer) + one_entry(
                    *span,
                    type_text@,
                ) =~= old(out).deep_view() + (opt_expr_entries(*initializer) + one_entry(
                    *span,
                    type_text@,
                )));
            }
        },
        StmtNode::If { cond, then_branch, else_branch } => {
            push_expr_entries(cond, out);
            push_stmt_list_entries(then_branch, out);
            push_stmt_list_entries(else_branch, out);
            proof {
                assert(old(out).deep_view() + expr_entries(*cond) + stmt_list_entries(then_branch@)
                    + stmt_list_entries(else_branch@) =~= old(out).deep_view() + (expr_entries(
                    *cond,
                ) + stmt_list_entries(then_branch@) + stmt_list_entries(else_branch@)));
            }
        },
        StmtNode::Loop { cond, init, next, body } => {
            push_opt_expr_entries(cond, out);
            push_stmt_list_entries(init, out);
            push_stmt_list_entries(next, out);
            push_stmt_list_entries(body, out);
            proof {
                assert(old(out).deep_view() + opt_expr_entries(*cond) + stmt_list_entries(init@)
                    + stmt_list_entries(next@) + stmt_list_entries(body@) =~= old(out).deep_view()
                    + (opt_expr_entries(*cond) + stmt_list_entries(init@) + stmt_list_entries(next@)
                    + stmt_list_entries(body@)));
            }
        },
        StmtNode::Expressions { exprs } => {
            push_expr_list_entries(exprs, out);
        },
        StmtNode::Destructure { value, targets } => {
            push_expr_entries(value, out);
            push_expr_list_entries(targets, out);
            proof {
                assert(old(out).deep_view() + expr_entries(*value) + expr_list_entries(targets@)
                    =~= old(out).deep_view() + (expr_entries(*value) + expr_list_entries(
                    targets@,
                )));
            }
        },
        StmtNode::TryCatch { call, catch_branch, ok_branch, error_branch } => {
            push_expr_entries(call, out);
            push_stmt_list_entries(catch_branch, out);
            push_stmt_list_entries(ok_branch, out);
            push_stmt_list_entries(error_branch, out);
            proof {
                assert(old(out).deep_view() + expr_entries(*call) + stmt_list_entries(
                    catch_branch@,
                ) + stmt_list_entries(ok_branch@) + stmt_list_entries(error_branch@) =~= old(
                    out,
                ).deep_view() + (expr_entries(*call) + stmt_list_entries(catch_branch@)
                    + stmt_list_entries(ok_branch@) + stmt_list_entries(error_branch@)));
            }
        },
        StmtNode::NoOp => {
            proof {
                assert(out.deep_view() + Seq::<IndexEntryView>::empty() =~= out.deep_view());
            }
        },
    }
}

/// Emits the entries of a list of statements, in order.
fn push_stmt_list_entries(ss: &Vec<StmtNode>, out: &mut Vec<IndexEntry>)
    ensures
        final(out).deep_view() == old(out).deep_view() + stmt_list_entries(ss@),
    decreases ss@,
{
    let ghost base = out.deep_view();
    let mut i: usize = 0;
    while i < ss.len()
        invariant
            i <= ss.len(),
            out.deep_view() == base + stmt_list_entries(ss@.take(i as int)),
        decreases ss.len() - i,
    {
        push_stmt_entries(&ss[i], out);
        proof {
            assert(ss@.take(i + 1).drop_last() =~= ss@.take(i as int));
            assert(ss@.take(i + 1).last() == ss@[i as int]);
            assert(base + stmt_list_entries(ss@.take(i as int)) + stmt_entries(ss@[i as int]) =~=
            base + stmt_list_entries(ss@.take(i + 1)));
        }
        i = i + 1;
    }
    proof {
        assert(ss@.take(ss.len() as int) =~= ss@);
    }
}

/// Emits the entries of one function: its kind at its declaration span,
/// then its body.
fn push_function_entries(f: &FunctionDecl, out: &mut Vec<IndexEntry>)
    ensures
        final(out).deep_view() == old(out).deep_view() + function_entries(*f),
{
    let d = function_kind_description_string(f.kind);
    push_entry(out, f.span, d);
    push_stmt_list_entries(&f.body, out);
    proof {
        assert(old(out).deep_view() + one_entry(f.span, function_kind_description(f.kind))
            + stmt_list_entries(f.body@) =~= old(out).deep_view() + (one_entry(
            f.span,
            function_kind_description(f.kind),
        ) + stmt_list_entries(f.body@)));
    }
}

/// Emits the entries of one contract variable: its initializer first, then
/// the declaration itself.
fn push_contract_variable_entries(v: &ContractVariable, out: &mut Vec<IndexEntry>)
    ensures
        final(out).deep_view() == old(out).deep_view() + contract_variable_entries(*v),
{
    push_opt_expr_entries(&v.initializer, out);
    let d = declaration_description_string(v.type_text.as_str(), v.name.as_str());
    push_entry(out, v.span, d);
    proof {
        assert(old(out).deep_view() + opt_expr_entries(v.initializer) + one_entry(
            v.span,
            declaration_description(v.type_text@, v.name@),
        ) =~= old(out).deep_view() + (opt_expr_entries(v.initializer) + one_entry(
            v.span,
            declaration_description(v.type_text@, v.name@),
        )));
    }
}

/// Emits the entries of one contract: its functions, then its variables.
fn push_contract_entries(c: &ContractDecl, out: &mut Vec<IndexEntry>)
    ensures
        final(out).deep_view() == old(out).deep_view() + contract_entries(*c),
{
    let ghost base = out.deep_view();
    let mut i: usize = 0;
    while i < c.functions.len()
        invariant
            i <= c.functions.len(),
            out.deep_view() == base + function_list_entries(c.functions@.take(i as int)),
        decreases c.functions.len() - i,
    {
        push_function_entries(&c.functions[i], out);
        proof {
            assert(c.functions@.take(i + 1).drop_last() =~= c.functions@.take(i as int));
            assert(c.functions@.take(i + 1).last() == c.functions@[i as int]);
            assert(base + function_list_entries(c.functions@.take(i as int)) + function_entries(
                c.functions@[i as int],
            ) =~= base + function_list_entries(c.functions@.take(i + 1)));
        }
        i = i + 1;
    }
    proof {
        assert(c.functions@.take(c.functions.len() as int) =~= c.functions@);
    }
    let ghost mid = out.deep_view();
    let mut j: usize = 0;
    while j < c.variables.len()
        invariant
            j <= c.variables.len(),
            out.deep_view() == mid + variable_list_entries(c.variables@.take(j as int)),
        decreases c.variables.len() - j,
    {
        push_contract_variable_entries(&c.variables[j], out);
        proof {
            assert(c.variables@.take(j + 1).drop_last() =~= c.variables@.take(j as int));
            assert(c.variables@.take(j + 1).last() == c.variables@[j as int]);
            assert(mid + variable_list_entries(c.variables@.take(j as int))
                + contract_variable_entries(c.variables@[j as int]) =~= mid + variable_list_entries(
                c.variables@.take(j + 1),
            ));
        }
        j = j + 1;
    }
    proof {
        assert(c.variables@.take(c.variables.len() as int) =~= c.variables@);
        assert(base + function_list_entries(c.functions@) + variable_list_entries(c.variables@) =~=
        base + contract_entries(*c));
    }
}

/// Emits the entries of one struct declaration: each of its fields.
fn push_struct_entries(sd: &StructDecl, out: &mut Vec<IndexEntry>)
    ensures
        final(out).deep_view() == old(out).deep_view() + field_list_entries(sd.fields@),
{
    let ghost base = out.deep_view();
    let mut i: usize = 0;
    while i < sd.fields.len()
        invariant
            i <= sd.fields.len(),
            out.deep_view() == base + field_list_entries(sd.fields@.take(i as int)),
        decreases sd.fields.len() - i,
    {
        let f = &sd.fields[i];
        let d = declaration_description_string(f.type_text.as_str(), f.name.as_str());
        push_entry(out, f.span, d);
        proof {
            assert(sd.fields@.take(i + 1).drop_last() =~= sd.fields@.take(i as int));
            assert(sd.fields@.take(i + 1).last() == sd.fields@[i as int]);
            assert(base + field_list_entries(sd.fields@.take(i as int)) + field_entries(
                sd.fields@[i as int],
            ) =~= base + field_list_entries(sd.fields@.take(i + 1)));
        }
        i = i + 1;
    }
    proof {
        assert(sd.fields@.take(sd.fields.len() as int) =~= sd.fields@);
    }
}

/// The fixed fallback answer for a point query that no entry contains.
pub open spec fn no_information_text() -> Seq<char> {
    "no information available for this position"@
}

/// The description of the first entry, in build order, whose span contains
/// `offset`; the fixed fallback text when none does.
pub open spec fn lookup_spec(entries: Seq<IndexEntryView>, offset: int) -> Seq<char>
    decreases entries.len(),
{
    if entries.len() == 0 {
        no_information_text()
    } else if entries.first().span.start <= offset <= entries.first().span.end {
        entries.first().description
    } else {
        lookup_spec(entries.drop_first(), offset)
    }
}

/// Hover fallback: a lookup in an empty index yields the fixed fallback
/// text, whatever the offset.
pub proof fn lemma_lookup_empty(offset: int)
    ensures
        lookup_spec(Seq::empty(), offset) == no_information_text(),
{
}

impl SourceIndex {
    /// Builds the index by one full pre-order traversal of the program.
    pub fn build(program: &ResolvedProgram) -> (index: SourceIndex)
        ensures
            index@ == program_entries(*program),
    {
        let mut entries: Vec<IndexEntry> = Vec::new();
        let mut i: usize = 0;
        while i < program.contracts.len()
            invariant
                i <= program.contracts.len(),
                entries.deep_view() == contract_list_entries(program.contracts@.take(i as int)),
            decreases program.contracts.len() - i,
        {
            push_contract_entries(&program.contracts[i], &mut entries);
            proof {
                assert(program.contracts@.take(i + 1).drop_last() =~= program.contracts@.take(
                    i as int,
                ));
                assert(program.contracts@.take(i + 1).last() == program.contracts@[i as int]);
                assert(contract_list_entries(program.contracts@.take(i as int)) + contract_entries(
                    program.contracts@[i as int],
                ) =~= contract_list_entries(program.contracts@.take(i + 1)));
            }
            i = i + 1;
        }
        proof {
            assert(program.contracts@.take(program.contracts.len() as int) =~= program.contracts@);
        }
        let ghost mid = entries.deep_view();
        let mut j: usize = 0;
        while j < program.structs.len()
            invariant
                j <= program.structs.len(),
                entries.deep_view() == mid + struct_list_entries(program.structs@.take(j as int)),
            decreases program.structs.len() - j,
        {
            push_struct_entries(&program.structs[j], &mut entries);
            proof {
                assert(program.structs@.take(j + 1).drop_last() =~= program.structs@.take(
                    j as int,
                ));
                assert(program.structs@.take(j + 1).last() == program.structs@[j as int]);
                assert(mid + struct_list_entries(program.structs@.take(j as int))
                    + field_list_entries(program.structs@[j as int].fields@) =~= mid
                    + struct_list_entries(program.structs@.take(j + 1)));
            }
            j = j + 1;
        }
        proof {
            assert(program.structs@.take(program.structs.len() as int) =~= program.structs@);
            assert(mid + struct_list_entries(program.structs@) =~= program_entries(*program));
        }
        SourceIndex { entries }
    }

    /// Answers a point query: the description of the first entry, in build
    /// order, whose span contains `offset`, or the fixed fallback text.
    pub fn lookup(&self, offset: usize) -> (r: String)
        ensures
            r@ == lookup_spec(self@, offset as int),
    {
        let mut i: usize = 0;
        proof {
            assert(self@.skip(0) =~= self@);
        }
        while i < self.entries.len()
            invariant
                i <= self.entries.len(),
                lookup_spec(self@, offset as int) == lookup_spec(
                    self@.skip(i as int),
                    offset as int,
                ),
            decreases self.entries.len() - i,
        {
            let e = &self.entries[i];
            proof {
                assert(self@.skip(i as int).first() == self.entries@[i as int]@);
            }
            if e.span.start <= offset && offset <= e.span.end {
                return e.description.clone();
            }
            proof {
                assert(self@.skip(i as int).drop_first() =~= self@.skip(i + 1));
            }
            i = i + 1;
        }
        proof {
            assert(self@.skip(self.entries.len() as int) =~= Seq::<IndexEntryView>::empty());
        }
        String::from_str("no information available for this position")
    }
}

} // verus!
