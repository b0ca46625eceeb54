//! The three-address code of a program, as functions on the models of the
//! syntax tree and of the generator's state.
//!
//! Code is a sequence of lines. An expression leaves its value in an operand:
//! a literal, a name, or a temporary `t0`, `t1`, ... that a line before has
//! assigned. Control flow is written with labels `L0`, `L1`, ... and jumps to
//! them.

use crate::parser::enums::{
    binary_operator, unary_operator, BranchView, ExprView, ForView, FunctionView, IfView,
    LiteralView, ParamView, RootView, StatementView, VariableDeclarationView,
};
use crate::text::{decimal_text, integer_text, join_lines};
use crate::semantics::rules::{root_depth, MAX_ANALYSIS_DEPTH};
use vstd::prelude::*;

verus! {

/// The state of a generator: the number of the next temporary and of the next
/// label, the lines written so far, for each loop around the statement being
/// lowered the labels that `continue` and `break` jump to, and whether
/// generation has failed.
pub struct IrView {
    pub temp_counter: nat,
    pub label_counter: nat,
    pub code: Seq<Seq<char>>,
    pub loop_stack: Seq<(nat, nat)>,
    pub failed: bool,
}

/// The name of the temporary with the given number: `t0`, `t1`, ...
pub open spec fn temp_name(number: nat) -> Seq<char> {
    "t"@ + decimal_text(number)
}

/// The name of the label with the given number: `L0`, `L1`, ...
pub open spec fn label_name(number: nat) -> Seq<char> {
    "L"@ + decimal_text(number)
}

impl IrView {
    /// A generator that has written nothing.
    pub open spec fn initial() -> IrView {
        IrView {
            temp_counter: 0,
            label_counter: 0,
            code: Seq::empty(),
            loop_stack: Seq::empty(),
            failed: false,
        }
    }

    /// Writes a line at the end of the code.
    pub open spec fn emit(self, line: Seq<char>) -> IrView {
        IrView { code: self.code.push(line), ..self }
    }

    /// Marks generation as failed. The mark stays.
    pub open spec fn fail(self) -> IrView {
        IrView { failed: true, ..self }
    }

    /// Takes the next temporary. Generation fails where the numbers run out.
    pub open spec fn new_temp(self) -> IrView {
        if self.temp_counter < usize::MAX {
            IrView { temp_counter: self.temp_counter + 1, ..self }
        } else {
            self.fail()
        }
    }

    /// Takes the next label. Generation fails where the numbers run out.
    pub open spec fn new_label(self) -> IrView {
        if self.label_counter < usize::MAX {
            IrView { label_counter: self.label_counter + 1, ..self }
        } else {
            self.fail()
        }
    }

    /// Enters a loop whose `continue` and `break` jump to the given labels.
    pub open spec fn enter_loop(self, continue_label: nat, break_label: nat) -> IrView {
        IrView { loop_stack: self.loop_stack.push((continue_label, break_label)), ..self }
    }

    /// Leaves the innermost loop.
    pub open spec fn exit_loop(self) -> IrView {
        if self.loop_stack.len() == 0 {
            self
        } else {
            IrView { loop_stack: self.loop_stack.drop_last(), ..self }
        }
    }
}

/// A literal as an operand: a number in decimal, a float as it was written,
/// a string between double quotes, `true` or `false`.
pub open spec fn literal_text(literal: LiteralView) -> Seq<char> {
    match literal {
        LiteralView::Int(value) => integer_text(value as int),
        LiteralView::Float(text) => text,
        LiteralView::Str(text) => "\""@ + text + "\""@,
        LiteralView::Bool(value) => if value {
            "true"@
        } else {
            "false"@
        },
    }
}

/// The sign of a binary operator.
pub open spec fn binary_operator_text(operator: binary_operator) -> Seq<char> {
    match operator {
        binary_operator::Or => "||"@,
        binary_operator::And => "&&"@,
        binary_operator::Equals => "=="@,
        binary_operator::NotEquals => "!="@,
        binary_operator::LessThan => "<"@,
        binary_operator::GreaterThan => ">"@,
        binary_operator::LessThanEqual => "<="@,
        binary_operator::GreaterThanEqual => ">="@,
        binary_operator::LeftShift => "<<"@,
        binary_operator::RightShift => ">>"@,
        binary_operator::Plus => "+"@,
        binary_operator::Minus => "-"@,
        binary_operator::Multiply => "*"@,
        binary_operator::Divide => "/"@,
        binary_operator::Exponent => "^"@,
    }
}

/// The sign of a prefix operator.
pub open spec fn unary_operator_text(operator: unary_operator) -> Seq<char> {
    match operator {
        unary_operator::Minus => "-"@,
        unary_operator::Not => "!"@,
    }
}

/// `target = value`
pub open spec fn copy_line(target: Seq<char>, value: Seq<char>) -> Seq<char> {
    target + " = "@ + value
}

/// `target = left operator right`
pub open spec fn binary_line(
    target: Seq<char>,
    left: Seq<char>,
    operator: Seq<char>,
    right: Seq<char>,
) -> Seq<char> {
    target + " = "@ + left + " "@ + operator + " "@ + right
}

/// `target = operator operand`
pub open spec fn unary_line(target: Seq<char>, operator: Seq<char>, operand: Seq<char>) -> Seq<
    char,
> {
    target + " = "@ + operator + " "@ + operand
}

/// `target = Call name, count`
pub open spec fn call_line(target: Seq<char>, name: Seq<char>, count: nat) -> Seq<char> {
    target + " = Call "@ + name + ", "@ + decimal_text(count)
}

/// `Param operand`
pub open spec fn param_line(operand: Seq<char>) -> Seq<char> {
    "Param "@ + operand
}

/// `PopParam name`
pub open spec fn pop_param_line(name: Seq<char>) -> Seq<char> {
    "PopParam "@ + name
}

/// `Return operand`
pub open spec fn return_line(operand: Seq<char>) -> Seq<char> {
    "Return "@ + operand
}

/// `Goto label`
pub open spec fn goto_line(label: nat) -> Seq<char> {
    "Goto "@ + label_name(label)
}

/// `IfZ condition Goto label`
pub open spec fn branch_line(condition: Seq<char>, label: nat) -> Seq<char> {
    "IfZ "@ + condition + " Goto "@ + label_name(label)
}

/// `name:`
pub open spec fn mark_line(name: Seq<char>) -> Seq<char> {
    name + ":"@
}

/// An expression lowered: the state after its lines, and the operand that
/// holds its value. An assignment to anything but a name makes generation
/// fail.
pub open spec fn gen_expr_spec(state: IrView, e: ExprView) -> (IrView, Seq<char>)
    decreases e,
{
    match e {
        ExprView::Literal(literal) => (state, literal_text(literal)),
        ExprView::Identifier(name) => (state, name),
        ExprView::BinaryOperation { left, operator, right } => {
            let (after_left, l) = gen_expr_spec(state, *left);
            let (after_right, r) = gen_expr_spec(after_left, *right);
            let temp = temp_name(after_right.temp_counter);
            (
                after_right.new_temp().emit(
                    binary_line(temp, l, binary_operator_text(operator), r),
                ),
                temp,
            )
        },
        ExprView::UnaryOperation { prefix, operand } => {
            let (after, value) = gen_expr_spec(state, *operand);
            let temp = temp_name(after.temp_counter);
            (after.new_temp().emit(unary_line(temp, unary_operator_text(prefix), value)), temp)
        },
        ExprView::Assignment { left, right } => {
            let (after, value) = gen_expr_spec(state, *right);
            match *left {
                ExprView::Identifier(name) => (after.emit(copy_line(name, value)), name),
                _ => (after.fail(), Seq::empty()),
            }
        },
        ExprView::FuncCall(call) => {
            let after = gen_arguments_spec(state, call.args);
            let temp = temp_name(after.temp_counter);
            (after.new_temp().emit(call_line(temp, call.identifier, call.args.len())), temp)
        },
    }
}

/// The arguments of a call lowered in order, each followed by its `Param`
/// line.
pub open spec fn gen_arguments_spec(state: IrView, args: Seq<ExprView>) -> IrView
    decreases args,
{
    if args.len() == 0 {
        state
    } else {
        let before = gen_arguments_spec(state, args.drop_last());
        let (after, operand) = gen_expr_spec(before, args.last());
        after.emit(param_line(operand))
    }
}

/// A variable declaration lowered: the initializer, then a copy of its value
/// into the variable.
pub open spec fn gen_var_decl_spec(state: IrView, declaration: VariableDeclarationView) -> IrView {
    let (after, value) = gen_expr_spec(state, declaration.expression);
    after.emit(copy_line(declaration.identifier, value))
}

/// The statements of a block lowered one after the other.
pub open spec fn gen_block_spec(state: IrView, block: Seq<StatementView>) -> IrView
    decreases block,
{
    if block.len() == 0 {
        state
    } else {
        gen_stmt_spec(gen_block_spec(state, block.drop_last()), block.last())
    }
}

/// A statement lowered. A `break` or `continue` jumps to the label of the
/// innermost loop and leaves no line outside of a loop.
pub open spec fn gen_stmt_spec(state: IrView, s: StatementView) -> IrView
    decreases s,
{
    match s {
        StatementView::Var(declaration) => gen_var_decl_spec(state, declaration),
        StatementView::Expr(e) => gen_expr_spec(state, e).0,
        StatementView::Return(e) => {
            let (after, value) = gen_expr_spec(state, e);
            after.emit(return_line(value))
        },
        StatementView::Break => if state.loop_stack.len() == 0 {
            state
        } else {
            state.emit(goto_line(state.loop_stack.last().1))
        },
        StatementView::Continue => if state.loop_stack.len() == 0 {
            state
        } else {
            state.emit(goto_line(state.loop_stack.last().0))
        },
        StatementView::If(i) => gen_if_spec(state, i),
        StatementView::While(w) => gen_while_spec(state, w),
        StatementView::For(f) => gen_for_spec(state, f),
    }
}

/// One branch of an `if`: the condition, a jump past the block where the
/// condition is zero, the block, a jump to the end of the whole `if`, and the
/// label that the first jump goes to.
pub open spec fn gen_branch_spec(state: IrView, branch: BranchView, end_label: nat) -> IrView
    decreases branch,
{
    let next_label = state.label_counter;
    let (after_condition, condition) = gen_expr_spec(state.new_label(), branch.condition);
    gen_block_spec(after_condition.emit(branch_line(condition, next_label)), branch.block).emit(
        goto_line(end_label),
    ).emit(mark_line(label_name(next_label)))
}

/// The `elif` branches of an `if` lowered one after the other.
pub open spec fn gen_branches_spec(state: IrView, branches: Seq<BranchView>, end_label: nat) -> IrView
    decreases branches,
{
    if branches.len() == 0 {
        state
    } else {
        gen_branch_spec(
            gen_branches_spec(state, branches.drop_last(), end_label),
            branches.last(),
            end_label,
        )
    }
}

/// An `if` lowered: its branches one after the other, the `else` block, and
/// the label of the end, which every branch jumps to behind its block.
pub open spec fn gen_if_spec(state: IrView, i: IfView) -> IrView
    decreases i,
{
    let end_label = state.label_counter;
    let after_first = gen_branch_spec(state.new_label(), i.first, end_label);
    let after_elifs = gen_branches_spec(after_first, i.elifs, end_label);
    let after_else = match i.otherwise {
        Some(block) => gen_block_spec(after_elifs, block),
        None => after_elifs,
    };
    after_else.emit(mark_line(label_name(end_label)))
}

/// A `while` lowered: the label of the start, the condition with a jump to
/// the end where it is zero, the block, a jump to the start, the label of the
/// end. `continue` jumps to the start, `break` to the end.
pub open spec fn gen_while_spec(state: IrView, w: BranchView) -> IrView
    decreases w,
{
    let start_label = state.label_counter;
    let end_label = state.new_label().label_counter;
    let entered = state.new_label().new_label().enter_loop(start_label, end_label).emit(
        mark_line(label_name(start_label)),
    );
    let (after_condition, condition) = gen_expr_spec(entered, w.condition);
    gen_block_spec(after_condition.emit(branch_line(condition, end_label)), w.block).emit(
        goto_line(start_label),
    ).emit(mark_line(label_name(end_label))).exit_loop()
}

/// A `for` lowered: the declaration, the label of the start, the condition
/// with a jump to the end where it is zero, the block, the label that
/// `continue` jumps to, the update, a jump to the start, the label of the end.
pub open spec fn gen_for_spec(state: IrView, f: ForView) -> IrView
    decreases f,
{
    let start_label = state.label_counter;
    let continue_label = state.new_label().label_counter;
    let end_label = state.new_label().new_label().label_counter;
    let entered = state.new_label().new_label().new_label().enter_loop(continue_label, end_label);
    let after_init = match f.init {
        Some(declaration) => gen_var_decl_spec(entered, declaration),
        None => entered,
    };
    let at_start = after_init.emit(mark_line(label_name(start_label)));
    let after_condition = match f.condition {
        Some(condition) => {
            let (after, value) = gen_expr_spec(at_start, condition);
            after.emit(branch_line(value, end_label))
        },
        None => at_start,
    };
    let at_continue = gen_block_spec(after_condition, f.block).emit(
        mark_line(label_name(continue_label)),
    );
    let after_update = match f.update {
        Some(update) => gen_expr_spec(at_continue, update).0,
        None => at_continue,
    };
    after_update.emit(goto_line(start_label)).emit(mark_line(label_name(end_label))).exit_loop()
}

/// One `PopParam` line for each parameter, in order.
pub open spec fn gen_params_spec(state: IrView, params: Seq<ParamView>) -> IrView
    decreases params.len(),
{
    if params.len() == 0 {
        state
    } else {
        gen_params_spec(state, params.drop_last()).emit(pop_param_line(params.last().identifier))
    }
}

/// A function lowered: its name as a label, `BeginFunc`, its parameters, its
/// block, `EndFunc`.
pub open spec fn gen_func_spec(state: IrView, f: FunctionView) -> IrView {
    gen_block_spec(
        gen_params_spec(state.emit(mark_line(f.identifier)).emit("BeginFunc"@), f.params),
        f.block,
    ).emit("EndFunc"@)
}

/// A top-level declaration lowered. One that nests deeper than the generator
/// follows makes generation fail and leaves no lines.
pub open spec fn gen_root_spec(state: IrView, root: RootView) -> IrView {
    if root_depth(root) <= MAX_ANALYSIS_DEPTH {
        match root {
            RootView::Var(declaration) => gen_var_decl_spec(state, declaration),
            RootView::Func(f) => gen_func_spec(state, f),
        }
    } else {
        state.fail()
    }
}

/// The declarations of a program lowered in order.
pub open spec fn gen_program_spec(state: IrView, program: Seq<RootView>) -> IrView
    decreases program.len(),
{
    if program.len() == 0 {
        state
    } else {
        gen_root_spec(gen_program_spec(state, program.drop_last()), program.last())
    }
}

/// The outcome of generation: the text of the code, or failure.
pub open spec fn ir_result(state: IrView) -> Result<Seq<char>, ()> {
    if state.failed {
        Err(())
    } else {
        Ok(join_lines(state.code))
    }
}

} // verus!
