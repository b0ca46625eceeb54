//! The generator of three-address code.

use crate::ir::tac::{
    binary_operator_text, branch_line, copy_line, gen_arguments_spec, gen_block_spec,
    gen_branch_spec, gen_branches_spec, gen_expr_spec, gen_for_spec, gen_func_spec, gen_if_spec,
    gen_params_spec, gen_program_spec, gen_root_spec, gen_stmt_spec, gen_var_decl_spec,
    gen_while_spec, goto_line, ir_result, label_name, literal_text, mark_line, temp_name,
    unary_operator_text, IrView,
};
use crate::parser::enums::{
    binary_operator, elif_statement, elifs_view, expression_statement, exprs_view, for_statement,
    function_statement, if_statement, if_statement_expression, params_view, program_view, root,
    root_list, statement, statements_view, unary_operator, variable_declaration, while_statement,
    Block, Expr, ExprView, Literal,
};
use crate::semantics::depth::root_within;
use crate::semantics::rules::MAX_ANALYSIS_DEPTH;
use crate::text::{join, lines_view, push_decimal, push_integer};
use vstd::prelude::*;
use vstd::string::StringExecFns;

verus! {

/// The labels of a run of loops as numbers without bound.
pub open spec fn loops_view(loops: Seq<(usize, usize)>) -> Seq<(nat, nat)> {
    Seq::new(loops.len(), |i: int| (loops[i].0 as nat, loops[i].1 as nat))
}

/// Lowers programs to three-address code, line by line.
pub struct IrGenerator {
    temp_counter: usize,
    label_counter: usize,
    code: Vec<String>,
    loop_stack: Vec<(usize, usize)>,
    failed: bool,
}

impl View for IrGenerator {
    type V = IrView;

    closed spec fn view(&self) -> IrView {
        IrView {
            temp_counter: self.temp_counter as nat,
            label_counter: self.label_counter as nat,
            code: lines_view(self.code@),
            loop_stack: loops_view(self.loop_stack@),
            failed: self.failed,
        }
    }
}

/// The operand that a literal is written as.
fn literal_operand(literal: &Literal) -> (text: String)
    ensures
        text@ == literal_text(literal@),
{
    match literal {
        Literal::Int(value) => {
            let mut text = String::new();
            push_integer(&mut text, *value);
            assert(text@ =~= literal_text(literal@));
            text
        },
        Literal::Float(text) => text.clone(),
        Literal::Str(inner) => {
            let mut text = String::from_str("\"");
            text.append(inner.as_str());
            text.append("\"");
            text
        },
        Literal::Bool(value) => if *value {
            String::from_str("true")
        } else {
            String::from_str("false")
        },
    }
}

/// The sign of a binary operator.
fn binary_operator_name(operator: binary_operator) -> (text: &'static str)
    ensures
        text@ == binary_operator_text(operator),
{
    match operator {
        binary_operator::Or => "||",
        binary_operator::And => "&&",
        binary_operator::Equals => "==",
        binary_operator::NotEquals => "!=",
        binary_operator::LessThan => "<",
        binary_operator::GreaterThan => ">",
        binary_operator::LessThanEqual => "<=",
        binary_operator::GreaterThanEqual => ">=",
        binary_operator::LeftShift => "<<",
        binary_operator::RightShift => ">>",
        binary_operator::Plus => "+",
        binary_operator::Minus => "-",
        binary_operator::Multiply => "*",
        binary_operator::Divide => "/",
        binary_operator::Exponent => "^",
    }
}

/// The sign of a prefix operator.
fn unary_operator_name(operator: unary_operator) -> (text: &'static str)
    ensures
        text@ == unary_operator_text(operator),
{
    match operator {
        unary_operator::Minus => "-",
        unary_operator::Not => "!",
    }
}

/// The name of the label with the given number.
fn label_text(label: usize) -> (text: String)
    ensures
        text@ == label_name(label as nat),
{
    let mut text = String::from_str("L");
    push_decimal(&mut text, label as u64);
    text
}

impl IrGenerator {
    /// A generator that has written nothing.
    pub fn new() -> (generator: IrGenerator)
        ensures
            generator@ == IrView::initial(),
    {
        let generator = IrGenerator {
            temp_counter: 0,
            label_counter: 0,
            code: Vec::new(),
            loop_stack: Vec::new(),
            failed: false,
        };
        assert(generator@.code =~= Seq::<Seq<char>>::empty());
        assert(generator@.loop_stack =~= Seq::<(nat, nat)>::empty());
        generator
    }

    /// Takes the next temporary and returns its name.
    fn new_temp(&mut self) -> (name: String)
        ensures
            name@ == temp_name(old(self)@.temp_counter),
            final(self)@ == old(self)@.new_temp(),
    {
        let mut name = String::from_str("t");
        push_decimal(&mut name, self.temp_counter as u64);
        if self.temp_counter < usize::MAX {
            self.temp_counter = self.temp_counter + 1;
        } else {
            self.failed = true;
        }
        name
    }

    /// Takes the next label and returns its number.
    fn new_label(&mut self) -> (label: usize)
        ensures
            label == old(self)@.label_counter,
            final(self)@ == old(self)@.new_label(),
    {
        let label = self.label_counter;
        if self.label_counter < usize::MAX {
            self.label_counter = self.label_counter + 1;
        } else {
            self.failed = true;
        }
        label
    }

    fn emit(&mut self, instr: String)
        ensures
            final(self)@ == old(self)@.emit(instr@),
    {
        self.code.push(instr);
        assert(final(self)@.code =~= old(self)@.code.push(instr@));
    }

    fn emit_goto(&mut self, label: usize)
        ensures
            final(self)@ == old(self)@.emit(goto_line(label as nat)),
    {
        let mut line = String::from_str("Goto ");
        let name = label_text(label);
        line.append(name.as_str());
        self.emit(line);
    }

    fn emit_mark(&mut self, name: &str)
        ensures
            final(self)@ == old(self)@.emit(mark_line(name@)),
    {
        let mut line = String::from_str(name);
        line.append(":");
        self.emit(line);
    }

    fn emit_label(&mut self, label: usize)
        ensures
            final(self)@ == old(self)@.emit(mark_line(label_name(label as nat))),
    {
        let name = label_text(label);
        self.emit_mark(name.as_str());
    }

    fn emit_branch(&mut self, condition: &str, label: usize)
        ensures
            final(self)@ == old(self)@.emit(branch_line(condition@, label as nat)),
    {
        let mut line = String::from_str("IfZ ");
        line.append(condition);
        line.append(" Goto ");
        let name = label_text(label);
        line.append(name.as_str());
        self.emit(line);
    }

    fn emit_copy(&mut self, target: &str, value: &str)
        ensures
            final(self)@ == old(self)@.emit(copy_line(target@, value@)),
    {
        let mut line = String::from_str(target);
        line.append(" = ");
        line.append(value);
        self.emit(line);
    }

    fn enter_loop(&mut self, continue_label: usize, break_label: usize)
        ensures
            final(self)@ == old(self)@.enter_loop(continue_label as nat, break_label as nat),
    {
        self.loop_stack.push((continue_label, break_label));
        assert(final(self)@.loop_stack =~= old(self)@.loop_stack.push(
            (continue_label as nat, break_label as nat),
        ));
    }

    fn exit_loop(&mut self)
        ensures
            final(self)@ == old(self)@.exit_loop(),
    {
        let _ = self.loop_stack.pop();
        assert(final(self)@.loop_stack =~= old(self)@.exit_loop().loop_stack);
    }

    /// Lowers an expression and returns the operand that holds its value.
    fn gen_expr(&mut self, expr: &Expr) -> (operand: String)
        ensures
            final(self)@ == gen_expr_spec(old(self)@, expr@).0,
            operand@ == gen_expr_spec(old(self)@, expr@).1,
        decreases expr,
    {
        match expr {
            Expr::Literal(literal) => literal_operand(literal),
            Expr::Identifier(name) => name.clone(),
            Expr::BinaryOperation { left, operator, right } => {
                let l = self.gen_expr(left);
                let r = self.gen_expr(right);
                let temp = self.new_temp();
                let mut line = temp.clone();
                line.append(" = ");
                line.append(l.as_str());
                line.append(" ");
                line.append(binary_operator_name(*operator));
                line.append(" ");
                line.append(r.as_str());
                self.emit(line);
                temp
            },
            Expr::UnaryOperation { prefix, operand } => {
                let value = self.gen_expr(operand);
                let temp = self.new_temp();
                let mut line = temp.clone();
                line.append(" = ");
                line.append(unary_operator_name(*prefix));
                line.append(" ");
                line.append(value.as_str());
                self.emit(line);
                temp
            },
            Expr::Assignment { left, right } => {
                let value = self.gen_expr(right);
                match &**left {
                    Expr::Identifier(name) => {
                        self.emit_copy(name.as_str(), value.as_str());
                        assert(left.view() == ExprView::Identifier(name@));
                        name.clone()
                    },
                    _ => {
                        self.failed = true;
                        assert(!(left.view() is Identifier));
                        String::new()
                    },
                }
            },
            Expr::FuncCall(call) => {
                self.gen_arguments(&call.args);
                let temp = self.new_temp();
                let mut line = temp.clone();
                line.append(" = Call ");
                line.append(call.identifier.as_str());
                line.append(", ");
                push_decimal(&mut line, call.args.len() as u64);
                self.emit(line);
                assert(expr@ == ExprView::FuncCall(call@));
                assert(call@.args == exprs_view(call.args@));
                temp
            },
        }
    }

    /// Lowers the arguments of a call, each followed by its `Param` line.
    fn gen_arguments(&mut self, args: &Vec<Expr>)
        ensures
            final(self)@ == gen_arguments_spec(old(self)@, exprs_view(args@)),
        decreases args,
    {
        let ghost all = exprs_view(args@);
        let mut i: usize = 0;
        assert(all.take(0) =~= Seq::empty());
        while i < args.len()
            invariant
                0 <= i <= args@.len(),
                all == exprs_view(args@),
                self@ == gen_arguments_spec(old(self)@, all.take(i as int)),
            decreases args@.len() - i,
        {
            assert(all.take(i + 1).drop_last() =~= all.take(i as int));
            assert(all.take(i + 1).last() == args@[i as int]@);
            let argument = self.gen_expr(&args[i]);
            let mut line = String::from_str("Param ");
            line.append(argument.as_str());
            self.emit(line);
            i = i + 1;
        }
        assert(all.take(args@.len() as int) =~= all);
    }

    fn gen_var_decl(&mut self, var: &variable_declaration)
        ensures
            final(self)@ == gen_var_decl_spec(old(self)@, var@),
    {
        let value = self.gen_expr(&var.expression);
        self.emit_copy(var.identifier.as_str(), value.as_str());
    }

    fn gen_block(&mut self, block: &Block)
        ensures
            final(self)@ == gen_block_spec(old(self)@, block@),
        decreases block,
    {
        let ghost all = block@;
        let mut i: usize = 0;
        assert(all.take(0) =~= Seq::empty());
        while i < block.statements.len()
            invariant
                0 <= i <= block.statements@.len(),
                all == statements_view(block.statements@),
                self@ == gen_block_spec(old(self)@, all.take(i as int)),
            decreases block.statements@.len() - i,
        {
            assert(all.take(i + 1).drop_last() =~= all.take(i as int));
            assert(all.take(i + 1).last() == block.statements@[i as int].view());
            self.gen_stmt(&block.statements[i]);
            i = i + 1;
        }
        assert(all.take(block.statements@.len() as int) =~= all);
    }

    fn gen_stmt(&mut self, stmt: &statement)
        ensures
            final(self)@ == gen_stmt_spec(old(self)@, stmt.view()),
        decreases stmt,
    {
        match stmt {
            statement::Var(var) => {
                self.gen_var_decl(var);
            },
            statement::Expr(expr) => {
                let _ = self.gen_expr(expr);
            },
            statement::Return(r) => {
                let value = self.gen_expr(&r.expr);
                let mut line = String::from_str("Return ");
                line.append(value.as_str());
                self.emit(line);
            },
            statement::Break => {
                let depth = self.loop_stack.len();
                if depth > 0 {
                    let target = self.loop_stack[depth - 1].1;
                    self.emit_goto(target);
                }
            },
            statement::Continue => {
                let depth = self.loop_stack.len();
                if depth > 0 {
                    let target = self.loop_stack[depth - 1].0;
                    self.emit_goto(target);
                }
            },
            statement::If(if_stmt) => {
                self.gen_if(if_stmt);
            },
            statement::While(while_stmt) => {
                self.gen_while(while_stmt);
            },
            statement::For(for_stmt) => {
                self.gen_for(for_stmt);
            },
        }
    }

    /// One branch of an `if`, with the label of the end of the whole `if`.
    fn gen_branch(&mut self, branch: &if_statement_expression, end_label: usize)
        ensures
            final(self)@ == gen_branch_spec(old(self)@, branch.view(), end_label as nat),
        decreases branch,
    {
        let next_label = self.new_label();
        let condition = self.gen_expr(&branch.condition);
        self.emit_branch(condition.as_str(), next_label);
        self.gen_block(&branch.block);
        self.emit_goto(end_label);
        self.emit_label(next_label);
    }

    fn gen_if(&mut self, if_stmt: &if_statement)
        ensures
            final(self)@ == gen_if_spec(old(self)@, if_stmt.view()),
        decreases if_stmt,
    {
        let end_label = self.new_label();
        self.gen_branch(&if_stmt.if_statement, end_label);
        let ghost after_first = self@;
        let ghost all = elifs_view(if_stmt.elif_statement@);
        let mut k: usize = 0;
        assert(all.take(0) =~= Seq::empty());
        while k < if_stmt.elif_statement.len()
            invariant
                0 <= k <= if_stmt.elif_statement@.len(),
                all == elifs_view(if_stmt.elif_statement@),
                self@ == gen_branches_spec(after_first, all.take(k as int), end_label as nat),
            decreases if_stmt.elif_statement@.len() - k,
        {
            assert(all.take(k + 1).drop_last() =~= all.take(k as int));
            assert(all.take(k + 1).last() == if_stmt.elif_statement@[k as int].view());
            match &if_stmt.elif_statement[k] {
                elif_statement::Elif { if_statement } => {
                    self.gen_branch(if_statement, end_label);
                },
            }
            k = k + 1;
        }
        assert(all.take(if_stmt.elif_statement@.len() as int) =~= all);
        match &if_stmt.else_statement {
            Some(block) => {
                self.gen_block(block);
            },
            None => {},
        }
        self.emit_label(end_label);
    }

    fn gen_while(&mut self, while_stmt: &while_statement)
        ensures
            final(self)@ == gen_while_spec(old(self)@, while_stmt.view()),
        decreases while_stmt,
    {
        let start_label = self.new_label();
        let end_label = self.new_label();
        self.enter_loop(start_label, end_label);
        self.emit_label(start_label);
        let condition = self.gen_expr(&while_stmt.condition);
        self.emit_branch(condition.as_str(), end_label);
        self.gen_block(&while_stmt.block);
        self.emit_goto(start_label);
        self.emit_label(end_label);
        self.exit_loop();
    }

    fn gen_for(&mut self, for_stmt: &for_statement)
        ensures
            final(self)@ == gen_for_spec(old(self)@, for_stmt.view()),
        decreases for_stmt,
    {
        let start_label = self.new_label();
        let continue_label = self.new_label();
        let end_label = self.new_label();
        self.enter_loop(continue_label, end_label);
        match &for_stmt.init_loop_var {
            Some(init) => {
                self.gen_var_decl(init);
            },
            None => {},
        }
        self.emit_label(start_label);
        match &for_stmt.loop_condition {
            expression_statement::Expr(condition) => {
                let value = self.gen_expr(condition);
                self.emit_branch(value.as_str(), end_label);
            },
            expression_statement::SemiColon => {},
        }
        self.gen_block(&for_stmt.block);
        self.emit_label(continue_label);
        match &for_stmt.update_loop_var {
            Some(update) => {
                let _ = self.gen_expr(update);
            },
            None => {},
        }
        self.emit_goto(start_label);
        self.emit_label(end_label);
        self.exit_loop();
    }

    fn gen_func(&mut self, func: &function_statement)
        ensures
            final(self)@ == gen_func_spec(old(self)@, func@),
    {
        self.emit_mark(func.identifier.as_str());
        self.emit(String::from_str("BeginFunc"));
        let ghost entered = self@;
        let ghost all = params_view(func.params@);
        let mut i: usize = 0;
        assert(all.take(0) =~= Seq::empty());
        while i < func.params.len()
            invariant
                0 <= i <= func.params@.len(),
                all == params_view(func.params@),
                self@ == gen_params_spec(entered, all.take(i as int)),
            decreases func.params@.len() - i,
        {
            assert(all.take(i + 1).drop_last() =~= all.take(i as int));
            let mut line = String::from_str("PopParam ");
            line.append(func.params[i].identifier.as_str());
            self.emit(line);
            i = i + 1;
        }
        assert(all.take(func.params@.len() as int) =~= all);
        self.gen_block(&func.block);
        self.emit(String::from_str("EndFunc"));
    }

    fn gen_root(&mut self, declaration: &root)
        ensures
            final(self)@ == gen_root_spec(old(self)@, declaration@),
    {
        if root_within(declaration, MAX_ANALYSIS_DEPTH) {
            match declaration {
                root::Func(func) => {
                    self.gen_func(func);
                },
                root::Var(var) => {
                    self.gen_var_decl(var);
                },
            }
        } else {
            self.failed = true;
        }
    }

    /// Lowers the declarations of a program in order and returns all the code
    /// that this generator has written, or failure if generation has failed.
    pub fn generate_ir(&mut self, ast: &root_list) -> (outcome: Result<String, ()>)
        ensures
            final(self)@ == gen_program_spec(old(self)@, program_view(ast@)),
            match outcome {
                Ok(text) => ir_result(final(self)@) == Ok::<Seq<char>, ()>(text@),
                Err(_) => ir_result(final(self)@) is Err,
            },
    {
        let ghost all = program_view(ast@);
        let mut i: usize = 0;
        assert(all.take(0) =~= Seq::empty());
        while i < ast.len()
            invariant
                0 <= i <= ast@.len(),
                all == program_view(ast@),
                self@ == gen_program_spec(old(self)@, all.take(i as int)),
            decreases ast@.len() - i,
        {
            assert(all.take(i + 1).drop_last() =~= all.take(i as int));
            self.gen_root(&ast[i]);
            i = i + 1;
        }
        assert(all.take(ast@.len() as int) =~= all);
        if self.failed {
            Err(())
        } else {
            Ok(join(&self.code))
        }
    }
}

/// Lowers a program with a fresh generator.
pub fn ir_generator(ast: &root_list) -> (outcome: Result<String, ()>)
    ensures
        ({
            let lowered = ir_result(gen_program_spec(IrView::initial(), program_view(ast@)));
            match outcome {
                Ok(text) => lowered == Ok::<Seq<char>, ()>(text@),
                Err(_) => lowered is Err,
            }
        }),
{
    let mut ir_gen = IrGenerator::new();
    ir_gen.generate_ir(ast)
}

} // verus!
