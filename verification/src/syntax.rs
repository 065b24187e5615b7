//! The syntax tree that the parser builds and the evaluator walks.

use vstd::prelude::*;
use vstd::string::*;
use crate::token::token_debug;
use crate::token::token_debug_text;
use crate::token::Token;
use crate::token::TokenView;

verus! {

/// An arithmetic operator.
#[derive(Debug, Clone, Copy, PartialEq, Eq, Structural)]
pub enum Op {
    Plus,
    Minus,
    Star,
    Slash,
}

/// A node of the syntax tree.
#[derive(Debug, PartialEq)]
pub enum S {
    /// A literal or a reference to a name.
    Atom(Token),
    /// A form headed by a keyword or an operator; the head says which.
    Cons(Token, Vec<S>),
    /// An arithmetic operation on two operands.
    BinaryExpr { op: Op, lhs: Box<S>, rhs: Box<S> },
    /// A conditional. Both branches are blocks.
    IfExpr { cond: Box<S>, then_branch: Box<S>, else_branch: Option<Box<S>> },
    /// A sequence of statements in braces.
    Block(Vec<S>),
    /// A function definition: its name, its parameters and its body.
    FunDef { name: Box<S>, args: Vec<S>, body: Box<S> },
    /// A call: the callee's name and the arguments.
    FunCall { name: Box<S>, args: Vec<S> },
}

/// The mathematical model of an [`S`].
pub enum SView {
    Atom(TokenView),
    Cons(TokenView, Seq<SView>),
    BinaryExpr { op: Op, lhs: Box<SView>, rhs: Box<SView> },
    IfExpr { cond: Box<SView>, then_branch: Box<SView>, else_branch: Option<Box<SView>> },
    Block(Seq<SView>),
    FunDef { name: Box<SView>, args: Seq<SView>, body: Box<SView> },
    FunCall { name: Box<SView>, args: Seq<SView> },
}

/// The models of a sequence of nodes.
pub open spec fn views(nodes: Seq<S>) -> Seq<SView> {
    Seq::new(nodes.len(), |i: int| nodes[i]@)
}

impl S {
    /// The model of the node, by recursion on the tree.
    pub open spec fn model(&self) -> SView
        decreases self,
    {
        match self {
            S::Atom(token) => SView::Atom(token@),
            S::Cons(token, args) => SView::Cons(token@, Self::models(args)),
            S::BinaryExpr { op, lhs, rhs } => SView::BinaryExpr {
                op: *op,
                lhs: Box::new(lhs.model()),
                rhs: Box::new(rhs.model()),
            },
            S::IfExpr { cond, then_branch, else_branch } => SView::IfExpr {
                cond: Box::new(cond.model()),
                then_branch: Box::new(then_branch.model()),
                else_branch: match else_branch {
                    Some(branch) => Some(Box::new(branch.model())),
                    None => None,
                },
            },
            S::Block(statements) => SView::Block(Self::models(statements)),
            S::FunDef { name, args, body } => SView::FunDef {
                name: Box::new(name.model()),
                args: Self::models(args),
                body: Box::new(body.model()),
            },
            S::FunCall { name, args } => SView::FunCall {
                name: Box::new(name.model()),
                args: Self::models(args),
            },
        }
    }

    /// The models of the nodes of a vector, by recursion on the vector.
    pub open spec fn models(nodes: &Vec<S>) -> Seq<SView>
        decreases nodes,
    {
        Seq::new(
            nodes.len() as nat,
            |i: int|
                if 0 <= i < nodes.len() {
                    nodes[i].model()
                } else {
                    SView::Block(Seq::empty())
                },
        )
    }

    /// The recursion on a vector gives the models of its nodes.
    pub proof fn lemma_models(nodes: &Vec<S>)
        ensures
            Self::models(nodes) == views(nodes@),
    {
        assert(Self::models(nodes) =~= views(nodes@));
    }
}

impl View for S {
    type V = SView;

    open spec fn view(&self) -> SView {
        self.model()
    }
}

/// Copies a sequence of nodes.
pub fn clone_nodes(nodes: &Vec<S>) -> (r: Vec<S>)
    ensures
        views(r@) == views(nodes@),
    decreases nodes,
{
    let mut out: Vec<S> = Vec::new();
    let mut i: usize = 0;
    while i < nodes.len()
        invariant
            i <= nodes.len(),
            out.len() == i,
            forall|j: int| 0 <= j < i ==> out[j]@ == nodes[j]@,
        decreases nodes.len() - i,
    {
        out.push(nodes[i].clone());
        i += 1;
    }
    assert(views(out@) =~= views(nodes@));
    out
}

impl Clone for S {
    fn clone(&self) -> (r: Self)
        ensures
            r@ == self@,
        decreases self,
    {
        match self {
            S::Atom(token) => S::Atom(token.clone()),
            S::Cons(token, args) => {
                let copies = clone_nodes(args);
                proof {
                    Self::lemma_models(args);
                    Self::lemma_models(&copies);
                }
                S::Cons(token.clone(), copies)
            },
            S::BinaryExpr { op, lhs, rhs } => S::BinaryExpr {
                op: *op,
                lhs: Box::new((&**lhs).clone()),
                rhs: Box::new((&**rhs).clone()),
            },
            S::IfExpr { cond, then_branch, else_branch } => S::IfExpr {
                cond: Box::new((&**cond).clone()),
                then_branch: Box::new((&**then_branch).clone()),
                else_branch: match else_branch {
                    Some(branch) => Some(Box::new((&**branch).clone())),
                    None => None,
                },
            },
            S::Block(statements) => {
                let copies = clone_nodes(statements);
                proof {
                    Self::lemma_models(statements);
                    Self::lemma_models(&copies);
                }
                S::Block(copies)
            },
            S::FunDef { name, args, body } => {
                let copies = clone_nodes(args);
                proof {
                    Self::lemma_models(args);
                    Self::lemma_models(&copies);
                }
                S::FunDef {
                    name: Box::new((&**name).clone()),
                    args: copies,
                    body: Box::new((&**body).clone()),
                }
            },
            S::FunCall { name, args } => {
                let copies = clone_nodes(args);
                proof {
                    Self::lemma_models(args);
                    Self::lemma_models(&copies);
                }
                S::FunCall { name: Box::new((&**name).clone()), args: copies }
            },
        }
    }
}

impl S {
    /// A form headed by `token` with one operand.
    pub fn unary(token: Token, operand: S) -> (r: S)
        ensures
            r@ == SView::Cons(token@, seq![operand@]),
    {
        let mut args: Vec<S> = Vec::new();
        args.push(operand);
        proof {
            Self::lemma_models(&args);
            assert(views(args@) =~= seq![operand@]);
        }
        S::Cons(token, args)
    }

    /// A form headed by `token` with two operands.
    pub fn binary(token: Token, left: S, right: S) -> (r: S)
        ensures
            r@ == SView::Cons(token@, seq![left@, right@]),
    {
        let mut args: Vec<S> = Vec::new();
        args.push(left);
        args.push(right);
        proof {
            Self::lemma_models(&args);
            assert(views(args@) =~= seq![left@, right@]);
        }
        S::Cons(token, args)
    }

    /// The block of `statements`.
    pub fn block(statements: Vec<S>) -> (r: S)
        ensures
            r@ == SView::Block(views(statements@)),
    {
        proof {
            Self::lemma_models(&statements);
        }
        S::Block(statements)
    }

    /// The call of the function that `name` names, with `args`.
    pub fn call(name: Token, args: Vec<S>) -> (r: S)
        ensures
            r@ == (SView::FunCall { name: Box::new(SView::Atom(name@)), args: views(args@) }),
    {
        proof {
            Self::lemma_models(&args);
            reveal_with_fuel(S::model, 2);
        }
        S::FunCall { name: Box::new(S::Atom(name)), args }
    }

    /// The definition of the function that `name` names, with the parameters
    /// `args` and the statements `body`.
    pub fn definition(name: Token, args: Vec<S>, body: Vec<S>) -> (r: S)
        ensures
            r@ == (SView::FunDef {
                name: Box::new(SView::Atom(name@)),
                args: views(args@),
                body: Box::new(SView::Block(views(body@))),
            }),
    {
        proof {
            Self::lemma_models(&args);
            Self::lemma_models(&body);
            reveal_with_fuel(S::model, 2);
        }
        S::FunDef { name: Box::new(S::Atom(name)), args, body: Box::new(S::Block(body)) }
    }
}

/// The text that the derived `Debug` form of a tree has.
pub uninterp spec fn tree_debug_text(tree: SView) -> Seq<char>;

/// The text that the `Debug` form of a list of strings has.
pub uninterp spec fn strings_debug_text(items: Seq<Seq<char>>) -> Seq<char>;

/// Formats a tree with `{:?}`, through `std::fmt`. The text depends on the
/// tree alone; the contract gives it a name and says nothing of what it
/// holds.
#[verifier::external_body]
fn tree_debug(tree: &S) -> (r: String)
    ensures
        r@ == tree_debug_text(tree@),
{
    format!("{:?}", tree)
}

/// Formats a list of strings with `{:?}`, through `std::fmt`. The text
/// depends on the strings alone; the contract gives it a name and says
/// nothing of what it holds.
#[verifier::external_body]
fn strings_debug(items: &Vec<String>) -> (r: String)
    ensures
        r@ == strings_debug_text(Seq::new(items@.len(), |i: int| items@[i]@)),
{
    format!("{:?}", items)
}

impl Op {
    /// The name of the operator.
    pub open spec fn name_text(self) -> Seq<char> {
        match self {
            Op::Plus => "Plus"@,
            Op::Minus => "Minus"@,
            Op::Star => "Star"@,
            Op::Slash => "Slash"@,
        }
    }

    fn name(&self) -> (r: &'static str)
        ensures
            r@ == self.name_text(),
    {
        match self {
            Op::Plus => "Plus",
            Op::Minus => "Minus",
            Op::Star => "Star",
            Op::Slash => "Slash",
        }
    }
}

/// A headed form as text: the head, a space, and the operands.
pub open spec fn headed_text(head: Seq<char>, operands: Seq<char>) -> Seq<char> {
    head + " "@ + operands
}

/// An arithmetic operation as text: the operator's name and the operands,
/// with spaces between them.
pub open spec fn operation_text(op: Op, lhs: Seq<char>, rhs: Seq<char>) -> Seq<char> {
    op.name_text() + " "@ + lhs + " "@ + rhs
}

/// A conditional as text: the word `if`, the condition and the branches,
/// with spaces between them. The second branch is written as an option.
pub open spec fn conditional_text(
    cond: Seq<char>,
    then_branch: Seq<char>,
    else_branch: Option<Seq<char>>,
) -> Seq<char> {
    "if "@ + cond + " "@ + then_branch + " "@ + match else_branch {
        Some(branch) => "Some("@ + branch + ")"@,
        None => "None"@,
    }
}

/// The items from place `from` on, each but the first of the list with a
/// comma and a space before it.
pub open spec fn joined_text(items: Seq<Seq<char>>, from: int) -> Seq<char>
    decreases items.len() - from,
{
    if 0 <= from < items.len() {
        (if from == 0 {
            Seq::<char>::empty()
        } else {
            ", "@
        }) + items[from] + joined_text(items, from + 1)
    } else {
        Seq::empty()
    }
}

/// A list as text: the items in square brackets, with commas between them.
pub open spec fn list_text(items: Seq<Seq<char>>) -> Seq<char> {
    "["@ + joined_text(items, 0) + "]"@
}

/// A function definition as text: the word `def`, the name, the parameters
/// and the body, with spaces between them.
pub open spec fn definition_text(name: Seq<char>, args: Seq<char>, body: Seq<char>) -> Seq<char> {
    "def "@ + name + " "@ + args + " "@ + body
}

/// A call as text: the word `call`, the name and the arguments, with spaces
/// between them.
pub open spec fn call_text(name: Seq<char>, args: Seq<char>) -> Seq<char> {
    "call "@ + name + " "@ + args
}

/// The `Debug` forms of the trees of a sequence.
pub open spec fn debug_texts(trees: Seq<SView>) -> Seq<Seq<char>> {
    Seq::new(trees.len(), |i: int| tree_debug_text(trees[i]))
}

impl SView {
    /// The text that [`S::to_string`] gives.
    ///
    /// An atom is the text of its token's kind. Every other tree is put
    /// together from the `Debug` forms of its parts: a headed form from its
    /// head and the list of the texts of its operands, an arithmetic
    /// operation from its operands, a conditional from its condition and
    /// branches, a block from its statements, a definition and a call from
    /// name, list and body.
    pub open spec fn text(self) -> Seq<char>
        decreases self,
    {
        match self {
            SView::Atom(token) => token.kind.name(),
            SView::Cons(token, args) => headed_text(
                token_debug_text(token),
                strings_debug_text(Self::texts(args)),
            ),
            SView::BinaryExpr { op, lhs, rhs } => operation_text(
                op,
                tree_debug_text(*lhs),
                tree_debug_text(*rhs),
            ),
            SView::IfExpr { cond, then_branch, else_branch } => conditional_text(
                tree_debug_text(*cond),
                tree_debug_text(*then_branch),
                match else_branch {
                    Some(branch) => Some(tree_debug_text(*branch)),
                    None => None,
                },
            ),
            SView::Block(statements) => list_text(debug_texts(statements)),
            SView::FunDef { name, args, body } => definition_text(
                tree_debug_text(*name),
                list_text(debug_texts(args)),
                tree_debug_text(*body),
            ),
            SView::FunCall { name, args } => call_text(
                tree_debug_text(*name),
                list_text(debug_texts(args)),
            ),
        }
    }

    /// The texts that [`S::to_string`] gives for the trees of a sequence.
    pub open spec fn texts(trees: Seq<SView>) -> Seq<Seq<char>>
        decreases trees,
    {
        Seq::new(
            trees.len(),
            |i: int|
                if 0 <= i < trees.len() {
                    trees[i].text()
                } else {
                    Seq::empty()
                },
        )
    }
}

/// A headed form as text.
pub fn render_headed(head: &str, operands: &str) -> (r: String)
    ensures
        r@ == headed_text(head@, operands@),
{
    let mut r = String::from_str(head);
    r.append(" ");
    r.append(operands);
    r
}

/// An arithmetic operation as text.
pub fn render_operation(op: Op, lhs: &str, rhs: &str) -> (r: String)
    ensures
        r@ == operation_text(op, lhs@, rhs@),
{
    let mut r = String::from_str(op.name());
    r.append(" ");
    r.append(lhs);
    r.append(" ");
    r.append(rhs);
    assert(r@ =~= operation_text(op, lhs@, rhs@));
    r
}

/// A conditional as text.
pub fn render_conditional(cond: &str, then_branch: &str, else_branch: Option<&str>) -> (r:
    String)
    ensures
        r@ == conditional_text(
            cond@,
            then_branch@,
            match else_branch {
                Some(branch) => Some(branch@),
                None => None,
            },
        ),
{
    let mut r = String::from_str("if ");
    r.append(cond);
    r.append(" ");
    r.append(then_branch);
    r.append(" ");
    match else_branch {
        Some(branch) => {
            r.append("Some(");
            r.append(branch);
            r.append(")");
        },
        None => {
            r.append("None");
        },
    }
    assert(r@ =~= conditional_text(
        cond@,
        then_branch@,
        match else_branch {
            Some(branch) => Some(branch@),
            None => None,
        },
    ));
    r
}

/// A list as text.
pub fn render_list(items: &Vec<String>) -> (r: String)
    ensures
        r@ == list_text(Seq::new(items@.len(), |i: int| items@[i]@)),
{
    let ghost texts = Seq::new(items@.len(), |i: int| items@[i]@);
    let mut i: usize = items.len();
    let mut tail = String::new();
    while i > 0
        invariant
            i <= items.len(),
            texts == Seq::new(items@.len(), |i: int| items@[i]@),
            tail@ == joined_text(texts, i as int),
        decreases i,
    {
        i -= 1;
        let mut item = if i == 0 {
            String::new()
        } else {
            String::from_str(", ")
        };
        item.append(items[i].as_str());
        item.append(tail.as_str());
        tail = item;
    }
    let mut r = String::from_str("[");
    r.append(tail.as_str());
    r.append("]");
    r
}

/// A function definition as text.
pub fn render_definition(name: &str, args: &str, body: &str) -> (r: String)
    ensures
        r@ == definition_text(name@, args@, body@),
{
    let mut r = String::from_str("def ");
    r.append(name);
    r.append(" ");
    r.append(args);
    r.append(" ");
    r.append(body);
    assert(r@ =~= definition_text(name@, args@, body@));
    r
}

/// A call as text.
pub fn render_call(name: &str, args: &str) -> (r: String)
    ensures
        r@ == call_text(name@, args@),
{
    let mut r = String::from_str("call ");
    r.append(name);
    r.append(" ");
    r.append(args);
    assert(r@ =~= call_text(name@, args@));
    r
}

/// The `Debug` forms of the trees of a sequence.
fn debug_list(trees: &Vec<S>) -> (r: Vec<String>)
    ensures
        Seq::new(r@.len(), |i: int| r@[i]@) == debug_texts(views(trees@)),
{
    let mut out: Vec<String> = Vec::new();
    let mut i: usize = 0;
    while i < trees.len()
        invariant
            i <= trees.len(),
            out.len() == i,
            forall|j: int| 0 <= j < i ==> out[j]@ == tree_debug_text(trees[j]@),
        decreases trees.len() - i,
    {
        out.push(tree_debug(&trees[i]));
        i += 1;
    }
    assert(Seq::new(out@.len(), |i: int| out@[i]@) =~= debug_texts(views(trees@)));
    out
}

impl S {
    /// Renders the tree as text.
    pub fn to_string(&self) -> (r: String)
        ensures
            r@ == self@.text(),
        decreases self,
    {
        match self {
            S::Atom(token) => token.kind.to_string(),
            S::Cons(token, args) => {
                let mut texts: Vec<String> = Vec::new();
                let mut i: usize = 0;
                while i < args.len()
                    invariant
                        i <= args.len(),
                        texts.len() == i,
                        forall|j: int| 0 <= j < i ==> texts[j]@ == args[j]@.text(),
                        self is Cons && self->Cons_1 == args,
                    decreases args.len() - i,
                {
                    texts.push(args[i].to_string());
                    i += 1;
                }
                proof {
                    Self::lemma_models(args);
                    assert(Seq::new(texts@.len(), |i: int| texts@[i]@) =~= SView::texts(
                        views(args@),
                    ));
                }
                render_headed(token_debug(token).as_str(), strings_debug(&texts).as_str())
            },
            S::BinaryExpr { op, lhs, rhs } => render_operation(
                *op,
                tree_debug(lhs).as_str(),
                tree_debug(rhs).as_str(),
            ),
            S::IfExpr { cond, then_branch, else_branch } => {
                match else_branch {
                    Some(branch) => {
                        let other = tree_debug(branch);
                        render_conditional(
                            tree_debug(cond).as_str(),
                            tree_debug(then_branch).as_str(),
                            Some(other.as_str()),
                        )
                    },
                    None => render_conditional(
                        tree_debug(cond).as_str(),
                        tree_debug(then_branch).as_str(),
                        None,
                    ),
                }
            },
            S::Block(statements) => {
                proof {
                    Self::lemma_models(statements);
                }
                render_list(&debug_list(statements))
            },
            S::FunDef { name, args, body } => {
                proof {
                    Self::lemma_models(args);
                }
                render_definition(
                    tree_debug(name).as_str(),
                    render_list(&debug_list(args)).as_str(),
                    tree_debug(body).as_str(),
                )
            },
            S::FunCall { name, args } => {
                proof {
                    Self::lemma_models(args);
                }
                render_call(tree_debug(name).as_str(), render_list(&debug_list(args)).as_str())
            },
        }
    }
}

} // verus!
