//! Runtime values and the environment that binds names to them.

use vstd::prelude::*;
use vstd::string::*;
use crate::syntax::S;
use crate::syntax::SView;

verus! {

/// A runtime value. A number is held as the bit pattern of an IEEE 754
/// double; arithmetic on numbers is the host's work.
#[derive(Debug, PartialEq)]
pub enum Value {
    Number(u64),
    String(String),
    Boolean(bool),
    Nil,
    Function { name: String, params: Vec<String>, body: Box<S> },
}

/// The mathematical model of a [`Value`].
pub enum ValueView {
    Number(u64),
    String(Seq<char>),
    Boolean(bool),
    Nil,
    Function { name: Seq<char>, params: Seq<Seq<char>>, body: SView },
}

/// The texts of a sequence of strings.
pub open spec fn texts(names: Seq<String>) -> Seq<Seq<char>> {
    Seq::new(names.len(), |i: int| names[i]@)
}

impl View for Value {
    type V = ValueView;

    open spec fn view(&self) -> ValueView {
        match self {
            Value::Number(bits) => ValueView::Number(*bits),
            Value::String(text) => ValueView::String(text@),
            Value::Boolean(b) => ValueView::Boolean(*b),
            Value::Nil => ValueView::Nil,
            Value::Function { name, params, body } => ValueView::Function {
                name: name@,
                params: texts(params@),
                body: body@,
            },
        }
    }
}

/// Whether the double with these bits is zero, positive or negative.
pub open spec fn is_zero(bits: u64) -> bool {
    bits == 0 || bits == 0x8000_0000_0000_0000
}

/// A part of a line of output: text as it stands, or a number that the host
/// has yet to write out.
#[derive(Debug, PartialEq, Eq)]
pub enum Piece {
    Text(String),
    Number(u64),
}

/// The mathematical model of a [`Piece`].
pub enum PieceView {
    Text(Seq<char>),
    Number(u64),
}

impl View for Piece {
    type V = PieceView;

    open spec fn view(&self) -> PieceView {
        match self {
            Piece::Text(text) => PieceView::Text(text@),
            Piece::Number(bits) => PieceView::Number(*bits),
        }
    }
}

impl Clone for Piece {
    fn clone(&self) -> (r: Self)
        ensures
            r@ == self@,
    {
        match self {
            Piece::Text(text) => Piece::Text(text.clone()),
            Piece::Number(bits) => Piece::Number(*bits),
        }
    }
}

/// The models of a sequence of pieces.
pub open spec fn pieces_view(pieces: Seq<Piece>) -> Seq<PieceView> {
    Seq::new(pieces.len(), |i: int| pieces[i]@)
}

/// Copies a sequence of pieces.
pub fn clone_pieces(pieces: &Vec<Piece>) -> (r: Vec<Piece>)
    ensures
        pieces_view(r@) == pieces_view(pieces@),
{
    let mut out: Vec<Piece> = Vec::new();
    let mut i: usize = 0;
    while i < pieces.len()
        invariant
            i <= pieces.len(),
            out.len() == i,
            forall|j: int| 0 <= j < i ==> out[j]@ == pieces[j]@,
        decreases pieces.len() - i,
    {
        out.push(pieces[i].clone());
        i += 1;
    }
    assert(pieces_view(out@) =~= pieces_view(pieces@));
    out
}

impl ValueView {
    /// How the value is shown: a string as its text, a boolean as `true` or
    /// `false`, nil as `nil`, a function as its name in angle brackets, and
    /// a number as a piece for the host to write out.
    pub open spec fn display(self) -> PieceView {
        match self {
            ValueView::Number(bits) => PieceView::Number(bits),
            ValueView::String(text) => PieceView::Text(text),
            ValueView::Boolean(b) => PieceView::Text(
                if b {
                    "true"@
                } else {
                    "false"@
                },
            ),
            ValueView::Nil => PieceView::Text("nil"@),
            ValueView::Function { name, params, body } => PieceView::Text(
                "<function "@ + name + ">"@,
            ),
        }
    }
}

/// Copies a sequence of strings.
pub fn clone_names(names: &Vec<String>) -> (r: Vec<String>)
    ensures
        texts(r@) == texts(names@),
{
    let mut out: Vec<String> = Vec::new();
    let mut i: usize = 0;
    while i < names.len()
        invariant
            i <= names.len(),
            out.len() == i,
            forall|j: int| 0 <= j < i ==> out[j]@ == names[j]@,
        decreases names.len() - i,
    {
        out.push(names[i].clone());
        i += 1;
    }
    assert(texts(out@) =~= texts(names@));
    out
}

impl Clone for Value {
    fn clone(&self) -> (r: Self)
        ensures
            r@ == self@,
    {
        match self {
            Value::Number(bits) => Value::Number(*bits),
            Value::String(text) => Value::String(text.clone()),
            Value::Boolean(b) => Value::Boolean(*b),
            Value::Nil => Value::Nil,
            Value::Function { name, params, body } => Value::Function {
                name: name.clone(),
                params: clone_names(params),
                body: Box::new((&**body).clone()),
            },
        }
    }
}

impl Value {
    /// How the value is shown.
    pub fn display(&self) -> (r: Piece)
        ensures
            r@ == self@.display(),
    {
        match self {
            Value::Number(bits) => Piece::Number(*bits),
            Value::String(text) => Piece::Text(text.clone()),
            Value::Boolean(b) => Piece::Text(
                if *b {
                    String::from_str("true")
                } else {
                    String::from_str("false")
                },
            ),
            Value::Nil => Piece::Text(String::from_str("nil")),
            Value::Function { name, params, body } => {
                let mut text = String::from_str("<function ");
                text.append(name.as_str());
                text.append(">");
                Piece::Text(text)
            },
        }
    }
}

/// The value that `name` is bound to by the last binding of it in
/// `bindings`.
pub open spec fn lookup(bindings: Seq<(Seq<char>, ValueView)>, name: Seq<char>) -> Option<
    ValueView,
>
    decreases bindings.len(),
{
    if bindings.len() == 0 {
        None
    } else if bindings.last().0 == name {
        Some(bindings.last().1)
    } else {
        lookup(bindings.drop_last(), name)
    }
}

/// The place of the last binding of `name` in `bindings`, if it is bound.
pub open spec fn place(bindings: Seq<(Seq<char>, ValueView)>, name: Seq<char>) -> Option<int>
    decreases bindings.len(),
{
    if bindings.len() == 0 {
        None
    } else if bindings.last().0 == name {
        Some(bindings.len() - 1)
    } else {
        place(bindings.drop_last(), name)
    }
}

/// The map from names to values that a sequence of bindings stands for.
pub open spec fn bound(bindings: Seq<(Seq<char>, ValueView)>) -> Map<Seq<char>, ValueView> {
    Map::new(
        |name: Seq<char>| lookup(bindings, name) is Some,
        |name: Seq<char>| lookup(bindings, name)->0,
    )
}

proof fn lemma_lookup_update(
    bindings: Seq<(Seq<char>, ValueView)>,
    i: int,
    value: ValueView,
    name: Seq<char>,
)
    requires
        0 <= i < bindings.len(),
        forall|j: int| i < j < bindings.len() ==> bindings[j].0 != bindings[i].0,
    ensures
        lookup(bindings.update(i, (bindings[i].0, value)), name) == if name == bindings[i].0 {
            Some(value)
        } else {
            lookup(bindings, name)
        },
    decreases bindings.len(),
{
    let updated = bindings.update(i, (bindings[i].0, value));
    if i == bindings.len() - 1 {
        assert(updated.drop_last() =~= bindings.drop_last());
    } else {
        assert(updated.drop_last() =~= bindings.drop_last().update(i, (bindings[i].0, value)));
        lemma_lookup_update(bindings.drop_last(), i, value, name);
    }
}

proof fn lemma_lookup_absent(bindings: Seq<(Seq<char>, ValueView)>, name: Seq<char>)
    requires
        forall|j: int| 0 <= j < bindings.len() ==> bindings[j].0 != name,
    ensures
        lookup(bindings, name) is None,
        place(bindings, name) is None,
    decreases bindings.len(),
{
    if bindings.len() > 0 {
        lemma_lookup_absent(bindings.drop_last(), name);
    }
}

proof fn lemma_lookup_found(bindings: Seq<(Seq<char>, ValueView)>, i: int)
    requires
        0 <= i < bindings.len(),
        forall|j: int| i < j < bindings.len() ==> bindings[j].0 != bindings[i].0,
    ensures
        lookup(bindings, bindings[i].0) == Some(bindings[i].1),
        place(bindings, bindings[i].0) == Some(i),
    decreases bindings.len(),
{
    if i < bindings.len() - 1 {
        lemma_lookup_found(bindings.drop_last(), i);
    }
}

/// The bindings of names to values that are in force.
#[derive(Debug, PartialEq)]
pub struct Environment {
    entries: Vec<(String, Value)>,
}

impl Environment {
    /// The bindings in the order in which their names were first bound.
    pub closed spec fn bindings(&self) -> Seq<(Seq<char>, ValueView)> {
        Seq::new(self.entries@.len(), |i: int| (self.entries@[i].0@, self.entries@[i].1@))
    }

    /// An environment that binds nothing.
    pub fn new() -> (r: Environment)
        ensures
            r@ == Map::<Seq<char>, ValueView>::empty(),
            r.bindings().len() == 0,
    {
        let r = Environment { entries: Vec::new() };
        assert(r@ =~= Map::<Seq<char>, ValueView>::empty());
        r
    }

    /// The place of the binding of `name` that is in force, if it is bound.
    fn find(&self, name: &String) -> (r: Option<usize>)
        ensures
            match r {
                Some(i) => i < self.bindings().len() && self.bindings()[i as int].0 == name@
                    && forall|j: int|
                    i < j < self.bindings().len() ==> self.bindings()[j].0 != name@,
                None => forall|j: int|
                    0 <= j < self.bindings().len() ==> self.bindings()[j].0 != name@,
            },
    {
        let mut i: usize = self.entries.len();
        while i > 0
            invariant
                i <= self.entries.len(),
                forall|j: int| i <= j < self.bindings().len() ==> self.bindings()[j].0 != name@,
            decreases i,
        {
            i -= 1;
            if self.entries[i].0 == *name {
                return Some(i);
            }
        }
        None
    }

    /// The value that `name` is bound to, if it is bound.
    pub fn get(&self, name: &String) -> (r: Option<&Value>)
        ensures
            match r {
                Some(value) => self@.contains_key(name@) && self@[name@] == value@,
                None => !self@.contains_key(name@),
            },
    {
        match self.find(name) {
            Some(i) => {
                proof {
                    lemma_lookup_found(self.bindings(), i as int);
                }
                Some(&self.entries[i].1)
            },
            None => {
                proof {
                    lemma_lookup_absent(self.bindings(), name@);
                }
                None
            },
        }
    }

    /// Binds `name` to `value`. A binding of `name` that was in force is
    /// replaced where it stands; a new name is bound behind the others.
    pub fn insert(&mut self, name: String, value: Value)
        ensures
            final(self)@ == old(self)@.insert(name@, value@),
            final(self).bindings() == match place(old(self).bindings(), name@) {
                Some(i) => old(self).bindings().update(i, (name@, value@)),
                None => old(self).bindings().push((name@, value@)),
            },
    {
        match self.find(&name) {
            Some(i) => {
                proof {
                    lemma_lookup_found(self.bindings(), i as int);
                }
                self.entries.set(i, (name, value));
                proof {
                    let before = old(self).bindings();
                    assert(self.bindings() =~= before.update(i as int, (before[i as int].0, value@)));
                    assert forall|k: Seq<char>|
                        lookup(self.bindings(), k) == if k == name@ {
                            Some(value@)
                        } else {
                            lookup(before, k)
                        } by {
                        lemma_lookup_update(before, i as int, value@, k);
                    }
                    assert(self@ =~= old(self)@.insert(name@, value@));
                }
            },
            None => {
                proof {
                    lemma_lookup_absent(self.bindings(), name@);
                }
                self.entries.push((name, value));
                proof {
                    let before = old(self).bindings();
                    assert(self.bindings() =~= before.push((name@, value@)));
                    assert(self.bindings().drop_last() =~= before);
                    assert(self@ =~= old(self)@.insert(name@, value@));
                }
            },
        }
    }

    /// The number of names that are bound.
    pub fn len(&self) -> (r: usize)
        ensures
            r == self.bindings().len(),
    {
        self.entries.len()
    }

    /// Whether no name is bound.
    pub fn is_empty(&self) -> (r: bool)
        ensures
            r == (self.bindings().len() == 0),
    {
        self.entries.len() == 0
    }

    /// The binding at place `i`: the name and its value.
    pub fn entry(&self, i: usize) -> (r: (&String, &Value))
        requires
            i < self.bindings().len(),
        ensures
            (r.0@, r.1@) == self.bindings()[i as int],
    {
        (&self.entries[i].0, &self.entries[i].1)
    }
}

impl View for Environment {
    type V = Map<Seq<char>, ValueView>;

    open spec fn view(&self) -> Map<Seq<char>, ValueView> {
        bound(self.bindings())
    }
}

impl Clone for Environment {
    fn clone(&self) -> (r: Self)
        ensures
            r.bindings() == self.bindings(),
            r@ == self@,
    {
        let mut out: Vec<(String, Value)> = Vec::new();
        let mut i: usize = 0;
        while i < self.entries.len()
            invariant
                i <= self.entries.len(),
                out.len() == i,
                forall|j: int|
                    0 <= j < i ==> out[j].0@ == self.entries[j].0@ && out[j].1@
                        == self.entries[j].1@,
            decreases self.entries.len() - i,
        {
            out.push((self.entries[i].0.clone(), self.entries[i].1.clone()));
            i += 1;
        }
        let r = Environment { entries: out };
        assert(r.bindings() =~= self.bindings());
        r
    }
}

} // verus!
