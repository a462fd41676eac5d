use vstd::prelude::*;
use crate::op::Operation;

verus! {

/// The four combined values the host computes from the current operands
/// before it dispatches a computation event. The reducer stores the one
/// that the selected operation names; arithmetic itself is the host's.
#[derive(Debug)]
pub struct Outcomes<V> {
    pub sum: V,
    pub difference: V,
    pub product: V,
    pub quotient: V,
}

impl<V> Outcomes<V> {
    /// The combined value that `op` selects.
    pub open spec fn select(self, op: Operation) -> V {
        match op {
            Operation::Add => self.sum,
            Operation::Subtract => self.difference,
            Operation::Multiply => self.product,
            Operation::Divide => self.quotient,
        }
    }
}

/// One user-interface event.
#[derive(Debug)]
pub enum Message<V> {
    /// The user edited the first input field; the host parsed the text,
    /// falling back to its zero value, and hands the number over.
    EnterFirstValue(V),
    /// The user edited the second input field; parsed the same way.
    EnterSecondValue(V),
    /// The user pressed an operation button; the host hands over the four
    /// candidate results it computed from the operands as they stand now.
    Calculate(Operation, Outcomes<V>),
}

/// The whole state of the calculator: the two operands as last entered,
/// the operation most recently applied (none before the first
/// computation), and the result of that computation.
#[derive(Debug)]
pub struct Calculator<V> {
    pub first_value: V,
    pub second_value: V,
    pub operation: Option<Operation>,
    pub result: V,
}

impl<V> Calculator<V> {
    /// The state at application start: both operands and the result hold
    /// the host's zero value, and no operation has been applied yet.
    pub open spec fn initial_spec(zero: V) -> Calculator<V> {
        Calculator { first_value: zero, second_value: zero, operation: None, result: zero }
    }

    /// What one event makes of a state: editing an operand overwrites that
    /// operand and nothing else — in particular the result keeps its stale
    /// value — while a computation stores the selected combined value and
    /// records the operation, leaving both operands alone.
    pub open spec fn next(c: Calculator<V>, m: Message<V>) -> Calculator<V> {
        match m {
            Message::EnterFirstValue(v) => Calculator { first_value: v, ..c },
            Message::EnterSecondValue(v) => Calculator { second_value: v, ..c },
            Message::Calculate(op, o) => Calculator {
                operation: Some(op),
                result: o.select(op),
                ..c
            },
        }
    }

    /// The state that a whole sequence of events, applied in order, leaves.
    pub open spec fn run(c: Calculator<V>, ms: Seq<Message<V>>) -> Calculator<V>
        decreases ms.len(),
    {
        if ms.len() == 0 {
            c
        } else {
            Self::run(Self::next(c, ms[0]), ms.drop_first())
        }
    }

    /// Apply one event in place.
    pub fn update(&mut self, message: Message<V>)
        ensures
            *final(self) == Self::next(*old(self), message),
    {
        match message {
            Message::EnterFirstValue(v) => self.first_value = v,
            Message::EnterSecondValue(v) => self.second_value = v,
            Message::Calculate(op, outcomes) => {
                self.result = match op {
                    Operation::Add => outcomes.sum,
                    Operation::Subtract => outcomes.difference,
                    Operation::Multiply => outcomes.product,
                    Operation::Divide => outcomes.quotient,
                };
                self.operation = Some(op);
            },
        }
    }

    /// The text shown between the operands on screen: empty until a
    /// computation has happened, then the glyph of the operation most
    /// recently applied.
    pub open spec fn operator_text_spec(self) -> Seq<char> {
        match self.operation {
            None => ""@,
            Some(op) => op.glyph_spec(),
        }
    }

    /// The glyph-or-empty text a user interface puts between the operands.
    pub fn operator_text(&self) -> (r: &'static str)
        ensures
            r@ == self.operator_text_spec(),
    {
        match self.operation {
            None => "",
            Some(op) => op.glyph(),
        }
    }
}

impl<V: Copy> Calculator<V> {
    /// A fresh calculator, with `zero` for the host's zero value.
    pub fn new(zero: V) -> (c: Self)
        ensures
            c == Self::initial_spec(zero),
    {
        Calculator { first_value: zero, second_value: zero, operation: None, result: zero }
    }
}

/// Law: editing operands never changes the stored result, nor the recorded
/// operation; the result stays stale until the next computation event.
pub proof fn lemma_edits_keep_result<V>(c: Calculator<V>, ms: Seq<Message<V>>)
    requires
        forall|i: int| 0 <= i < ms.len() ==> !(ms[i] is Calculate),
    ensures
        Calculator::run(c, ms).result == c.result,
        Calculator::run(c, ms).operation == c.operation,
    decreases ms.len(),
{
    if ms.len() > 0 {
        lemma_edits_keep_result(Calculator::next(c, ms[0]), ms.drop_first());
    }
}

/// Law: from the start state, as long as no computation event arrives, no
/// operation is recorded and the result still holds the zero value.
pub proof fn lemma_no_compute_no_operation<V>(zero: V, ms: Seq<Message<V>>)
    requires
        forall|i: int| 0 <= i < ms.len() ==> !(ms[i] is Calculate),
    ensures
        Calculator::run(Calculator::initial_spec(zero), ms).operation is None,
        Calculator::run(Calculator::initial_spec(zero), ms).result == zero,
{
    lemma_edits_keep_result(Calculator::initial_spec(zero), ms);
}

/// Law: the recorded operation and the stored result are those of the most
/// recent computation event, whatever edits follow it.
pub proof fn lemma_last_compute_wins<V>(
    c: Calculator<V>,
    ms: Seq<Message<V>>,
    k: int,
    op: Operation,
    o: Outcomes<V>,
)
    requires
        0 <= k < ms.len(),
        ms[k] == Message::Calculate(op, o),
        forall|i: int| k < i < ms.len() ==> !(ms[i] is Calculate),
    ensures
        Calculator::run(c, ms).operation == Some(op),
        Calculator::run(c, ms).result == o.select(op),
    decreases ms.len(),
{
    if k == 0 {
        lemma_edits_keep_result(Calculator::next(c, ms[0]), ms.drop_first());
    } else {
        lemma_last_compute_wins(Calculator::next(c, ms[0]), ms.drop_first(), k - 1, op, o);
    }
}

/// Law: setting the first operand, then the second, then computing with
/// `op` leaves a state whose operands are exactly the two values entered,
/// whose recorded operation is `op`, and whose result is the combined
/// value that `op` selects among those the host computed.
pub proof fn lemma_compute_after_entry<V>(
    c: Calculator<V>,
    a: V,
    b: V,
    op: Operation,
    o: Outcomes<V>,
)
    ensures
        ({
            let d = Calculator::run(
                c,
                seq![
                    Message::EnterFirstValue(a),
                    Message::EnterSecondValue(b),
                    Message::Calculate(op, o),
                ],
            );
            d.first_value == a && d.second_value == b && d.operation == Some(op) && d.result
                == o.select(op)
        }),
{
    let ms: Seq<Message<V>> = seq![
        Message::EnterFirstValue(a),
        Message::EnterSecondValue(b),
        Message::Calculate(op, o),
    ];
    let tail1: Seq<Message<V>> = seq![Message::EnterSecondValue(b), Message::Calculate(op, o)];
    let tail2: Seq<Message<V>> = seq![Message::Calculate(op, o)];
    let c1 = Calculator::next(c, Message::EnterFirstValue(a));
    let c2 = Calculator::next(c1, Message::EnterSecondValue(b));
    assert(ms.drop_first() =~= tail1);
    assert(tail1.drop_first() =~= tail2);
    assert(Calculator::run(c, ms) == Calculator::run(c1, tail1));
    assert(Calculator::run(c1, tail1) == Calculator::run(c2, tail2));
    let c3 = Calculator::next(c2, Message::Calculate(op, o));
    assert(Calculator::run(c2, tail2) == Calculator::run(c3, tail2.drop_first()));
    assert(tail2.drop_first().len() == 0);
    assert(Calculator::run(c3, tail2.drop_first()) == c3);
}

} // verus!
