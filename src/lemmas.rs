use vstd::prelude::*;

use crate::interp::{add_val, run, step, ByteCode, Error, Flow, Val};

verus! {

/// Whether `ins` writes the variable named `n`.
pub open spec fn writes(ins: ByteCode, n: Seq<char>) -> bool {
    match ins {
        ByteCode::WriteVar(m) => m@ == n,
        _ => false,
    }
}

/// Loading `a`, loading `b`, adding and returning gives the sum of `a` and `b`,
/// wrapped modulo 2^32, from any stack and any variables.
pub proof fn lemma_add_program(
    a: Val,
    b: Val,
    stack: Seq<Val>,
    vars: Map<Seq<char>, Val>,
    fuel: nat,
)
    requires
        fuel >= 4,
    ensures
        run(
            seq![ByteCode::LoadVal(a), ByteCode::LoadVal(b), ByteCode::Add, ByteCode::ReturnValue],
            stack,
            vars,
            0,
            fuel,
        ).2 == Some(Ok::<Option<Val>, Error>(Some(add_val(a, b)))),
{
    let prog = seq![ByteCode::LoadVal(a), ByteCode::LoadVal(b), ByteCode::Add, ByteCode::ReturnValue];
    let s1 = stack.push(a);
    let s2 = s1.push(b);
    let s3 = stack.push(add_val(b, a));
    assert(s2.drop_last() =~= s1);
    assert(s1.drop_last() =~= stack);
    assert(step(prog[2], s2, vars, 2).0 =~= s3);
    assert(run(prog, s3, vars, 3, (fuel - 3) as nat).2 == Some(Ok::<Option<Val>, Error>(Some(add_val(b, a)))));
    assert(run(prog, s2, vars, 2, (fuel - 2) as nat) == run(prog, s3, vars, 3, (fuel - 3) as nat));
    assert(run(prog, s1, vars, 1, (fuel - 1) as nat) == run(prog, s2, vars, 2, (fuel - 2) as nat));
    assert(run(prog, stack, vars, 0, fuel) == run(prog, s1, vars, 1, (fuel - 1) as nat));
    assert(add_val(b, a) == add_val(a, b));
}

/// Reading a variable that is not defined fails with `UnknownVarName` and
/// leaves the stack and the variables as they were, whatever the stack holds.
pub proof fn lemma_read_undefined(n: &'static str, stack: Seq<Val>, vars: Map<Seq<char>, Val>, pc: int)
    requires
        !vars.contains_key(n@),
    ensures
        step(ByteCode::ReadVar(n), stack, vars, pc) == (
            stack,
            vars,
            Flow::Stop(Err(Error::UnknownVarName)),
        ),
{
}

/// A run of a program in which no instruction writes `n`, started without `n`,
/// ends without `n`: every `ReadVar` of `n` in it fails.
pub proof fn lemma_never_written(
    prog: Seq<ByteCode>,
    n: Seq<char>,
    stack: Seq<Val>,
    vars: Map<Seq<char>, Val>,
    pc: int,
    fuel: nat,
)
    requires
        forall|i: int| 0 <= i < prog.len() ==> !writes(#[trigger] prog[i], n),
        !vars.contains_key(n),
    ensures
        !run(prog, stack, vars, pc, fuel).1.contains_key(n),
    decreases fuel,
{
    if 0 <= pc < prog.len() && fuel > 0 {
        let (s, v, flow) = step(prog[pc], stack, vars, pc);
        assert(!writes(prog[pc], n));
        assert(!v.contains_key(n));
        if let Flow::Continue(next) = flow {
            lemma_never_written(prog, n, s, v, next, (fuel - 1) as nat);
        }
    }
}

/// `ReturnValue` on an empty stack fails with `LoadFromEmptyStack` and changes
/// nothing.
pub proof fn lemma_return_empty(prog: Seq<ByteCode>, vars: Map<Seq<char>, Val>, pc: int, fuel: nat)
    requires
        0 <= pc < prog.len(),
        prog[pc] is ReturnValue,
        fuel > 0,
    ensures
        run(prog, Seq::empty(), vars, pc, fuel) == (
            Seq::<Val>::empty(),
            vars,
            Some(Err::<Option<Val>, Error>(Error::LoadFromEmptyStack)),
        ),
{
}

/// `WriteVar(n)` followed at once by `ReadVar(n)` leaves the stack as it was,
/// with the written value back on top, and `n` bound to that value.
pub proof fn lemma_write_then_read(
    prog: Seq<ByteCode>,
    n: &'static str,
    stack: Seq<Val>,
    vars: Map<Seq<char>, Val>,
    pc: int,
    fuel: nat,
)
    requires
        0 <= pc,
        pc + 1 < prog.len(),
        prog[pc] == ByteCode::WriteVar(n),
        prog[pc + 1] == ByteCode::ReadVar(n),
        stack.len() > 0,
        fuel >= 2,
    ensures
        run(prog, stack, vars, pc, fuel) == run(
            prog,
            stack,
            vars.insert(n@, stack.last()),
            pc + 2,
            (fuel - 2) as nat,
        ),
{
    let v = vars.insert(n@, stack.last());
    assert(stack.drop_last().push(stack.last()) =~= stack);
    assert(run(prog, stack.drop_last(), v, pc + 1, (fuel - 1) as nat) == run(
        prog,
        stack,
        v,
        pc + 2,
        (fuel - 2) as nat,
    ));
}

/// `JumpIfFalse(t)` pops the condition; a nonzero condition goes on at the next
/// position, a zero one at `t`.
pub proof fn lemma_jump_if_false(t: usize, stack: Seq<Val>, vars: Map<Seq<char>, Val>, pc: int)
    requires
        stack.len() > 0,
    ensures
        stack.last() != 0 ==> step(ByteCode::JumpIfFalse(t), stack, vars, pc) == (
            stack.drop_last(),
            vars,
            Flow::Continue(pc + 1),
        ),
        stack.last() == 0 ==> step(ByteCode::JumpIfFalse(t), stack, vars, pc) == (
            stack.drop_last(),
            vars,
            Flow::Continue(t as int),
        ),
{
}

} // verus!
