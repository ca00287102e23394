use vstd::prelude::*;

verus! {

/// The single runtime value of the machine.
pub type Val = u32;

/// One instruction of a program. Jump targets are positions in the program.
#[derive(Debug, Clone, Copy)]
pub enum ByteCode {
    LoadVal(Val),
    WriteVar(&'static str),
    ReadVar(&'static str),
    Add,
    Multiply,
    ReturnValue,
    CmpEq,
    JumpIfFalse(usize),
    Goto(usize),
}

/// Why a run stopped without a result.
#[derive(Debug, PartialEq, Eq, Structural, Clone, Copy)]
pub enum Error {
    /// An instruction needed more values than the stack held.
    LoadFromEmptyStack,
    /// `ReadVar` named a variable that was never written.
    UnknownVarName,
    /// The run was still going when its step budget ran out.
    StepLimit,
}

/// Addition on the machine: wraps around modulo 2^32.
pub open spec fn add_val(a: Val, b: Val) -> Val {
    ((a as nat + b as nat) % 0x1_0000_0000) as Val
}

/// Multiplication on the machine: wraps around modulo 2^32.
pub open spec fn mul_val(a: Val, b: Val) -> Val {
    ((a as nat * b as nat) % 0x1_0000_0000) as Val
}

/// Equality test on the machine: 1 when equal, 0 otherwise.
pub open spec fn eq_val(a: Val, b: Val) -> Val {
    if a == b { 1 } else { 0 }
}

/// Where control goes after one instruction.
pub enum Flow {
    /// Go on at this position.
    Continue(int),
    /// The run is over, with this result.
    Stop(Result<Option<Val>, Error>),
}

/// What a binary instruction computes from the first popped value `a` and the
/// second popped value `b`.
pub open spec fn binop_result(ins: ByteCode, a: Val, b: Val) -> Val {
    match ins {
        ByteCode::Add => add_val(a, b),
        ByteCode::Multiply => mul_val(a, b),
        _ => eq_val(a, b),
    }
}

/// The effect of one instruction at position `pc` on the stack and the variables.
/// A failing instruction keeps whatever it popped before it failed.
pub open spec fn step(ins: ByteCode, stack: Seq<Val>, vars: Map<Seq<char>, Val>, pc: int) -> (
    Seq<Val>,
    Map<Seq<char>, Val>,
    Flow,
) {
    match ins {
        ByteCode::LoadVal(v) => (stack.push(v), vars, Flow::Continue(pc + 1)),
        ByteCode::WriteVar(n) => if stack.len() == 0 {
            (stack, vars, Flow::Stop(Err(Error::LoadFromEmptyStack)))
        } else {
            (stack.drop_last(), vars.insert(n@, stack.last()), Flow::Continue(pc + 1))
        },
        ByteCode::ReadVar(n) => if vars.contains_key(n@) {
            (stack.push(vars[n@]), vars, Flow::Continue(pc + 1))
        } else {
            (stack, vars, Flow::Stop(Err(Error::UnknownVarName)))
        },
        ByteCode::ReturnValue => if stack.len() == 0 {
            (stack, vars, Flow::Stop(Err(Error::LoadFromEmptyStack)))
        } else {
            (stack.drop_last(), vars, Flow::Stop(Ok(Some(stack.last()))))
        },
        ByteCode::JumpIfFalse(t) => if stack.len() == 0 {
            (stack, vars, Flow::Stop(Err(Error::LoadFromEmptyStack)))
        } else if stack.last() == 0 {
            (stack.drop_last(), vars, Flow::Continue(t as int))
        } else {
            (stack.drop_last(), vars, Flow::Continue(pc + 1))
        },
        ByteCode::Goto(t) => (stack, vars, Flow::Continue(t as int)),
        _ => if stack.len() < 2 {
            (Seq::empty(), vars, Flow::Stop(Err(Error::LoadFromEmptyStack)))
        } else {
            let a = stack.last();
            let rest = stack.drop_last();
            (
                rest.drop_last().push(binop_result(ins, a, rest.last())),
                vars,
                Flow::Continue(pc + 1),
            )
        },
    }
}

/// Runs `prog` from position `pc` for at most `fuel` instructions. Gives the final
/// stack, the final variables, and the result, or `None` when the fuel ran out
/// first. A position at or past the end of the program ends the run with `Ok(None)`.
pub open spec fn run(
    prog: Seq<ByteCode>,
    stack: Seq<Val>,
    vars: Map<Seq<char>, Val>,
    pc: int,
    fuel: nat,
) -> (Seq<Val>, Map<Seq<char>, Val>, Option<Result<Option<Val>, Error>>)
    decreases fuel,
{
    if pc < 0 || pc >= prog.len() {
        (stack, vars, Some(Ok(None)))
    } else if fuel == 0 {
        (stack, vars, None)
    } else {
        let (s, v, flow) = step(prog[pc], stack, vars, pc);
        match flow {
            Flow::Continue(next) => run(prog, s, v, next, (fuel - 1) as nat),
            Flow::Stop(r) => (s, v, Some(r)),
        }
    }
}

/// The result that `execute_bounded` reports for a run: a run that ran out of
/// fuel reports `StepLimit`.
pub open spec fn reported(r: Option<Result<Option<Val>, Error>>) -> Result<Option<Val>, Error> {
    match r {
        Some(x) => x,
        None => Err(Error::StepLimit),
    }
}

/// A stack machine with an operand stack and a table of named variables. Both
/// carry over from one `execute` call to the next.
pub struct Interpreter {
    stack: Vec<Val>,
    vars: Vec<(String, Val)>,
    table: Ghost<Map<Seq<char>, Val>>,
}

impl Interpreter {
    /// The operand stack, bottom first.
    pub closed spec fn stack_model(&self) -> Seq<Val> {
        self.stack@
    }

    /// The variables, by name.
    pub closed spec fn vars_model(&self) -> Map<Seq<char>, Val> {
        self.table@
    }

    /// Each name is stored once, and the stored pairs are exactly the table.
    pub closed spec fn wf(&self) -> bool {
        &&& forall|i: int, j: int|
            0 <= i < j < self.vars@.len() ==> #[trigger] self.vars@[i].0@ != #[trigger] self.vars@[j].0@
        &&& forall|i: int|
            0 <= i < self.vars@.len() ==> #[trigger] self.table@.contains_key(self.vars@[i].0@)
                && self.table@[self.vars@[i].0@] == self.vars@[i].1
        &&& forall|k: Seq<char>|
            #[trigger] self.table@.contains_key(k) ==> exists|i: int|
                0 <= i < self.vars@.len() && #[trigger] self.vars@[i].0@ == k
    }

    /// An interpreter with an empty stack and no variables.
    pub fn new() -> (r: Self)
        ensures
            r.wf(),
            r.stack_model() == Seq::<Val>::empty(),
            r.vars_model() == Map::<Seq<char>, Val>::empty(),
    {
        Interpreter { stack: Vec::new(), vars: Vec::new(), table: Ghost(Map::empty()) }
    }

    /// Position of `name` in the stored pairs, if it is there.
    fn find_var(&self, name: &String) -> (r: Option<usize>)
        ensures
            match r {
                Some(i) => i < self.vars@.len() && self.vars@[i as int].0@ == name@,
                None => forall|i: int| 0 <= i < self.vars@.len() ==> self.vars@[i].0@ != name@,
            },
    {
        let mut i: usize = 0;
        while i < self.vars.len()
            invariant
                i <= self.vars@.len(),
                forall|j: int| 0 <= j < i ==> self.vars@[j].0@ != name@,
            decreases self.vars@.len() - i,
        {
            if self.vars[i].0 == *name {
                return Some(i);
            }
            i = i + 1;
        }
        None
    }

    /// Sets `name` to `v`, adding it when it is new.
    fn write_var(&mut self, name: &str, v: Val)
        requires
            old(self).wf(),
        ensures
            final(self).wf(),
            final(self).stack_model() == old(self).stack_model(),
            final(self).vars_model() == old(self).vars_model().insert(name@, v),
    {
        let key = name.to_owned();
        let ghost k = name@;
        let ghost idx: int;
        match self.find_var(&key) {
            Some(i) => {
                self.vars.set(i, (key, v));
                proof {
                    idx = i as int;
                }
            },
            None => {
                self.vars.push((key, v));
                proof {
                    idx = self.vars@.len() - 1;
                }
            },
        }
        self.table = Ghost(self.table@.insert(k, v));
        assert(self.vars@[idx].0@ == k);
        assert forall|k2: Seq<char>| #[trigger] self.table@.contains_key(k2) implies exists|i: int|
            0 <= i < self.vars@.len() && #[trigger] self.vars@[i].0@ == k2 by {
            if k2 != k {
                let j = choose|j: int| 0 <= j < old(self).vars@.len() && old(self).vars@[j].0@ == k2;
                assert(self.vars@[j].0@ == k2);
            } else {
                assert(self.vars@[idx].0@ == k2);
            }
        }
    }

    /// The value of the variable `name`, or `None` if it was never written.
    pub fn var(&self, name: &str) -> (r: Option<Val>)
        requires
            self.wf(),
        ensures
            r == (if self.vars_model().contains_key(name@) {
                Some(self.vars_model()[name@])
            } else {
                None
            }),
    {
        let key = name.to_owned();
        match self.find_var(&key) {
            Some(i) => Some(self.vars[i].1),
            None => None,
        }
    }

    /// Pushes `v` on the operand stack.
    fn push_val(&mut self, v: Val)
        requires
            old(self).wf(),
        ensures
            final(self).wf(),
            final(self).vars_model() == old(self).vars_model(),
            final(self).stack_model() == old(self).stack_model().push(v),
    {
        self.stack.push(v);
        assert(self.vars == old(self).vars && self.table == old(self).table);
    }

    /// Pops the top of the operand stack, or gives `None` when it is empty.
    fn pop_val(&mut self) -> (r: Option<Val>)
        requires
            old(self).wf(),
        ensures
            final(self).wf(),
            final(self).vars_model() == old(self).vars_model(),
            old(self).stack_model().len() == 0 ==> r is None && final(self).stack_model()
                == old(self).stack_model(),
            old(self).stack_model().len() > 0 ==> r == Some(old(self).stack_model().last())
                && final(self).stack_model() == old(self).stack_model().drop_last(),
    {
        let r = self.stack.pop();
        assert(self.vars == old(self).vars && self.table == old(self).table);
        r
    }

    /// Pops `a`, then `b`, and pushes the result of `ins` on them. A stack with
    /// fewer than two values is left empty.
    fn binary(&mut self, ins: ByteCode) -> (r: Result<(), Error>)
        requires
            old(self).wf(),
            ins is Add || ins is Multiply || ins is CmpEq,
        ensures
            final(self).wf(),
            final(self).vars_model() == old(self).vars_model(),
            final(self).stack_model() == step(ins, old(self).stack_model(), old(self).vars_model(), 0).0,
            r is Ok <==> old(self).stack_model().len() >= 2,
            r is Err ==> r == Err::<(), Error>(Error::LoadFromEmptyStack),
    {
        let a = match self.pop_val() {
            Some(a) => a,
            None => {
                assert(self.stack_model() =~= Seq::<Val>::empty());
                return Err(Error::LoadFromEmptyStack);
            },
        };
        let b = match self.pop_val() {
            Some(b) => b,
            None => {
                assert(self.stack_model() =~= Seq::<Val>::empty());
                return Err(Error::LoadFromEmptyStack);
            },
        };
        let r = match ins {
            ByteCode::Add => a.wrapping_add(b),
            ByteCode::Multiply => a.wrapping_mul(b),
            _ => if a == b {
                1
            } else {
                0
            },
        };
        self.push_val(r);
        assert(self.stack_model() =~= step(ins, old(self).stack_model(), old(self).vars_model(), 0).0);
        Ok(())
    }

    /// Runs `bytecode` from its first instruction for at most `max_steps`
    /// instructions, on this interpreter's stack and variables. The run ends at a
    /// `ReturnValue`, at the first failing instruction, when control reaches a
    /// position at or past the end (a jump there included), or with `StepLimit`
    /// when the budget is spent. Changes made before a failure are kept.
    pub fn execute_bounded(&mut self, bytecode: &[ByteCode], max_steps: u64) -> (res: Result<
        Option<Val>,
        Error,
    >)
        requires
            old(self).wf(),
        ensures
            final(self).wf(),
            final(self).stack_model() == run(
                bytecode@,
                old(self).stack_model(),
                old(self).vars_model(),
                0,
                max_steps as nat,
            ).0,
            final(self).vars_model() == run(
                bytecode@,
                old(self).stack_model(),
                old(self).vars_model(),
                0,
                max_steps as nat,
            ).1,
            res == reported(
                run(bytecode@, old(self).stack_model(), old(self).vars_model(), 0, max_steps as nat).2,
            ),
    {
        let ghost whole = run(
            bytecode@,
            old(self).stack_model(),
            old(self).vars_model(),
            0,
            max_steps as nat,
        );
        let mut pc: usize = 0;
        let mut fuel: u64 = max_steps;
        loop
            invariant
                self.wf(),
                whole == run(
                    bytecode@,
                    old(self).stack_model(),
                    old(self).vars_model(),
                    0,
                    max_steps as nat,
                ),
                whole == run(bytecode@, self.stack_model(), self.vars_model(), pc as int, fuel as nat),
            decreases fuel,
        {
            if pc >= bytecode.len() {
                return Ok(None);
            }
            if fuel == 0 {
                return Err(Error::StepLimit);
            }
            fuel = fuel - 1;
            pc = match bytecode[pc] {
                ByteCode::LoadVal(val) => {
                    self.push_val(val);
                    pc + 1
                },
                ByteCode::WriteVar(name) => {
                    match self.pop_val() {
                        Some(val) => {
                            self.write_var(name, val);
                            pc + 1
                        },
                        None => {
                            return Err(Error::LoadFromEmptyStack);
                        },
                    }
                },
                ByteCode::ReadVar(name) => {
                    match self.var(name) {
                        Some(val) => {
                            self.push_val(val);
                            pc + 1
                        },
                        None => {
                            return Err(Error::UnknownVarName);
                        },
                    }
                },
                ByteCode::ReturnValue => {
                    match self.pop_val() {
                        Some(val) => {
                            return Ok(Some(val));
                        },
                        None => {
                            return Err(Error::LoadFromEmptyStack);
                        },
                    }
                },
                ByteCode::JumpIfFalse(target) => {
                    match self.pop_val() {
                        Some(cond) => if cond == 0 {
                            target
                        } else {
                            pc + 1
                        },
                        None => {
                            return Err(Error::LoadFromEmptyStack);
                        },
                    }
                },
                ByteCode::Goto(target) => target,
                ins => {
                    match self.binary(ins) {
                        Ok(()) => {},
                        Err(e) => {
                            return Err(e);
                        },
                    }
                    pc + 1
                },
            };
        }
    }

    /// Runs `bytecode` as `execute_bounded` does, with a budget of `u64::MAX`
    /// instructions, which no real run spends.
    pub fn execute(&mut self, bytecode: &[ByteCode]) -> (res: Result<Option<Val>, Error>)
        requires
            old(self).wf(),
        ensures
            final(self).wf(),
            final(self).stack_model() == run(
                bytecode@,
                old(self).stack_model(),
                old(self).vars_model(),
                0,
                u64::MAX as nat,
            ).0,
            final(self).vars_model() == run(
                bytecode@,
                old(self).stack_model(),
                old(self).vars_model(),
                0,
                u64::MAX as nat,
            ).1,
            res == reported(
                run(bytecode@, old(self).stack_model(), old(self).vars_model(), 0, u64::MAX as nat).2,
            ),
    {
        self.execute_bounded(bytecode, u64::MAX)
    }

    /// The operand stack, bottom first.
    pub fn stack(&self) -> (r: &[Val])
        ensures
            r@ == self.stack_model(),
    {
        self.stack.as_slice()
    }
}

} // verus!
