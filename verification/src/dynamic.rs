//! Dynamic uniforms: names whose value a script closure computes anew on
//! every pass of the scheduler.

use vstd::prelude::*;
use crate::command::RenderCommand;
use crate::registry::{distinct_names, lemma_position_is, lookup, put, without, Registry};
use crate::script::{set_uniform, uniform_command, CoercionError, ScriptValue};

verus! {

/// The scheduler runs one pass per period of this many milliseconds.
pub const UPDATE_PERIOD_MS: u64 = 50;

/// What a script registered under a name.
#[derive(Debug, Clone, Copy, PartialEq, Eq, Structural)]
pub enum Registration {
    /// A closure of the engine, which keeps it under the same name.
    Closure,
    /// Anything that is no closure.
    Other,
}

/// The registrations by name, in the order in which the names arrived.
pub struct DynamicUniformTable {
    entries: Registry<Registration>,
}

impl View for DynamicUniformTable {
    type V = Seq<(Seq<char>, Registration)>;

    closed spec fn view(&self) -> Seq<(Seq<char>, Registration)> {
        self.entries@
    }
}

/// What the scheduler does next in a pass.
#[derive(Debug, PartialEq, Eq)]
pub enum PassStep {
    /// Call the closure registered under the name, without arguments, and
    /// hand its result to `dynamic_update` under the same name.
    Invoke(String),
    /// Give the pass up with this message: the registration cannot be called.
    Abort(String),
    /// Every registration has had its turn.
    Done,
}

/// Why a registration yielded no command in a pass.
#[derive(Debug, PartialEq, Eq)]
pub enum EntryFailure {
    /// The closure failed; the engine's words.
    Closure(String),
    /// The closure's result is no uniform.
    Coercion(CoercionError),
}

/// What one pass over the table yields.
#[derive(Debug, PartialEq, Eq)]
pub struct PassReport {
    /// For each closure that was called, in the table's order: the command
    /// to send for its name, or why there is none.
    pub updates: Vec<Result<RenderCommand, EntryFailure>>,
    /// The message with which the pass was given up, if it was.
    pub aborted: Option<String>,
}

/// The number of registrations that a pass calls: those that stand before
/// the first one that is no closure.
pub open spec fn calls_of(table: Seq<(Seq<char>, Registration)>) -> int
    decreases table.len(),
{
    if table.len() == 0 || table[0].1 != Registration::Closure {
        0
    } else {
        1 + calls_of(table.drop_first())
    }
}

/// Whether `update` is what a called closure yields for its name: the
/// command that `set-uniform!` sends for its result, or the failure of the
/// closure or of the coercion.
pub open spec fn update_of(
    name: Seq<char>,
    outcome: Result<ScriptValue, String>,
    update: Result<RenderCommand, EntryFailure>,
) -> bool {
    match outcome {
        Ok(value) => match uniform_command(name, value) {
            Ok(model) => update is Ok && update->Ok_0@ == model,
            Err(error) => update == Err::<RenderCommand, EntryFailure>(
                EntryFailure::Coercion(error),
            ),
        },
        Err(detail) => update == Err::<RenderCommand, EntryFailure>(EntryFailure::Closure(detail)),
    }
}

/// Whether `update` is what one call of `call` with the name yielded.
pub open spec fn yielded<F: Fn(&String) -> Result<ScriptValue, String>>(
    call: F,
    name: Seq<char>,
    update: Result<RenderCommand, EntryFailure>,
) -> bool {
    exists|given: &String, outcome: Result<ScriptValue, String>|
        given@ == name && #[trigger] call.ensures((given,), outcome) && update_of(
            name,
            outcome,
            update,
        )
}

/// Where closures stand at every index before `upto`, and none stands at
/// `upto`, a pass calls exactly those before `upto`.
pub proof fn lemma_calls_of(table: Seq<(Seq<char>, Registration)>, upto: int)
    requires
        0 <= upto <= table.len(),
        forall|k: int| 0 <= k < upto ==> (#[trigger] table[k]).1 == Registration::Closure,
        upto == table.len() || table[upto].1 != Registration::Closure,
    ensures
        calls_of(table) == upto,
    decreases table.len(),
{
    if upto > 0 {
        let rest = table.drop_first();
        assert(table[0].1 == Registration::Closure);
        assert forall|k: int| 0 <= k < upto - 1 implies (#[trigger] rest[k]).1
            == Registration::Closure by {
            assert(rest[k] == table[k + 1]);
        }
        lemma_calls_of(rest, upto - 1);
    }
}

/// A pass over a table of closures alone calls every one of them.
pub proof fn lemma_all_closures_called(table: Seq<(Seq<char>, Registration)>)
    requires
        forall|k: int| 0 <= k < table.len() ==> (#[trigger] table[k]).1 == Registration::Closure,
    ensures
        calls_of(table) == table.len(),
{
    lemma_calls_of(table, table.len() as int);
}

impl DynamicUniformTable {
    /// A table without registrations.
    pub fn new() -> (table: Self)
        ensures
            table@.len() == 0,
    {
        DynamicUniformTable { entries: Registry::new() }
    }

    /// The number of registrations.
    pub fn len(&self) -> (len: usize)
        ensures
            len == self@.len(),
    {
        self.entries.len()
    }

    /// What is registered under the name, if anything.
    pub fn registered(&self, name: &String) -> (registration: Option<Registration>)
        ensures
            registration == lookup(self@, name@),
    {
        match self.entries.get(name) {
            Some(registration) => Some(*registration),
            None => None,
        }
    }

    /// The binding `set-dynamic-uniform!`: registers under the name, in
    /// place of what was registered there before.
    pub fn set_dynamic_uniform(&mut self, name: String, registration: Registration)
        ensures
            final(self)@ == put(old(self)@, name@, registration),
            lookup(final(self)@, name@) == Some(registration),
            forall|other: Seq<char>|
                other != name@ ==> lookup(final(self)@, other) == lookup(old(self)@, other),
            lookup(old(self)@, name@) is Some ==> final(self)@.len() == old(self)@.len(),
            lookup(old(self)@, name@) is None ==> final(self)@ == old(self)@.push(
                (name@, registration),
            ),
    {
        self.entries.insert(name, registration);
    }

    /// The binding `delete-dynamic-uniform!`: removes the registration under
    /// the name. Where there is none, nothing changes and nothing fails.
    pub fn delete_dynamic_uniform(&mut self, name: &String)
        ensures
            final(self)@ == without(old(self)@, name@),
            lookup(old(self)@, name@) is None ==> final(self)@ == old(self)@,
            lookup(final(self)@, name@) is None,
            forall|other: Seq<char>|
                other != name@ ==> lookup(final(self)@, other) == lookup(old(self)@, other),
    {
        let _ = self.entries.remove(name);
    }

    /// The step of a pass at `position`, counted from zero: past the last
    /// registration the pass is done, a closure is to be called, and
    /// anything else ends the pass. The table is only read.
    pub fn pass_step(&self, position: usize) -> (step: PassStep)
        ensures
            match step {
                PassStep::Invoke(name) => position < self@.len() && self@[position as int] == (
                    name@,
                    Registration::Closure,
                ),
                PassStep::Abort(message) => position < self@.len() && self@[position as int].1
                    == Registration::Other && message@
                    == "Second argument to set-dynamic-uniform! should be a lambda."@,
                PassStep::Done => position >= self@.len(),
            },
    {
        if position >= self.entries.len() {
            return PassStep::Done;
        }
        match *self.entries.value_at(position) {
            Registration::Closure => PassStep::Invoke(self.entries.name_at(position).clone()),
            Registration::Other => PassStep::Abort(
                "Second argument to set-dynamic-uniform! should be a lambda.".to_owned(),
            ),
        }
    }

    /// A copy of the table as it stands, for a pass to go over while the
    /// table itself stays open to the scripts.
    pub fn snapshot(&self) -> (copy: Self)
        ensures
            copy@ == self@,
    {
        let mut copy = DynamicUniformTable::new();
        let count = self.entries.len();
        let mut index: usize = 0;
        assert(copy@ =~= self@.take(0));
        while index < count
            invariant
                count == self@.len(),
                index <= count,
                distinct_names(self@),
                copy@ == self@.take(index as int),
            decreases count - index,
        {
            proof {
                lemma_position_is(self@.take(index as int), self@[index as int].0, index as int);
            }
            copy.set_dynamic_uniform(
                self.entries.name_at(index).clone(),
                *self.entries.value_at(index),
            );
            index += 1;
            assert(copy@ =~= self@.take(index as int));
        }
        assert(self@.take(count as int) =~= self@);
        copy
    }

    /// One pass of the scheduler. Every closure that stands before the
    /// first registration that is no closure is called once, by its name
    /// and in the table's order, and yields one update: the command that
    /// `set-uniform!` sends for its result under its name, or the failure
    /// of that one registration, which leaves the others their turn. A
    /// registration that is no closure ends the pass with its message. The
    /// table is only read.
    pub fn run_dynamic_updates<F: Fn(&String) -> Result<ScriptValue, String>>(
        &self,
        call: F,
    ) -> (report: PassReport)
        requires
            forall|name: &String| call.requires((name,)),
        ensures
            report.updates@.len() == calls_of(self@),
            calls_of(self@) <= self@.len(),
            forall|k: int|
                0 <= k < calls_of(self@) ==> yielded(call, self@[k].0, #[trigger] report.updates@[k]),
            report.aborted is Some <==> calls_of(self@) < self@.len(),
            report.aborted is Some ==> report.aborted->0@
                == "Second argument to set-dynamic-uniform! should be a lambda."@,
    {
        let mut updates: Vec<Result<RenderCommand, EntryFailure>> = Vec::new();
        let mut position: usize = 0;
        let count = self.len();
        loop
            invariant
                count == self@.len(),
                position <= self@.len(),
                updates@.len() == position,
                forall|name: &String| call.requires((name,)),
                forall|k: int| 0 <= k < position ==> (#[trigger] self@[k]).1 == Registration::Closure,
                forall|k: int|
                    0 <= k < position ==> yielded(call, self@[k].0, #[trigger] updates@[k]),
            decreases self@.len() - position,
        {
            match self.pass_step(position) {
                PassStep::Invoke(name) => {
                    let outcome = call(&name);
                    let ghost given = &name;
                    let ghost handed = outcome;
                    let update = dynamic_update(name, outcome);
                    proof {
                        assert(call.ensures((given,), handed));
                        assert(yielded(call, self@[position as int].0, update));
                    }
                    updates.push(update);
                    position += 1;
                },
                PassStep::Abort(message) => {
                    proof {
                        lemma_calls_of(self@, position as int);
                    }
                    return PassReport { updates, aborted: Some(message) };
                },
                PassStep::Done => {
                    proof {
                        lemma_calls_of(self@, position as int);
                    }
                    return PassReport { updates, aborted: None };
                },
            }
        }
    }
}

/// What a called closure yields for its name: the command that
/// `set-uniform!` sends for its result, or the failure of this one
/// registration, which leaves the others their turn.
pub fn dynamic_update(name: String, outcome: Result<ScriptValue, String>) -> (update: Result<
    RenderCommand,
    EntryFailure,
>)
    ensures
        update_of(name@, outcome, update),
{
    match outcome {
        Ok(value) => match set_uniform(name, value) {
            Ok(command) => Ok(command),
            Err(error) => Err(EntryFailure::Coercion(error)),
        },
        Err(detail) => Err(EntryFailure::Closure(detail)),
    }
}

/// Tells when a pass over the dynamic uniforms is due.
#[derive(Debug, Clone, Copy, PartialEq, Eq)]
pub struct Scheduler {
    last_pass_ms: u64,
}

impl View for Scheduler {
    type V = u64;

    /// The time of the last pass, in milliseconds.
    closed spec fn view(&self) -> u64 {
        self.last_pass_ms
    }
}

/// Whether a full period lies between the last pass and now.
pub open spec fn pass_due(last_pass_ms: u64, now_ms: u64) -> bool {
    now_ms - last_pass_ms >= UPDATE_PERIOD_MS
}

impl Scheduler {
    /// A scheduler whose first period starts now.
    pub fn new(now_ms: u64) -> (scheduler: Self)
        ensures
            scheduler@ == now_ms,
    {
        Scheduler { last_pass_ms: now_ms }
    }

    /// Whether a pass is due at the given time.
    pub fn is_due(&self, now_ms: u64) -> (due: bool)
        ensures
            due == pass_due(self@, now_ms),
    {
        now_ms >= self.last_pass_ms && now_ms - self.last_pass_ms >= UPDATE_PERIOD_MS
    }

    /// Starts the next period at the given time, when a pass has ended.
    pub fn pass_ended(&mut self, now_ms: u64)
        ensures
            final(self)@ == now_ms,
    {
        self.last_pass_ms = now_ms;
    }
}

} // verus!
