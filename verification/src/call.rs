//! The protocol of one call from the server into a Rust function.
//!
//! The server hands over a call record: the argument datums, each with a flag
//! that says whether it is NULL, and a flag for the result. A call decodes
//! the arguments that the function declares, runs the function under a guard
//! and writes the result back, or leaves through the server's own error
//! handling. Nothing but the result flag of the record is ever written.
use vstd::prelude::*;
use vstd::string::StringExecFns;
use crate::backend::Backend;
use crate::datum::Datum;
use crate::datum::FromDatum;
use crate::datum::FromOptionalDatum;
use crate::elog::ErrorReport;
use crate::elog::ErrorReportView;
use crate::elog::Level;
use crate::guard::guard_backend;
use crate::guard::guard_pg;
use crate::guard::guard_result;
use crate::guard::handle_unwind;
use crate::guard::spec_handle_unwind;
use crate::guard::Failure;
use crate::guard::FailureView;
use crate::guard::Flow;
use crate::guard::JumpTarget;
use crate::guard::Unwind;
use crate::guard::UnwindView;
use crate::palloc::in_context;
use crate::palloc::MemoryContext;
use crate::palloc::Pox;

verus! {

/// One argument as the server passes it. The value means nothing while
/// `isnull` is set.
#[derive(Clone, Copy, Debug, PartialEq, Eq)]
pub struct NullableDatum {
    pub value: Datum,
    pub isnull: bool,
}

/// The record of one call: the arguments in the order of their declaration,
/// their count, and the flag that says whether the result is NULL.
#[derive(Debug, PartialEq, Eq)]
pub struct FunctionCallInfoData {
    args: Vec<NullableDatum>,
    nargs: i16,
    isnull: bool,
}

/// What a call record holds.
pub ghost struct CallRecord {
    pub args: Seq<NullableDatum>,
    pub isnull: bool,
}

impl CallRecord {
    /// This record with the result flag set to `isnull`.
    pub open spec fn with_null(self, isnull: bool) -> CallRecord {
        CallRecord { isnull, ..self }
    }
}

impl View for FunctionCallInfoData {
    type V = CallRecord;

    closed spec fn view(&self) -> CallRecord {
        CallRecord { args: self.args@, isnull: self.isnull }
    }
}

impl FunctionCallInfoData {
    #[verifier::type_invariant]
    spec fn counted(self) -> bool {
        self.nargs as int == self.args@.len()
    }

    /// The record of a call with these arguments, its result not NULL so
    /// far. The server counts arguments in 16 bits: `None` for more than
    /// that can count.
    pub fn new(args: Vec<NullableDatum>) -> (fcinfo: Option<FunctionCallInfoData>)
        ensures
            args@.len() <= i16::MAX <==> fcinfo is Some,
            fcinfo matches Some(record) ==> record@ == (CallRecord {
                args: args@,
                isnull: false,
            }),
    {
        if args.len() <= 0x7fff {
            let nargs: i16 = args.len() as i16;
            Some(FunctionCallInfoData { args, nargs, isnull: false })
        } else {
            None
        }
    }

    /// The number of arguments that the server passed.
    pub fn nargs(&self) -> (nargs: i16)
        ensures
            nargs as int == self@.args.len(),
    {
        proof {
            use_type_invariant(self);
        }
        self.nargs
    }

    /// Whether the result is flagged as NULL.
    pub fn isnull(&self) -> (isnull: bool)
        ensures
            isnull == self@.isnull,
    {
        self.isnull
    }

    /// Flags the result as NULL, or as a value.
    pub fn set_isnull(&mut self, isnull: bool)
        ensures
            final(self)@ == old(self)@.with_null(isnull),
    {
        proof {
            use_type_invariant(&*self);
        }
        self.isnull = isnull;
    }
}

/// An argument as Rust code sees it: `None` where the server flagged NULL.
pub open spec fn supplied(arg: NullableDatum) -> Option<Datum> {
    if arg.isnull {
        None
    } else {
        Some(arg.value)
    }
}

/// The arguments of a call, in order, each as `supplied` gives it.
pub open spec fn spec_get_args(record: CallRecord) -> Seq<Option<Datum>> {
    Seq::new(record.args.len(), |i: int| supplied(record.args[i]))
}

/// The arguments of a call: as many as the record counts, in order, NULL as
/// `None`.
pub fn get_args(fcinfo: &FunctionCallInfoData) -> (args: Vec<Option<Datum>>)
    ensures
        args@ == spec_get_args(fcinfo@),
{
    proof {
        use_type_invariant(fcinfo);
    }
    let num_args = fcinfo.nargs as usize;
    let mut args: Vec<Option<Datum>> = Vec::new();
    let mut i: usize = 0;
    while i < num_args
        invariant
            i <= num_args,
            num_args == fcinfo.args@.len(),
            args@.len() == i,
            forall|j: int| 0 <= j < i ==> args@[j] == supplied(fcinfo.args@[j]),
        decreases num_args - i,
    {
        let nullable = &fcinfo.args[i];
        if nullable.isnull {
            args.push(None);
        } else {
            args.push(Some(nullable.value));
        }
        i += 1;
    }
    assert(args@ =~= spec_get_args(fcinfo@));
    args
}

/// An argument as a function declares it.
#[derive(Debug, PartialEq, Eq)]
pub struct Argument {
    pub name: String,
    /// Whether the declared type has a value for NULL.
    pub nullable: bool,
}

impl Argument {
    /// The declaration of an argument of type `T` with this name.
    pub fn new<T: FromOptionalDatum>(name: &str) -> (argument: Argument)
        ensures
            argument.name@ == name@,
            argument.nullable == T::nullable(),
    {
        Argument { name: String::from_str(name), nullable: T::is_nullable() }
    }
}

/// Why a call does not fit the function it is made to.
#[derive(Debug, PartialEq, Eq)]
pub enum CallError {
    /// The call has no value for the named argument.
    MissingArgument(String),
    /// The call has NULL for the named argument, whose type has no NULL.
    NullArgument(String),
    /// The named function is an aggregate and was not called as one.
    NotAggregate(String),
}

/// A [`CallError`] with its name as a sequence of characters.
pub ghost enum CallErrorView {
    MissingArgument(Seq<char>),
    NullArgument(Seq<char>),
    NotAggregate(Seq<char>),
}

impl View for CallError {
    type V = CallErrorView;

    open spec fn view(&self) -> CallErrorView {
        match self {
            CallError::MissingArgument(name) => CallErrorView::MissingArgument(name@),
            CallError::NullArgument(name) => CallErrorView::NullArgument(name@),
            CallError::NotAggregate(name) => CallErrorView::NotAggregate(name@),
        }
    }
}

impl CallErrorView {
    /// The text that the server reports for the error.
    pub open spec fn message(self) -> Seq<char> {
        match self {
            CallErrorView::MissingArgument(name) => "missing argument \""@ + name + "\""@,
            CallErrorView::NullArgument(name) => "NULL value for non-nullable argument \""@
                + name + "\""@,
            CallErrorView::NotAggregate(name) => "must call "@ + name + " as an aggregate"@,
        }
    }

    /// The report that the error reaches the server as: the message, at
    /// level `Error`.
    pub open spec fn report(self) -> ErrorReportView {
        ErrorReportView { level: Level::Error, message: self.message() }
    }
}

impl CallError {
    /// The text that the server reports for the error.
    pub fn message(&self) -> (message: String)
        ensures
            message@ == self@.message(),
    {
        match self {
            CallError::MissingArgument(name) => {
                let mut message = String::from_str("missing argument \"");
                message.append(name.as_str());
                message.append("\"");
                message
            },
            CallError::NullArgument(name) => {
                let mut message = String::from_str("NULL value for non-nullable argument \"");
                message.append(name.as_str());
                message.append("\"");
                message
            },
            CallError::NotAggregate(name) => {
                let mut message = String::from_str("must call ");
                message.append(name.as_str());
                message.append(" as an aggregate");
                message
            },
        }
    }

    /// The report that the error reaches the server as.
    pub fn report(&self) -> (report: ErrorReport)
        ensures
            report@ == self@.report(),
    {
        ErrorReport { level: Level::Error, message: self.message() }
    }
}

/// What is wrong with the `i`-th declared argument of a call, if anything.
/// The declared arguments are looked for behind the first `skip` values.
pub open spec fn argument_fault(
    args: Seq<Option<Datum>>,
    declared: Seq<Argument>,
    skip: int,
    i: int,
) -> Option<CallErrorView> {
    if skip + i >= args.len() {
        Some(CallErrorView::MissingArgument(declared[i].name@))
    } else if args[skip + i] is None && !declared[i].nullable {
        Some(CallErrorView::NullArgument(declared[i].name@))
    } else {
        None
    }
}

/// The fault of the first declared argument, from the `from`-th on, that has
/// one.
pub open spec fn first_fault(
    args: Seq<Option<Datum>>,
    declared: Seq<Argument>,
    skip: int,
    from: int,
) -> Option<CallErrorView>
    decreases declared.len() - from,
{
    if from < 0 || from >= declared.len() {
        None
    } else if argument_fault(args, declared, skip, from) is Some {
        argument_fault(args, declared, skip, from)
    } else {
        first_fault(args, declared, skip, from + 1)
    }
}

/// The values for the declared arguments of a call, in the order of their
/// declaration, or the fault of the first one that the call does not fit.
/// Values beyond the declared ones are not looked at.
pub open spec fn spec_decode_arguments(
    args: Seq<Option<Datum>>,
    declared: Seq<Argument>,
    skip: int,
) -> Result<Seq<Option<Datum>>, CallErrorView> {
    match first_fault(args, declared, skip, 0) {
        Some(fault) => Err(fault),
        None => Ok(Seq::new(declared.len(), |i: int| args[skip + i])),
    }
}

/// `first_fault` finds a fault exactly where one is: it answers with the
/// fault of the least index that has one, and with none where no declared
/// argument from `from` on has one.
pub proof fn lemma_first_fault(
    args: Seq<Option<Datum>>,
    declared: Seq<Argument>,
    skip: int,
    from: int,
)
    requires
        0 <= from,
    ensures
        match first_fault(args, declared, skip, from) {
            Some(fault) => exists|i: int|
                {
                    &&& from <= i < declared.len()
                    &&& #[trigger] argument_fault(args, declared, skip, i) == Some(fault)
                    &&& forall|j: int|
                        from <= j < i ==> #[trigger] argument_fault(args, declared, skip, j)
                            is None
                },
            None => forall|i: int|
                from <= i < declared.len() ==> #[trigger] argument_fault(args, declared, skip, i)
                    is None,
        },
    decreases declared.len() - from,
{
    if from < declared.len() {
        if argument_fault(args, declared, skip, from) is None {
            lemma_first_fault(args, declared, skip, from + 1);
        }
    }
}

/// Reads the values for the declared arguments out of the arguments of a
/// call, skipping the first `skip` of them.
///
/// Fails on the first declared argument that the call has no value for, or
/// has NULL for although its type has none.
pub fn decode_arguments(
    args: &Vec<Option<Datum>>,
    declared: &Vec<Argument>,
    skip: usize,
) -> (values: Result<Vec<Option<Datum>>, CallError>)
    ensures
        match values {
            Ok(values) => spec_decode_arguments(args@, declared@, skip as int) == Ok::<
                Seq<Option<Datum>>,
                CallErrorView,
            >(values@),
            Err(fault) => spec_decode_arguments(args@, declared@, skip as int) == Err::<
                Seq<Option<Datum>>,
                CallErrorView,
            >(fault@),
        },
{
    let mut values: Vec<Option<Datum>> = Vec::new();
    let mut i: usize = 0;
    while i < declared.len()
        invariant
            i <= declared.len(),
            values@.len() == i,
            i > 0 ==> skip + i <= args@.len(),
            first_fault(args@, declared@, skip as int, 0) == first_fault(
                args@,
                declared@,
                skip as int,
                i as int,
            ),
            forall|j: int| 0 <= j < i ==> values@[j] == args@[skip + j],
        decreases declared.len() - i,
    {
        if skip >= args.len() || i >= args.len() - skip {
            return Err(CallError::MissingArgument(declared[i].name.clone()));
        }
        let datum = args[skip + i];
        if datum.is_none() && !declared[i].nullable {
            return Err(CallError::NullArgument(declared[i].name.clone()));
        }
        values.push(datum);
        i += 1;
    }
    assert(values@ =~= Seq::new(declared@.len(), |i: int| args@[skip + i]));
    Ok(values)
}

/// How a call ends, as the server sees it.
#[derive(Debug, PartialEq, Eq)]
pub enum CallExit {
    /// The call returns this datum. The result flag of the record says
    /// whether it stands for a value or for NULL.
    Return(Datum),
    /// The call does not return: it leaves through the server's error
    /// handling, this way.
    Unwind(Unwind),
}

/// A [`CallExit`] with its message as a sequence of characters.
pub ghost enum CallExitView {
    Return(Datum),
    Unwind(UnwindView),
}

impl View for CallExit {
    type V = CallExitView;

    open spec fn view(&self) -> CallExitView {
        match self {
            CallExit::Return(datum) => CallExitView::Return(*datum),
            CallExit::Unwind(unwind) => CallExitView::Unwind(unwind@),
        }
    }
}

/// What the work of a call came to: the result of the function, the fault
/// that kept it from running, or the failure that cut it short.
pub type Outcome = Result<Result<Option<Datum>, CallError>, Failure>;

/// Whether a call with this outcome flags its result as NULL: every call
/// does but one that has a value to return.
pub open spec fn outcome_is_null(outcome: Outcome) -> bool {
    !(outcome matches Ok(Ok(Some(_))))
}

/// How a call with this outcome ends. A value is returned as it is and NULL
/// as a zero datum; a fault of the call is reported; a failure leaves as
/// `handle_unwind` says.
pub open spec fn outcome_exit(outcome: Outcome) -> CallExitView {
    match outcome {
        Ok(Ok(Some(datum))) => CallExitView::Return(datum),
        Ok(Ok(None)) => CallExitView::Return(0),
        Ok(Err(fault)) => CallExitView::Unwind(UnwindView::Report(fault@.report())),
        Err(failure) => CallExitView::Unwind(spec_handle_unwind(failure@)),
    }
}

/// Ends a call: sets the result flag of the record and says how the call
/// leaves.
pub fn finish(fcinfo: &mut FunctionCallInfoData, outcome: Outcome) -> (exit: CallExit)
    ensures
        final(fcinfo)@ == old(fcinfo)@.with_null(outcome_is_null(outcome)),
        exit@ == outcome_exit(outcome),
{
    match outcome {
        Ok(Ok(Some(datum))) => {
            fcinfo.set_isnull(false);
            CallExit::Return(datum)
        },
        Ok(Ok(None)) => {
            fcinfo.set_isnull(true);
            CallExit::Return(0)
        },
        Ok(Err(fault)) => {
            fcinfo.set_isnull(true);
            CallExit::Unwind(Unwind::Report(fault.report()))
        },
        Err(failure) => {
            fcinfo.set_isnull(true);
            CallExit::Unwind(handle_unwind(failure))
        },
    }
}

/// What the function of a call came to, as the work of the whole call.
pub open spec fn lift(flow: Flow<Option<Datum>>) -> Flow<Result<Option<Datum>, CallError>> {
    match flow {
        Flow::Returned(result) => Flow::Returned(Ok(result)),
        Flow::Jumped => Flow::Jumped,
        Flow::Panicked(failure) => Flow::Panicked(failure),
    }
}

/// The outcome of a call whose function ended this way, under the guard of
/// the call.
pub open spec fn served(flow: Flow<Option<Datum>>) -> Outcome {
    guard_result(lift(flow))
}

/// The state that a call leaves whose function ended this way and left the
/// state `after`: the memory context and the jump target that the call found
/// are in place, and after a jump the selective panic hook.
pub open spec fn served_backend(
    flow: Flow<Option<Datum>>,
    after: Backend,
    before: Backend,
) -> Backend {
    guard_backend(flow, after, before.exception_stack).with_context(before.current_context)
}

/// Serves one call of a plain function.
///
/// The arguments that the function declares are read from the record, in
/// order. If the call fits them, `body` runs on their values, under a guard
/// with `local` as its jump target and with the current memory context held
/// in place; what it returns is the result of the call, `None` for NULL. If
/// the call does not fit, `body` does not run, and the fault is reported.
///
/// The call returns a value or NULL to the server where `body` returned one.
/// Where the server raised an error, that error is raised again. Where
/// `body` panicked, the panic is reported as an error.
pub fn pg_fn<F>(
    backend: &mut Backend,
    fcinfo: &mut FunctionCallInfoData,
    declared: &Vec<Argument>,
    local: JumpTarget,
    body: F,
) -> (exit: CallExit) where F: FnOnce(&mut Backend, Vec<Option<Datum>>) -> Flow<Option<Datum>>
    requires
        forall|b: &mut Backend, values: Vec<Option<Datum>>|
            {
                &&& *b == old(backend).with_target(local)
                &&& spec_decode_arguments(spec_get_args(old(fcinfo)@), declared@, 0) == Ok::<
                    Seq<Option<Datum>>,
                    CallErrorView,
                >(values@)
            } ==> body.requires((b, values)),
    ensures
        final(backend).current_context == old(backend).current_context,
        final(backend).exception_stack == old(backend).exception_stack,
        match spec_decode_arguments(spec_get_args(old(fcinfo)@), declared@, 0) {
            Err(fault) => {
                &&& *final(backend) == *old(backend)
                &&& final(fcinfo)@ == old(fcinfo)@.with_null(true)
                &&& exit@ == CallExitView::Unwind(UnwindView::Report(fault.report()))
            },
            Ok(decoded) => exists|
                b: &mut Backend,
                values: Vec<Option<Datum>>,
                flow: Flow<Option<Datum>>,
            |
                {
                    &&& *b == old(backend).with_target(local)
                    &&& values@ == decoded
                    &&& #[trigger] body.ensures((b, values), flow)
                    &&& *final(backend) == served_backend(flow, *final(b), *old(backend))
                    &&& final(fcinfo)@ == old(fcinfo)@.with_null(outcome_is_null(served(flow)))
                    &&& exit@ == outcome_exit(served(flow))
                },
        },
{
    let args = get_args(fcinfo);
    let context = backend.current_context;
    let ghost entered = *backend;
    let ghost armed = entered.with_target(local);
    let ghost decoding = spec_decode_arguments(args@, declared@, 0);
    let guarded = move |b: &mut Backend| -> (outcome: Outcome)
        requires
            *b == entered,
        ensures
            match decoding {
                Err(fault) => {
                    &&& outcome matches Ok(Err(found))
                    &&& found@ == fault
                    &&& *final(b) == entered
                },
                Ok(decoded) => exists|
                    c: &mut Backend,
                    values: Vec<Option<Datum>>,
                    flow: Flow<Option<Datum>>,
                |
                    {
                        &&& *c == armed
                        &&& values@ == decoded
                        &&& #[trigger] body.ensures((c, values), flow)
                        &&& *final(b) == guard_backend(flow, *final(c), entered.exception_stack)
                        &&& outcome == served(flow)
                    },
            },
    {
        let work = move |c: &mut Backend| -> (flow: Flow<Result<Option<Datum>, CallError>>)
            requires
                *c == armed,
            ensures
                match decoding {
                    Err(fault) => {
                        &&& flow matches Flow::Returned(Err(found))
                        &&& found@ == fault
                        &&& *final(c) == armed
                    },
                    Ok(decoded) => exists|
                        r: &mut Backend,
                        values: Vec<Option<Datum>>,
                        inner: Flow<Option<Datum>>,
                    |
                        {
                            &&& *r == armed
                            &&& *final(r) == *final(c)
                            &&& values@ == decoded
                            &&& #[trigger] body.ensures((r, values), inner)
                            &&& flow == lift(inner)
                        },
                },
        {
            match decode_arguments(&args, declared, 0) {
                Err(fault) => Flow::Returned(Err(fault)),
                Ok(values) => match body(c, values) {
                    Flow::Returned(result) => Flow::Returned(Ok(result)),
                    Flow::Jumped => Flow::Jumped,
                    Flow::Panicked(failure) => Flow::Panicked(failure),
                },
            }
        };
        guard_pg(b, local, work)
    };
    let outcome = in_context(backend, context, guarded);
    finish(fcinfo, outcome)
}

/// The message of the panic that a call of an aggregate ends in when the
/// server passed no argument at all, not even the state.
pub open spec fn missing_state_text() -> Seq<char> {
    "not enough arguments for aggregate state"@
}

/// The address of the state that the first argument of a call of an
/// aggregate stands for: `None` where the argument is NULL or a null
/// address, which both mean that there is no state yet.
pub open spec fn spec_state(args: Seq<Option<Datum>>) -> Option<usize> {
    match args[0] {
        Some(datum) => if usize::spec_from_datum(datum) == 0 {
            None
        } else {
            Some(usize::spec_from_datum(datum))
        },
        None => None,
    }
}

/// The address behind the handle of a state, if there is a state.
pub open spec fn state_addr<S>(state: Option<Pox<S>>) -> Option<usize> {
    match state {
        Some(pox) => Some(pox.addr()),
        None => None,
    }
}

/// Serves one call of a function of an aggregate: a transition function or
/// a final function, whose first argument is the state of the aggregate.
///
/// `aggregate_context` is the server's answer to the question whether this
/// is a call on behalf of an aggregate: the memory context that the state
/// lives in, or `None` where it is not such a call. In that case the call is
/// refused at once: nothing is decoded, `body` does not run and the record
/// is left alone.
///
/// Otherwise the call is served as `pg_fn` serves one, with two
/// differences. The memory context of the aggregate is current while `body`
/// runs. And the first argument is not decoded as a value: it is the address
/// of the state, handed to `body` as a handle, or `None` where there is no
/// state yet. The declared arguments follow it.
pub fn pg_agg<S, F>(
    backend: &mut Backend,
    fcinfo: &mut FunctionCallInfoData,
    name: &str,
    aggregate_context: Option<MemoryContext>,
    declared: &Vec<Argument>,
    local: JumpTarget,
    body: F,
) -> (exit: CallExit) where
    F: FnOnce(&mut Backend, Option<Pox<S>>, Vec<Option<Datum>>) -> Flow<Option<Datum>>,

    requires
        forall|b: &mut Backend, state: Option<Pox<S>>, values: Vec<Option<Datum>>|
            {
                &&& aggregate_context matches Some(context)
                &&& *b == old(backend).with_context(context).with_target(local)
                &&& spec_get_args(old(fcinfo)@).len() > 0
                &&& state_addr(state) == spec_state(spec_get_args(old(fcinfo)@))
                &&& spec_decode_arguments(spec_get_args(old(fcinfo)@), declared@, 1) == Ok::<
                    Seq<Option<Datum>>,
                    CallErrorView,
                >(values@)
            } ==> body.requires((b, state, values)),
    ensures
        final(backend).current_context == old(backend).current_context,
        final(backend).exception_stack == old(backend).exception_stack,
        match aggregate_context {
            None => {
                &&& *final(backend) == *old(backend)
                &&& final(fcinfo)@ == old(fcinfo)@
                &&& exit@ == CallExitView::Unwind(
                    UnwindView::Report(CallErrorView::NotAggregate(name@).report()),
                )
            },
            Some(context) => if spec_get_args(old(fcinfo)@).len() == 0 {
                &&& *final(backend) == *old(backend)
                &&& final(fcinfo)@ == old(fcinfo)@.with_null(true)
                &&& exit@ == CallExitView::Unwind(
                    spec_handle_unwind(FailureView::Message(missing_state_text())),
                )
            } else {
                match spec_decode_arguments(spec_get_args(old(fcinfo)@), declared@, 1) {
                    Err(fault) => {
                        &&& *final(backend) == *old(backend)
                        &&& final(fcinfo)@ == old(fcinfo)@.with_null(true)
                        &&& exit@ == CallExitView::Unwind(UnwindView::Report(fault.report()))
                    },
                    Ok(decoded) => exists|
                        b: &mut Backend,
                        state: Option<Pox<S>>,
                        values: Vec<Option<Datum>>,
                        flow: Flow<Option<Datum>>,
                    |
                        {
                            &&& *b == old(backend).with_context(context).with_target(local)
                            &&& state_addr(state) == spec_state(spec_get_args(old(fcinfo)@))
                            &&& values@ == decoded
                            &&& #[trigger] body.ensures((b, state, values), flow)
                            &&& *final(backend) == served_backend(flow, *final(b), *old(backend))
                            &&& final(fcinfo)@ == old(fcinfo)@.with_null(
                                outcome_is_null(served(flow)),
                            )
                            &&& exit@ == outcome_exit(served(flow))
                        },
                }
            },
        },
{
    let context = match aggregate_context {
        Some(context) => context,
        None => {
            let fault = CallError::NotAggregate(String::from_str(name));
            return CallExit::Unwind(Unwind::Report(fault.report()));
        },
    };
    let args = get_args(fcinfo);
    let ghost entered = backend.with_context(context);
    let ghost armed = entered.with_target(local);
    let ghost decoding = spec_decode_arguments(args@, declared@, 1);
    let guarded = move |b: &mut Backend| -> (outcome: Outcome)
        requires
            *b == entered,
        ensures
            if args@.len() == 0 {
                &&& outcome matches Err(failure)
                &&& failure@ == FailureView::Message(missing_state_text())
                &&& *final(b) == entered
            } else {
                match decoding {
                    Err(fault) => {
                        &&& outcome matches Ok(Err(found))
                        &&& found@ == fault
                        &&& *final(b) == entered
                    },
                    Ok(decoded) => exists|
                        c: &mut Backend,
                        state: Option<Pox<S>>,
                        values: Vec<Option<Datum>>,
                        flow: Flow<Option<Datum>>,
                    |
                        {
                            &&& *c == armed
                            &&& state_addr(state) == spec_state(args@)
                            &&& values@ == decoded
                            &&& #[trigger] body.ensures((c, state, values), flow)
                            &&& *final(b) == guard_backend(
                                flow,
                                *final(c),
                                entered.exception_stack,
                            )
                            &&& outcome == served(flow)
                        },
                }
            },
    {
        let work = move |c: &mut Backend| -> (flow: Flow<Result<Option<Datum>, CallError>>)
            requires
                *c == armed,
            ensures
                if args@.len() == 0 {
                    &&& flow matches Flow::Panicked(failure)
                    &&& failure@ == FailureView::Message(missing_state_text())
                    &&& *final(c) == armed
                } else {
                    match decoding {
                        Err(fault) => {
                            &&& flow matches Flow::Returned(Err(found))
                            &&& found@ == fault
                            &&& *final(c) == armed
                        },
                        Ok(decoded) => exists|
                            r: &mut Backend,
                            state: Option<Pox<S>>,
                            values: Vec<Option<Datum>>,
                            inner: Flow<Option<Datum>>,
                        |
                            {
                                &&& *r == armed
                                &&& *final(r) == *final(c)
                                &&& state_addr(state) == spec_state(args@)
                                &&& values@ == decoded
                                &&& #[trigger] body.ensures((r, state, values), inner)
                                &&& flow == lift(inner)
                            },
                    }
                },
        {
            if args.len() == 0 {
                return Flow::Panicked(
                    Failure::Message(String::from_str("not enough arguments for aggregate state")),
                );
            }
            let state: Option<Pox<S>> = match args[0] {
                Some(datum) => Pox::from_raw(usize::from_datum(datum)),
                None => None,
            };
            match decode_arguments(&args, declared, 1) {
                Err(fault) => Flow::Returned(Err(fault)),
                Ok(values) => match body(c, state, values) {
                    Flow::Returned(result) => Flow::Returned(Ok(result)),
                    Flow::Jumped => Flow::Jumped,
                    Flow::Panicked(failure) => Flow::Panicked(failure),
                },
            }
        };
        guard_pg(b, local, work)
    };
    let outcome = in_context(backend, context, guarded);
    finish(fcinfo, outcome)
}

} // verus!
