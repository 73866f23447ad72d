use vstd::prelude::*;
use vstd::pervasive::VecAdditionalExecFns;
use vstd::string::StringSliceAdditionalSpecFns;

use crate::buffer::Buffer;
use crate::definition::Definition;
use crate::engine::{Handle, RawTensor, RunReply, TensorContent};
use crate::error::Error;
use crate::status::{Code, EngineStatus, Status};
use crate::tensor::{AnyTensor, Tensor};
use crate::value::{dup_vec, Value};

verus! {

/// A named graph feed point, together with the tensor bound to it. Every
/// input must be bound before a run begins; the tensor is erased to its
/// tagged form so inputs of different element types sit in one list.
#[derive(Debug)]
pub struct Input {
    name: String,
    tensor: Option<AnyTensor>,
}

/// A named graph fetch point. Before a run only the name is meaningful;
/// a successful run places an engine tensor in the result slot, which a
/// caller may extract exactly once.
#[derive(Debug)]
pub struct Output {
    name: String,
    result: Option<RawTensor>,
}

/// A named graph node to execute for its side effects only; no tensor comes
/// back for it.
#[derive(Debug)]
pub struct Target {
    name: String,
}

impl Input {
    /// The engine-interpreted endpoint name.
    pub closed spec fn spec_name(&self) -> Seq<char> {
        self.name@
    }

    /// The tensor bound to this input, in tagged form.
    pub closed spec fn spec_tensor(&self) -> Option<AnyTensor> {
        self.tensor
    }

    /// Create an input with a tensor already bound.
    pub fn new<T: Value>(name: &str, tensor: Tensor<T>) -> (inp: Input)
        ensures
            inp.spec_name() == name@,
            inp.spec_tensor() == Some(T::wrap_spec(tensor)),
    {
        Input { name: name.to_owned(), tensor: Some(T::wrap(tensor)) }
    }

    /// Create an input with no tensor bound yet; bind one with `set` before
    /// a run, or the run is refused.
    pub fn unbound(name: &str) -> (inp: Input)
        ensures
            inp.spec_name() == name@,
            inp.spec_tensor() is None,
    {
        Input { name: name.to_owned(), tensor: None }
    }

    /// The endpoint name.
    pub fn name(&self) -> (n: &String)
        ensures
            n@ == self.spec_name(),
    {
        &self.name
    }

    /// Whether a tensor is bound.
    pub fn is_bound(&self) -> (b: bool)
        ensures
            b == (self.spec_tensor() is Some),
    {
        self.tensor.is_some()
    }

    /// Bind a tensor, displacing whatever was bound before. The displaced
    /// tensor is handed back so an engine handle it may own is not lost.
    pub fn set<T: Value>(&mut self, tensor: Tensor<T>) -> (prev: Option<AnyTensor>)
        ensures
            final(self).spec_name() == old(self).spec_name(),
            final(self).spec_tensor() == Some(T::wrap_spec(tensor)),
            prev == old(self).spec_tensor(),
    {
        let mut slot = Some(T::wrap(tensor));
        core::mem::swap(&mut self.tensor, &mut slot);
        slot
    }

    /// Take the bound tensor back, typed. Fails with `NotReady` while no
    /// tensor is bound and with `TypeMismatch` when the bound tensor carries
    /// some other element type; neither failure consumes anything.
    pub fn get<T: Value>(&mut self) -> (r: Result<Tensor<T>, Error>)
        ensures
            old(self).spec_tensor() is None ==> r == Err::<Tensor<T>, Error>(Error::NotReady)
                && *final(self) == *old(self),
            (old(self).spec_tensor() matches Some(a) && a.kind_spec() != T::kind_spec()) ==> (
            old(self).spec_tensor() matches Some(a) && r == Err::<Tensor<T>, Error>(
                Error::TypeMismatch { expected: T::kind_spec(), actual: a.kind_spec() },
            ) && *final(self) == *old(self)),
            (old(self).spec_tensor() matches Some(a) && a.kind_spec() == T::kind_spec()) ==> (r
                matches Ok(t) && old(self).spec_tensor() == Some(T::wrap_spec(t)) && final(self).spec_tensor() is None && final(self).spec_name() == old(self).spec_name()),
    {
        let kind_here = match &self.tensor {
            None => None,
            Some(a) => Some(a.kind()),
        };
        match kind_here {
            None => Err(Error::NotReady),
            Some(k) => {
                if k != T::kind() {
                    Err(Error::TypeMismatch { expected: T::kind(), actual: k })
                } else {
                    let mut slot: Option<AnyTensor> = None;
                    core::mem::swap(&mut self.tensor, &mut slot);
                    match slot {
                        Some(a) => match T::unwrap(a) {
                            Ok(t) => Ok(t),
                            Err(returned) => {
                                // ruled out by the type check above
                                self.tensor = Some(returned);
                                Err(Error::TypeMismatch { expected: T::kind(), actual: k })
                            },
                        },
                        None => Err(Error::NotReady),  // ruled out: the slot was checked
                    }
                }
            },
        }
    }
}

impl Output {
    /// The engine-interpreted endpoint name.
    pub closed spec fn spec_name(&self) -> Seq<char> {
        self.name@
    }

    /// The engine tensor a run placed here, if one is waiting.
    pub closed spec fn spec_result(&self) -> Option<RawTensor> {
        self.result
    }

    /// Create an output with an empty result slot.
    pub fn new(name: &str) -> (o: Output)
        ensures
            o.spec_name() == name@,
            o.spec_result() is None,
    {
        Output { name: name.to_owned(), result: None }
    }

    /// The endpoint name.
    pub fn name(&self) -> (n: &String)
        ensures
            n@ == self.spec_name(),
    {
        &self.name
    }

    /// Whether a result is waiting.
    pub fn is_ready(&self) -> (b: bool)
        ensures
            b == (self.spec_result() is Some),
    {
        self.result.is_some()
    }

    /// Extract the result as a typed tensor. Fails with `NotReady` while no
    /// result is waiting — in particular on a second extraction without a
    /// run in between — and with `TypeMismatch` when the engine produced
    /// some other element type; neither failure consumes the slot. Success
    /// consumes the slot exactly once, and the tensor adopts the engine
    /// handle and its foreign storage.
    pub fn get<T: Value>(&mut self) -> (r: Result<Tensor<T>, Error>)
        ensures
            old(self).spec_result() is None ==> r == Err::<Tensor<T>, Error>(Error::NotReady)
                && *final(self) == *old(self),
            (old(self).spec_result() matches Some(raw) && raw.kind_spec() != T::kind_spec()) ==> (
            old(self).spec_result() matches Some(raw) && r == Err::<Tensor<T>, Error>(
                Error::TypeMismatch { expected: T::kind_spec(), actual: raw.kind_spec() },
            ) && *final(self) == *old(self)),
            (old(self).spec_result() matches Some(raw) && raw.kind_spec() == T::kind_spec()) ==> (r
                matches Ok(t) && old(self).spec_result() matches Some(raw) && t.spec_dims()
                == raw.spec_dims() && t.spec_count() == raw.spec_count() && t.spec_data()
                == T::seq_of(raw.spec_elements()) && !t.spec_owned() && t.spec_handle() == Some(
                raw.spec_handle(),
            ) && final(self).spec_result() is None && final(self).spec_name() == old(self).spec_name()),
    {
        let kind_here = match &self.result {
            None => None,
            Some(raw) => Some(raw.kind()),
        };
        match kind_here {
            None => Err(Error::NotReady),
            Some(k) => {
                if k != T::kind() {
                    Err(Error::TypeMismatch { expected: T::kind(), actual: k })
                } else {
                    let mut slot: Option<RawTensor> = None;
                    core::mem::swap(&mut self.result, &mut slot);
                    match slot {
                        Some(raw) => match Tensor::<T>::from_raw(raw) {
                            Ok(t) => Ok(t),
                            Err((unconsumed, e)) => {
                                // ruled out by the type check above
                                self.result = Some(unconsumed);
                                Err(e)
                            },
                        },
                        None => Err(Error::NotReady),  // ruled out: the slot was checked
                    }
                }
            },
        }
    }

    /// Give the output up, keeping the handle of an unextracted result (if
    /// any) for the embedder to release.
    pub fn release(self) -> (h: Option<Handle>)
        ensures
            h == (match self.spec_result() {
                Some(raw) => Some(raw.spec_handle()),
                None => None::<Handle>,
            }),
    {
        let Output { name: _, result } = self;
        match result {
            Some(raw) => Some(raw.release()),
            None => None,
        }
    }
}

impl Target {
    /// The engine-interpreted node name.
    pub closed spec fn spec_name(&self) -> Seq<char> {
        self.name@
    }

    /// Create a target.
    pub fn new(name: &str) -> (t: Target)
        ensures
            t.spec_name() == name@,
    {
        Target { name: name.to_owned() }
    }

    /// The node name.
    pub fn name(&self) -> (n: &String)
        ensures
            n@ == self.spec_name(),
    {
        &self.name
    }
}

/// Encode an endpoint name into the null-terminated byte form the engine's
/// calling convention expects. Name syntax is not validated — the engine
/// interprets names — and neither are interior zero bytes, which simply end
/// the name early on the engine's side, exactly as the bytes say.
pub fn name_bytes(name: &str) -> (r: Vec<u8>)
    ensures
        r@ == name.spec_bytes().push(0u8),
{
    let bytes = name.as_bytes();
    let n = bytes.len();
    let mut r: Vec<u8> = Vec::new();
    let mut i: usize = 0;
    while i < n
        invariant
            i <= n,
            n == name.spec_bytes().len(),
            bytes@ == name.spec_bytes(),
            r@ == name.spec_bytes().take(i as int),
        decreases n - i,
    {
        r.push(bytes[i]);
        proof {
            assert(name.spec_bytes().take(i + 1 as int) =~= name.spec_bytes().take(
                i as int,
            ).push(name.spec_bytes()[i as int]));
        }
        i = i + 1;
    }
    proof {
        assert(name.spec_bytes().take(n as int) =~= name.spec_bytes());
    }
    r.push(0);
    r
}

/// The name of the first input in the list that has no tensor bound, if any.
/// This is the input a refused run reports.
pub open spec fn spec_first_unbound(s: Seq<Input>) -> Option<Seq<char>>
    decreases s.len(),
{
    if s.len() == 0 {
        None
    } else if s[0].spec_tensor() is None {
        Some(s[0].spec_name())
    } else {
        spec_first_unbound(s.skip(1))
    }
}

proof fn lemma_first_unbound_at(s: Seq<Input>, i: int)
    requires
        0 <= i <= s.len(),
        forall|j: int| 0 <= j < i ==> s[j].spec_tensor() is Some,
    ensures
        i == s.len() ==> spec_first_unbound(s) is None,
        (i < s.len() && s[i].spec_tensor() is None) ==> spec_first_unbound(s) == Some(
            s[i].spec_name(),
        ),
    decreases i,
{
    if i > 0 {
        assert(forall|j: int| 0 <= j < i - 1 ==> s.skip(1)[j] == s[j + 1]);
        lemma_first_unbound_at(s.skip(1), i - 1);
        if i < s.len() && s[i].spec_tensor() is None {
            assert(s.skip(1)[i - 1] == s[i]);
        }
    }
}

/// A run proceeds past its up-front check exactly when every input has a
/// tensor bound: `spec_first_unbound` finds nothing if and only if no input
/// is unbound.
pub proof fn lemma_first_unbound_none(s: Seq<Input>)
    ensures
        (spec_first_unbound(s) is None) <==> (forall|i: int|
            0 <= i < s.len() ==> s[i].spec_tensor() is Some),
    decreases s.len(),
{
    if s.len() > 0 {
        lemma_first_unbound_none(s.skip(1));
        if spec_first_unbound(s) is None {
            assert forall|i: int| 0 <= i < s.len() implies s[i].spec_tensor() is Some by {
                if i > 0 {
                    assert(s.skip(1)[i - 1] == s[i]);
                }
            }
        }
        if forall|i: int| 0 <= i < s.len() ==> s[i].spec_tensor() is Some {
            assert forall|j: int|
                0 <= j < s.skip(1).len() implies s.skip(1)[j].spec_tensor() is Some by {
                assert(s.skip(1)[j] == s[j + 1]);
            }
        }
    }
}

/// The engine handles held by already-filled result slots, in order: what a
/// successful run displaces and must therefore release, so that each output
/// holds at most one live handle.
pub open spec fn spec_displaced(s: Seq<Output>) -> Seq<Handle>
    decreases s.len(),
{
    if s.len() == 0 {
        Seq::empty()
    } else {
        spec_displaced(s.drop_last()) + (match s.last().spec_result() {
            Some(raw) => seq![raw.spec_handle()],
            None => Seq::<Handle>::empty(),
        })
    }
}

/// One run invocation in flight: the validated request built from the
/// inputs, and the engine tensor handles acquired for it so far. The call
/// accounts for every handle it acquires; whichever way it ends, the handles
/// this side must release come back as an explicit list.
#[derive(Debug)]
pub struct RunCall {
    requests: Vec<TensorContent>,
    input_names: Vec<String>,
    acquired: Vec<Handle>,
    output_names: Vec<String>,
    target_names: Vec<String>,
    options: Option<Vec<u8>>,
}

impl RunCall {
    /// The tensor contents to be materialised, one per input, in order.
    pub closed spec fn spec_requests(&self) -> Seq<TensorContent> {
        self.requests@
    }

    /// The input endpoint names, in order.
    pub closed spec fn spec_input_names(&self) -> Seq<Seq<char>> {
        self.input_names@.map_values(|s: String| s@)
    }

    /// The handles acquired so far, in input order.
    pub closed spec fn spec_acquired(&self) -> Seq<Handle> {
        self.acquired@
    }

    /// The output endpoint names, in order.
    pub closed spec fn spec_output_names(&self) -> Seq<Seq<char>> {
        self.output_names@.map_values(|s: String| s@)
    }

    /// The target node names, in order.
    pub closed spec fn spec_target_names(&self) -> Seq<Seq<char>> {
        self.target_names@.map_values(|s: String| s@)
    }

    /// The run options payload, if one was supplied.
    pub closed spec fn spec_options(&self) -> Option<Seq<u8>> {
        match self.options {
            Some(v) => Some(v@),
            None => None,
        }
    }

    /// Whether every request has been granted a handle.
    pub open spec fn is_fully_granted(&self) -> bool {
        self.spec_acquired().len() == self.spec_requests().len()
    }

    /// The number of tensors the engine is asked to materialise.
    pub fn request_count(&self) -> (n: usize)
        ensures
            n == self.spec_requests().len(),
    {
        self.requests.len()
    }

    /// The number of handles granted so far.
    pub fn granted_count(&self) -> (n: usize)
        ensures
            n == self.spec_acquired().len(),
    {
        self.acquired.len()
    }

    /// The content the engine should materialise for input `i`.
    pub fn request(&self, i: usize) -> (c: &TensorContent)
        requires
            i < self.spec_requests().len(),
        ensures
            *c == self.spec_requests()[i as int],
    {
        &self.requests[i]
    }

    /// The input endpoint name paired with request `i`.
    pub fn input_name(&self, i: usize) -> (n: &String)
        requires
            i < self.spec_input_names().len(),
        ensures
            n@ == self.spec_input_names()[i as int],
    {
        &self.input_names[i]
    }

    /// The acquired handles, in input order.
    pub fn handles(&self) -> (h: &Vec<Handle>)
        ensures
            h@ == self.spec_acquired(),
    {
        &self.acquired
    }

    /// The number of output endpoints.
    pub fn output_count(&self) -> (n: usize)
        ensures
            n == self.spec_output_names().len(),
    {
        self.output_names.len()
    }

    /// The output endpoint name at position `i`.
    pub fn output_name(&self, i: usize) -> (n: &String)
        requires
            i < self.spec_output_names().len(),
        ensures
            n@ == self.spec_output_names()[i as int],
    {
        &self.output_names[i]
    }

    /// The number of target nodes.
    pub fn target_count(&self) -> (n: usize)
        ensures
            n == self.spec_target_names().len(),
    {
        self.target_names.len()
    }

    /// The target node name at position `i`.
    pub fn target_name(&self, i: usize) -> (n: &String)
        requires
            i < self.spec_target_names().len(),
        ensures
            n@ == self.spec_target_names()[i as int],
    {
        &self.target_names[i]
    }

    /// The run options payload, if one was supplied.
    pub fn options_bytes(&self) -> (o: Option<&Vec<u8>>)
        ensures
            (self.spec_options() is Some) == (o is Some),
            o matches Some(v) ==> Some(v@) == self.spec_options(),
    {
        match &self.options {
            Some(v) => Some(v),
            None => None,
        }
    }

    /// Record that the engine granted a handle for the next input, pairing
    /// it with its request by position.
    pub fn grant(&mut self, h: Handle)
        requires
            old(self).spec_acquired().len() < old(self).spec_requests().len(),
        ensures
            final(self).spec_acquired() == old(self).spec_acquired().push(h),
            final(self).spec_requests() == old(self).spec_requests(),
            final(self).spec_input_names() == old(self).spec_input_names(),
            final(self).spec_output_names() == old(self).spec_output_names(),
            final(self).spec_target_names() == old(self).spec_target_names(),
            final(self).spec_options() == old(self).spec_options(),
    {
        self.acquired.push(h);
    }

    /// Abandon the call because the engine refused an allocation: every
    /// handle acquired for this call comes back, so the embedder can release
    /// all of them before the error propagates. No handle leaks on partial
    /// failure.
    pub fn deny(self) -> (r: (Vec<Handle>, Error))
        ensures
            r.0@ == self.spec_acquired(),
            r.1 == Error::AllocationFailure,
    {
        let RunCall {
            requests: _,
            input_names: _,
            acquired,
            output_names: _,
            target_names: _,
            options: _,
        } = self;
        (acquired, Error::AllocationFailure)
    }
}

/// A live execution context, as far as this side can see it: the status
/// channel the engine writes after every call, and (as a ghost record) the
/// graph definitions appended so far. The engine's own context handle lives
/// with the embedder, which performs each foreign call and reports its
/// outcome here.
pub struct Session {
    status: Status,
    graph: Ghost<Seq<Seq<u8>>>,
}

impl Session {
    /// The status channel: the decoded outcome of the most recent call.
    pub closed spec fn spec_status(&self) -> Status {
        self.status
    }

    /// The graph definitions appended so far, in order.
    pub closed spec fn spec_graph(&self) -> Seq<Seq<u8>> {
        self.graph@
    }

    /// Create a session: nothing has been reported yet and no definition has
    /// been appended.
    pub fn new() -> (s: Session)
        ensures
            s.spec_status().code == Code::OK,
            s.spec_status().message@ == Seq::<char>::empty(),
            s.spec_graph() == Seq::<Seq<u8>>::empty(),
    {
        Session { status: Status::new(), graph: Ghost(Seq::empty()) }
    }

    /// The status channel.
    pub fn status(&self) -> (st: &Status)
        ensures
            *st == self.spec_status(),
    {
        &self.status
    }

    /// Append serialized graph nodes. The embedder passes the definition
    /// bytes to the engine verbatim and reports the outcome here; on success
    /// the definition joins the session's graph record, on failure the
    /// decoded engine error comes back and the record is untouched. Either
    /// way the status channel is overwritten.
    pub fn extend(&mut self, definition: &Definition, outcome: EngineStatus) -> (r: Result<
        (),
        Error,
    >)
        ensures
            final(self).spec_status().code == Code::spec_from_raw(outcome.code),
            final(self).spec_status().message == outcome.message,
            Code::spec_from_raw(outcome.code) == Code::OK ==> r == Ok::<(), Error>(()) && final(self).spec_graph() == old(self).spec_graph().push(definition.spec_bytes()),
            Code::spec_from_raw(outcome.code) != Code::OK ==> r == Err::<(), Error>(
                Error::EngineFailure {
                    code: Code::spec_from_raw(outcome.code),
                    message: outcome.message,
                },
            ) && final(self).spec_graph() == old(self).spec_graph(),
    {
        self.status.record(outcome);
        match Error::current(&self.status) {
            Some(e) => Err(e),
            None => {
                self.graph = Ghost(self.graph@.push(definition.spec_bytes()));
                Ok(())
            },
        }
    }

    /// Begin a run: the up-front check and the marshalling plan. If any
    /// input has no tensor bound, the run is refused with `UnboundInput`
    /// naming the first such input, and no request reaches the engine — no
    /// call object even exists. Otherwise the returned call carries, in
    /// order: one duplicated tensor content per input, the input names, the
    /// output and target name lists, and a copy of the options payload; no
    /// handle has been acquired yet. The session itself is untouched.
    pub fn run_begin(
        &self,
        inputs: &Vec<Input>,
        outputs: &Vec<Output>,
        targets: &Vec<Target>,
        options: Option<&Buffer>,
    ) -> (r: Result<RunCall, Error>)
        ensures
            spec_first_unbound(inputs@) matches Some(nm) ==> (r matches Err(e) && e matches
                Error::UnboundInput { name } && name@ == nm),
            spec_first_unbound(inputs@) is None ==> (r matches Ok(call) && call.spec_requests().len()
                == inputs@.len() && (forall|j: int|
                #![trigger call.spec_requests()[j]]
                0 <= j < inputs@.len() ==> (inputs@[j].spec_tensor() matches Some(a)
                    && a.matches_content(call.spec_requests()[j])))
                && call.spec_input_names().len() == inputs@.len() && (forall|j: int|
                #![auto]
                0 <= j < inputs@.len() ==> call.spec_input_names()[j] == inputs@[j].spec_name())
                && call.spec_acquired() == Seq::<Handle>::empty() && call.spec_output_names().len()
                == outputs@.len() && (forall|j: int|
                #![auto]
                0 <= j < outputs@.len() ==> call.spec_output_names()[j] == outputs@[j].spec_name())
                && call.spec_target_names().len() == targets@.len() && (forall|j: int|
                #![auto]
                0 <= j < targets@.len() ==> call.spec_target_names()[j] == targets@[j].spec_name())
                && (options matches Some(b) ==> call.spec_options() == Some(b.spec_bytes())) && (
            options is None ==> call.spec_options() is None)),
    {
        let n = inputs.len();
        let mut requests: Vec<TensorContent> = Vec::new();
        let mut input_names: Vec<String> = Vec::new();
        let mut i: usize = 0;
        while i < n
            invariant
                i <= n,
                n == inputs@.len(),
                forall|j: int| 0 <= j < i ==> inputs@[j].spec_tensor() is Some,
                requests@.len() == i as int,
                forall|j: int|
                    #![trigger requests@[j]]
                    0 <= j < i ==> (inputs@[j].spec_tensor() matches Some(a)
                        && a.matches_content(requests@[j])),
                input_names@.len() == i as int,
                forall|j: int| #![auto] 0 <= j < i ==> input_names@[j]@ == inputs@[j].spec_name(),
            decreases n - i,
        {
            let inp = &inputs[i];
            match &inp.tensor {
                None => {
                    proof {
                        lemma_first_unbound_at(inputs@, i as int);
                    }
                    return Err(Error::UnboundInput { name: inp.name.clone() });
                },
                Some(a) => {
                    requests.push(a.copy_raw());
                    input_names.push(inp.name.clone());
                },
            }
            i = i + 1;
        }
        proof {
            lemma_first_unbound_at(inputs@, n as int);
        }
        let no = outputs.len();
        let mut output_names: Vec<String> = Vec::new();
        let mut i: usize = 0;
        while i < no
            invariant
                i <= no,
                no == outputs@.len(),
                output_names@.len() == i as int,
                forall|j: int| #![auto] 0 <= j < i ==> output_names@[j]@ == outputs@[j].spec_name(),
            decreases no - i,
        {
            output_names.push(outputs[i].name.clone());
            i = i + 1;
        }
        let nt = targets.len();
        let mut target_names: Vec<String> = Vec::new();
        let mut i: usize = 0;
        while i < nt
            invariant
                i <= nt,
                nt == targets@.len(),
                target_names@.len() == i as int,
                forall|j: int| #![auto] 0 <= j < i ==> target_names@[j]@ == targets@[j].spec_name(),
            decreases nt - i,
        {
            target_names.push(targets[i].name.clone());
            i = i + 1;
        }
        let opts: Option<Vec<u8>> = match options {
            Some(b) => Some(dup_vec(b.as_bytes())),
            None => None,
        };
        Ok(
            RunCall {
                requests,
                input_names,
                acquired: Vec::new(),
                output_names,
                target_names,
                options: opts,
            },
        )
    }

    /// Finish a run with whatever the engine replied to the one batch
    /// execute call. The first component of the result is always the list of
    /// handles the embedder must now release.
    ///
    /// On failure the engine took ownership of nothing: every input handle
    /// this call acquired comes back for release, the outputs are untouched,
    /// and the decoded engine error is returned; the session stays usable.
    /// On success the engine consumed the input handles; each output adopts
    /// its result tensor, and any handle a slot still held from an earlier
    /// run is displaced into the release list, so each output holds at most
    /// one live handle. If the engine wrote run metadata, it comes back as a
    /// foreign buffer. Either way the status channel records the outcome.
    pub fn run_finish(
        &mut self,
        call: RunCall,
        outputs: &mut Vec<Output>,
        reply: RunReply,
    ) -> (r: (Vec<Handle>, Result<Option<Buffer>, Error>))
        requires
            call.is_fully_granted(),
            reply matches RunReply::Success { outputs: ro, .. } ==> ro@.len() == old(outputs)@.len(),
        ensures
            reply matches RunReply::Failure(es) ==> (r.0@ == call.spec_acquired() && r.1 == Err::<
                Option<Buffer>,
                Error,
            >(
                Error::EngineFailure {
                    code: Code::spec_from_raw(es.code),
                    message: es.message,
                },
            ) && final(outputs)@ == old(outputs)@ && final(self).spec_status().code
                == Code::spec_from_raw(es.code) && final(self).spec_status().message == es.message
                && final(self).spec_graph() == old(self).spec_graph()),
            reply matches RunReply::Success { outputs: ro, metadata } ==> (r.0@ == spec_displaced(
                old(outputs)@,
            ) && (r.1 matches Ok(mb) && (metadata matches Some(bytes) ==> mb matches Some(b)
                && b.spec_bytes() == bytes@ && !b.spec_owned()) && (metadata is None
                ==> mb is None)) && final(outputs)@.len() == old(outputs)@.len() && (forall|j: int|
                #![trigger final(outputs)@[j]]
                0 <= j < old(outputs)@.len() ==> final(outputs)@[j].spec_name() == old(outputs)@[j].spec_name() && final(outputs)@[j].spec_result() == Some(ro@[j])) && final(self).spec_status().code == Code::OK && final(self).spec_graph() == old(self).spec_graph()),
    {
        match reply {
            RunReply::Failure(es) => {
                let EngineStatus { code, message } = es;
                let reported = message.clone();
                self.status.record(EngineStatus { code, message });
                let err = Error::EngineFailure { code: Code::from_raw(code), message: reported };
                let RunCall {
                    requests: _,
                    input_names: _,
                    acquired,
                    output_names: _,
                    target_names: _,
                    options: _,
                } = call;
                (acquired, Err(err))
            },
            RunReply::Success { outputs: ro, metadata } => {
                self.status.record(EngineStatus::ok());
                let mut ro = ro;
                let ghost ro0: Seq<RawTensor> = ro@;
                let mut released: Vec<Handle> = Vec::new();
                let n = outputs.len();
                let mut i: usize = 0;
                while i < n
                    invariant
                        i <= n,
                        n == old(outputs)@.len(),
                        outputs@.len() == n,
                        ro0.len() == n,
                        ro@ == ro0.skip(i as int),
                        released@ == spec_displaced(old(outputs)@.take(i as int)),
                        forall|j: int|
                            #![trigger outputs@[j]]
                            i <= j < n ==> outputs@[j] == old(outputs)@[j],
                        forall|j: int|
                            #![trigger outputs@[j]]
                            0 <= j < i ==> outputs@[j].spec_name() == old(outputs)@[j].spec_name(),
                        forall|j: int|
                            #![trigger outputs@[j]]
                            0 <= j < i ==> outputs@[j].spec_result() == Some(ro0[j]),
                    decreases n - i,
                {
                    proof {
                        assert(old(outputs)@.take(i + 1 as int).drop_last() =~= old(outputs)@.take(i as int));
                        assert(old(outputs)@.take(i + 1 as int).last() == old(outputs)@[i as int]);
                        assert(ro0.skip(i as int)[0] == ro0[i as int]);
                    }
                    let fresh = ro.remove(0);
                    let mut slot = Output { name: String::new(), result: None };
                    outputs.set_and_swap(i, &mut slot);
                    let Output { name, result } = slot;
                    match result {
                        Some(old_raw) => {
                            released.push(old_raw.release());
                            proof {
                                assert(released@ =~= spec_displaced(old(outputs)@.take(i as int))
                                    + seq![old_raw.spec_handle()]);
                            }
                        },
                        None => {
                            proof {
                                assert(spec_displaced(old(outputs)@.take(i as int))
                                    + Seq::<Handle>::empty() =~= spec_displaced(
                                    old(outputs)@.take(i as int),
                                ));
                            }
                        },
                    }
                    outputs.set(i, Output { name, result: Some(fresh) });
                    proof {
                        assert(ro@ =~= ro0.skip(i + 1 as int));
                    }
                    i = i + 1;
                }
                proof {
                    assert(old(outputs)@.take(n as int) =~= old(outputs)@);
                }
                let meta = match metadata {
                    Some(bytes) => Some(Buffer::from_foreign(bytes)),
                    None => None,
                };
                let RunCall {
                    requests: _,
                    input_names: _,
                    acquired: _,
                    output_names: _,
                    target_names: _,
                    options: _,
                } = call;
                (released, Ok(meta))
            },
        }
    }
}

} // verus!
